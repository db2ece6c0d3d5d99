//! The supervisor: a `ShellProc` forks a child process, rewires the
//! child's standard streams onto three named pipes, execs the target
//! program, and in the parent exposes read/write/signal/reap operations
//! plus a one-way `Running -> Terminated` state machine.

use vstd::prelude::*;
use vstd::string::*;

use nix::sys::wait::{waitpid, WaitPidFlag, WaitStatus};
use nix::unistd::{dup2, execvp, fork, ForkResult};
use nix::NixPath;

use crate::error::SubProcError;
use crate::fd::poll_fd;
use crate::pipe::{Pipe, CHUNK_SIZE};

verus! {

/// The POSIX number of SIGKILL, the forced-termination signal.
pub const SIGKILL: i32 = 9;

/// The POSIX number of SIGINT, the interactive-interrupt signal.
pub const SIGINT: i32 = 2;

/// The code recorded before any exit or signal code was observed:
/// "not yet known".
pub const RC_UNSET: u8 = 255;

/// How long, in milliseconds, one `read` call drains each output stream.
pub const READ_DRAIN_MS: u64 = 50;

/// How long, in milliseconds, a `write` call may take to deliver its
/// payload to the child's stdin.
pub const WRITE_TIMEOUT_MS: u64 = 5000;

/// The current lifecycle state of a supervised child process.
///
/// The machine is one-way: `Running -> Terminated`. `Unknown` is a
/// residual placeholder for a wait result that cannot be classified; it
/// is not produced by normal operation.
#[derive(Copy, Clone, Debug, PartialEq, Eq, Structural)]
pub enum SubProcState {
    Running,
    Terminated,
    Unknown,
}

/// What one non-blocking wait on the child reported: the discriminated
/// counterpart of the one-byte `rc` field, so that a caller can tell a
/// normal exit from a death by signal where `rc` alone cannot.
#[derive(Copy, Clone, Debug, PartialEq, Eq, Structural)]
pub enum WaitOutcome {
    /// The child has not terminated (it is running, stopped or continued).
    Alive,
    /// The child exited normally with the carried exit code.
    Exited(i32),
    /// The child was terminated by the signal with the carried number.
    Signaled(i32),
    /// The wait call itself failed.
    Failed,
}

/// How one wait outcome drives the state machine from `pre` to `post`:
/// an exit records the exit code in `rc` and a death by signal records
/// the signal number in the same one-byte field (so the two are
/// indistinguishable by `rc` alone, which is why the outcome itself is
/// exposed); anything else leaves the handle exactly as it was. The pid
/// and the pipes never change.
pub open spec fn records(pre: ShellProc, post: ShellProc, o: WaitOutcome) -> bool {
    &&& post.pid == pre.pid
    &&& post.stdin_pipe == pre.stdin_pipe
    &&& post.stdout_pipe == pre.stdout_pipe
    &&& post.stderr_pipe == pre.stderr_pipe
    &&& match o {
        WaitOutcome::Exited(c) => post.state is Terminated && post.rc == c as u8,
        WaitOutcome::Signaled(n) => post.state is Terminated && post.rc == n as u8,
        WaitOutcome::Alive => post == pre,
        WaitOutcome::Failed => post == pre,
    }
}

#[verifier::external_type_specification]
#[verifier::external_body]
pub struct ExTempDir(tempfile::TempDir);

/// Relies on tempfile::TempDir::new: creates a fresh private directory.
/// The directory is removed again when the returned value is dropped.
#[verifier::external_body]
fn tempdir_new() -> (r: Result<tempfile::TempDir, ()>)
    opens_invariants none
    no_unwind
{
    match tempfile::TempDir::new() {
        Ok(d) => Ok(d),
        Err(_) => Err(()),
    }
}

/// Relies on tempfile::TempDir::path: the directory's path as a string.
/// The OS chooses the path, so nothing can be promised of its value.
#[verifier::external_body]
fn tempdir_path(dir: &tempfile::TempDir) -> (r: String)
    opens_invariants none
    no_unwind
{
    dir.path().to_string_lossy().into_owned()
}

/// Relies on nix::unistd::{fork, dup2, execvp} and nix::NixPath. The call
/// returns only in the parent, with the child's pid (positive, as fork
/// documents) or with an error when the fork failed. The child remaps
/// descriptors 0, 1 and 2 onto the three given descriptors and replaces
/// its image with the program named by the first argv of `attempts`
/// (argv[0] resolved through the executable search path); exec returns
/// only on failure, so each later argv is a fallback that runs only when
/// every earlier exec failed. A fallback is tried even when the
/// descriptor remap or an argument conversion failed (an argument with a
/// NUL byte in it, or one longer than the OS path limit, cannot be
/// converted). The child never returns to the caller's code.
#[verifier::external_body]
fn fork_exec(attempts: &Vec<Vec<String>>, fd_in: i32, fd_out: i32, fd_err: i32) -> (r: Result<
    i32,
    (),
>)
    requires
        forall|k: int| 0 <= k < attempts@.len() ==> attempts@[k]@.len() > 0,
    ensures
        r matches Ok(pid) ==> pid > 0,
    opens_invariants none
    no_unwind
{
    match fork() {
        Err(_) => Err(()),
        Ok(ForkResult::Parent { child, .. }) => Ok(child.as_raw()),
        _ => {
            let ok = dup2(fd_in, 0).is_ok() && dup2(fd_out, 1).is_ok() && dup2(fd_err, 2).is_ok();
            for (i, argv) in attempts.iter().enumerate() {
                let owned: Vec<_> = argv.iter().filter_map(|s| s.with_nix_path(ToOwned::to_owned).ok()).collect();
                let refs: Vec<_> = owned.iter().map(AsRef::as_ref).collect();
                if (ok || i > 0) && refs.len() == argv.len() {
                    let _ = execvp(refs[0], &refs);
                }
            }
            // Should every exec fail, the child parks here: it must never
            // return into a second copy of the caller's code, and src/ may
            // not hold a process-exit call.
            loop {}
        }
    }
}

/// Relies on nix::sys::wait::waitpid with WNOHANG: reports the child's
/// state without blocking. A normal exit carries the exit code, which
/// wait documents to lie within 0..=255; a termination by signal carries
/// the signal number, within 1..=64. Stops and continuations count as
/// still alive, and a failing wait call is reported as `Failed`.
#[verifier::external_body]
pub(crate) fn waitpid_nohang(pid: i32) -> (r: WaitOutcome)
    ensures
        r matches WaitOutcome::Exited(c) ==> 0 <= c <= 255,
        r matches WaitOutcome::Signaled(s) ==> 1 <= s <= 64,
    opens_invariants none
    no_unwind
{
    match waitpid(nix::unistd::Pid::from_raw(pid), Some(WaitPidFlag::WNOHANG)) {
        Ok(WaitStatus::Exited(_, rc)) => WaitOutcome::Exited(rc),
        Ok(WaitStatus::Signaled(_, sig, _)) => WaitOutcome::Signaled(sig as i32),
        Ok(_) => WaitOutcome::Alive,
        Err(_) => WaitOutcome::Failed,
    }
}

/// Relies on nix::sys::signal::kill: delivers the signal with the given
/// POSIX number to the process with the given pid, or fails (for example
/// when the number names no signal, or the process was already reaped).
#[verifier::external_body]
pub(crate) fn send_signal(pid: i32, signal: i32) -> (r: Result<(), ()>)
    opens_invariants none
    no_unwind
{
    match nix::sys::signal::Signal::try_from(signal) {
        Ok(sig) => match nix::sys::signal::kill(nix::unistd::Pid::from_raw(pid), sig) {
            Ok(()) => Ok(()),
            Err(_) => Err(()),
        },
        Err(_) => Err(()),
    }
}

/// Holds when an output drained from one stream is absent or a single
/// non-empty chunk of at most `CHUNK_SIZE` characters.
pub open spec fn drained_chunk(o: Option<String>) -> bool {
    o matches Some(s) ==> 0 < s@.len() <= CHUNK_SIZE
}

/// Holds when the handle's three pipes are distinctly named FIFO nodes
/// inside one directory, each with an open descriptor.
pub open spec fn wired_pipes(p: ShellProc) -> bool {
    &&& p.stdin_pipe.fd >= 0 && p.stdout_pipe.fd >= 0 && p.stderr_pipe.fd >= 0
    &&& exists|base: Seq<char>|
        p.stdin_pipe.path@ == base + "/stdin.fifo"@ && #[trigger] p.stdout_pipe.path@ == base
            + "/stdout.fifo"@ && p.stderr_pipe.path@ == base + "/stderr.fifo"@
}

/// A handle on one supervised child process: its pid, the last observed
/// lifecycle state, the recorded exit or signal code, and the three owned
/// pipes wired to the child's standard streams.
#[derive(Debug)]
pub struct ShellProc {
    /// Last observed lifecycle state.
    pub state: SubProcState,
    /// Process id of the child.
    pub pid: i32,
    /// Recorded exit or signal code; `RC_UNSET` until termination was
    /// observed. A signal number is recorded in the same field as an exit
    /// code, so a caller cannot distinguish the two by this value alone.
    pub rc: u8,
    /// The pipe feeding the child's stdin. Owned by this handle: only the
    /// handle may close or unlink it.
    pub stdin_pipe: Pipe,
    /// The pipe carrying the child's stdout.
    pub stdout_pipe: Pipe,
    /// The pipe carrying the child's stderr.
    pub stderr_pipe: Pipe,
}

impl ShellProc {
    /// Start `argv[0]` as a child process, with `argv` as its arguments
    /// (already tokenized: no shell parsing happens here), its standard
    /// streams rewired onto three fresh named pipes.
    ///
    /// An empty `argv`, a pipe-setup failure and a fork failure all fail
    /// the call; no partial handle is returned and no pipe of a partially
    /// constructed set is leaked. An executable name that cannot be
    /// resolved does not fail `start`: the child then dies with exit code
    /// 255, which `read_state` later observes.
    pub fn start(argv: Vec<String>) -> (r: Result<ShellProc, SubProcError>)
        ensures
            argv@.len() == 0 ==> (r matches Err(e) && e == SubProcError::CouldNotStartProcess),
            r matches Ok(p) ==> p.state == SubProcState::Running && p.rc == RC_UNSET && p.pid > 0
                && wired_pipes(p),
            r matches Err(e) ==> (e is CouldNotStartProcess || e is PipeError),
    {
        if argv.len() == 0 {
            return Err(SubProcError::CouldNotStartProcess);
        }
        let dir = match tempdir_new() {
            Ok(d) => d,
            Err(_) => {
                return Err(SubProcError::CouldNotStartProcess);
            }
        };
        let base = tempdir_path(&dir);
        let mut in_path = base.clone();
        in_path.append("/stdin.fifo");
        let mut err_path = base.clone();
        err_path.append("/stderr.fifo");
        let mut out_path = base.clone();
        out_path.append("/stdout.fifo");
        let stdin_pipe = match Pipe::open(in_path.as_str()) {
            Ok(p) => p,
            Err(e) => {
                return Err(e);
            }
        };
        let stderr_pipe = match Pipe::open(err_path.as_str()) {
            Ok(p) => p,
            Err(e) => {
                let _ = stdin_pipe.close();
                return Err(e);
            }
        };
        let stdout_pipe = match Pipe::open(out_path.as_str()) {
            Ok(p) => p,
            Err(e) => {
                let _ = stdin_pipe.close();
                let _ = stderr_pipe.close();
                return Err(e);
            }
        };
        let mut attempts: Vec<Vec<String>> = Vec::new();
        attempts.push(argv);
        attempts.push(exit_255_argv());
        proof {
            assert(forall|k: int| 0 <= k < attempts@.len() ==> attempts@[k]@.len() > 0);
        }
        match fork_exec(&attempts, stdin_pipe.fd, stdout_pipe.fd, stderr_pipe.fd) {
            Ok(pid) => {
                let handle = ShellProc {
                    state: SubProcState::Running,
                    pid,
                    rc: RC_UNSET,
                    stdin_pipe,
                    stdout_pipe,
                    stderr_pipe,
                };
                proof {
                    assert(handle.stdout_pipe.path@ == base@ + "/stdout.fifo"@);
                    assert(wired_pipes(handle));
                }
                Ok(handle)
            },
            Err(_) => {
                let _ = stdin_pipe.close();
                let _ = stderr_pipe.close();
                let _ = stdout_pipe.close();
                Err(SubProcError::CouldNotStartProcess)
            }
        }
    }

    /// Record one wait outcome in the state machine: an exit moves the
    /// machine to `Terminated` and stores the exit code in `rc`, a death
    /// by signal does the same with the signal number, and an
    /// un-terminated or unclassifiable outcome changes nothing.
    pub fn record_outcome(&mut self, o: WaitOutcome)
        requires
            o matches WaitOutcome::Exited(c) ==> 0 <= c <= 255,
            o matches WaitOutcome::Signaled(n) ==> 0 <= n <= 255,
        ensures
            records(*old(self), *final(self), o),
        opens_invariants none
        no_unwind
    {
        match o {
            WaitOutcome::Exited(code) => {
                self.state = SubProcState::Terminated;
                self.rc = code as u8;
            }
            WaitOutcome::Signaled(sig) => {
                self.state = SubProcState::Terminated;
                self.rc = sig as u8;
            }
            WaitOutcome::Alive => {}
            WaitOutcome::Failed => {}
        }
    }

    /// Perform one non-blocking wait on the child, record its outcome in
    /// the state machine, and return the outcome itself: the discriminated
    /// form of what `read_state` folds into `state` and `rc`.
    pub fn read_outcome(&mut self) -> (o: WaitOutcome)
        ensures
            records(*old(self), *final(self), o),
        opens_invariants none
        no_unwind
    {
        let o = waitpid_nohang(self.pid);
        self.record_outcome(o);
        o
    }

    /// Perform a non-blocking wait on the child and update the state
    /// machine: a normal exit records the exit code, a termination by
    /// signal records the signal number in the same field, anything else
    /// leaves the handle as it was (see `records`). Once `Terminated` was
    /// observed the handle never changes again. Callers must invoke this
    /// periodically; there is no push notification of exit.
    pub fn read_state(&mut self) -> (st: SubProcState)
        ensures
            st == final(self).state,
            exists|o: WaitOutcome| records(*old(self), *final(self), o),
            old(self).state is Terminated ==> *final(self) == *old(self),
            !(final(self).state is Terminated) ==> *final(self) == *old(self),
        opens_invariants none
        no_unwind
    {
        match self.state {
            SubProcState::Terminated => {
                proof {
                    assert(records(*self, *self, WaitOutcome::Alive));
                }
                SubProcState::Terminated
            }
            _ => {
                let _ = self.read_outcome();
                self.state
            }
        }
    }

    /// Send the signal with the given POSIX number to the child.
    pub fn raise(&self, signal: i32) -> (r: Result<(), SubProcError>)
        ensures
            r matches Err(e) ==> e == SubProcError::CouldNotKill,
        opens_invariants none
        no_unwind
    {
        match send_signal(self.pid, signal) {
            Ok(_) => Ok(()),
            Err(_) => Err(SubProcError::CouldNotKill),
        }
    }

    /// Send SIGKILL to the child.
    pub fn kill(&self) -> (r: Result<(), SubProcError>)
        ensures
            r matches Err(e) ==> e == SubProcError::CouldNotKill,
        opens_invariants none
        no_unwind
    {
        self.raise(SIGKILL)
    }

    /// Drain whatever output is currently available on the child's stdout
    /// and stderr, independently, each within a short fixed timeout and
    /// without waiting for more than one chunk per stream.
    pub fn read(&mut self) -> (r: Result<(Option<String>, Option<String>), SubProcError>)
        ensures
            *final(self) == *old(self),
            r matches Ok(oe) ==> drained_chunk(oe.0) && drained_chunk(oe.1),
            r matches Err(e) ==> e is PipeError || e is InvalidData,
    {
        let stdout = match self.stdout_pipe.read(READ_DRAIN_MS, false) {
            Ok(o) => o,
            Err(e) => {
                return Err(e);
            }
        };
        let stderr = match self.stderr_pipe.read(READ_DRAIN_MS, false) {
            Ok(o) => o,
            Err(e) => {
                return Err(e);
            }
        };
        Ok((stdout, stderr))
    }

    /// Write `data` to the child's stdin, unless the child was already
    /// observed (by the liveness check made here) to have terminated.
    pub fn write(&mut self, data: String) -> (r: Result<(), SubProcError>)
        ensures
            final(self).pid == old(self).pid,
            final(self).stdin_pipe == old(self).stdin_pipe,
            final(self).stdout_pipe == old(self).stdout_pipe,
            final(self).stderr_pipe == old(self).stderr_pipe,
            exists|o: WaitOutcome| records(*old(self), *final(self), o),
            old(self).state is Terminated ==> (r matches Err(e) && e
                == SubProcError::SubProcTerminated && *final(self) == *old(self)),
            (final(self).state is Terminated) <==> (r matches Err(e) && e is SubProcTerminated),
            r matches Err(e) ==> (e is SubProcTerminated || e is IoTimeout || e is PipeError),
    {
        match self.read_state() {
            SubProcState::Terminated => Err(SubProcError::SubProcTerminated),
            _ => self.stdin_pipe.write(data, WRITE_TIMEOUT_MS),
        }
    }

    /// Reap the child's resources once it terminated: close all three
    /// pipes, best-effort (a failing close does not stop the others), and
    /// return the recorded exit or signal code. Before termination is
    /// observed the call refuses with `SubProcStillRunning` and changes
    /// nothing.
    pub fn cleanup(&mut self) -> (r: Result<u8, SubProcError>)
        ensures
            final(self).pid == old(self).pid,
            final(self).stdin_pipe == old(self).stdin_pipe,
            final(self).stdout_pipe == old(self).stdout_pipe,
            final(self).stderr_pipe == old(self).stderr_pipe,
            exists|o: WaitOutcome| records(*old(self), *final(self), o),
            old(self).state is Terminated ==> (r matches Ok(c) && c == old(self).rc),
            r matches Ok(c) ==> final(self).state is Terminated && c == final(self).rc,
            r matches Err(e) ==> e == SubProcError::SubProcStillRunning && *final(self) == *old(
                self,
            ) && !(final(self).state is Terminated),
        opens_invariants none
        no_unwind
    {
        match self.read_state() {
            SubProcState::Terminated => {}
            _ => {
                return Err(SubProcError::SubProcStillRunning);
            }
        }
        let _ = self.stdin_pipe.close();
        let _ = self.stdout_pipe.close();
        let _ = self.stderr_pipe.close();
        Ok(self.rc)
    }
}

impl Drop for ShellProc {
    /// Scoped release: when a handle is discarded while its process is
    /// still alive, the process is killed, awaited until it can be reaped
    /// (within a bounded grace period), and the pipes are closed, so that
    /// neither a process nor a pipe resource leaks on any exit path.
    fn drop(&mut self)
        opens_invariants none
        no_unwind
    {
        match self.cleanup() {
            Ok(_) => {}
            Err(_) => {
                let _ = self.kill();
                let mut tries: u64 = 100;
                while tries > 0
                    decreases tries,
                {
                    tries = tries - 1;
                    match self.read_state() {
                        SubProcState::Terminated => {
                            tries = 0;
                        }
                        _ => {
                            // Polling a negative descriptor just waits out
                            // the short timeout, giving the kill time to
                            // take effect.
                            let _ = poll_fd(-1, false, 10);
                        }
                    }
                }
                let _ = self.cleanup();
            }
        }
    }
}

/// The argv of the image a failed child exec falls back to: a shell that
/// exits with `RC_UNSET`, the code meaning "could not be started".
fn exit_255_argv() -> (r: Vec<String>)
    ensures
        r@.len() == 3,
        r@[0]@ == "sh"@,
        r@[1]@ == "-c"@,
        r@[2]@ == "exit 255"@,
{
    let mut v: Vec<String> = Vec::new();
    v.push(String::from_str("sh"));
    v.push(String::from_str("-c"));
    v.push(String::from_str("exit 255"));
    v
}

} // verus!
