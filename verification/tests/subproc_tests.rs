use subproc::error::SubProcError;
use subproc::pipe::Pipe;
use subproc::subproc::{ShellProc, SubProcState, WaitOutcome, SIGINT};

/// Block for about `ms` milliseconds by waiting out the timeout of a read
/// on a fresh pipe nothing writes to.
fn grace(ms: u64) {
    let tmpdir: tempfile::TempDir = tempfile::TempDir::new().unwrap();
    let path = format!("{}/grace.fifo", tmpdir.path().to_str().unwrap());
    let pipe = Pipe::open(&path).unwrap();
    let _ = pipe.read(ms, false);
    let _ = pipe.close();
}

#[test]
fn test_process_start_stop() {
    let mut shell_proc: ShellProc = ShellProc::start(vec![String::from("sh")]).unwrap();
    assert_eq!(shell_proc.state, SubProcState::Running);
    assert_ne!(shell_proc.pid, 0);
    assert_eq!(shell_proc.rc, 255);
    // Verify the shell is still running.
    grace(500);
    assert_eq!(shell_proc.read_state(), SubProcState::Running);
    // Stop the process.
    assert!(shell_proc.kill().is_ok());
    grace(500);
    assert_eq!(shell_proc.read_state(), SubProcState::Terminated);
    // The recorded code should be the SIGKILL number.
    assert_eq!(shell_proc.state, SubProcState::Terminated);
    assert_eq!(shell_proc.rc, 9);
    assert!(shell_proc.cleanup().is_ok());
}

#[test]
fn test_process_start_error() {
    let mut shell_proc: ShellProc = ShellProc::start(vec![String::from("piroporopero")]).unwrap();
    // The child could not exec, so it should have died with code 255.
    grace(1000);
    assert_eq!(shell_proc.read_state(), SubProcState::Terminated);
    assert_eq!(shell_proc.rc, 255);
}

#[test]
fn test_process_raise() {
    let mut shell_proc: ShellProc = ShellProc::start(vec![String::from("sh")]).unwrap();
    grace(500);
    assert_eq!(shell_proc.read_state(), SubProcState::Running);
    // Send SIGINT; the recorded code should be the signal number.
    assert!(shell_proc.raise(SIGINT).is_ok());
    grace(500);
    assert_eq!(shell_proc.read_state(), SubProcState::Terminated);
    assert_eq!(shell_proc.rc, 2);
}

#[test]
fn test_process_empty_argv() {
    assert_eq!(
        ShellProc::start(Vec::new()).err(),
        Some(SubProcError::CouldNotStartProcess)
    );
}

#[test]
fn test_process_echo_round_trip() {
    let mut shell_proc: ShellProc = ShellProc::start(vec![String::from("cat")]).unwrap();
    grace(300);
    assert!(shell_proc.write(String::from("HELLO\n")).is_ok());
    grace(300);
    // Reading back everything that is available returns exactly what was
    // written into the counterpart's stdin.
    let out = shell_proc.stdout_pipe.read(2000, true).unwrap();
    assert_eq!(out.unwrap(), String::from("HELLO\n"));
    assert!(shell_proc.kill().is_ok());
}

#[test]
fn test_process_drained_read() {
    let mut shell_proc: ShellProc = ShellProc::start(vec![String::from("cat")]).unwrap();
    grace(300);
    assert!(shell_proc.write(String::from("ping\n")).is_ok());
    grace(300);
    let (stdout, stderr) = shell_proc.read().unwrap();
    assert_eq!(stdout.unwrap(), String::from("ping\n"));
    assert!(stderr.is_none());
    assert!(shell_proc.kill().is_ok());
}

#[test]
fn test_process_cleanup_before_and_after_termination() {
    let mut shell_proc: ShellProc = ShellProc::start(vec![String::from("sh")]).unwrap();
    grace(300);
    // Before termination, cleanup refuses.
    assert_eq!(shell_proc.cleanup().err(), Some(SubProcError::SubProcStillRunning));
    // After termination, it returns the recorded code.
    assert!(shell_proc.kill().is_ok());
    grace(500);
    assert_eq!(shell_proc.read_state(), SubProcState::Terminated);
    assert_eq!(shell_proc.cleanup().ok(), Some(9));
}

#[test]
fn test_process_write_after_termination() {
    let mut shell_proc: ShellProc = ShellProc::start(vec![String::from("sh")]).unwrap();
    grace(300);
    assert!(shell_proc.kill().is_ok());
    grace(500);
    assert_eq!(
        shell_proc.write(String::from("echo hi\n")).err(),
        Some(SubProcError::SubProcTerminated)
    );
}

#[test]
fn test_process_raise_after_reap() {
    let mut shell_proc: ShellProc = ShellProc::start(vec![String::from("sh")]).unwrap();
    grace(300);
    assert!(shell_proc.kill().is_ok());
    grace(500);
    assert_eq!(shell_proc.read_state(), SubProcState::Terminated);
    assert_eq!(shell_proc.cleanup().ok(), Some(9));
    // The child was reaped, so signal delivery fails.
    assert_eq!(shell_proc.kill().err(), Some(SubProcError::CouldNotKill));
}

#[test]
fn test_record_outcome_mapping() {
    let mut shell_proc: ShellProc = ShellProc::start(vec![String::from("sh")]).unwrap();
    let pid = shell_proc.pid;
    // An exit outcome records its code and terminates the machine.
    shell_proc.record_outcome(WaitOutcome::Exited(7));
    assert_eq!(shell_proc.state, SubProcState::Terminated);
    assert_eq!(shell_proc.rc, 7);
    // A non-terminating outcome changes nothing.
    shell_proc.record_outcome(WaitOutcome::Alive);
    assert_eq!(shell_proc.rc, 7);
    shell_proc.record_outcome(WaitOutcome::Failed);
    assert_eq!(shell_proc.state, SubProcState::Terminated);
    // A signal outcome records the signal number in the same field.
    shell_proc.record_outcome(WaitOutcome::Signaled(2));
    assert_eq!(shell_proc.rc, 2);
    // The machine was driven by hand, so kill and reap the real child
    // directly before the handle is discarded.
    let _ = nix::sys::signal::kill(
        nix::unistd::Pid::from_raw(pid),
        nix::sys::signal::Signal::SIGKILL,
    );
    let _ = nix::sys::wait::waitpid(nix::unistd::Pid::from_raw(pid), None);
}

#[test]
fn test_read_outcome_discriminates() {
    let mut shell_proc: ShellProc = ShellProc::start(vec![String::from("sh")]).unwrap();
    grace(500);
    assert_eq!(shell_proc.read_outcome(), WaitOutcome::Alive);
    assert!(shell_proc.kill().is_ok());
    grace(500);
    // Unlike `rc`, the outcome distinguishes a death by signal from an
    // exit with the same number.
    assert_eq!(shell_proc.read_outcome(), WaitOutcome::Signaled(9));
    assert_eq!(shell_proc.state, SubProcState::Terminated);
    assert_eq!(shell_proc.rc, 9);
    assert_eq!(shell_proc.cleanup().ok(), Some(9));
}

#[test]
fn test_process_drop_kills_and_reaps() {
    let pid: i32;
    {
        let mut shell_proc: ShellProc = ShellProc::start(vec![String::from("sh")]).unwrap();
        pid = shell_proc.pid;
        grace(500);
        assert_eq!(shell_proc.read_state(), SubProcState::Running);
        // The handle goes out of scope while the process is alive.
    }
    // By the time the discard completes, the OS process is terminated and
    // reaped: no process with that pid remains, not even a zombie.
    let probe = nix::sys::signal::kill(nix::unistd::Pid::from_raw(pid), None);
    assert!(probe.is_err());
}
