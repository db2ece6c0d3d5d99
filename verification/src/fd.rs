//! Trusted wrappers around the OS-level descriptor calls of the `nix`
//! crate and around the monotonic clock. Everything that touches a file
//! descriptor goes through this module; the contracts state only what the
//! called functions document.

use vstd::prelude::*;

verus! {

use crate::pipe::CHUNK_SIZE;

use nix::fcntl::OFlag;
use nix::poll::{poll, PollFd, PollFlags};
use nix::sys::stat::Mode;

/// An OS failure from a descriptor call: the `errno` code, and whether it
/// was `EAGAIN` (the call would have blocked).
#[derive(Debug)]
pub(crate) struct FdError {
    pub code: i32,
    pub would_block: bool,
}

/// The readiness events one poll call reported for a descriptor.
pub(crate) struct PollEvents {
    /// Data can be read (input or priority band input is pending).
    pub readable: bool,
    /// Data can be written.
    pub writable: bool,
    /// The descriptor is in an error state.
    pub err: bool,
    /// The other end of the channel was closed.
    pub hup: bool,
}

#[verifier::external_type_specification]
#[verifier::external_body]
pub struct ExInstant(std::time::Instant);

/// Relies on std::time::Instant::now: an opaque reading of the monotonic
/// clock. Nothing can be promised of a clock value.
#[verifier::external_body]
pub(crate) fn instant_now() -> std::time::Instant
    opens_invariants none
    no_unwind
{
    std::time::Instant::now()
}

/// Relies on std::time::Instant::elapsed: the number of whole milliseconds
/// since `start` was taken. Nothing can be promised of a clock reading.
#[verifier::external_body]
pub(crate) fn elapsed_ms(start: &std::time::Instant) -> (r: u64)
    opens_invariants none
    no_unwind
{
    let ms = start.elapsed().as_millis();
    if ms > u64::MAX as u128 { u64::MAX } else { ms as u64 }
}

/// Relies on nix::unistd::mkfifo: creates a FIFO node at `path` with
/// owner/group/other rwx permission bits, or fails with the OS error.
#[verifier::external_body]
pub(crate) fn mkfifo_rwx(path: &String) -> (r: Result<(), FdError>)
    opens_invariants none
    no_unwind
{
    match nix::unistd::mkfifo(path.as_str(), Mode::S_IRWXU | Mode::S_IRWXG | Mode::S_IRWXO) {
        Ok(()) => Ok(()),
        Err(e) => {
            let c = e.as_errno();
            Err(FdError { code: c.map(|x| x as i32).unwrap_or(-1), would_block: c == Some(nix::errno::Errno::EAGAIN) })
        }
    }
}

/// Relies on nix::fcntl::open with O_RDWR: opens `path` for simultaneous
/// reading and writing and returns a non-negative descriptor, or fails
/// with the OS error.
#[verifier::external_body]
pub(crate) fn open_rdwr(path: &String) -> (r: Result<i32, FdError>)
    ensures
        r is Ok ==> r.unwrap() >= 0,
    opens_invariants none
    no_unwind
{
    let mode = Mode::S_IRWXU | Mode::S_IRWXG | Mode::S_IRWXO;
    match nix::fcntl::open(path.as_str(), nix::fcntl::OFlag::O_RDWR, mode) {
        Ok(fd) => Ok(fd),
        Err(e) => {
            let c = e.as_errno();
            Err(FdError { code: c.map(|x| x as i32).unwrap_or(-1), would_block: c == Some(nix::errno::Errno::EAGAIN) })
        }
    }
}

/// Relies on nix::fcntl::open with O_WRONLY|O_CREAT|O_TRUNC: creates or
/// truncates the regular file at `path` for writing and returns a
/// non-negative descriptor, or fails with the OS error.
#[verifier::external_body]
pub(crate) fn create_wronly(path: &String) -> (r: Result<i32, FdError>)
    ensures
        r is Ok ==> r.unwrap() >= 0,
    opens_invariants none
    no_unwind
{
    let mode = Mode::S_IRUSR | Mode::S_IWUSR | Mode::S_IRGRP | Mode::S_IROTH;
    match nix::fcntl::open(path.as_str(), OFlag::O_WRONLY | OFlag::O_CREAT | OFlag::O_TRUNC, mode) {
        Ok(fd) => Ok(fd),
        Err(e) => {
            let c = e.as_errno();
            Err(FdError { code: c.map(|x| x as i32).unwrap_or(-1), would_block: c == Some(nix::errno::Errno::EAGAIN) })
        }
    }
}

/// Relies on nix::unistd::close: closes the descriptor, or fails with the
/// OS error.
#[verifier::external_body]
pub(crate) fn fd_close(fd: i32) -> (r: Result<(), FdError>)
    opens_invariants none
    no_unwind
{
    match nix::unistd::close(fd) {
        Ok(()) => Ok(()),
        Err(e) => {
            let c = e.as_errno();
            Err(FdError { code: c.map(|x| x as i32).unwrap_or(-1), would_block: c == Some(nix::errno::Errno::EAGAIN) })
        }
    }
}

/// Relies on nix::unistd::unlink: removes the filesystem node at `path`,
/// or fails with the OS error.
#[verifier::external_body]
pub(crate) fn path_unlink(path: &String) -> (r: Result<(), FdError>)
    opens_invariants none
    no_unwind
{
    match nix::unistd::unlink(path.as_str()) {
        Ok(()) => Ok(()),
        Err(e) => {
            let c = e.as_errno();
            Err(FdError { code: c.map(|x| x as i32).unwrap_or(-1), would_block: c == Some(nix::errno::Errno::EAGAIN) })
        }
    }
}

/// Relies on nix::poll::poll on one descriptor: waits up to `timeout_ms`
/// milliseconds for readiness and reports how many descriptors are ready
/// (0 or 1, as poll documents) together with the returned events. When
/// `want_write` is set it asks for output readiness, otherwise for input,
/// priority-band input and hang-up. A negative `fd` makes poll ignore the
/// entry and simply wait out the timeout, as poll documents.
#[verifier::external_body]
pub(crate) fn poll_fd(fd: i32, want_write: bool, timeout_ms: i32) -> (r: Result<
    (i32, PollEvents),
    FdError,
>)
    ensures
        r is Ok ==> 0 <= r.unwrap().0 <= 1,
    opens_invariants none
    no_unwind
{
    let flags = if want_write { PollFlags::POLLOUT } else { PollFlags::POLLIN | PollFlags::POLLRDBAND | PollFlags::POLLHUP };
    let mut fds = [PollFd::new(fd, flags)];
    match poll(&mut fds, timeout_ms) {
        Ok(n) => {
            let ev = fds[0].revents().unwrap_or(PollFlags::empty());
            let readable = ev.intersects(PollFlags::POLLIN | PollFlags::POLLRDBAND);
            let writable = ev.intersects(PollFlags::POLLOUT);
            Ok((n, PollEvents { readable, writable, err: ev.intersects(PollFlags::POLLERR), hup: ev.intersects(PollFlags::POLLHUP) }))
        }
        Err(e) => {
            let c = e.as_errno();
            Err(FdError { code: c.map(|x| x as i32).unwrap_or(-1), would_block: c == Some(nix::errno::Errno::EAGAIN) })
        }
    }
}

/// Relies on nix::unistd::read: reads at most `CHUNK_SIZE` bytes from the
/// descriptor. The returned vector holds exactly the bytes that were read,
/// so it is no longer than `CHUNK_SIZE`; the OS decides its contents.
#[verifier::external_body]
pub(crate) fn fd_read_chunk(fd: i32) -> (r: Result<Vec<u8>, FdError>)
    ensures
        r is Ok ==> r.unwrap()@.len() <= CHUNK_SIZE,
    opens_invariants none
    no_unwind
{
    let mut buf = vec![0u8; CHUNK_SIZE];
    match nix::unistd::read(fd, buf.as_mut_slice()) {
        Ok(n) => {
            buf.truncate(n);
            Ok(buf)
        }
        Err(e) => {
            let c = e.as_errno();
            Err(FdError { code: c.map(|x| x as i32).unwrap_or(-1), would_block: c == Some(nix::errno::Errno::EAGAIN) })
        }
    }
}

/// Relies on nix::unistd::write: writes the buffer to the descriptor and
/// returns how many of its bytes were written, which write documents to be
/// at most the buffer's length.
#[verifier::external_body]
pub(crate) fn fd_write(fd: i32, buf: &[u8]) -> (r: Result<usize, FdError>)
    ensures
        r is Ok ==> r.unwrap() <= buf@.len(),
    opens_invariants none
    no_unwind
{
    match nix::unistd::write(fd, buf) {
        Ok(n) => Ok(n),
        Err(e) => {
            let c = e.as_errno();
            Err(FdError { code: c.map(|x| x as i32).unwrap_or(-1), would_block: c == Some(nix::errno::Errno::EAGAIN) })
        }
    }
}

} // verus!
