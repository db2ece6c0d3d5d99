//! The transport: a `Pipe` wraps one named pipe (FIFO) on the filesystem,
//! owns exactly one open descriptor, and offers poll-driven reading and
//! writing bounded by a wall-clock timeout in milliseconds.

use vstd::prelude::*;
use vstd::slice::slice_subrange;
use vstd::string::*;
use vstd::utf8::{decode_utf8, encode_utf8, length_of_first_scalar, pop_first_scalar, valid_utf8};

use crate::error::SubProcError;
use crate::fd::{
    elapsed_ms, fd_close, fd_read_chunk, fd_write, instant_now, mkfifo_rwx, open_rdwr,
    path_unlink, poll_fd,
};
use crate::strutil::utf8_to_string;

verus! {

/// Largest number of bytes moved by one descriptor read or write.
pub const CHUNK_SIZE: usize = 8192;

/// How long one poll slice waits, so that the surrounding loop can
/// re-check its wall-clock deadline.
pub(crate) const POLL_SLICE_MS: i32 = 50;

/// The errno code reported when poll flags the descriptor as being in an
/// error state (EPIPE, with its Linux value).
pub(crate) const EPIPE_CODE: i32 = 32;

/// A valid UTF-8 byte sequence decodes to at least one character when it
/// is not empty, and never to more characters than it has bytes.
proof fn lemma_decode_utf8_len(b: Seq<u8>)
    requires
        valid_utf8(b),
    ensures
        decode_utf8(b).len() <= b.len(),
        b.len() > 0 ==> decode_utf8(b).len() > 0,
    decreases b.len(),
{
    if b.len() > 0 {
        let k = length_of_first_scalar(b);
        assert(1 <= k <= b.len());
        assert(pop_first_scalar(b).len() == b.len() - k);
        lemma_decode_utf8_len(pop_first_scalar(b));
    }
}

/// One named pipe: the path of its FIFO node and the descriptor that was
/// opened on it. The descriptor is valid for I/O only between a
/// successful `open` and a call to `close`.
#[derive(Clone, Debug)]
pub struct Pipe {
    pub path: String,
    pub fd: i32,
}

impl Pipe {
    /// Create a FIFO node at `path` with liberal permission bits, then
    /// open it for simultaneous reading and writing.
    pub fn open(path: &str) -> (r: Result<Pipe, SubProcError>)
        ensures
            r matches Ok(p) ==> p.path@ == path@ && p.fd >= 0,
            r matches Err(e) ==> e is PipeError,
    {
        if let Err(e) = mkfifo_rwx(&String::from_str(path)) {
            return Err(SubProcError::PipeError(e.code));
        }
        match open_rdwr(&String::from_str(path)) {
            Ok(fd) => Ok(Pipe { path: String::from_str(path), fd }),
            Err(e) => Err(SubProcError::PipeError(e.code)),
        }
    }

    /// Close the descriptor, then best-effort unlink the FIFO node: an
    /// unlink failure is swallowed, only a failing descriptor close is
    /// reported.
    pub fn close(&self) -> (r: Result<(), SubProcError>)
        ensures
            r matches Err(e) ==> e is PipeError,
        opens_invariants none
        no_unwind
    {
        if let Err(e) = fd_close(self.fd) {
            return Err(SubProcError::PipeError(e.code));
        }
        let _ = path_unlink(&self.path);
        Ok(())
    }

    /// Poll the descriptor for readability within `timeout` milliseconds,
    /// reading chunks of at most `CHUNK_SIZE` bytes and decoding each
    /// chunk as UTF-8.
    ///
    /// With `read_all` unset the call returns as soon as one chunk was
    /// read, so the result holds at most `CHUNK_SIZE` characters. With
    /// `read_all` set it keeps reading while data remains ready and
    /// returns when no more data is immediately available: a hang-up or
    /// would-block with nothing accumulated keeps waiting for a late
    /// writer, one with data accumulated ends the read. `Ok(None)` means
    /// the whole timeout elapsed with zero bytes read.
    pub fn read(&self, timeout: u64, read_all: bool) -> (r: Result<Option<String>, SubProcError>)
        ensures
            r matches Ok(Some(s)) ==> s@.len() > 0,
            !read_all ==> (r matches Ok(Some(s)) ==> s@.len() <= CHUNK_SIZE),
            r matches Err(e) ==> e is PipeError || e is InvalidData,
    {
        let start = instant_now();
        let mut data_out: String = String::new();
        let mut got_bytes: bool = false;
        // The wall clock is the deadline that matters; the fuel only
        // bounds the number of poll slices, so the loop provably ends.
        let mut fuel: u64 = if timeout > u64::MAX - 2 { u64::MAX } else { timeout + 2 };
        loop
            invariant_except_break
                got_bytes ==> data_out@.len() > 0,
                !got_bytes ==> data_out@.len() == 0,
                !read_all ==> data_out@.len() == 0,
            ensures
                got_bytes ==> data_out@.len() > 0,
                !got_bytes ==> data_out@.len() == 0,
                !read_all ==> data_out@.len() <= CHUNK_SIZE,
            decreases fuel,
        {
            if fuel == 0 {
                break;
            }
            fuel = fuel - 1;
            if elapsed_ms(&start) >= timeout {
                break;
            }
            match poll_fd(self.fd, false, POLL_SLICE_MS) {
                Ok((n, ev)) => {
                    if n > 0 && ev.readable {
                        match fd_read_chunk(self.fd) {
                            Ok(chunk) => {
                                match utf8_to_string(chunk.as_slice()) {
                                    Some(piece) => {
                                        proof {
                                            lemma_decode_utf8_len(chunk@);
                                        }
                                        if chunk.len() > 0 {
                                            got_bytes = true;
                                        }
                                        data_out.append(piece.as_str());
                                        if !read_all {
                                            break;
                                        }
                                    }
                                    None => {
                                        return Err(SubProcError::InvalidData);
                                    }
                                }
                            }
                            Err(e) => {
                                if e.would_block {
                                    // No more data right now: keep waiting
                                    // when nothing was read, stop when
                                    // something was.
                                    if got_bytes {
                                        break;
                                    }
                                } else {
                                    return Err(SubProcError::PipeError(e.code));
                                }
                            }
                        }
                    } else if n > 0 && ev.err {
                        return Err(SubProcError::PipeError(EPIPE_CODE));
                    } else if n > 0 && ev.hup {
                        if got_bytes {
                            break;
                        }
                    } else {
                        // Nothing became ready during this slice.
                        if got_bytes {
                            break;
                        }
                    }
                }
                Err(e) => {
                    if e.would_block {
                        if got_bytes {
                            break;
                        }
                    } else {
                        return Err(SubProcError::PipeError(e.code));
                    }
                }
            }
        }
        if got_bytes {
            Ok(Some(data_out))
        } else {
            Ok(None)
        }
    }

    /// Poll the descriptor for writability and write `data` in chunks of
    /// at most `CHUNK_SIZE` bytes until the whole payload is written.
    /// `IoTimeout` is reported when a whole timeout window of `timeout`
    /// milliseconds passes during which not a single byte could be
    /// written; any partial progress starts a fresh window.
    pub fn write(&self, data: String, timeout: u64) -> (r: Result<(), SubProcError>)
        ensures
            data@.len() == 0 ==> r is Ok,
            r matches Err(e) ==> e is IoTimeout || e is PipeError,
    {
        let start = instant_now();
        let bytes: &[u8] = data.as_str().as_bytes();
        let total: usize = bytes.len();
        proof {
            if data@.len() == 0 {
                assert(encode_utf8(data@) =~= Seq::<u8>::empty());
            }
        }
        // The wall clock times the zero-progress window; the fuel, reset
        // by any progress, bounds the poll slices of one window, so the
        // loop provably ends.
        let fuel_init: u64 = if timeout > u64::MAX - 2 { u64::MAX } else { timeout + 2 };
        let mut written: usize = 0;
        let mut fuel: u64 = fuel_init;
        while written < total
            invariant
                written <= total,
                total == bytes@.len(),
                data@.len() == 0 ==> total == 0,
            decreases total - written, fuel,
        {
            let mut progressed = false;
            match poll_fd(self.fd, true, POLL_SLICE_MS) {
                Ok((_n, ev)) => {
                    if ev.writable {
                        let chunk_end = if total - written > CHUNK_SIZE {
                            written + CHUNK_SIZE
                        } else {
                            total
                        };
                        let part = slice_subrange(bytes, written, chunk_end);
                        match fd_write(self.fd, part) {
                            Ok(n) => {
                                written = written + n;
                                if n > 0 {
                                    progressed = true;
                                }
                            }
                            Err(e) => {
                                return Err(SubProcError::PipeError(e.code));
                            }
                        }
                    }
                }
                Err(e) => {
                    return Err(SubProcError::PipeError(e.code));
                }
            }
            if written == 0 && elapsed_ms(&start) >= timeout {
                return Err(SubProcError::IoTimeout);
            }
            if progressed {
                fuel = fuel_init;
            } else {
                if fuel == 0 {
                    return Err(SubProcError::IoTimeout);
                }
                fuel = fuel - 1;
            }
        }
        Ok(())
    }
}

} // verus!
