//! File helpers: writing lines of text to a file through descriptor
//! calls.

use vstd::prelude::*;
use vstd::slice::slice_subrange;
use vstd::string::*;

use crate::error::SubProcError;
use crate::fd::{create_wronly, fd_close, fd_write};

verus! {

/// Write `lines` to the file at `filename`, each line followed by a
/// newline; the file is created when missing and truncated otherwise. A
/// failing open or write is reported with its OS error code (a write that
/// makes no progress with code -1); closing is best-effort, as dropping
/// an open file would be.
pub fn write_lines(filename: &String, lines: Vec<String>) -> (r: Result<(), SubProcError>)
    ensures
        r matches Err(e) ==> e is PipeError,
{
    let fd = match create_wronly(filename) {
        Ok(fd) => fd,
        Err(e) => {
            return Err(SubProcError::PipeError(e.code));
        }
    };
    let mut i: usize = 0;
    while i < lines.len()
        invariant
            i <= lines@.len(),
        decreases lines@.len() - i,
    {
        let line = lines[i].clone().concat("\n");
        let bytes: &[u8] = line.as_str().as_bytes();
        let mut written: usize = 0;
        while written < bytes.len()
            invariant
                written <= bytes@.len(),
            decreases bytes@.len() - written,
        {
            match fd_write(fd, slice_subrange(bytes, written, bytes.len())) {
                Ok(n) => {
                    if n == 0 {
                        let _ = fd_close(fd);
                        return Err(SubProcError::PipeError(-1));
                    }
                    written = written + n;
                }
                Err(e) => {
                    let _ = fd_close(fd);
                    return Err(SubProcError::PipeError(e.code));
                }
            }
        }
        i = i + 1;
    }
    let _ = fd_close(fd);
    Ok(())
}

} // verus!
