use subproc::error::SubProcError;
use subproc::pipe::Pipe;

fn tmp_fifo_path(dir: &tempfile::TempDir, name: &str) -> String {
    format!("{}/{}", dir.path().to_str().unwrap(), name)
}

#[test]
fn test_pipe_open_close() {
    let tmpdir: tempfile::TempDir = tempfile::TempDir::new().unwrap();
    let pipe_path: String = tmp_fifo_path(&tmpdir, "test.fifo");
    let pipe: Result<Pipe, SubProcError> = Pipe::open(&pipe_path);
    assert!(pipe.is_ok(), "Pipe ({}) should be OK, but is {:?}", pipe_path, pipe);
    let pipe: Pipe = pipe.unwrap();
    assert_eq!(pipe.path, pipe_path);
    assert!(pipe.fd > 0);
    assert!(pipe.close().is_ok());
}

#[test]
fn test_pipe_io() {
    let tmpdir: tempfile::TempDir = tempfile::TempDir::new().unwrap();
    let pipe_path: String = tmp_fifo_path(&tmpdir, "stdout.fifo");
    let pipe: Result<Pipe, SubProcError> = Pipe::open(&pipe_path);
    assert!(pipe.is_ok(), "Pipe ({}) should be OK, but is {:?}", pipe_path, pipe);
    let pipe: Pipe = pipe.unwrap();
    // The pipe is open for both reading and writing, so what is written
    // into it can be read back from it.
    assert!(pipe.write(String::from("HELLO\n"), 1000).is_ok(), "Write timeout");
    let read: Result<Option<String>, SubProcError> = pipe.read(1000, true);
    assert!(read.is_ok(), "Read should be Ok, but is {:?}", read);
    let read: Option<String> = read.unwrap();
    assert_eq!(read.unwrap(), String::from("HELLO\n"));
    assert!(pipe.write(String::from("HI THERE\n"), 1000).is_ok());
    let read: Result<Option<String>, SubProcError> = pipe.read(1000, true);
    assert_eq!(read.unwrap().unwrap(), String::from("HI THERE\n"));
    assert!(pipe.close().is_ok());
}

#[test]
fn test_pipe_read_all() {
    let tmpdir: tempfile::TempDir = tempfile::TempDir::new().unwrap();
    let pipe_path: String = tmp_fifo_path(&tmpdir, "stdout.fifo");
    let pipe: Result<Pipe, SubProcError> = Pipe::open(&pipe_path);
    assert!(pipe.is_ok(), "Pipe ({}) should be OK, but is {:?}", pipe_path, pipe);
    let pipe: Pipe = pipe.unwrap();
    let mut data: String = String::with_capacity(10240);
    for _ in 0..10240 {
        data.push('c');
    }
    // Write 10240 bytes; read all (10240 bytes should be read).
    assert!(pipe.write(data.clone(), 1000).is_ok());
    assert_eq!(pipe.read(500, true).unwrap().unwrap().len(), 10240);
    // Write again; with read all unset, only 8192 bytes should be read.
    assert!(pipe.write(data, 1000).is_ok());
    assert_eq!(pipe.read(500, false).unwrap().unwrap().len(), 8192);
    // Now finish to read.
    assert_eq!(pipe.read(500, false).unwrap().unwrap().len(), 2048);
    assert!(pipe.close().is_ok());
}

#[test]
fn test_pipe_open_close_error() {
    // Open error: the path already exists and is no FIFO of ours.
    let pipe_path: String = String::from("/dev/tty1");
    let pipe: Result<Pipe, SubProcError> = Pipe::open(&pipe_path);
    assert!(pipe.is_err());
    // Close error: the descriptor was never opened.
    let pipe: Pipe = Pipe { fd: 10, path: String::from("/tmp/stdout.fifo") };
    assert!(pipe.close().is_err());
}

#[test]
fn test_pipe_open_error() {
    let tmpdir: tempfile::TempDir = tempfile::TempDir::new().unwrap();
    let pipe_path: String = tmp_fifo_path(&tmpdir, "dup.fifo");
    let pipe = Pipe::open(&pipe_path).unwrap();
    // The FIFO node already exists, so a second open fails with the OS
    // error code.
    match Pipe::open(&pipe_path) {
        Err(SubProcError::PipeError(code)) => assert!(code > 0),
        other => panic!("expected a pipe error, got {:?}", other),
    }
    assert!(pipe.close().is_ok());
}

#[test]
fn test_pipe_invalid_utf8() {
    let tmpdir: tempfile::TempDir = tempfile::TempDir::new().unwrap();
    let pipe_path: String = tmp_fifo_path(&tmpdir, "bytes.fifo");
    let pipe = Pipe::open(&pipe_path).unwrap();
    // Feed raw bytes that are not valid UTF-8.
    let bad = [0xffu8, 0xc0u8];
    assert_eq!(nix::unistd::write(pipe.fd, &bad).unwrap(), 2);
    assert_eq!(pipe.read(500, false).err(), Some(SubProcError::InvalidData));
    assert!(pipe.close().is_ok());
}

#[test]
fn test_pipe_write_timeout() {
    let tmpdir: tempfile::TempDir = tempfile::TempDir::new().unwrap();
    let pipe_path: String = tmp_fifo_path(&tmpdir, "full.fifo");
    let pipe = Pipe::open(&pipe_path).unwrap();
    // Fill the pipe's buffer completely, then a further write can make no
    // progress within its window.
    let fill: String = "x".repeat(65536);
    assert!(pipe.write(fill, 2000).is_ok());
    assert_eq!(
        pipe.write(String::from("overflow"), 400).err(),
        Some(SubProcError::IoTimeout)
    );
    assert!(pipe.close().is_ok());
}

#[test]
fn test_pipe_io_error() {
    let tmpdir: tempfile::TempDir = tempfile::TempDir::new().unwrap();
    let pipe_path: String = tmp_fifo_path(&tmpdir, "stdout.fifo");
    let pipe: Result<Pipe, SubProcError> = Pipe::open(&pipe_path);
    assert!(pipe.is_ok(), "Pipe ({}) should be OK, but is {:?}", pipe_path, pipe);
    let pipe: Pipe = pipe.unwrap();
    assert!(pipe.read(1000, true).unwrap().is_none(), "Read should be None");
    assert!(pipe.close().is_ok());
}
