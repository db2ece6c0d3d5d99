use subproc::bucket::{object_name, S3File};
use subproc::canvas::{Id, Msg, Room};
use subproc::command::Command;

#[test]
fn test_command_keywords() {
    assert_eq!(Command::from_str("pwd"), Ok(Command::Pwd));
    assert_eq!(Command::from_str("QUIT"), Ok(Command::Quit));
    assert_eq!(Command::from_str("Help"), Ok(Command::Help));
    assert_eq!(
        Command::from_str("cd /tmp"),
        Ok(Command::ChangeDir(String::from("/tmp")))
    );
    assert_eq!(
        Command::from_str("copy a b"),
        Ok(Command::Copy(String::from("a"), String::from("b")))
    );
    assert_eq!(Command::from_str("list"), Ok(Command::List(None)));
    assert_eq!(
        Command::from_str("list photos"),
        Ok(Command::List(Some(String::from("photos"))))
    );
    assert_eq!(Command::from_str("mkdir d"), Ok(Command::Mkdir(String::from("d"))));
    assert_eq!(Command::from_str("rm f"), Ok(Command::Remove(String::from("f"))));
    assert_eq!(Command::from_str("stat s"), Ok(Command::Stat(String::from("s"))));
    assert_eq!(
        Command::from_str("put local remote"),
        Ok(Command::Put(String::from("local"), String::from("remote")))
    );
    assert_eq!(
        Command::from_str("get remote local"),
        Ok(Command::Get(String::from("remote"), String::from("local")))
    );
    // Whitespace runs and trailing tokens are ignored.
    assert_eq!(Command::from_str("  pwd   extra  "), Ok(Command::Pwd));
}

#[test]
fn test_command_errors() {
    assert_eq!(Command::from_str(""), Err("Unknown command"));
    assert_eq!(Command::from_str("frobnicate"), Err("Unknown command"));
    assert_eq!(Command::from_str("cd"), Err("Missing `dir` field"));
    assert_eq!(Command::from_str("mkdir"), Err("Missing `dir` field"));
    assert_eq!(Command::from_str("stat"), Err("Missing `dir` field"));
    assert_eq!(Command::from_str("rm"), Err("Missing `file` field"));
    assert_eq!(Command::from_str("copy"), Err("Missing `src` field"));
    assert_eq!(Command::from_str("copy a"), Err("Missing `dest` field"));
    assert_eq!(Command::from_str("put"), Err("Missing `src` field"));
    assert_eq!(Command::from_str("get a"), Err("Missing `dest` field"));
}

#[test]
fn test_object_name() {
    assert_eq!(object_name("photos/2020/cat.png"), String::from("cat.png"));
    assert_eq!(object_name("photos/2020/"), String::from("2020"));
    assert_eq!(object_name("file"), String::from("file"));
    assert_eq!(object_name(""), String::from(""));
    assert_eq!(object_name("/"), String::from(""));
    assert_eq!(object_name("a//"), String::from(""));
}

#[test]
fn test_s3_file_new() {
    let f = S3File::new("photos/2020/", 4096, String::from("2020-01-01T00:00:00Z"));
    assert_eq!(f.name, String::from("2020"));
    assert_eq!(f.path, String::from("photos/2020/"));
    assert_eq!(f.size, 4096);
    assert_eq!(f.last_modified, String::from("2020-01-01T00:00:00Z"));
    assert!(f.is_dir);
    let g = S3File::new("photos/cat.png", 17, String::from("stamp"));
    assert_eq!(g.name, String::from("cat.png"));
    assert!(!g.is_dir);
}

#[test]
fn test_canvas_identifiers() {
    assert_eq!(Msg::Quit, Msg::Quit);
    assert_ne!(Msg::Quit, Msg::Nothing);
    assert_eq!(Id::Canvas, Id::Canvas);
    assert_ne!(Room::Corridor, Room::ThreeExit);
    let r = Room::TwoExitWithMazeExit;
    assert_eq!(r, r);
}
