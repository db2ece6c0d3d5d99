use subproc::cursor::Cursor;
use subproc::errcode::ErrorCode;
use subproc::fileutil::write_lines;
use subproc::hexstr::Git;
use subproc::list::{Item, List};
use subproc::negotiation::{Decode, Encode, Negotiation};
use subproc::notes::Note;
use subproc::serializer::{SerializerError, SerializerErrorKind};
use subproc::strutil::trim_newline;
use subproc::users::UserView;

#[test]
fn test_should_wrap_cursor() {
    let mut cursor = Cursor::new(3usize);
    cursor.step();
    assert_eq!(cursor.value(), 1);
    cursor.step();
    assert_eq!(cursor.value(), 2);
    cursor.step();
    assert_eq!(cursor.value(), 0);
}

#[test]
fn test_utils_file_write_lines_error() {
    let in_lines: Vec<String> =
        vec![String::from("row 1"), String::from("row 2"), String::from("row 3")];
    assert!(write_lines(&String::from("/sample.file1231234.txt"), in_lines).is_err());
}

#[test]
fn test_utils_file_write_lines() {
    let in_lines: Vec<String> =
        vec![String::from("row 1"), String::from("row 2"), String::from("row 3")];
    let tmpdir: tempfile::TempDir = tempfile::TempDir::new().unwrap();
    let path = format!("{}/rows.txt", tmpdir.path().to_str().unwrap());
    assert!(write_lines(&path, in_lines).is_ok());
    // Read the rows back through raw descriptor calls.
    let fd = nix::fcntl::open(
        path.as_str(),
        nix::fcntl::OFlag::O_RDONLY,
        nix::sys::stat::Mode::empty(),
    )
    .unwrap();
    let mut buf = [0u8; 64];
    let n = nix::unistd::read(fd, &mut buf).unwrap();
    let _ = nix::unistd::close(fd);
    assert_eq!(&buf[..n], b"row 1\nrow 2\nrow 3\n");
}

#[test]
fn test_negotiation_encode() {
    let msg = Negotiation {
        version: 0xcafe,
        name: String::from("drome-dario"),
        key: 0xcafebabe,
        secure: true,
    };
    let encoded: Vec<u8> = msg.encode();
    assert_eq!(
        encoded,
        vec![
            0xca, 0xfe, 0x00, 0x0b, 0x64, 0x72, 0x6f, 0x6d, 0x65, 0x2d, 0x64, 0x61, 0x72, 0x69,
            0x6f, 0xca, 0xfe, 0xba, 0xbe, 0x01,
        ]
    );
    let in_msg: Negotiation = Negotiation::decode(&encoded).ok().unwrap();
    assert_eq!(in_msg.version, msg.version);
    assert_eq!(in_msg.name, msg.name);
    assert_eq!(in_msg.key, msg.key);
    assert_eq!(in_msg.secure, msg.secure);
}

#[test]
fn test_negotiation_decode_errors() {
    // Too short for the fixed fields.
    assert!(Negotiation::decode(&vec![0u8; 8]).is_err());
    // Announces a longer name than the buffer holds.
    let bad = vec![0xca, 0xfe, 0x00, 0x10, 0x61, 0x00, 0x00, 0x00, 0x00, 0x00];
    assert!(Negotiation::decode(&bad).is_err());
    // The name bytes are not valid UTF-8.
    let bad_utf8 = vec![0xca, 0xfe, 0x00, 0x01, 0xff, 0xca, 0xfe, 0xba, 0xbe, 0x01];
    assert!(Negotiation::decode(&bad_utf8).is_err());
}

#[test]
fn test_error_code_try_from() {
    assert_eq!(ErrorCode::try_from(160).ok().unwrap(), ErrorCode::ItsRainingEggs);
    assert_eq!(ErrorCode::try_from(31).ok().unwrap(), ErrorCode::ShopIsClosed);
    assert_eq!(ErrorCode::try_from(16).ok().unwrap(), ErrorCode::CartIsEmpty);
    assert_eq!(ErrorCode::try_from(4).ok().unwrap(), ErrorCode::BadCreditCard);
    assert!(ErrorCode::try_from(1).is_err());
    assert_eq!(ErrorCode::BadCreditCard.code(), 4);
}

#[test]
fn test_bytes_to_hexstr() {
    let bytes: Vec<u8> = vec![0xde, 0xad, 0xbe, 0xef];
    assert_eq!(Git::bytes_to_hexstr(&bytes, 8), String::from("deadbeef"));
    assert_eq!(Git::bytes_to_hexstr(&bytes, 5), String::from("deadb"));
    assert_eq!(Git::bytes_to_hexstr(&bytes, 100), String::from("deadbeef"));
    assert_eq!(Git::bytes_to_hexstr(&Vec::new(), 4), String::new());
}

#[test]
fn test_trim_newline() {
    let mut a = String::from("alpha\n");
    trim_newline(&mut a);
    assert_eq!(a, String::from("alpha"));
    let mut b = String::from("beta\r\n");
    trim_newline(&mut b);
    assert_eq!(b, String::from("beta"));
    let mut c = String::from("gamma");
    trim_newline(&mut c);
    assert_eq!(c, String::from("gamma"));
    let mut d = String::from("delta\n\n");
    trim_newline(&mut d);
    assert_eq!(d, String::from("delta\n"));
}

#[test]
fn test_note_numbers() {
    assert_eq!(Note::A.note_nr(4), 57);
    assert_eq!(Note::La.note_nr(4), 57);
    assert_eq!(Note::Do.pitch_class(), 0);
    assert_eq!(Note::C.pitch_class(), 0);
    assert_eq!(Note::B.pitch_class(), 11);
    assert_eq!(Note::C.note_nr(0), 0);
}

#[test]
fn test_serializer_error() {
    let err = SerializerError::new(SerializerErrorKind::Syntax, String::from("bad toml"));
    assert_eq!(err.kind(), SerializerErrorKind::Syntax);
    assert_eq!(err.message(), "bad toml");
}

#[test]
fn test_user_view() {
    let mut view: UserView = UserView::default();
    view.add_user(String::from("omar"), 32);
    view.add_user(String::from("pippo"), 27);
    assert!(view.selected_username().is_none());
    assert_eq!(view.user_count(), 2);
    view.select_user(&String::from("omar"));
    assert_eq!(view.selected_username(), Some("omar"));
    view.del_user(&String::from("pippo"));
    assert_eq!(view.user_count(), 1);
    assert_eq!(view.selected_username(), Some("omar"));
    view.del_user(&String::from("omar"));
    assert_eq!(view.user_count(), 0);
    assert!(view.selected_username().is_none());
}

#[test]
fn test_list_len() {
    let list: List<u64> = List::Cons(Box::new(Item {
        val: 0,
        next: List::Cons(Box::new(Item {
            val: 1,
            next: List::Cons(Box::new(Item { val: 2, next: List::Nil })),
        })),
    }));
    assert_eq!(list.len(), 3);
    let empty: List<u64> = List::Nil;
    assert_eq!(empty.len(), 0);
}

#[test]
fn test_list_reduce() {
    let list: List<u64> = List::Cons(Box::new(Item {
        val: 5,
        next: List::Cons(Box::new(Item { val: 7, next: List::Nil })),
    }));
    // Sum the values by folding over the nodes.
    let total = list.reduce(0u64, |node: &List<u64>, acc: u64| match node {
        List::Cons(item) => acc + item.val,
        List::Nil => acc,
    });
    assert_eq!(total, 12);
}
