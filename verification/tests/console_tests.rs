use subproc::console::{
    backspace, carriage_return, clear, input_event_to_string, move_cursor_left,
    move_cursor_right, print, rewrite, InputEvent,
};

#[test]
fn test_utils_console_backspace() {
    backspace();
}

#[test]
fn test_utils_console_move_cursor() {
    move_cursor_left();
    move_cursor_right();
    carriage_return();
}

#[test]
fn test_utils_console_clear() {
    clear();
}

#[test]
fn test_utils_console_print() {
    print(String::from("foo"));
    rewrite(String::from("Foobar"), 3);
    subproc::console::println(String::from("bar"));
}

#[test]
fn test_utils_console_input_event_to_str() {
    assert_eq!(input_event_to_string(InputEvent::ArrowDown), String::from("\x1b[B"));
    assert_eq!(input_event_to_string(InputEvent::ArrowLeft), String::from("\x1b[D"));
    assert_eq!(input_event_to_string(InputEvent::ArrowRight), String::from("\x1b[C"));
    assert_eq!(input_event_to_string(InputEvent::ArrowUp), String::from("\x1b[A"));
    assert_eq!(input_event_to_string(InputEvent::Backspace), String::from("\x7F"));
    assert_eq!(input_event_to_string(InputEvent::CarriageReturn), String::from("\x0D"));
    assert_eq!(input_event_to_string(InputEvent::Ctrl(3)), String::from("\x03"));
    assert_eq!(input_event_to_string(InputEvent::Enter), String::from("\x0A"));
    assert_eq!(input_event_to_string(InputEvent::Key(String::from("A"))), String::from("A"));
}

#[test]
fn test_input_event_equality() {
    assert_eq!(InputEvent::Key(String::from("ü")), InputEvent::Key(String::from("ü")));
    assert_ne!(InputEvent::Key(String::from("a")), InputEvent::Key(String::from("b")));
    assert_eq!(InputEvent::Ctrl(3), InputEvent::Ctrl(3));
    assert_ne!(InputEvent::Ctrl(3), InputEvent::Ctrl(4));
    assert_ne!(InputEvent::Enter, InputEvent::CarriageReturn);
}
