//! Terminal console helpers: input events and the escape sequences that
//! drive the cursor on the caller's terminal.

use vstd::prelude::*;
use vstd::string::*;

use crate::strutil::push_char;

use vstd::std_specs::cmp::PartialEqSpec;

verus! {

/// An input event read from the user on the terminal.
#[derive(Debug)]
pub enum InputEvent {
    /// One typed key, as a UTF-8 string.
    Key(String),
    /// A control key, by the byte it produces.
    Ctrl(u8),
    Enter,
    CarriageReturn,
    Backspace,
    ArrowUp,
    ArrowLeft,
    ArrowRight,
    ArrowDown,
}

/// Two input events are the same when they are the same variant with the
/// same carried value.
pub open spec fn same_event(x: InputEvent, y: InputEvent) -> bool {
    match x {
        InputEvent::Key(a) => y matches InputEvent::Key(b) && a@ == b@,
        InputEvent::Ctrl(a) => y matches InputEvent::Ctrl(b) && a == b,
        InputEvent::Enter => y is Enter,
        InputEvent::CarriageReturn => y is CarriageReturn,
        InputEvent::Backspace => y is Backspace,
        InputEvent::ArrowUp => y is ArrowUp,
        InputEvent::ArrowLeft => y is ArrowLeft,
        InputEvent::ArrowRight => y is ArrowRight,
        InputEvent::ArrowDown => y is ArrowDown,
    }
}

impl PartialEq for InputEvent {
    fn eq(&self, other: &InputEvent) -> (r: bool) {
        match self {
            InputEvent::Key(a) => match other {
                InputEvent::Key(b) => a.eq(b),
                _ => false,
            },
            InputEvent::Ctrl(a) => match other {
                InputEvent::Ctrl(b) => a == b,
                _ => false,
            },
            InputEvent::Enter => matches!(other, InputEvent::Enter),
            InputEvent::CarriageReturn => matches!(other, InputEvent::CarriageReturn),
            InputEvent::Backspace => matches!(other, InputEvent::Backspace),
            InputEvent::ArrowUp => matches!(other, InputEvent::ArrowUp),
            InputEvent::ArrowLeft => matches!(other, InputEvent::ArrowLeft),
            InputEvent::ArrowRight => matches!(other, InputEvent::ArrowRight),
            InputEvent::ArrowDown => matches!(other, InputEvent::ArrowDown),
        }
    }
}

impl vstd::std_specs::cmp::PartialEqSpecImpl for InputEvent {
    open spec fn obeys_eq_spec() -> bool {
        true
    }

    open spec fn eq_spec(&self, other: &InputEvent) -> bool {
        same_event(*self, *other)
    }
}

/// Relies on std::io::Write::write_all on standard output: prints the
/// bytes of `row`, without a newline.
#[verifier::external_body]
fn stdout_write(row: &str) {
    let _ = std::io::Write::write_all(&mut std::io::stdout(), row.as_bytes());
}

/// Relies on std::io::Write::flush on standard output: makes buffered
/// output visible.
#[verifier::external_body]
fn stdout_flush() {
    let _ = std::io::Write::flush(&mut std::io::stdout());
}

/// Print `row` on the current line, without a newline, and flush.
pub fn print(row: String) {
    stdout_write(row.as_str());
    stdout_flush();
}

/// Print `row` and go to a new line.
pub fn println(row: String) {
    let line = row.concat("\n");
    stdout_write(line.as_str());
}

/// Remove the last typed character from the prompt: go back one position,
/// print a blank, and go back again.
pub fn backspace() {
    print(String::from_str("\u{8} \u{8}"));
}

/// Move the cursor one position to the right.
pub fn move_cursor_right() {
    print(String::from_str("\u{1b}[1C"));
}

/// Move the cursor one position to the left.
pub fn move_cursor_left() {
    print(String::from_str("\u{1b}[1D"));
}

/// Return to the beginning of the line.
pub fn carriage_return() {
    print(String::from_str("\r"));
}

/// Clear the console.
pub fn clear() {
    print(String::from_str("\u{1b}[H\u{1b}[2J"));
}

/// Rewrite the current line: backspace over the `len` characters that
/// stand on it, then print `row`.
pub fn rewrite(row: String, len: usize) {
    let mut i: usize = 0;
    while i < len
        invariant
            i <= len,
        decreases len - i,
    {
        backspace();
        i = i + 1;
    }
    print(row);
}

/// The terminal representation of an input event: arrows as their ANSI
/// escape sequences, control keys as their byte, keys as themselves.
pub open spec fn event_string(ev: InputEvent) -> Seq<char> {
    match ev {
        InputEvent::ArrowDown => "\u{1b}[B"@,
        InputEvent::ArrowLeft => "\u{1b}[D"@,
        InputEvent::ArrowRight => "\u{1b}[C"@,
        InputEvent::ArrowUp => "\u{1b}[A"@,
        InputEvent::Backspace => "\u{7f}"@,
        InputEvent::CarriageReturn => "\u{d}"@,
        InputEvent::Ctrl(sig) => Seq::empty().push(sig as char),
        InputEvent::Enter => "\u{a}"@,
        InputEvent::Key(k) => k@,
    }
}

/// Convert an input event to the string a terminal would understand.
pub fn input_event_to_string(ev: InputEvent) -> (r: String)
    ensures
        r@ == event_string(ev),
{
    match ev {
        InputEvent::ArrowDown => String::from_str("\u{1b}[B"),
        InputEvent::ArrowLeft => String::from_str("\u{1b}[D"),
        InputEvent::ArrowRight => String::from_str("\u{1b}[C"),
        InputEvent::ArrowUp => String::from_str("\u{1b}[A"),
        InputEvent::Backspace => String::from_str("\u{7f}"),
        InputEvent::CarriageReturn => String::from_str("\u{d}"),
        InputEvent::Ctrl(sig) => {
            let ch = sig as char;
            let mut s = String::new();
            push_char(&mut s, ch);
            proof {
                assert(s@ =~= Seq::empty().push(sig as char));
            }
            s
        }
        InputEvent::Enter => String::from_str("\u{a}"),
        InputEvent::Key(k) => k,
    }
}

} // verus!
