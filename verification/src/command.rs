//! The interactive bucket commands and their parser: a line is split at
//! ASCII whitespace, the first token names the command (case-insensitive),
//! and the following tokens are its arguments.

use vstd::prelude::*;
use vstd::string::*;

use crate::strutil::push_char;

verus! {

/// A command of the interactive bucket client.
#[derive(Debug, PartialEq, Eq)]
pub enum Command {
    Pwd,
    ChangeDir(String),
    Copy(String, String),
    Help,
    List(Option<String>),
    Mkdir(String),
    Remove(String),
    Stat(String),
    Put(String, String),
    Get(String, String),
    Quit,
}

/// Whether the character is ASCII whitespace: space, horizontal tab,
/// newline, carriage return or form feed.
pub open spec fn is_ws(c: char) -> bool {
    c == ' ' || c == '\t' || c == '\n' || c == '\r' || c == '\u{c}'
}

/// The index of the first ASCII whitespace character in `s`, or the
/// length of `s` when there is none.
pub open spec fn first_ws(s: Seq<char>) -> nat
    decreases s.len(),
{
    if s.len() == 0 {
        0
    } else if is_ws(s[0]) {
        0
    } else {
        1 + first_ws(s.drop_first())
    }
}

/// The whitespace index never lies beyond the end.
proof fn lemma_first_ws_le(s: Seq<char>)
    ensures
        first_ws(s) <= s.len(),
    decreases s.len(),
{
    if s.len() > 0 && !is_ws(s[0]) {
        lemma_first_ws_le(s.drop_first());
    }
}

/// `first_ws` is characterized by its position: it points at the first
/// whitespace character, or at the end when there is none.
proof fn lemma_first_ws_at(s: Seq<char>, p: int)
    requires
        0 <= p <= s.len(),
        forall|j: int| 0 <= j < p ==> !is_ws(#[trigger] s[j]),
        p < s.len() ==> is_ws(s[p]),
    ensures
        first_ws(s) == p,
    decreases s.len(),
{
    if s.len() > 0 && !is_ws(s[0]) {
        lemma_first_ws_at(s.drop_first(), p - 1);
    }
}

/// The non-empty tokens of `s` between its runs of ASCII whitespace, in
/// order.
pub open spec fn ws_tokens(s: Seq<char>) -> Seq<Seq<char>>
    decreases s.len(),
    via ws_tokens_decreases
{
    if s.len() == 0 {
        Seq::empty()
    } else if is_ws(s[0]) {
        ws_tokens(s.drop_first())
    } else {
        let e = first_ws(s) as int;
        seq![s.take(e)] + ws_tokens(s.skip(e))
    }
}

#[via_fn]
proof fn ws_tokens_decreases(s: Seq<char>) {
    if s.len() > 0 && !is_ws(s[0]) {
        lemma_first_ws_le(s);
    }
}

/// The character with its ASCII lowercase letter mapped to uppercase.
pub open spec fn upper_char(c: char) -> char {
    if 'a' <= c && c <= 'z' {
        ((c as u8) - 32) as char
    } else {
        c
    }
}

/// The sequence with every ASCII lowercase letter mapped to uppercase.
pub open spec fn upper(s: Seq<char>) -> Seq<char> {
    s.map_values(|c: char| upper_char(c))
}

/// Whether the (uppercased) keyword names a command.
pub open spec fn known_keyword(k: Seq<char>) -> bool {
    ||| k == "PWD"@
    ||| k == "QUIT"@
    ||| k == "CD"@
    ||| k == "COPY"@
    ||| k == "HELP"@
    ||| k == "LIST"@
    ||| k == "MKDIR"@
    ||| k == "RM"@
    ||| k == "STAT"@
    ||| k == "PUT"@
    ||| k == "GET"@
}

/// Whether the line parses to a command: it has a token naming a command,
/// followed by as many tokens as that command requires. Trailing tokens
/// are ignored.
pub open spec fn can_parse(s: Seq<char>) -> bool {
    let t = ws_tokens(s);
    t.len() >= 1 && {
        let k = upper(t[0]);
        &&& known_keyword(k)
        &&& ((k == "CD"@ || k == "MKDIR"@ || k == "RM"@ || k == "STAT"@) ==> t.len() >= 2)
        &&& ((k == "COPY"@ || k == "PUT"@ || k == "GET"@) ==> t.len() >= 3)
    }
}

/// The parsing relation: `c` is the command the line `s` stands for.
pub open spec fn parses_to(s: Seq<char>, c: Command) -> bool {
    let t = ws_tokens(s);
    t.len() >= 1 && {
        let k = upper(t[0]);
        match c {
            Command::Pwd => k == "PWD"@,
            Command::Quit => k == "QUIT"@,
            Command::Help => k == "HELP"@,
            Command::ChangeDir(d) => k == "CD"@ && t.len() >= 2 && d@ == t[1],
            Command::Copy(src, dst) => k == "COPY"@ && t.len() >= 3 && src@ == t[1] && dst@
                == t[2],
            Command::List(opt) => k == "LIST"@ && (match opt {
                Some(p) => t.len() >= 2 && p@ == t[1],
                None => t.len() == 1,
            }),
            Command::Mkdir(d) => k == "MKDIR"@ && t.len() >= 2 && d@ == t[1],
            Command::Remove(f) => k == "RM"@ && t.len() >= 2 && f@ == t[1],
            Command::Stat(d) => k == "STAT"@ && t.len() >= 2 && d@ == t[1],
            Command::Put(src, dst) => k == "PUT"@ && t.len() >= 3 && src@ == t[1] && dst@ == t[2],
            Command::Get(src, dst) => k == "GET"@ && t.len() >= 3 && src@ == t[1] && dst@ == t[2],
        }
    }
}

/// The error message a line that parses to no command is refused with.
pub open spec fn err_msg(s: Seq<char>) -> Seq<char> {
    let t = ws_tokens(s);
    if t.len() == 0 {
        "Unknown command"@
    } else {
        let k = upper(t[0]);
        if !known_keyword(k) {
            "Unknown command"@
        } else if k == "CD"@ || k == "MKDIR"@ || k == "STAT"@ {
            "Missing `dir` field"@
        } else if k == "RM"@ {
            "Missing `file` field"@
        } else if t.len() == 1 {
            "Missing `src` field"@
        } else {
            "Missing `dest` field"@
        }
    }
}

/// Whether the character is ASCII whitespace.
fn is_ws_char(c: char) -> (r: bool)
    ensures
        r == is_ws(c),
{
    c == ' ' || c == '\t' || c == '\n' || c == '\r' || c == '\u{c}'
}

/// Split the line into its whitespace-separated tokens.
fn tokenize(s: &str) -> (r: Vec<String>)
    ensures
        r@.len() == ws_tokens(s@).len(),
        forall|i: int| 0 <= i < r@.len() ==> #[trigger] r@[i]@ == ws_tokens(s@)[i],
{
    let n = s.unicode_len();
    let mut toks: Vec<String> = Vec::new();
    let mut i: usize = 0;
    proof {
        assert(s@.skip(0) =~= s@);
        assert(ws_tokens(s@).skip(0) =~= ws_tokens(s@.skip(0)));
    }
    while i < n
        invariant
            i <= n,
            n == s@.len(),
            toks@.len() <= ws_tokens(s@).len(),
            ws_tokens(s@).skip(toks@.len() as int) =~= ws_tokens(s@.skip(i as int)),
            forall|k: int| 0 <= k < toks@.len() ==> #[trigger] toks@[k]@ == ws_tokens(s@)[k],
        decreases n - i,
    {
        let c = s.get_char(i);
        if is_ws_char(c) {
            proof {
                assert(s@.skip(i as int).drop_first() =~= s@.skip(i + 1));
            }
            i = i + 1;
        } else {
            let mut b: usize = i + 1;
            while b < n && !is_ws_char(s.get_char(b))
                invariant
                    i < b <= n,
                    n == s@.len(),
                    forall|j: int| i < j < b ==> !is_ws(#[trigger] s@[j]),
                decreases n - b,
            {
                b = b + 1;
            }
            proof {
                assert(!is_ws(s@.skip(i as int)[0]));
                lemma_first_ws_at(s@.skip(i as int), b - i);
                assert(s@.skip(i as int).take(b - i) =~= s@.subrange(i as int, b as int));
                assert(s@.skip(i as int).skip(b - i) =~= s@.skip(b as int));
                assert(ws_tokens(s@.skip(i as int)) =~= seq![
                    s@.subrange(i as int, b as int),
                ] + ws_tokens(s@.skip(b as int)));
            }
            let tok = s.substring_char(i, b);
            let ghost prev_len = toks@.len() as int;
            toks.push(String::from_str(tok));
            proof {
                assert(ws_tokens(s@).skip(prev_len) =~= ws_tokens(s@.skip(i as int)));
                assert(prev_len < ws_tokens(s@).len());
                assert(ws_tokens(s@)[prev_len] == ws_tokens(s@).skip(prev_len)[0]);
                assert(ws_tokens(s@)[prev_len] == s@.subrange(i as int, b as int));
                assert(ws_tokens(s@).skip(prev_len + 1) =~= ws_tokens(s@).skip(prev_len).skip(1));
                assert(ws_tokens(s@).skip(prev_len).skip(1) =~= ws_tokens(s@.skip(b as int)));
            }
            i = b;
        }
    }
    proof {
        assert(s@.skip(n as int) =~= Seq::<char>::empty());
        assert(ws_tokens(s@).skip(toks@.len() as int) =~= Seq::<Seq<char>>::empty());
    }
    toks
}

/// Map the token's ASCII lowercase letters to uppercase.
fn to_upper(t: &String) -> (r: String)
    ensures
        r@ == upper(t@),
{
    let n = t.as_str().unicode_len();
    let mut out = String::new();
    let mut i: usize = 0;
    proof {
        assert(out@ =~= upper(t@.take(0)));
    }
    while i < n
        invariant
            i <= n,
            n == t@.len(),
            out@ =~= upper(t@.take(i as int)),
        decreases n - i,
    {
        let c = t.as_str().get_char(i);
        let u = if 'a' <= c && c <= 'z' {
            ((c as u8) - 32) as char
        } else {
            c
        };
        push_char(&mut out, u);
        proof {
            assert(out@ =~= upper(t@.take(i + 1)));
        }
        i = i + 1;
    }
    proof {
        assert(t@.take(n as int) =~= t@);
    }
    out
}

impl Command {
    /// Parse a command line: the first whitespace-separated token names
    /// the command, case-insensitively, and the following tokens are its
    /// arguments; whatever follows them is ignored. A line without a
    /// known command name, or with too few arguments for it, is refused
    /// with a message naming what is missing.
    pub fn from_str(s: &str) -> (r: Result<Command, &'static str>)
        ensures
            r is Ok <==> can_parse(s@),
            r matches Ok(c) ==> parses_to(s@, c),
            r matches Err(m) ==> m@ == err_msg(s@),
    {
        proof {
            reveal_strlit("PWD");
            reveal_strlit("QUIT");
            reveal_strlit("CD");
            reveal_strlit("COPY");
            reveal_strlit("HELP");
            reveal_strlit("LIST");
            reveal_strlit("MKDIR");
            reveal_strlit("RM");
            reveal_strlit("STAT");
            reveal_strlit("PUT");
            reveal_strlit("GET");
            // The keywords of one length are told apart by their letters.
            assert("CD"@[0] == 'C' && "RM"@[0] == 'R');
            assert("PWD"@[1] == 'W' && "PUT"@[1] == 'U' && "GET"@[0] == 'G' && "PWD"@[0] == 'P');
            assert("QUIT"@[0] == 'Q' && "COPY"@[0] == 'C' && "HELP"@[0] == 'H' && "LIST"@[0]
                == 'L' && "STAT"@[0] == 'S');
            assert("CD"@ != "RM"@);
            assert("PWD"@ != "PUT"@ && "PWD"@ != "GET"@ && "PUT"@ != "GET"@);
            assert("QUIT"@ != "COPY"@ && "QUIT"@ != "HELP"@ && "QUIT"@ != "LIST"@ && "QUIT"@
                != "STAT"@);
            assert("COPY"@ != "HELP"@ && "COPY"@ != "LIST"@ && "COPY"@ != "STAT"@);
            assert("HELP"@ != "LIST"@ && "HELP"@ != "STAT"@ && "LIST"@ != "STAT"@);
        }
        let toks = tokenize(s);
        if toks.len() == 0 {
            return Err("Unknown command");
        }
        let k = to_upper(&toks[0]);
        proof {
            assert(k@ == upper(ws_tokens(s@)[0]));
        }
        if k.eq(&String::from_str("PWD")) {
            Ok(Command::Pwd)
        } else if k.eq(&String::from_str("QUIT")) {
            Ok(Command::Quit)
        } else if k.eq(&String::from_str("HELP")) {
            Ok(Command::Help)
        } else if k.eq(&String::from_str("CD")) {
            if toks.len() >= 2 {
                Ok(Command::ChangeDir(toks[1].clone()))
            } else {
                Err("Missing `dir` field")
            }
        } else if k.eq(&String::from_str("MKDIR")) {
            if toks.len() >= 2 {
                Ok(Command::Mkdir(toks[1].clone()))
            } else {
                Err("Missing `dir` field")
            }
        } else if k.eq(&String::from_str("STAT")) {
            if toks.len() >= 2 {
                Ok(Command::Stat(toks[1].clone()))
            } else {
                Err("Missing `dir` field")
            }
        } else if k.eq(&String::from_str("RM")) {
            if toks.len() >= 2 {
                Ok(Command::Remove(toks[1].clone()))
            } else {
                Err("Missing `file` field")
            }
        } else if k.eq(&String::from_str("LIST")) {
            if toks.len() >= 2 {
                Ok(Command::List(Some(toks[1].clone())))
            } else {
                Ok(Command::List(None))
            }
        } else if k.eq(&String::from_str("COPY")) {
            if toks.len() >= 3 {
                Ok(Command::Copy(toks[1].clone(), toks[2].clone()))
            } else if toks.len() == 2 {
                Err("Missing `dest` field")
            } else {
                Err("Missing `src` field")
            }
        } else if k.eq(&String::from_str("PUT")) {
            if toks.len() >= 3 {
                Ok(Command::Put(toks[1].clone(), toks[2].clone()))
            } else if toks.len() == 2 {
                Err("Missing `dest` field")
            } else {
                Err("Missing `src` field")
            }
        } else if k.eq(&String::from_str("GET")) {
            if toks.len() >= 3 {
                Ok(Command::Get(toks[1].clone(), toks[2].clone()))
            } else if toks.len() == 2 {
                Err("Missing `dest` field")
            } else {
                Err("Missing `src` field")
            }
        } else {
            Err("Unknown command")
        }
    }
}

} // verus!
