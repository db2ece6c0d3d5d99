//! Parsing of numeric range strings: either two dash-separated bounds
//! standing for every number between them, or an explicit comma-separated
//! list.

use vstd::prelude::*;
use vstd::string::StringSliceAdditionalSpecFns;

verus! {

/// Types that have a unit value: 1 for the integers.
pub trait Unit: Sized {
    /// The unit value, as a specification.
    spec fn unit_spec() -> Self;

    /// The unit value.
    fn unit() -> (r: Self)
        ensures
            r == Self::unit_spec(),
    ;
}

impl Unit for u64 {
    open spec fn unit_spec() -> u64 {
        1
    }

    fn unit() -> u64 {
        1
    }
}

/// Whether the byte is an ASCII decimal digit.
pub open spec fn is_digit(b: u8) -> bool {
    48 <= b <= 57
}

/// Whether the bytes are all ASCII decimal digits.
pub open spec fn digits_only(s: Seq<u8>) -> bool {
    forall|j: int| 0 <= j < s.len() ==> is_digit(#[trigger] s[j])
}

/// The number the decimal digits spell.
pub open spec fn digits_val(s: Seq<u8>) -> int
    decreases s.len(),
{
    if s.len() == 0 {
        0
    } else {
        digits_val(s.drop_last()) * 10 + (s.last() - 48)
    }
}

/// Whether the bytes spell a decimal u64: at least one digit, nothing but
/// digits, and a value within the type's range.
pub open spec fn parses_u64(s: Seq<u8>) -> bool {
    s.len() > 0 && digits_only(s) && digits_val(s) <= u64::MAX
}

/// The index of the first occurrence of `t` in `s`, or the length of `s`
/// when it does not occur.
pub open spec fn first_idx(s: Seq<u8>, t: u8) -> nat
    decreases s.len(),
{
    if s.len() == 0 {
        0
    } else if s[0] == t {
        0
    } else {
        1 + first_idx(s.drop_first(), t)
    }
}

/// The pieces of `s` between its commas, in order; a sequence without
/// commas is one piece, and each comma separates two pieces.
pub open spec fn split_commas(s: Seq<u8>) -> Seq<Seq<u8>>
    decreases s.len(),
{
    let c = first_idx(s, 44);
    if c >= s.len() {
        seq![s]
    } else {
        seq![s.take(c as int)] + split_commas(s.skip(c + 1 as int))
    }
}

/// Whether the bytes hold a dash (making them a two-bound range string).
pub open spec fn has_dash(s: Seq<u8>) -> bool {
    first_idx(s, 45) < s.len()
}

/// The token before the first dash.
pub open spec fn dash_start_tok(s: Seq<u8>) -> Seq<u8> {
    s.take(first_idx(s, 45) as int)
}

/// The token between the first dash and the next dash or the end.
pub open spec fn dash_end_tok(s: Seq<u8>) -> Seq<u8> {
    let rest = s.skip(first_idx(s, 45) + 1 as int);
    rest.take(first_idx(rest, 45) as int)
}

/// Every value from `a` to `b`, both inclusive, in order.
pub open spec fn range_seq(a: u64, b: u64) -> Seq<u64> {
    Seq::new(
        if a <= b {
            (b - a + 1) as nat
        } else {
            0
        },
        |i: int| (a + i) as u64,
    )
}

/// A number spelled by digits never shrinks when more digits follow: the
/// value of a prefix is at most the value of the whole.
proof fn lemma_digits_val_prefix_le(s: Seq<u8>, i: int)
    requires
        digits_only(s),
        0 <= i <= s.len(),
    ensures
        0 <= digits_val(s.subrange(0, i)) <= digits_val(s),
    decreases s.len() - i,
{
    lemma_digits_val_nonneg(s.subrange(0, i));
    if i < s.len() {
        assert(s.subrange(0, i + 1).drop_last() =~= s.subrange(0, i));
        lemma_digits_val_prefix_le(s, i + 1);
        lemma_digits_val_nonneg(s.subrange(0, i + 1));
    } else {
        assert(s.subrange(0, i) =~= s);
    }
}

/// The value of a digit sequence is never negative.
proof fn lemma_digits_val_nonneg(s: Seq<u8>)
    requires
        digits_only(s),
    ensures
        digits_val(s) >= 0,
    decreases s.len(),
{
    if s.len() > 0 {
        assert(digits_only(s.drop_last()));
        lemma_digits_val_nonneg(s.drop_last());
    }
}

/// `first_idx` is characterized by its position: it points at the first
/// occurrence, or at the end when there is none.
proof fn lemma_first_idx_at(s: Seq<u8>, t: u8, p: int)
    requires
        0 <= p <= s.len(),
        forall|j: int| 0 <= j < p ==> s[j] != t,
        p < s.len() ==> s[p] == t,
    ensures
        first_idx(s, t) == p,
    decreases s.len(),
{
    if s.len() > 0 && s[0] != t {
        assert(p > 0);
        lemma_first_idx_at(s.drop_first(), t, p - 1);
    }
}

/// Parse the decimal number in `b` between the positions `from` and `to`:
/// exactly the non-empty all-digit spans whose value fits a u64 are
/// accepted, and the parsed value is the number the digits spell.
fn parse_u64_digits(b: &[u8], from: usize, to: usize) -> (r: Option<u64>)
    requires
        from <= to <= b@.len(),
    ensures
        r is Some <==> parses_u64(b@.subrange(from as int, to as int)),
        r matches Some(v) ==> v == digits_val(b@.subrange(from as int, to as int)),
{
    let ghost whole = b@.subrange(from as int, to as int);
    if from == to {
        return None;
    }
    let mut acc: u64 = 0;
    let mut i: usize = from;
    proof {
        assert(b@.subrange(from as int, from as int) =~= Seq::<u8>::empty());
    }
    while i < to
        invariant
            from <= i <= to <= b@.len(),
            whole == b@.subrange(from as int, to as int),
            digits_only(b@.subrange(from as int, i as int)),
            acc == digits_val(b@.subrange(from as int, i as int)),
        decreases to - i,
    {
        let c = b[i];
        proof {
            assert(b@.subrange(from as int, i + 1).drop_last() =~= b@.subrange(
                from as int,
                i as int,
            ));
            assert(b@.subrange(from as int, i + 1).last() == b@[i as int]);
        }
        if c < 48 || c > 57 {
            proof {
                assert(whole[i - from] == b@[i as int]);
                assert(!parses_u64(whole));
            }
            return None;
        }
        let digit = (c - 48) as u64;
        let acc10 = match acc.checked_mul(10) {
            Some(x) => x,
            None => {
                proof {
                    lemma_digits_overflow(b@, from as int, i as int, to as int);
                }
                return None;
            }
        };
        acc = match acc10.checked_add(digit) {
            Some(x) => x,
            None => {
                proof {
                    lemma_digits_overflow(b@, from as int, i as int, to as int);
                }
                return None;
            }
        };
        i = i + 1;
    }
    proof {
        assert(b@.subrange(from as int, i as int) =~= whole);
    }
    Some(acc)
}

/// When the digits seen so far already spell a number near the type's
/// limit, the whole span's value is beyond it.
proof fn lemma_digits_overflow(s: Seq<u8>, from: int, i: int, to: int)
    requires
        0 <= from <= i < to <= s.len(),
        digits_only(s.subrange(from, i)),
        is_digit(s[i]),
        digits_val(s.subrange(from, i)) * 10 + (s[i] - 48) > u64::MAX,
    ensures
        digits_only(s.subrange(from, to)) ==> digits_val(s.subrange(from, to)) > u64::MAX,
{
    if digits_only(s.subrange(from, to)) {
        assert(s.subrange(from, i + 1).drop_last() =~= s.subrange(from, i));
        assert(s.subrange(from, i + 1).last() == s[i]);
        assert(digits_val(s.subrange(from, i + 1)) > u64::MAX);
        assert(s.subrange(from, i + 1) =~= s.subrange(from, to).subrange(0, i + 1 - from));
        lemma_digits_val_prefix_le(s.subrange(from, to), i + 1 - from);
    }
}

/// Find the first occurrence of `target` in `b` at or after `from`.
fn find_byte(b: &[u8], target: u8, from: usize) -> (r: Option<usize>)
    requires
        from <= b@.len(),
    ensures
        r matches Some(p) ==> from <= p < b@.len() && b@[p as int] == target && (forall|j: int|
            from <= j < p ==> b@[j] != target),
        r is None ==> forall|j: int| from <= j < b@.len() ==> b@[j] != target,
{
    let mut i: usize = from;
    while i < b.len()
        invariant
            from <= i <= b@.len(),
            forall|j: int| from <= j < i ==> b@[j] != target,
        decreases b@.len() - i,
    {
        if b[i] == target {
            return Some(i);
        }
        i = i + 1;
    }
    None
}

/// Parse a range string in either of two formats: `"0-3"` stands for
/// every number from the first bound to the second, and `"0,1,2,3"` lists
/// its numbers explicitly.
///
/// With a dash, the token before the first dash and the token between the
/// first dash and the next one (or the end) must each spell a u64, and
/// the result runs from the first to the second, inclusive; a first bound
/// above the second gives an empty result. Without a dash, every
/// comma-separated token must spell a u64 and the result lists them in
/// order.
pub fn parse_range(range_str: &str) -> (r: Result<Vec<u64>, &'static str>)
    ensures
        ({
            let s = range_str.spec_bytes();
            &&& (has_dash(s) ==> {
                &&& (r is Ok <==> parses_u64(dash_start_tok(s)) && parses_u64(dash_end_tok(s)))
                &&& (r matches Ok(v) ==> v@ == range_seq(
                    digits_val(dash_start_tok(s)) as u64,
                    digits_val(dash_end_tok(s)) as u64,
                ))
                &&& (r matches Err(m) ==> if !parses_u64(dash_start_tok(s)) {
                    m@ == "invalid range: start is not a number"@
                } else {
                    m@ == "invalid range: end is not a number"@
                })
            })
            &&& (!has_dash(s) ==> {
                &&& (r is Ok <==> (forall|k: int|
                    0 <= k < split_commas(s).len() ==> parses_u64(#[trigger] split_commas(s)[k])))
                &&& (r matches Ok(v) ==> v@.len() == split_commas(s).len() && (forall|k: int|
                    0 <= k < v@.len() ==> v@[k] == digits_val(#[trigger] split_commas(s)[k])))
                &&& (r matches Err(m) ==> m@ == "invalid range values: not a number"@)
            })
        }),
{
    let b: &[u8] = range_str.as_bytes();
    let blen = b.len();
    let ghost s = range_str.spec_bytes();
    match find_byte(b, 45, 0) {
        Some(d1) => {
            proof {
                lemma_first_idx_at(s, 45, d1 as int);
            }
            proof {
                assert(d1 < blen);
            }
            let d2 = match find_byte(b, 45, d1 + 1) {
                Some(p) => p,
                None => blen,
            };
            proof {
                lemma_first_idx_at(s.skip(d1 + 1), 45, d2 - d1 - 1);
                assert(dash_start_tok(s) =~= s.subrange(0, d1 as int));
                assert(dash_end_tok(s) =~= s.subrange(d1 + 1, d2 as int));
            }
            let start: u64 = match parse_u64_digits(b, 0, d1) {
                Some(v) => v,
                None => {
                    return Err("invalid range: start is not a number");
                }
            };
            let end: u64 = match parse_u64_digits(b, d1 + 1, d2) {
                Some(v) => v,
                None => {
                    return Err("invalid range: end is not a number");
                }
            };
            let mut range: Vec<u64> = Vec::new();
            if start <= end {
                let mut x: u64 = start;
                loop
                    invariant_except_break
                        start <= x <= end,
                        range@ =~= Seq::new((x - start) as nat, |i: int| (start + i) as u64),
                    ensures
                        range@ =~= range_seq(start, end),
                    decreases end - x,
                {
                    range.push(x);
                    if x == end {
                        proof {
                            assert(range@ =~= range_seq(start, end));
                        }
                        break ;
                    }
                    x = x + u64::unit();
                }
            }
            proof {
                assert(range@ =~= range_seq(start, end));
            }
            Ok(range)
        }
        None => {
            proof {
                lemma_first_idx_at(s, 45, s.len() as int);
            }
            let mut out: Vec<u64> = Vec::new();
            let mut tstart: usize = 0;
            let ghost mut pieces: Seq<Seq<u8>> = split_commas(s);
            proof {
                assert(s.skip(0) =~= s);
                assert(split_commas(s) =~= split_commas(s).take(0) + pieces);
            }
            loop
                invariant_except_break
                    tstart <= b@.len(),
                    s == b@,
                    s == range_str.spec_bytes(),
                    !has_dash(s),
                    pieces == split_commas(s.skip(tstart as int)),
                    split_commas(s) =~= split_commas(s).take(out@.len() as int) + pieces,
                    out@.len() <= split_commas(s).len(),
                    forall|k: int|
                        0 <= k < out@.len() ==> parses_u64(#[trigger] split_commas(s)[k])
                            && out@[k] == digits_val(split_commas(s)[k]),
                ensures
                    s == range_str.spec_bytes(),
                    !has_dash(s),
                    out@.len() == split_commas(s).len(),
                    forall|k: int|
                        0 <= k < out@.len() ==> parses_u64(#[trigger] split_commas(s)[k])
                            && out@[k] == digits_val(split_commas(s)[k]),
                decreases b@.len() - tstart,
            {
                let nc = match find_byte(b, 44, tstart) {
                    Some(p) => p,
                    None => b.len(),
                };
                proof {
                    lemma_first_idx_at(s.skip(tstart as int), 44, nc - tstart);
                    assert(s.skip(tstart as int).take(nc - tstart) =~= s.subrange(
                        tstart as int,
                        nc as int,
                    ));
                }
                match parse_u64_digits(b, tstart, nc) {
                    None => {
                        proof {
                            assert(pieces.len() >= 1);
                            assert(out@.len() < split_commas(s).len());
                            assert(split_commas(s)[out@.len() as int] == pieces[0]);
                            assert(!parses_u64(split_commas(s)[out@.len() as int]));
                        }
                        return Err("invalid range values: not a number");
                    }
                    Some(v) => {
                        proof {
                            assert(pieces.len() >= 1);
                            assert(out@.len() < split_commas(s).len());
                            assert(split_commas(s)[out@.len() as int] == pieces[0]);
                        }
                        out.push(v);
                    }
                }
                if nc == b.len() {
                    proof {
                        assert(pieces =~= seq![s.subrange(tstart as int, nc as int)]);
                        assert(split_commas(s) =~= split_commas(s).take(out@.len() as int));
                    }
                    break ;
                }
                proof {
                    assert(s.skip(tstart as int).skip(nc - tstart + 1) =~= s.skip(nc + 1));
                    pieces = pieces.drop_first();
                    assert(pieces =~= split_commas(s.skip(nc + 1)));
                    assert(split_commas(s) =~= split_commas(s).take(out@.len() as int) + pieces);
                }
                tstart = nc + 1;
            }
            Ok(out)
        }
    }
}

} // verus!
