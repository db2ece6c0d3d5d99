//! Bucket objects: the plain description of one stored object, and the
//! object-name rule that extracts a display name from a key path.

use vstd::prelude::*;
use vstd::string::*;

verus! {

/// The index of the last occurrence of `c` in `s`, or -1 when it does not
/// occur.
pub open spec fn last_idx_of(s: Seq<char>, c: char) -> int
    decreases s.len(),
{
    if s.len() == 0 {
        -1
    } else if s.last() == c {
        s.len() - 1
    } else {
        last_idx_of(s.drop_last(), c)
    }
}

/// The object name of a key path: the segment after the last slash when
/// it is non-empty, otherwise the segment between the last two slashes
/// (so a directory key ending in a slash is named by its own segment).
pub open spec fn object_name_of(s: Seq<char>) -> Seq<char> {
    let d = last_idx_of(s, '/');
    if d == -1 {
        s
    } else if d + 1 < s.len() {
        s.skip(d + 1)
    } else {
        let d2 = last_idx_of(s.take(d), '/');
        if d2 == -1 {
            s.take(d)
        } else {
            s.subrange(d2 + 1, d)
        }
    }
}

/// `last_idx_of` is characterized by its position: it points at an
/// occurrence after which none follows, or is -1 when there is none.
proof fn lemma_last_idx_at(s: Seq<char>, c: char, d: int)
    requires
        -1 <= d < s.len(),
        d >= 0 ==> s[d] == c,
        forall|j: int| d < j < s.len() ==> s[j] != c,
    ensures
        last_idx_of(s, c) == d,
    decreases s.len(),
{
    if s.len() > 0 && s.last() != c {
        lemma_last_idx_at(s.drop_last(), c, d);
    }
}

/// Get an object's display name from its key.
pub fn object_name(key: &str) -> (r: String)
    ensures
        r@ == object_name_of(key@),
{
    let n = key.unicode_len();
    let mut i: usize = n;
    while i > 0
        invariant
            i <= n,
            n == key@.len(),
            forall|j: int| i <= j < n ==> key@[j] != '/',
        decreases i,
    {
        if key.get_char(i - 1) == '/' {
            let d = i - 1;
            proof {
                lemma_last_idx_at(key@, '/', d as int);
            }
            if d + 1 < n {
                // The segment after the last slash is non-empty.
                let seg = key.substring_char(d + 1, n);
                proof {
                    assert(seg@ =~= key@.skip(d + 1));
                }
                return String::from_str(seg);
            }
            // The key ends in a slash: name it by the segment before it.
            let mut k: usize = d;
            while k > 0
                invariant
                    k <= d,
                    d + 1 == n,
                    n == key@.len(),
                    key@[d as int] == '/',
                    forall|j: int| d < j < n ==> key@[j] != '/',
                    forall|j: int| k <= j < d ==> key@[j] != '/',
                decreases k,
            {
                if key.get_char(k - 1) == '/' {
                    proof {
                        assert(key@.take(d as int)[k - 1] == '/');
                        lemma_last_idx_at(key@.take(d as int), '/', k - 1);
                        lemma_last_idx_at(key@, '/', d as int);
                    }
                    let seg = key.substring_char(k, d);
                    return String::from_str(seg);
                }
                k = k - 1;
            }
            proof {
                lemma_last_idx_at(key@.take(d as int), '/', -1);
                lemma_last_idx_at(key@, '/', d as int);
            }
            let seg = key.substring_char(0, d);
            proof {
                assert(seg@ =~= key@.take(d as int));
            }
            return String::from_str(seg);
        }
        i = i - 1;
    }
    proof {
        lemma_last_idx_at(key@, '/', -1);
    }
    String::from_str(key)
}

/// One stored object, described by plain values: its display name, its
/// key path, its size in bytes, its last-modified stamp as the store
/// reported it, and whether the key names a directory.
#[derive(Debug)]
pub struct S3File {
    pub name: String,
    pub path: String,
    pub size: usize,
    pub last_modified: String,
    pub is_dir: bool,
}

impl S3File {
    /// Describe one stored object from its key, size and last-modified
    /// stamp: the display name follows the object-name rule, and a key
    /// ending in a slash names a directory.
    pub fn new(key: &str, size: usize, last_modified: String) -> (r: S3File)
        ensures
            r.name@ == object_name_of(key@),
            r.path@ == key@,
            r.size == size,
            r.last_modified@ == last_modified@,
            r.is_dir == (key@.len() > 0 && key@.last() == '/'),
    {
        let n = key.unicode_len();
        let is_dir = n > 0 && key.get_char(n - 1) == '/';
        S3File {
            name: object_name(key),
            path: String::from_str(key),
            size,
            last_modified,
            is_dir,
        }
    }
}

} // verus!
