//! Small verified text utilities shared by the parsing and planning code.

use vstd::prelude::*;
use vstd::string::StrSliceExecFns;

verus! {

/// True when the characters of `s` starting at `off` spell out `lit`.
pub fn match_at(s: &str, off: usize, lit: &str) -> (r: bool)
    requires
        off + lit@.len() <= s@.len(),
        s@.len() < usize::MAX,
    ensures
        r == (s@.subrange(off as int, off + lit@.len()) == lit@),
{
    let m = lit.unicode_len();
    let mut i: usize = 0;
    while i < m
        invariant
            0 <= i <= m,
            m == lit@.len(),
            off + m <= s@.len(),
            s@.len() < usize::MAX,
            forall|j: int| 0 <= j < i ==> s@[off + j] == lit@[j],
        decreases m - i,
    {
        if s.get_char(off + i) != lit.get_char(i) {
            proof {
                assert(s@.subrange(off as int, off + lit@.len())[i as int] != lit@[i as int]);
            }
            return false;
        }
        i += 1;
    }
    proof {
        assert(s@.subrange(off as int, off + lit@.len()) =~= lit@);
    }
    true
}

/// `needle` occurs somewhere in `hay`.
pub open spec fn spec_contains(hay: Seq<char>, needle: Seq<char>) -> bool {
    exists|i: int|
        0 <= i && i + needle.len() <= hay.len() && #[trigger] hay.subrange(i, i + needle.len())
            == needle
}

/// Substring search, exact in both directions.
pub fn str_contains(hay: &str, needle: &str) -> (r: bool)
    requires
        hay@.len() < usize::MAX - 1,
    ensures
        r == spec_contains(hay@, needle@),
{
    let n = hay.unicode_len();
    let m = needle.unicode_len();
    if m > n {
        return false;
    }
    let mut i: usize = 0;
    while i <= n - m
        invariant
            0 <= i <= n - m + 1,
            m <= n,
            n == hay@.len(),
            m == needle@.len(),
            n < usize::MAX - 1,
            forall|j: int|
                0 <= j < i ==> #[trigger] hay@.subrange(j, j + needle@.len()) != needle@,
        decreases n + 1 - i,
    {
        if match_at(hay, i, needle) {
            return true;
        }
        i += 1;
    }
    false
}

/// Splits at the first occurrence of `sep`, also reporting where it stood:
/// the index of the separator, the text before it, and the text after it.
pub fn split_once_char_at(s: &str, sep: char) -> (r: Option<(usize, String, String)>)
    requires
        s@.len() < usize::MAX,
    ensures
        r matches Some(p) ==> {
            &&& 0 <= p.0 < s@.len()
            &&& s@[p.0 as int] == sep
            &&& (forall|j: int| 0 <= j < p.0 ==> s@[j] != sep)
            &&& p.1@ == s@.subrange(0, p.0 as int)
            &&& p.2@ == s@.subrange(p.0 + 1, s@.len() as int)
        },
        r is None ==> forall|i: int| 0 <= i < s@.len() ==> s@[i] != sep,
{
    let n = s.unicode_len();
    let mut i: usize = 0;
    while i < n
        invariant
            0 <= i <= n,
            n == s@.len(),
            n < usize::MAX,
            forall|j: int| 0 <= j < i ==> s@[j] != sep,
        decreases n - i,
    {
        if s.get_char(i) == sep {
            let left = s.substring_char(0, i).to_owned();
            let right = s.substring_char(i + 1, n).to_owned();
            return Some((i, left, right));
        }
        i += 1;
    }
    None
}

/// Splits at the first occurrence of `sep`: the text before it and the text
/// after it, the separator itself belonging to neither part.
pub fn split_once_char(s: &str, sep: char) -> (r: Option<(String, String)>)
    requires
        s@.len() < usize::MAX,
    ensures
        r matches Some(p) ==> exists|i: int|
            0 <= i < s@.len() && #[trigger] s@[i] == sep && (forall|j: int|
                0 <= j < i ==> s@[j] != sep) && p.0@ == s@.subrange(0, i) && p.1@ == s@.subrange(
                i + 1,
                s@.len() as int,
            ),
        r is None ==> forall|i: int| 0 <= i < s@.len() ==> s@[i] != sep,
{
    match split_once_char_at(s, sep) {
        Some((i, left, right)) => {
            proof {
                assert(0 <= i < s@.len() && s@[i as int] == sep && (forall|j: int|
                    0 <= j < i ==> s@[j] != sep) && left@ == s@.subrange(0, i as int) && right@
                    == s@.subrange(i + 1, s@.len() as int));
            }
            Some((left, right))
        },
        None => None,
    }
}

/// The text of `s` with every occurrence of `from` replaced by `to`.
pub fn replace_char(s: &str, from: char, to: char) -> (r: String)
    requires
        s@.len() < usize::MAX,
    ensures
        r@ == s@.map_values(|c: char| if c == from { to } else { c }),
{
    let ghost mapped = s@.map_values(|c: char| if c == from { to } else { c });
    let n = s.unicode_len();
    let mut out = String::new();
    let mut i: usize = 0;
    while i < n
        invariant
            0 <= i <= n,
            n == s@.len(),
            n < usize::MAX,
            mapped == s@.map_values(|c: char| if c == from { to } else { c }),
            out@ =~= mapped.subrange(0, i as int),
        decreases n - i,
    {
        let c = s.get_char(i);
        if c == from {
            push_one_char(to, &mut out);
        } else {
            out.append(s.substring_char(i, i + 1));
        }
        proof {
            assert(mapped[i as int] == if s@[i as int] == from {
                to
            } else {
                s@[i as int]
            });
            assert(out@ =~= mapped.subrange(0, i + 1));
        }
        i += 1;
    }
    proof {
        assert(out@ =~= mapped);
    }
    out
}

/// Relies on alloc's String::push: appends exactly the one character.
#[verifier::external_body]
pub(crate) fn push_one_char(c: char, out: &mut String)
    ensures
        final(out)@ == old(out)@ + seq![c],
{
    out.push(c);
}

} // verus!
