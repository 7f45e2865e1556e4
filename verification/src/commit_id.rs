//! Commit identifiers: opaque, fixed-length content hashes.

use vstd::prelude::*;
use vstd::string::StrSliceExecFns;

verus! {

/// True for the sixteen characters that may appear in a lowercase
/// hexadecimal commit id.
pub open spec fn is_hex_digit(c: char) -> bool {
    ('0' <= c && c <= '9') || ('a' <= c && c <= 'f')
}

/// A well-formed commit id text: exactly forty lowercase hex digits.
pub open spec fn is_hex_id(s: Seq<char>) -> bool {
    s.len() == 40 && (forall|i: int| 0 <= i < s.len() ==> is_hex_digit(#[trigger] s[i]))
}

/// An opaque, fixed-length content hash identifying a commit object.
/// It is compared and stored, never parsed or interpreted.
pub struct CommitId {
    hex: String,
}

impl View for CommitId {
    type V = Seq<char>;

    closed spec fn view(&self) -> Seq<char> {
        self.hex@
    }
}

impl CommitId {
    /// Every `CommitId` that can be built holds forty lowercase hex digits.
    pub open spec fn wf(&self) -> bool {
        is_hex_id(self@)
    }

    /// Accepts exactly the forty-character lowercase hexadecimal strings.
    pub fn from_hex(s: &str) -> (r: Option<CommitId>)
        ensures
            r matches Some(id) ==> id@ == s@ && id.wf(),
            r is None ==> !is_hex_id(s@),
            is_hex_id(s@) ==> r is Some,
    {
        let n = s.unicode_len();
        if n != 40 {
            return None;
        }
        let mut i: usize = 0;
        while i < 40
            invariant
                0 <= i <= 40,
                s@.len() == 40,
                forall|j: int| 0 <= j < i ==> is_hex_digit(#[trigger] s@[j]),
            decreases 40 - i,
        {
            let c = s.get_char(i);
            if !(('0' <= c && c <= '9') || ('a' <= c && c <= 'f')) {
                return None;
            }
            i += 1;
        }
        Some(CommitId { hex: s.to_owned() })
    }

    /// The id as a string slice of forty hex digits.
    pub fn as_str(&self) -> (r: &str)
        ensures
            r@ == self@,
    {
        self.hex.as_str()
    }

    /// Equality of two ids, decided by their text.
    pub fn eq_id(&self, other: &CommitId) -> (r: bool)
        ensures
            r == (self@ == other@),
    {
        self.hex.eq(&other.hex)
    }
}

impl Clone for CommitId {
    fn clone(&self) -> (r: Self)
        ensures
            r@ == self@,
    {
        CommitId { hex: self.hex.clone() }
    }
}

} // verus!
