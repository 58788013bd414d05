//! The address type, its validation rules, its equality, and its
//! shortened rendering.

use vstd::prelude::*;

verus! {

/// The single string accepted without satisfying the format invariant:
/// a placeholder identity for contexts where a real address is unavailable.
pub open spec fn is_sentinel(s: Seq<char>) -> bool {
    s == "Test"@
}

/// The ordinary format invariant: 26 to 34 characters, the first one '1'.
pub open spec fn format_valid(s: Seq<char>) -> bool {
    &&& 26 <= s.len() <= 34
    &&& s[0] == '1'
}

/// A string is accepted as an address when it satisfies the format
/// invariant or is the sentinel.
pub open spec fn valid(s: Seq<char>) -> bool {
    is_sentinel(s) || format_valid(s)
}

/// Why a string was rejected as an address.
#[derive(Debug, Clone, Copy, PartialEq, Eq, Structural)]
pub enum AddressError {
    /// The character count falls outside the accepted range; carries the
    /// observed count.
    InvalidLength(usize),
    /// The length is acceptable but the first character is wrong; carries
    /// the observed character.
    InvalidStartingCharacter(char),
}

/// A validated network participant address, wrapping its canonical
/// textual form. The string is never altered after construction; every
/// derived rendering is a new value.
#[derive(Debug, Clone, Eq, Hash)]
pub struct Address(pub String);

impl View for Address {
    type V = Seq<char>;

    open spec fn view(&self) -> Seq<char> {
        self.0@
    }
}

/// Two addresses are equal exactly when their canonical strings are
/// equal, character for character; the derived hash is consistent with
/// that equality, as required for use as a key in hashed containers.
impl PartialEq for Address {
    fn eq(&self, other: &Address) -> (r: bool) {
        self.0 == other.0
    }
}

impl vstd::std_specs::cmp::PartialEqSpecImpl for Address {
    open spec fn obeys_eq_spec() -> bool {
        true
    }

    open spec fn eq_spec(&self, other: &Address) -> bool {
        self.0@ == other.0@
    }
}

impl Address {
    /// Validates a raw string into an address.
    ///
    /// The sentinel is accepted first, unconditionally; otherwise the
    /// length and then the first character are checked, and the string
    /// is wrapped verbatim: no trimming, no normalization.
    pub fn from_str(s: &str) -> (r: Result<Address, AddressError>)
        ensures
            match r {
                Ok(a) => valid(s@) && a@ == s@,
                Err(e) => !valid(s@) && match e {
                    AddressError::InvalidLength(n) => !is_sentinel(s@)
                        && !(26 <= s@.len() <= 34)
                        && n == s@.len(),
                    AddressError::InvalidStartingCharacter(c) => !is_sentinel(s@)
                        && 26 <= s@.len() <= 34
                        && c == s@[0]
                        && c != '1',
                },
            },
    {
        let owned: String = s.to_owned();
        let sentinel: String = "Test".to_owned();
        if owned == sentinel {
            return Ok(Address(owned));
        }
        let len: usize = owned.as_str().unicode_len();
        if len < 26 || len > 34 {
            return Err(AddressError::InvalidLength(len));
        }
        let first: char = owned.as_str().get_char(0);
        if first != '1' {
            return Err(AddressError::InvalidStartingCharacter(first));
        }
        Ok(Address(owned))
    }

    /// The shortened human-readable rendering: the first six and the
    /// last five characters joined by an ellipsis. The tail keeps five
    /// characters, one more than the prefix/suffix symmetry would
    /// suggest; consumers observe exactly this output, so the asymmetry
    /// is kept as it is. The sentinel is returned unchanged.
    ///
    /// The string must be long enough for both slices; validated
    /// addresses always are, and calling this on a shorter unvalidated
    /// string is a caller error, not a recoverable one.
    pub fn get_address_short(&self) -> (r: String)
        requires
            is_sentinel(self@) || self@.len() >= 6,
        ensures
            is_sentinel(self@) ==> r@ == self@,
            !is_sentinel(self@) ==> r@ == self@.subrange(0, 6) + "..."@ + self@.subrange(
                self@.len() - 5,
                self@.len() as int,
            ),
    {
        let sentinel: String = "Test".to_owned();
        if self.0 == sentinel {
            return self.0.clone();
        }
        let l: usize = self.0.as_str().unicode_len();
        let front: &str = self.0.as_str().substring_char(0, 6);
        let back: &str = self.0.as_str().substring_char(l - 5, l);
        let mut out: String = front.to_owned();
        out.append("...");
        out.append(back);
        out
    }
}

} // verus!
