//! The text codec: an address travels through the interchange format as
//! a single string scalar (a JSON string), and every inbound conversion
//! re-validates it before a live [`Address`] comes out.

use vstd::prelude::*;

use crate::address::{format_valid, Address};

verus! {

/// The JSON string scalar that encodes a given string value: opening and
/// closing quote around the escaped characters. The encoding is a function
/// of the characters alone.
pub uninterp spec fn json_text_of(s: Seq<char>) -> Seq<char>;

/// Relies on serde_json::to_string for &str: it emits the JSON string
/// scalar encoding the value, a deterministic function of the input
/// characters, and for a string value it never fails (its documentation
/// reserves failure for failing Serialize impls and non-string map keys).
#[verifier::external_body]
fn encode_json_str(s: &str) -> (r: String)
    ensures
        r@ == json_text_of(s@),
{
    serde_json::to_string(s).expect("serializing a string value does not fail")
}

/// Relies on serde_json::from_str::<String>: it decodes a JSON string
/// scalar, and on the exact output of serde_json::to_string for a string
/// value it succeeds and returns that value (the serialize/deserialize
/// round trip).
#[verifier::external_body]
fn decode_json_str(t: &str) -> (r: Option<String>)
    ensures
        (exists|s: Seq<char>| t@ == json_text_of(s)) ==> r is Some,
        r matches Some(v) ==> forall|s: Seq<char>| t@ == json_text_of(s) ==> v@ == s,
{
    serde_json::from_str::<String>(t).ok()
}

/// Why an inbound text scalar was rejected.
#[derive(Debug, Clone, Copy, PartialEq, Eq, Structural)]
pub enum CodecError {
    /// The text is not a well-formed string scalar of the interchange
    /// format.
    Malformed,
    /// The decoded string's character count falls outside the accepted
    /// range; carries the observed count.
    InvalidLength(usize),
    /// The decoded string's length is acceptable but its first character
    /// is wrong; carries the observed character.
    InvalidStartingCharacter(char),
}

/// What decoding yields for a given decoded string value: the codec's own
/// length and first-character checks come first, then the validator, which
/// accepts every string that passes them. The sentinel never reaches the
/// validator on this path: its length is rejected first.
pub open spec fn text_outcome(s: Seq<char>) -> Result<Seq<char>, CodecError> {
    if !(26 <= s.len() <= 34) {
        Err(CodecError::InvalidLength(s.len() as usize))
    } else if s[0] != '1' {
        Err(CodecError::InvalidStartingCharacter(s[0]))
    } else {
        Ok(s)
    }
}

impl Address {
    /// Emits the canonical string as a text scalar of the interchange
    /// format.
    pub fn to_text(&self) -> (r: String)
        ensures
            r@ == json_text_of(self@),
    {
        encode_json_str(self.0.as_str())
    }

    /// Reads a text scalar and re-validates it: the length and the first
    /// character are checked, then the validator parses the string. No
    /// inbound address bypasses validation, whatever its source.
    pub fn from_text(t: &str) -> (r: Result<Address, CodecError>)
        ensures
            forall|s: Seq<char>| t@ == json_text_of(s) ==> (match r {
                Ok(a) => text_outcome(s) == Ok::<Seq<char>, CodecError>(a@),
                Err(e) => text_outcome(s) == Err::<Seq<char>, CodecError>(e),
            }),
            r matches Ok(a) ==> format_valid(a@),
    {
        let decoded: Option<String> = decode_json_str(t);
        let v: String = match decoded {
            Some(v) => v,
            None => {
                return Err(CodecError::Malformed);
            },
        };
        let len: usize = v.as_str().unicode_len();
        if len < 26 || len > 34 {
            return Err(CodecError::InvalidLength(len));
        }
        let first: char = v.as_str().get_char(0);
        if first != '1' {
            return Err(CodecError::InvalidStartingCharacter(first));
        }
        match Address::from_str(v.as_str()) {
            Ok(a) => Ok(a),
            Err(_) => unreached(),
        }
    }
}

/// Round-trip law: decoding the text encoding of a format-valid address
/// yields it back unchanged. Together with the contracts of
/// [`Address::to_text`] and [`Address::from_text`] this gives
/// `from_text(to_text(a))` equal to `Ok(a)` for every format-valid `a`.
/// The sentinel is excluded: the codec rejects its length before the
/// validator could accept it.
pub proof fn lemma_text_round_trip(a: Address)
    requires
        format_valid(a@),
    ensures
        text_outcome(a@) == Ok::<Seq<char>, CodecError>(a@),
{
}

} // verus!
