use vstd::prelude::*;
use vstd::string::StringSliceAdditionalSpecFns;
use crate::num::{all_digits, digit_val};
use base64::Engine;

verus! {

/// The value of a hex digit byte, zero for anything else.
pub open spec fn hex_val(b: u8) -> u8 {
    match digit_val(b, 16) {
        Some(d) => d,
        None => 0,
    }
}

/// The bytes a hex string denotes: an even number of case-insensitive hex
/// digits, two digits to a byte, most significant first.
pub open spec fn hex_decoded(s: Seq<u8>) -> Option<Seq<u8>> {
    if s.len() % 2 == 0 && all_digits(s, 16) {
        Some(
            Seq::new(
                (s.len() / 2) as nat,
                |i: int| (hex_val(s[2 * i]) * 16 + hex_val(s[2 * i + 1])) as u8,
            ),
        )
    } else {
        None
    }
}

/// Relies on `hex::decode`: the input must be pairs of hex digits, upper or
/// lower case; each pair becomes one byte, and anything else is rejected.
#[verifier::external_body]
pub(crate) fn hex_decode(bytes: &[u8]) -> (r: Option<Vec<u8>>)
    ensures
        match r {
            Some(v) => hex_decoded(bytes@) == Some(v@),
            None => hex_decoded(bytes@) is None,
        },
{
    hex::decode(bytes).ok()
}

/// What decoding a string as standard-alphabet, padded base64 returns, when
/// it decodes at all.
pub uninterp spec fn base64_decoded(s: Seq<char>) -> Option<Seq<u8>>;

/// Relies on base64's `STANDARD` engine (the RFC 4648 alphabet, padding
/// required): the result is a function of the characters alone.
#[verifier::external_body]
pub(crate) fn base64_decode(s: &str) -> (r: Option<Vec<u8>>)
    ensures
        match r {
            Some(v) => base64_decoded(s@) == Some(v@),
            None => base64_decoded(s@) is None,
        },
{
    base64::engine::general_purpose::STANDARD.decode(s).ok()
}

/// Relies on `String::push_str`: appends the characters of `s` to `dst`.
#[verifier::external_body]
pub(crate) fn push_str(dst: &mut String, s: &str)
    ensures
        final(dst)@ == old(dst)@ + s@,
{
    dst.push_str(s);
}

/// A 256-bit hash or address.
#[derive(Debug, Clone)]
pub struct Hash256 {
    pub bytes: Vec<u8>,
}

impl View for Hash256 {
    type V = Seq<u8>;

    open spec fn view(&self) -> Seq<u8> {
        self.bytes@
    }
}

impl Hash256 {
    /// A well-formed hash holds exactly 32 bytes.
    pub open spec fn wf(&self) -> bool {
        self.bytes@.len() == 32
    }
}

/// The 256-bit hash a string denotes: an optional `0x` prefix followed by
/// exactly 64 hex digits.
pub open spec fn hash_of_hex(b: Seq<u8>) -> Option<Seq<u8>> {
    let body = if b.len() >= 2 && b[0] == 48 && b[1] == 120 {
        b.skip(2)
    } else {
        b
    };
    match hex_decoded(body) {
        Some(v) => if v.len() == 32 {
            Some(v)
        } else {
            None
        },
        None => None,
    }
}

/// Parses a 256-bit hash from hex text.
pub fn parse_hash256(s: &str) -> (r: Option<Hash256>)
    ensures
        match r {
            Some(h) => hash_of_hex(s.spec_bytes()) == Some(h@) && h.wf(),
            None => hash_of_hex(s.spec_bytes()) is None,
        },
{
    let bytes = s.as_bytes();
    let body: &[u8] = if bytes.len() >= 2 && bytes[0] == 48 && bytes[1] == 120 {
        &bytes[2..bytes.len()]
    } else {
        bytes
    };
    proof {
        if bytes@.len() >= 2 && bytes@[0] == 48 && bytes@[1] == 120 {
            assert(body@ =~= bytes@.skip(2));
        }
    }
    match hex_decode(body) {
        Some(v) => {
            if v.len() == 32 {
                Some(Hash256 { bytes: v })
            } else {
                None
            }
        },
        None => None,
    }
}

} // verus!
