//! Standard base64 decoding of the payload: the mathematical description of
//! which strings are canonical base64 and which bytes they denote, and the
//! executable decoder proved against it.

use vstd::prelude::*;
use vstd::string::StrSliceExecFns;
use crate::error::FileWriteError;

verus! {

/// The six-bit value a character denotes in the standard base64 alphabet
/// (`A`-`Z`, `a`-`z`, `0`-`9`, `+`, `/`), or `-1` for any other character.
pub open spec fn base64_char_value(c: char) -> int {
    let u = c as int;
    if 'A' as int <= u && u <= 'Z' as int {
        u - 'A' as int
    } else if 'a' as int <= u && u <= 'z' as int {
        u - 'a' as int + 26
    } else if '0' as int <= u && u <= '9' as int {
        u - '0' as int + 52
    } else if u == '+' as int {
        62
    } else if u == '/' as int {
        63
    } else {
        -1
    }
}

/// Whether `c` belongs to the standard base64 alphabet (padding excluded).
pub open spec fn is_base64_char(c: char) -> bool {
    base64_char_value(c) >= 0
}

/// How many `=` padding characters end `s`: 0, 1 or 2 (a longer run of `=`
/// is never canonical, so two is all that padding can account for).
pub open spec fn pad_len(s: Seq<char>) -> int {
    if s.len() >= 1 && s[s.len() - 1] == '=' {
        if s.len() >= 2 && s[s.len() - 2] == '=' {
            2
        } else {
            1
        }
    } else {
        0
    }
}

/// Whether `s` is canonical standard base64: a multiple of four characters,
/// every character before the padding drawn from the alphabet, and the bits
/// of the final symbol that padding discards all zero.
pub open spec fn is_valid_base64(s: Seq<char>) -> bool {
    &&& s.len() % 4 == 0
    &&& forall|i: int| 0 <= i < s.len() - pad_len(s) ==> is_base64_char(s[i])
    &&& (pad_len(s) == 1 ==> base64_char_value(s[s.len() - 2]) % 4 == 0)
    &&& (pad_len(s) == 2 ==> base64_char_value(s[s.len() - 3]) % 16 == 0)
}

/// The three bytes denoted by a group of four base64 symbols with the
/// six-bit values `v0` to `v3`.
pub open spec fn quad_bytes(v0: int, v1: int, v2: int, v3: int) -> Seq<u8> {
    seq![
        (v0 * 4 + v1 / 16) as u8,
        ((v1 % 16) * 16 + v2 / 4) as u8,
        ((v2 % 4) * 64 + v3) as u8,
    ]
}

/// The bytes denoted by the final group of four characters, where `=`
/// padding shortens the output to two bytes or one.
pub open spec fn final_quad_bytes(s: Seq<char>) -> Seq<u8> {
    let v0 = base64_char_value(s[0]);
    let v1 = base64_char_value(s[1]);
    let v2 = base64_char_value(s[2]);
    if s[3] == '=' {
        if s[2] == '=' {
            seq![(v0 * 4 + v1 / 16) as u8]
        } else {
            seq![(v0 * 4 + v1 / 16) as u8, ((v1 % 16) * 16 + v2 / 4) as u8]
        }
    } else {
        quad_bytes(v0, v1, v2, base64_char_value(s[3]))
    }
}

/// The bytes a canonical base64 string denotes: each complete group of four
/// symbols contributes three bytes, and padding in the final group shortens
/// its contribution. On strings that are not valid base64 the value is
/// immaterial, since the decoder rejects them.
pub open spec fn base64_decoding(s: Seq<char>) -> Seq<u8>
    decreases s.len(),
{
    if s.len() < 4 {
        Seq::empty()
    } else if s.len() == 4 {
        final_quad_bytes(s)
    } else {
        quad_bytes(
            base64_char_value(s[0]),
            base64_char_value(s[1]),
            base64_char_value(s[2]),
            base64_char_value(s[3]),
        ) + base64_decoding(s.skip(4))
    }
}

/// Relies on `base64::Engine::decode` with the `general_purpose::STANDARD`
/// engine: it accepts exactly the canonical standard-alphabet encodings
/// (required `=` padding, no nonzero trailing bits) and returns the bytes
/// they denote; any other input is rejected with a description of the flaw.
#[verifier::external_body]
fn decode_standard(data: &str) -> (r: Result<Vec<u8>, String>)
    ensures
        r is Ok <==> is_valid_base64(data@),
        r matches Ok(bytes) ==> bytes@ == base64_decoding(data@),
{
    base64::Engine::decode(&base64::engine::general_purpose::STANDARD, data)
        .map_err(|e| e.to_string())
}

/// Decodes the base64 payload `data` to the raw bytes it denotes.
///
/// Succeeds exactly on canonical standard base64 and then returns its
/// decoding; every other payload is rejected with a decode error, and
/// nothing else can go wrong here.
pub fn decode_payload(data: &str) -> (result: Result<Vec<u8>, FileWriteError>)
    ensures
        result is Ok <==> is_valid_base64(data@),
        result matches Ok(bytes) ==> bytes@ == base64_decoding(data@),
        result matches Err(e) ==> e is Decode,
{
    match decode_standard(data) {
        Ok(bytes) => Ok(bytes),
        Err(detail) => Err(FileWriteError::Decode(detail)),
    }
}

/// The six-bit value of `c` in the standard base64 alphabet, or `-1` for a
/// character outside it.
fn char_value(c: char) -> (v: i8)
    ensures
        v as int == base64_char_value(c),
{
    let u = c as u32;
    if 65 <= u && u <= 90 {
        (u - 65) as i8
    } else if 97 <= u && u <= 122 {
        (u - 97 + 26) as i8
    } else if 48 <= u && u <= 57 {
        (u - 48 + 52) as i8
    } else if u == 43 {
        62
    } else if u == 47 {
        63
    } else {
        -1
    }
}

/// Checks whether `data` is canonical standard base64 without decoding it:
/// this accepts exactly the payloads that `decode_payload` decodes.
pub fn is_valid_payload(data: &str) -> (valid: bool)
    ensures
        valid == is_valid_base64(data@),
{
    let n = data.unicode_len();
    if n % 4 != 0 {
        return false;
    }
    if n == 0 {
        return true;
    }
    let pad: usize = if data.get_char(n - 1) == '=' {
        if data.get_char(n - 2) == '=' {
            2
        } else {
            1
        }
    } else {
        0
    };
    assert(pad == pad_len(data@));
    let mut i: usize = 0;
    while i < n - pad
        invariant
            n == data@.len(),
            n % 4 == 0,
            4 <= n,
            pad == pad_len(data@),
            0 <= pad <= 2,
            0 <= i <= n - pad,
            forall|j: int| 0 <= j < i ==> is_base64_char(data@[j]),
        decreases n - pad - i,
    {
        if char_value(data.get_char(i)) < 0 {
            return false;
        }
        i += 1;
    }
    if pad == 1 && char_value(data.get_char(n - 2)) % 4 != 0 {
        return false;
    }
    if pad == 2 && char_value(data.get_char(n - 3)) % 16 != 0 {
        return false;
    }
    true
}

/// A payload containing any character that is neither in the base64
/// alphabet nor the `=` padding character is never canonical base64, so
/// `decode_payload` rejects it and the operation writes nothing.
pub proof fn lemma_foreign_char_never_valid(s: Seq<char>, i: int)
    requires
        0 <= i < s.len(),
        !is_base64_char(s[i]),
        s[i] != '=',
    ensures
        !is_valid_base64(s),
{
    if is_valid_base64(s) {
        if i < s.len() - pad_len(s) {
            assert(is_base64_char(s[i]));
        } else {
            assert(s[i] == '=');
        }
    }
}

} // verus!
