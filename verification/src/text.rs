//! Conversion between Rust text and the native string representation: the
//! UTF-8 bytes of the text followed by a single terminating NUL byte.
//!
//! Text holding an embedded NUL character cannot be represented and is
//! rejected with [`XError::TextEncodingFailed`]; native bytes that are not
//! valid UTF-8 are rejected the same way on the way back. Both directions
//! are exact, so a round trip returns the original text
//! ([`lemma_text_round_trip`]).

use crate::xerror::{XError, XResult};
use vstd::prelude::*;
use vstd::string::{StrSliceExecFns, StringExecFns};
use vstd::utf8::{
    decode_utf8, encode_scalar, encode_utf8, encode_utf8_decode_utf8, encode_utf8_valid_utf8,
    has_width_1_encoding, leading_byte_width_1, valid_utf8,
};

verus! {

/// The native string representation of a text: its UTF-8 bytes followed by
/// one NUL terminator.
pub open spec fn native_bytes(s: Seq<char>) -> Seq<u8> {
    encode_utf8(s).push(0u8)
}

/// A text value in the native string representation, ready to hand to a
/// native call: the UTF-8 bytes of the text, then one terminating NUL byte,
/// with no NUL anywhere else.
#[derive(Debug)]
pub struct CText {
    pub bytes: Vec<u8>,
}

impl CText {
    /// Well-formedness: non-empty, NUL-terminated, no interior NUL.
    pub open spec fn wf(&self) -> bool {
        &&& self.bytes@.len() >= 1
        &&& self.bytes@.last() == 0u8
        &&& forall|i: int| 0 <= i < self.bytes@.len() - 1 ==> self.bytes@[i] != 0u8
    }

    /// The encoded text: every byte before the terminator.
    pub open spec fn payload(&self) -> Seq<u8> {
        self.bytes@.drop_last()
    }

    /// The raw bytes, terminator included, for handing to a native call.
    pub fn as_bytes(&self) -> (r: &[u8])
        ensures
            r@ == self.bytes@,
            self.wf() ==> r@ == self.payload().push(0u8),
    {
        proof {
            if self.wf() {
                assert(self.bytes@ =~= self.payload().push(0u8));
            }
        }
        self.bytes.as_slice()
    }
}

/// Converts text to the native string representation. Succeeds exactly when
/// the text holds no embedded NUL character; the result is then the UTF-8
/// bytes of the text followed by one NUL terminator.
pub fn c_from_str(s: &str) -> (r: XResult<CText>)
    ensures
        r is Ok <==> !s@.contains('\0'),
        r matches Ok(c) ==> c.wf() && c.payload() == encode_utf8(s@) && c.bytes@ == native_bytes(
            s@,
        ),
        r matches Err(e) ==> e matches XError::TextEncodingFailed(t) && t@ == s@,
{
    let mut bytes = s.as_bytes_vec();
    let mut i: usize = 0;
    while i < bytes.len()
        invariant
            bytes@ == encode_utf8(s@),
            0 <= i <= bytes@.len(),
            forall|j: int| 0 <= j < i ==> bytes@[j] != 0u8,
        decreases bytes@.len() - i,
    {
        if bytes[i] == 0 {
            proof {
                assert(encode_utf8(s@).contains(0u8));
                lemma_encode_utf8_nul(s@);
            }
            return Err(XError::TextEncodingFailed(String::from_str(s)));
        }
        i += 1;
    }
    proof {
        lemma_encode_utf8_nul(s@);
        assert(!encode_utf8(s@).contains(0u8)) by {
            if encode_utf8(s@).contains(0u8) {
                let k = choose|k: int| 0 <= k < bytes@.len() && bytes@[k] == 0u8;
            }
        }
    }
    bytes.push(0);
    let c = CText { bytes };
    proof {
        assert(c.payload() =~= encode_utf8(s@));
        assert(c.bytes@ =~= native_bytes(s@));
    }
    Ok(c)
}

/// Converts bytes read back from a native call (the terminating NUL already
/// stripped) into text. Succeeds exactly when the bytes are valid UTF-8; the
/// result is then exactly the text those bytes encode.
pub fn c_to_string(bytes: Vec<u8>) -> (r: XResult<String>)
    ensures
        r is Ok <==> valid_utf8(bytes@),
        r matches Ok(t) ==> t@ == decode_utf8(bytes@),
        r matches Err(e) ==> e matches XError::TextEncodingFailed(_),
{
    match utf8_to_string(bytes) {
        Some(t) => Ok(t),
        None => Err(
            XError::TextEncodingFailed(String::from_str("native bytes are not valid UTF-8")),
        ),
    }
}

/// Relies on `String::from_utf8`: returns the string whose UTF-8 encoding is
/// the given bytes when they are valid UTF-8, and nothing otherwise.
#[verifier::external_body]
fn utf8_to_string(bytes: Vec<u8>) -> (r: Option<String>)
    ensures
        r matches Some(t) ==> valid_utf8(bytes@) && t@ == decode_utf8(bytes@),
        r is None ==> !valid_utf8(bytes@),
{
    match String::from_utf8(bytes) {
        Ok(t) => Some(t),
        Err(_) => None,
    }
}

/// The UTF-8 encoding of one character holds a NUL byte exactly when the
/// character is the NUL character itself.
proof fn lemma_encode_scalar_nul(c: char)
    ensures
        encode_scalar(c as u32).contains(0u8) <==> c == '\0',
{
    broadcast use vstd::utf8::char_is_scalar, vstd::utf8::char_u32_cast;

    let u = c as u32;
    let e = encode_scalar(u);
    if has_width_1_encoding(u) {
        assert(e =~= seq![leading_byte_width_1(u)]);
        assert(leading_byte_width_1(u) == 0u8 <==> u == 0) by (bit_vector)
            requires
                u <= 0x7f,
        ;
        if u == 0 {
            assert(e[0] == 0u8);
            assert(e.contains(0u8));
            assert(c == '\0');
        } else {
            assert(forall|i: int| 0 <= i < e.len() ==> e[i] != 0u8);
            assert(c as u32 != '\0' as u32);
        }
    } else {
        assert(u != 0);
        assert(c as u32 != '\0' as u32);
        assert(forall|i: int| 0 <= i < e.len() ==> e[i] != 0u8) by {
            lemma_encode_scalar_wide_bytes_nonzero(u);
        }
    }
}

/// Every byte of a 2-, 3- or 4-byte UTF-8 encoding has its high bit set.
proof fn lemma_encode_scalar_wide_bytes_nonzero(u: u32)
    by (bit_vector)
    requires
        u > 0x7f,
    ensures
        0xC0 | ((u >> 6) & 0x1F) as u8 != 0u8,
        0xE0 | ((u >> 12) & 0x0F) as u8 != 0u8,
        0xF0 | ((u >> 18) & 0x7) as u8 != 0u8,
        0x80 | (u & 0x3F) as u8 != 0u8,
        0x80 | ((u >> 6) & 0x3F) as u8 != 0u8,
        0x80 | ((u >> 12) & 0x3F) as u8 != 0u8,
{
}

/// A concatenation holds an element exactly when one of its parts does.
proof fn lemma_concat_contains<A>(a: Seq<A>, b: Seq<A>, x: A)
    ensures
        (a + b).contains(x) <==> a.contains(x) || b.contains(x),
{
    if a.contains(x) {
        let i = choose|i: int| 0 <= i < a.len() && a[i] == x;
        assert((a + b)[i] == x);
    }
    if b.contains(x) {
        let i = choose|i: int| 0 <= i < b.len() && b[i] == x;
        assert((a + b)[a.len() + i] == x);
    }
    if (a + b).contains(x) {
        let i = choose|i: int| 0 <= i < (a + b).len() && (a + b)[i] == x;
        if i < a.len() {
            assert(a[i] == x);
        } else {
            assert(b[i - a.len()] == x);
        }
    }
}

/// The UTF-8 encoding of a text holds a NUL byte exactly when the text holds
/// the NUL character.
pub proof fn lemma_encode_utf8_nul(s: Seq<char>)
    ensures
        encode_utf8(s).contains(0u8) <==> s.contains('\0'),
    decreases s.len(),
{
    if s.len() == 0 {
        assert(!s.contains('\0'));
    } else {
        let head = encode_scalar(s[0] as u32);
        let tail = encode_utf8(s.drop_first());
        lemma_encode_scalar_nul(s[0]);
        lemma_encode_utf8_nul(s.drop_first());
        lemma_concat_contains(head, tail, 0u8);
        assert(s.contains('\0') <==> s[0] == '\0' || s.drop_first().contains('\0')) by {
            if s.drop_first().contains('\0') {
                let i = choose|i: int|
                    0 <= i < s.drop_first().len() && s.drop_first()[i] == '\0';
                assert(s[i + 1] == '\0');
            }
            if s.contains('\0') {
                let i = choose|i: int| 0 <= i < s.len() && s[i] == '\0';
                if i > 0 {
                    assert(s.drop_first()[i - 1] == '\0');
                }
            }
        }
    }
}

/// Round trip: text that holds no embedded NUL character converts to the
/// native representation and back to exactly the original text. Stated over
/// the same functions the contracts of [`c_from_str`] and [`c_to_string`]
/// use: converting such a text succeeds and yields the payload
/// `encode_utf8(text)`, and converting that payload back succeeds and yields
/// the text itself.
pub proof fn lemma_text_round_trip(text: Seq<char>)
    requires
        !text.contains('\0'),
    ensures
        !encode_utf8(text).contains(0u8),
        valid_utf8(encode_utf8(text)),
        decode_utf8(encode_utf8(text)) == text,
{
    lemma_encode_utf8_nul(text);
    encode_utf8_valid_utf8(text);
    encode_utf8_decode_utf8(text);
}

} // verus!
