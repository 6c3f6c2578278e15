//! Text on its way across the boundary: NUL-terminated bytes going out, and a
//! NUL-terminated buffer read as UTF-8 coming back.

use crate::error::Error;
use std::string::FromUtf8Error;
use vstd::prelude::*;
use vstd::slice::slice_subrange;
use vstd::slice::slice_to_vec;
use vstd::utf8::decode_utf8;
use vstd::utf8::encode_utf8_decode_utf8;
use vstd::utf8::char_is_scalar;
use vstd::utf8::char_u32_cast;
use vstd::utf8::encode_scalar;
use vstd::utf8::encode_utf8;
use vstd::utf8::has_width_1_encoding;
use vstd::utf8::is_scalar;
use vstd::utf8::leading_byte_width_1;
use vstd::utf8::valid_utf8;

verus! {

/// Whether a NUL byte stands among the bytes.
pub open spec fn has_nul(bytes: Seq<u8>) -> bool {
    exists|i: int| 0 <= i < bytes.len() && bytes[i] == 0u8
}

/// The bytes with the terminating NUL behind them.
pub open spec fn terminated(bytes: Seq<u8>) -> Seq<u8> {
    bytes.push(0u8)
}

/// How many bytes stand before the first NUL of the buffer; all of them where it holds none.
pub open spec fn c_len(buffer: Seq<u8>) -> nat
    decreases buffer.len(),
{
    if buffer.len() == 0 || buffer[0] == 0u8 {
        0
    } else {
        1 + c_len(buffer.drop_first())
    }
}

/// The bytes of the string that the buffer starts with: those before its first NUL.
pub open spec fn c_bytes(buffer: Seq<u8>) -> Seq<u8> {
    buffer.take(c_len(buffer) as int)
}

/// Whether the string that the buffer starts with is `n` bytes long: no NUL
/// stands before position `n`, and the first NUL stands there, or the buffer ends.
pub open spec fn ends_at(buffer: Seq<u8>, n: int) -> bool {
    &&& 0 <= n <= buffer.len()
    &&& forall|i: int| 0 <= i < n ==> buffer[i] != 0u8
    &&& n < buffer.len() ==> buffer[n] == 0u8
}

proof fn lemma_ends_at_c_len(buffer: Seq<u8>)
    ensures
        ends_at(buffer, c_len(buffer) as int),
    decreases buffer.len(),
{
    if buffer.len() != 0 && buffer[0] != 0u8 {
        let rest = buffer.drop_first();
        lemma_ends_at_c_len(rest);
        let n = c_len(buffer) as int;
        assert forall|i: int| 0 <= i < n implies buffer[i] != 0u8 by {
            if i > 0 {
                assert(buffer[i] == rest[i - 1]);
            }
        }
    }
}

/// `c_len` is the one length at which the string of the buffer ends.
pub proof fn lemma_c_len(buffer: Seq<u8>, n: int)
    ensures
        c_len(buffer) == n <==> ends_at(buffer, n),
{
    lemma_ends_at_c_len(buffer);
}

/// The string that a buffer starts with holds no NUL.
pub proof fn lemma_c_bytes_hold_no_nul(buffer: Seq<u8>)
    ensures
        !has_nul(c_bytes(buffer)),
{
    lemma_ends_at_c_len(buffer);
}

/// What is written is what is read: the string that the engine finds in the
/// terminated bytes of a text is the text, and a terminated text that holds a
/// NUL is cut short at it.
pub proof fn lemma_terminated_reads_back(bytes: Seq<u8>)
    ensures
        c_bytes(terminated(bytes)) == bytes <==> !has_nul(bytes),
{
    let buffer = terminated(bytes);
    if !has_nul(bytes) {
        lemma_c_len(buffer, bytes.len() as int);
        assert(buffer.take(bytes.len() as int) == bytes);
    } else {
        lemma_c_bytes_hold_no_nul(buffer);
    }
}

proof fn lemma_marked_byte_is_not_nul(mark: u8, bits: u8)
    by (bit_vector)
    requires
        mark >= 0x80,
    ensures
        mark | bits != 0,
{
}

proof fn lemma_scalar_nul(scalar: u32)
    requires
        is_scalar(scalar),
    ensures
        has_nul(encode_scalar(scalar)) <==> scalar == 0,
{
    let bytes = encode_scalar(scalar);
    if has_width_1_encoding(scalar) {
        assert((scalar & 0x7F) as u8 == 0u8 <==> scalar == 0) by (bit_vector)
            requires
                scalar <= 0x7F,
        ;
        assert(bytes[0] == leading_byte_width_1(scalar));
    } else {
        lemma_marked_byte_is_not_nul(0xC0, ((scalar >> 6) & 0x1F) as u8);
        lemma_marked_byte_is_not_nul(0xE0, ((scalar >> 12) & 0x0F) as u8);
        lemma_marked_byte_is_not_nul(0xF0, ((scalar >> 18) & 0x7) as u8);
        lemma_marked_byte_is_not_nul(0x80, (scalar & 0x3F) as u8);
        lemma_marked_byte_is_not_nul(0x80, ((scalar >> 6) & 0x3F) as u8);
        lemma_marked_byte_is_not_nul(0x80, ((scalar >> 12) & 0x3F) as u8);
    }
}

/// A NUL byte stands in the UTF-8 bytes of a text exactly where the text holds
/// the character NUL: no other character has a zero byte in its encoding.
pub proof fn lemma_nul_byte_is_nul_char(text: Seq<char>)
    ensures
        has_nul(encode_utf8(text)) <==> text.contains('\0'),
    decreases text.len(),
{
    if text.len() > 0 {
        let first = encode_scalar(text[0] as u32);
        let rest = text.drop_first();
        let bytes = encode_utf8(text);
        char_is_scalar(text[0]);
        lemma_scalar_nul(text[0] as u32);
        lemma_nul_byte_is_nul_char(rest);
        if has_nul(first) {
            let i = choose|i: int| 0 <= i < first.len() && first[i] == 0u8;
            assert(bytes[i] == 0u8);
            char_u32_cast(text[0], 0u32);
        }
        if has_nul(encode_utf8(rest)) {
            let i = choose|i: int| 0 <= i < encode_utf8(rest).len() && encode_utf8(rest)[i] == 0u8;
            assert(bytes[first.len() + i] == 0u8);
        }
        if text.contains('\0') {
            let k = choose|k: int| 0 <= k < text.len() && text[k] == '\0';
            if k > 0 {
                assert(rest[k - 1] == '\0');
            }
        }
    }
}

/// What std reports where bytes are not UTF-8. The binding reads nothing from it.
#[verifier::external_type_specification]
#[verifier::external_body]
pub struct ExFromUtf8Error(FromUtf8Error);

/// `String::from_utf8` of std turns the bytes into a string exactly where
/// they are well-formed UTF-8, and the string is then made of these bytes.
pub assume_specification[ String::from_utf8 ](vec: Vec<u8>) -> (text: Result<String, FromUtf8Error>)
    ensures
        text is Ok <==> valid_utf8(vec@),
        text matches Ok(s) ==> encode_utf8(s@) == vec@,
;

/// Whether the text holds a NUL byte, and so cannot cross the boundary.
pub fn contains_nul(text: &str) -> (found: bool)
    ensures
        found == has_nul(encode_utf8(text@)),
{
    let bytes = text.as_bytes();
    let mut i: usize = 0;
    while i < bytes.len()
        invariant
            bytes@ == encode_utf8(text@),
            i <= bytes.len(),
            forall|j: int| 0 <= j < i ==> bytes@[j] != 0u8,
        decreases bytes.len() - i,
    {
        if bytes[i] == 0 {
            return true;
        }
        i += 1;
    }
    false
}

/// Text ready to cross the boundary: UTF-8 bytes that hold no NUL, kept with
/// the terminating NUL behind them.
#[derive(Debug, PartialEq, Eq)]
pub struct CText {
    bytes: Vec<u8>,
}

impl View for CText {
    type V = Seq<u8>;

    /// The bytes of the text, without the terminator.
    closed spec fn view(&self) -> Seq<u8> {
        self.bytes@.drop_last()
    }
}

impl CText {
    #[verifier::type_invariant]
    spec fn well_formed(self) -> bool {
        &&& self.bytes@.len() > 0
        &&& self.bytes@.last() == 0u8
        &&& !has_nul(self.bytes@.drop_last())
    }

    /// The text with the terminating NUL behind it. Text that holds a NUL byte is refused.
    pub fn new(text: &str) -> (encoded: Result<CText, Error>)
        ensures
            match encoded {
                Ok(c_text) => !has_nul(encode_utf8(text@)) && c_text@ == encode_utf8(text@),
                Err(e) => has_nul(encode_utf8(text@)) && e == Error::InvalidInput,
            },
    {
        if contains_nul(text) {
            Err(Error::InvalidInput)
        } else {
            Ok(CText::terminate(text))
        }
    }

    /// The text with the terminating NUL behind it, for text that holds no NUL byte.
    pub(crate) fn terminate(text: &str) -> (c_text: CText)
        requires
            !has_nul(encode_utf8(text@)),
        ensures
            c_text@ == encode_utf8(text@),
    {
        let mut bytes = slice_to_vec(text.as_bytes());
        bytes.push(0);
        CText { bytes }
    }

    /// The bytes to hand to the engine: the text, then the one NUL that ends it.
    pub fn as_bytes_with_nul(&self) -> (bytes: &[u8])
        ensures
            bytes@ == terminated(self@),
            !has_nul(self@),
    {
        proof {
            use_type_invariant(self);
        }
        self.bytes.as_slice()
    }
}

/// The length of the C string that the buffer starts with.
pub fn c_str_len(buffer: &[u8]) -> (n: usize)
    ensures
        n == c_len(buffer@),
        n <= buffer@.len(),
{
    let mut i: usize = 0;
    while i < buffer.len() && buffer[i] != 0
        invariant
            i <= buffer.len(),
            forall|j: int| 0 <= j < i ==> buffer@[j] != 0u8,
        decreases buffer.len() - i,
    {
        i += 1;
    }
    proof {
        lemma_c_len(buffer@, i as int);
    }
    i
}

/// The C string that the buffer starts with, copied out as text.
/// Bytes that are not UTF-8 are refused. The text holds no NUL byte, so it
/// can cross the boundary again.
pub fn from_c_buffer(buffer: &[u8]) -> (decoded: Result<String, Error>)
    ensures
        match decoded {
            Ok(text) => {
                &&& valid_utf8(c_bytes(buffer@))
                &&& text@ == decode_utf8(c_bytes(buffer@))
                &&& !has_nul(encode_utf8(text@))
            },
            Err(e) => !valid_utf8(c_bytes(buffer@)) && e == Error::InvalidEncoding,
        },
{
    let n = c_str_len(buffer);
    let bytes = slice_to_vec(slice_subrange(buffer, 0, n));
    match String::from_utf8(bytes) {
        Ok(text) => {
            proof {
                encode_utf8_decode_utf8(text@);
                lemma_c_bytes_hold_no_nul(buffer@);
            }
            Ok(text)
        },
        Err(_) => Err(Error::InvalidEncoding),
    }
}

} // verus!
