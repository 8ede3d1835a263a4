//! Owned, null-terminated UTF-8 text buffers.

use vstd::prelude::*;
use vstd::string::StringSliceAdditionalSpecFns;
use vstd::utf8::{decode_utf8, encode_utf8, encode_utf8_decode_utf8, encode_utf8_valid_utf8, valid_utf8};

verus! {

/// True when no byte of `b` is the NUL byte.
pub open spec fn nul_free(b: Seq<u8>) -> bool {
    forall|i: int| 0 <= i < b.len() ==> #[trigger] b[i] != 0u8
}

/// The bytes of a C string holding `s`: its UTF-8 encoding and one NUL byte.
pub open spec fn c_bytes_of(s: Seq<char>) -> Seq<u8> {
    encode_utf8(s).push(0u8)
}

/// The text that a C string with the bytes `b` holds: the bytes before its
/// terminator, read as UTF-8.
pub open spec fn text_of(b: Seq<u8>) -> Seq<char> {
    decode_utf8(b.drop_last())
}

/// Why a text could not become a C string.
#[derive(Clone, Copy, Debug, PartialEq, Eq, Structural)]
pub enum TextError {
    /// The text holds a NUL byte, which would end the C string early.
    InteriorNul,
}

/// An owned C string: UTF-8 bytes followed by exactly one NUL byte, which
/// is the last byte. A value of this type is never empty, so a pointer made
/// from it is never the null pointer.
pub struct CText {
    bytes: Vec<u8>,
}

impl View for CText {
    type V = Seq<u8>;

    closed spec fn view(&self) -> Seq<u8> {
        self.bytes@
    }
}

impl CText {
    /// Well-formed: at least the terminator, which is the only NUL byte,
    /// and valid UTF-8 before it.
    pub open spec fn wf(&self) -> bool {
        &&& self@.len() >= 1
        &&& self@.last() == 0u8
        &&& nul_free(self@.drop_last())
        &&& valid_utf8(self@.drop_last())
    }

    /// The bytes of the buffer, terminator included.
    pub fn as_bytes(&self) -> (r: &[u8])
        ensures
            r@ == self@,
    {
        self.bytes.as_slice()
    }

    /// The buffer's bytes, handed over to the caller.
    pub fn into_bytes(self) -> (r: Vec<u8>)
        ensures
            r@ == self@,
    {
        self.bytes
    }

    /// The C string of the empty text: a single NUL byte.
    pub fn empty() -> (r: CText)
        ensures
            r.wf(),
            r@ == c_bytes_of(Seq::empty()),
    {
        let mut bytes: Vec<u8> = Vec::new();
        bytes.push(0u8);
        proof {
            assert(encode_utf8(Seq::<char>::empty()) =~= Seq::<u8>::empty());
            assert(bytes@ =~= c_bytes_of(Seq::empty()));
            assert(bytes@.drop_last() =~= Seq::<u8>::empty());
        }
        CText { bytes }
    }
}

/// Copies `input` into a fresh C string of `len(input) + 1` bytes. A text
/// holding a NUL byte cannot be represented and is refused.
pub fn allocate_cstring(input: &str) -> (r: Result<CText, TextError>)
    ensures
        r is Ok <==> nul_free(input.spec_bytes()),
        r matches Ok(c) ==> c.wf() && c@ == c_bytes_of(input@) && c@.len() == input.spec_bytes().len() + 1,
{
    let src: &[u8] = input.as_bytes();
    let mut bytes: Vec<u8> = Vec::new();
    let mut i: usize = 0;
    while i < src.len()
        invariant
            src@ == input.spec_bytes(),
            i <= src@.len(),
            bytes@ == src@.subrange(0, i as int),
            nul_free(bytes@),
        decreases src@.len() - i,
    {
        let b = src[i];
        if b == 0u8 {
            assert(src@[i as int] == 0u8);
            return Err(TextError::InteriorNul);
        }
        bytes.push(b);
        i = i + 1;
        assert(bytes@ =~= src@.subrange(0, i as int));
    }
    proof {
        assert(bytes@ =~= src@);
        encode_utf8_valid_utf8(input@);
    }
    bytes.push(0u8);
    proof {
        assert(bytes@.drop_last() =~= src@);
    }
    Ok(CText { bytes })
}

/// Relies on `String::from_utf8`: it succeeds exactly on valid UTF-8, and
/// the string it returns has those bytes as its encoding.
#[verifier::external_body]
fn string_from_utf8(b: Vec<u8>) -> (r: Option<String>)
    ensures
        r is Some <==> valid_utf8(b@),
        r matches Some(s) ==> encode_utf8(s@) == b@,
{
    String::from_utf8(b).ok()
}

/// Reads UTF-8 bytes as text; bytes that are not valid UTF-8 give `None`.
pub fn decode_text(b: Vec<u8>) -> (r: Option<String>)
    ensures
        r is Some <==> valid_utf8(b@),
        r matches Some(s) ==> s@ == decode_utf8(b@),
{
    let r = string_from_utf8(b);
    proof {
        if r is Some {
            encode_utf8_decode_utf8(r->0@);
        }
    }
    r
}

/// Reads a well-formed C string back as text.
pub fn read_cstring(c: &CText) -> (r: String)
    requires
        c.wf(),
    ensures
        r@ == text_of(c@),
{
    let bytes = c.as_bytes();
    let n: usize = bytes.len() - 1;
    let mut content: Vec<u8> = Vec::new();
    let mut i: usize = 0;
    while i < n
        invariant
            bytes@ == c@,
            n == c@.len() - 1,
            i <= n,
            content@ == c@.subrange(0, i as int),
        decreases n - i,
    {
        content.push(bytes[i]);
        i = i + 1;
        assert(content@ =~= c@.subrange(0, i as int));
    }
    assert(content@ =~= c@.drop_last());
    match decode_text(content) {
        Some(s) => s,
        None => String::new(),
    }
}

/// Text that becomes a C string reads back as the same text.
pub proof fn lemma_cstring_round_trip(s: Seq<char>)
    ensures
        text_of(c_bytes_of(s)) == s,
{
    assert(c_bytes_of(s).drop_last() =~= encode_utf8(s));
    encode_utf8_decode_utf8(s);
}

} // verus!
