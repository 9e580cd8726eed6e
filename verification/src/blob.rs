//! The blob as it arrives: hexadecimal text, with or without a `0x` in
//! front, and the bytes that the text stands for.

use vstd::prelude::*;
use vstd::slice::*;
use vstd::string::*;

verus! {

/// Whether a byte is an ASCII hexadecimal digit, in either case.
pub open spec fn is_hex_digit(b: u8) -> bool {
    ||| 0x30 <= b <= 0x39
    ||| 0x41 <= b <= 0x46
    ||| 0x61 <= b <= 0x66
}

/// The value of a hexadecimal digit.
pub open spec fn hex_digit_value(b: u8) -> int {
    if 0x30 <= b <= 0x39 {
        b - 0x30
    } else if 0x41 <= b <= 0x46 {
        b - 0x41 + 10
    } else {
        b - 0x61 + 10
    }
}

/// Whether a text is an even number of hexadecimal digits and nothing else.
pub open spec fn is_hex_text(text: Seq<u8>) -> bool {
    &&& text.len() % 2 == 0
    &&& forall|i: int| 0 <= i < text.len() ==> is_hex_digit(#[trigger] text[i])
}

/// The bytes that a hexadecimal text stands for: one for each pair of digits.
pub open spec fn hex_value(text: Seq<u8>) -> Seq<u8> {
    Seq::new(
        text.len() / 2,
        |i: int| (16 * hex_digit_value(text[2 * i]) + hex_digit_value(text[2 * i + 1])) as u8,
    )
}

/// The digits of a text: what follows its `0x`, or all of it where it has none.
pub open spec fn digits_of(text: Seq<u8>) -> Seq<u8> {
    if text.len() >= 2 && text[0] == 0x30 && text[1] == 0x78 {
        text.skip(2)
    } else {
        text
    }
}

/// Calls `hex::decode`.  Trusted: it accepts exactly the texts of an even
/// number of hexadecimal digits, upper or lower case, and gives one byte for
/// each pair, the first digit being the high half.
#[verifier::external_body]
fn hex_decode(digits: &[u8]) -> (bytes: Option<Vec<u8>>)
    ensures
        bytes matches Some(decoded) ==> is_hex_text(digits@) && decoded@ == hex_value(digits@),
        bytes is None ==> !is_hex_text(digits@),
{
    hex::decode(digits).ok()
}

/// Why a text is no blob.
#[derive(Clone, Copy, Debug, PartialEq, Eq, Structural)]
pub enum BlobError {
    /// The text holds something else than hexadecimal digits, or an odd number of them.
    InvalidHex,
}

/// The mathematical value of a [`RawBlob`].
pub struct BlobView {
    pub hex: Seq<char>,
    pub bytes: Seq<u8>,
}

impl BlobView {
    /// The bytes are what the text stands for.
    pub open spec fn wf(self) -> bool {
        let digits = digits_of(vstd::utf8::encode_utf8(self.hex));
        is_hex_text(digits) && self.bytes == hex_value(digits)
    }
}

/// The blob that a hexadecimal text stands for, if it stands for one.
pub open spec fn blob_spec(hex: Seq<char>) -> Result<BlobView, BlobError> {
    let digits = digits_of(vstd::utf8::encode_utf8(hex));
    if is_hex_text(digits) {
        Ok(BlobView { hex, bytes: hex_value(digits) })
    } else {
        Err(BlobError::InvalidHex)
    }
}

/// A blob in both of its forms: the text as it was received, and its bytes.
#[derive(Debug, PartialEq, Eq)]
pub struct RawBlob {
    hex: String,
    bytes: Vec<u8>,
}

impl View for RawBlob {
    type V = BlobView;

    closed spec fn view(&self) -> BlobView {
        BlobView { hex: self.hex@, bytes: self.bytes@ }
    }
}

/// The value of a blob's construction.
pub open spec fn blob_view(result: Result<RawBlob, BlobError>) -> Result<BlobView, BlobError> {
    match result {
        Ok(blob) => Ok(blob@),
        Err(error) => Err(error),
    }
}

impl RawBlob {
    #[verifier::type_invariant]
    spec fn inv(self) -> bool {
        self@.wf()
    }

    /// Reads a blob from its hexadecimal text.  One `0x` in front is skipped;
    /// the text is kept as it is.
    pub fn from_hex(hex: String) -> (result: Result<RawBlob, BlobError>)
        ensures
            blob_view(result) == blob_spec(hex@),
    {
        let text = hex.as_str().as_bytes();
        let digits = if text.len() >= 2 && text[0] == 0x30 && text[1] == 0x78 {
            slice_subrange(text, 2, text.len())
        } else {
            text
        };
        assert(digits@ =~= digits_of(text@));
        match hex_decode(digits) {
            Some(bytes) => Ok(RawBlob { hex, bytes }),
            None => Err(BlobError::InvalidHex),
        }
    }

    /// The hexadecimal text, as it was received.
    pub fn hex(&self) -> (hex: &str)
        ensures
            hex@ == self@.hex,
    {
        self.hex.as_str()
    }

    /// The bytes that the text stands for.
    pub fn bytes(&self) -> (bytes: &[u8])
        ensures
            bytes@ == self@.bytes,
            self@.wf(),
    {
        proof {
            use_type_invariant(self);
        }
        self.bytes.as_slice()
    }
}

} // verus!
