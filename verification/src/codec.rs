//! Still-image jobs and the text encoding of their results.

use vstd::prelude::*;

verus! {

/// JPEG quality of a live frame.
pub const FRAME_JPEG_QUALITY: i32 = 90;

/// JPEG quality of a thumbnail, tuned for small size.
pub const THUMB_JPEG_QUALITY: i32 = 70;

/// Bytes of one pixel as the encoder takes it: red, green, blue.
pub const RGB_PIXEL_LEN: usize = 3;

/// How much colour resolution a JPEG keeps relative to brightness.
#[derive(Clone, Copy, Debug, PartialEq, Eq, Structural)]
pub enum ChromaSubsampling {
    /// One colour sample for every pixel.
    Full,
    /// One colour sample for every two pixels of a row.
    Sub2x1,
    /// One colour sample for every block of two by two pixels.
    Sub2x2,
}

/// One still image, ready for the JPEG encoder.
#[derive(Debug)]
pub struct JpegJob {
    /// Rows of red, green, blue bytes, top row first, without padding.
    pub pixels: Vec<u8>,
    pub width: usize,
    pub height: usize,
    /// Bytes from one row to the next.
    pub pitch: usize,
    pub quality: i32,
    pub subsampling: ChromaSubsampling,
}

impl JpegJob {
    /// The job describes an image with area, and its buffer holds exactly
    /// that image.
    pub open spec fn wf(&self) -> bool {
        &&& self.width > 0
        &&& self.height > 0
        &&& self.pitch == RGB_PIXEL_LEN * self.width
        &&& self.pixels@.len() == self.pitch * self.height
        &&& 0 <= self.quality <= 100
    }
}

/// The character that stands for the six-bit value `v`.
pub open spec fn base64_symbol(v: int) -> char {
    if v < 26 {
        (65 + v) as u8 as char
    } else if v < 52 {
        (71 + v) as u8 as char
    } else if v < 62 {
        (v - 4) as u8 as char
    } else if v == 62 {
        '+'
    } else {
        '/'
    }
}

/// Base64 of `bytes` in the standard alphabet, padded with `=` to a multiple
/// of four characters.
pub open spec fn base64_standard(bytes: Seq<u8>) -> Seq<char>
    decreases bytes.len(),
{
    if bytes.len() == 0 {
        Seq::empty()
    } else if bytes.len() == 1 {
        let b0 = bytes[0] as int;
        seq![base64_symbol(b0 / 4), base64_symbol(b0 % 4 * 16), '=', '=']
    } else if bytes.len() == 2 {
        let b0 = bytes[0] as int;
        let b1 = bytes[1] as int;
        seq![
            base64_symbol(b0 / 4),
            base64_symbol(b0 % 4 * 16 + b1 / 16),
            base64_symbol(b1 % 16 * 4),
            '=',
        ]
    } else {
        let b0 = bytes[0] as int;
        let b1 = bytes[1] as int;
        let b2 = bytes[2] as int;
        seq![
            base64_symbol(b0 / 4),
            base64_symbol(b0 % 4 * 16 + b1 / 16),
            base64_symbol(b1 % 16 * 4 + b2 / 64),
            base64_symbol(b2 % 64),
        ] + base64_standard(bytes.skip(3))
    }
}

/// Characters of the base64 text of `len` bytes.
pub open spec fn base64_len(len: nat) -> nat {
    4 * ((len + 2) / 3)
}

/// Every three bytes, whole or not, become four characters.
pub proof fn lemma_base64_len(bytes: Seq<u8>)
    ensures
        base64_standard(bytes).len() == base64_len(bytes.len()),
    decreases bytes.len(),
{
    if bytes.len() >= 3 {
        lemma_base64_len(bytes.skip(3));
    }
}

/// Calls `base64::Engine::encode` on the crate's `STANDARD` engine.
///
/// Trusted: the result is the padded base64 text of the input in the
/// standard alphabet. The engine panics where the text would be longer
/// than the largest `usize`, so such inputs are left out.
#[verifier::external_body]
fn encode_standard(bytes: &[u8]) -> (text: String)
    requires
        base64_len(bytes@.len()) <= usize::MAX,
    ensures
        text@ == base64_standard(bytes@),
{
    base64::Engine::encode(&base64::engine::general_purpose::STANDARD, bytes)
}

/// The base64 text of `bytes`, or nothing where the text would not fit the
/// machine.
pub fn to_base64(bytes: &[u8]) -> (text: Option<String>)
    ensures
        text is Some <==> base64_len(bytes@.len()) <= usize::MAX,
        text matches Some(t) ==> t@ == base64_standard(bytes@),
{
    let groups: usize = bytes.len() / 3 + if bytes.len() % 3 == 0 {
        0
    } else {
        1
    };
    assert(groups == (bytes@.len() + 2) / 3);
    if groups > usize::MAX / 4 {
        return None;
    }
    Some(encode_standard(bytes))
}

} // verus!
