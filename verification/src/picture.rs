//! Emoji images: PNG files of a bounded size, and their base64 form.

use base64::Engine;
use image::imageops::FilterType;
use image::ImageFormat;
use vstd::prelude::*;

use crate::text::{begins, cat2};

verus! {

/// The longest side of an emoji image, in pixels.
pub const EMOJI_MAX_SIDE: u32 = 128;

/// The bytes that a PNG file is known by.
pub open spec fn png_magic() -> Seq<u8> {
    seq![0x89u8, 0x50u8, 0x4Eu8, 0x47u8]
}

/// A file begins like a PNG file.
pub open spec fn looks_like_png(data: Seq<u8>) -> bool {
    begins(data, png_magic())
}

/// Whether a file begins like a PNG file.
pub fn is_png(data: &[u8]) -> (r: bool)
    ensures
        r == looks_like_png(data@),
{
    if data.len() < 4 {
        return false;
    }
    let r = data[0] == 0x89 && data[1] == 0x50 && data[2] == 0x4E && data[3] == 0x47;
    proof {
        let head = data@.subrange(0, 4);
        if r {
            assert(head =~= png_magic());
        } else {
            assert(head[0] != 0x89 || head[1] != 0x50 || head[2] != 0x4E || head[3] != 0x47);
        }
    }
    r
}

/// Four bytes as a number, the highest first.
pub open spec fn big_endian(data: Seq<u8>, at: int) -> int {
    data[at] * 0x100_0000 + data[at + 1] * 0x1_0000 + data[at + 2] * 0x100 + data[at + 3]
}

/// A PNG file, by its signature and the width and height in its header, each
/// from 1 to `side`.
pub open spec fn png_within(data: Seq<u8>, side: int) -> bool {
    &&& data.len() >= 24
    &&& begins(data, seq![0x89u8, 0x50u8, 0x4Eu8, 0x47u8, 0x0Du8, 0x0Au8, 0x1Au8, 0x0Au8])
    &&& 1 <= big_endian(data, 16) <= side
    &&& 1 <= big_endian(data, 20) <= side
}

/// A file holds an image that can be decoded.
pub uninterp spec fn decodable(data: Seq<u8>) -> bool;

/// The image that a file holds has pixels that a PNG file can hold: eight or sixteen
/// bits for each channel.
pub uninterp spec fn png_pixels(data: Seq<u8>) -> bool;

/// The width and height of the image that a file holds, fitted into a square of `side`
/// pixels.
pub uninterp spec fn fitted_size(data: Seq<u8>, side: nat) -> (nat, nat);

/// Why an image could not be made into an emoji image.
#[derive(Debug)]
pub enum PictureError {
    /// The file is not an image that can be decoded.
    Decode(String),
    /// The image could not be written as a PNG file.
    Encode(String),
}

/// `image::load_from_memory`, then `DynamicImage::resize` to a square of `side`
/// pixels with the Lanczos filter, then `DynamicImage::write_to` as PNG. Whether
/// the file decodes, and whether its kind of pixels, which resizing keeps, can be
/// written as PNG, depends on the file alone. What is written is a PNG file whose
/// width and height lie between 1 and `side` and depend on the file and `side` alone.
/// Its pixels are not stated: they come out of floating-point arithmetic.
#[verifier::external_body]
pub(crate) fn fit_png(data: &[u8], side: u32) -> (r: Result<Vec<u8>, PictureError>)
    requires
        1 <= side <= EMOJI_MAX_SIDE,
    ensures
        r is Err && r->Err_0 is Decode <==> !decodable(data@),
        (r is Ok) == (decodable(data@) && png_pixels(data@)),
        r matches Ok(png) ==> png_within(png@, side as int) && big_endian(png@, 16) == fitted_size(
            data@,
            side as nat,
        ).0 && big_endian(png@, 20) == fitted_size(data@, side as nat).1,
{
    let img = match image::load_from_memory(data) {
        Ok(img) => img,
        Err(e) => return Err(PictureError::Decode(e.to_string())),
    };
    let mut buf = Vec::new();
    let small = img.resize(side, side, FilterType::Lanczos3);
    match small.write_to(&mut std::io::Cursor::new(&mut buf), ImageFormat::Png) {
        Ok(()) => Ok(buf),
        Err(e) => Err(PictureError::Encode(e.to_string())),
    }
}

/// Make an image file into an emoji image: a PNG file no larger than an emoji.
pub fn emoji_image(data: &[u8]) -> (r: Result<Vec<u8>, PictureError>)
    ensures
        r is Err && r->Err_0 is Decode <==> !decodable(data@),
        (r is Ok) == (decodable(data@) && png_pixels(data@)),
        r matches Ok(png) ==> png_within(png@, EMOJI_MAX_SIDE as int) && looks_like_png(png@),
        r matches Ok(png) ==> big_endian(png@, 16) == fitted_size(
            data@,
            EMOJI_MAX_SIDE as nat,
        ).0 && big_endian(png@, 20) == fitted_size(data@, EMOJI_MAX_SIDE as nat).1,
{
    let r = fit_png(data, EMOJI_MAX_SIDE);
    proof {
        if r is Ok {
            let png = r->Ok_0@;
            let magic = seq![0x89u8, 0x50u8, 0x4Eu8, 0x47u8, 0x0Du8, 0x0Au8, 0x1Au8, 0x0Au8];
            assert forall|i: int| 0 <= i < 4 implies png[i] == png_magic()[i] by {
                assert(png.subrange(0, 8)[i] == magic[i]);
            }
            assert(png.subrange(0, 4) =~= png_magic());
        }
    }
    r
}

// ----- base64 -----------------------------------------------------------------------

/// The character that stands for six bits.
pub open spec fn base64_char(v: int) -> char {
    if v < 26 {
        (65 + v) as u8 as char
    } else if v < 52 {
        (97 + v - 26) as u8 as char
    } else if v < 62 {
        (48 + v - 52) as u8 as char
    } else if v == 62 {
        '+'
    } else {
        '/'
    }
}

/// Three bytes as four characters.
pub open spec fn base64_group(a: u8, b: u8, c: u8) -> Seq<char> {
    let n = a * 0x1_0000 + b * 0x100 + c;
    seq![
        base64_char(n / 0x4_0000),
        base64_char(n / 0x1000 % 64),
        base64_char(n / 64 % 64),
        base64_char(n % 64),
    ]
}

/// Bytes in base64: groups of three bytes as four characters, the last group
/// filled up with `=`.
pub open spec fn base64_text(data: Seq<u8>) -> Seq<char>
    decreases data.len(),
{
    if data.len() == 0 {
        Seq::empty()
    } else if data.len() == 1 {
        base64_group(data[0], 0, 0).take(2) + seq!['=', '=']
    } else if data.len() == 2 {
        base64_group(data[0], data[1], 0).take(3) + seq!['=']
    } else {
        base64_group(data[0], data[1], data[2]) + base64_text(data.skip(3))
    }
}

/// `base64::engine::general_purpose::STANDARD.encode`: the standard alphabet,
/// with padding.
#[verifier::external_body]
pub(crate) fn encode_base64(data: &[u8]) -> (r: String)
    requires
        (data@.len() + 2) / 3 * 4 <= isize::MAX,
    ensures
        r@ == base64_text(data@),
{
    base64::engine::general_purpose::STANDARD.encode(data)
}

/// A PNG file as the address that Discord takes an emoji image in.
pub fn emoji_data_uri(png: &[u8]) -> (r: String)
    requires
        (png@.len() + 2) / 3 * 4 <= isize::MAX,
    ensures
        r@ == "data:image/png;base64,"@ + base64_text(png@),
{
    cat2("data:image/png;base64,", &encode_base64(png))
}

/// Base64 takes four characters for every three bytes or fewer.
pub proof fn base64_length(data: Seq<u8>)
    ensures
        base64_text(data).len() == (data.len() + 2) / 3 * 4,
    decreases data.len(),
{
    if data.len() >= 3 {
        base64_length(data.skip(3));
    }
}

/// A PNG file is told by its first four bytes, whatever comes behind them.
pub proof fn pictures_are_told_by_four_bytes(data: Seq<u8>)
    ensures
        looks_like_png(data) <==> data.len() >= 4 && data[0] == 0x89 && data[1] == 0x50 && data[2]
            == 0x4E && data[3] == 0x47,
{
    if data.len() >= 4 && data[0] == 0x89 && data[1] == 0x50 && data[2] == 0x4E && data[3] == 0x47 {
        assert(data.take(4) =~= png_magic());
    }
    if looks_like_png(data) {
        assert(data.take(4)[0] == png_magic()[0]);
        assert(data.take(4)[1] == png_magic()[1]);
        assert(data.take(4)[2] == png_magic()[2]);
        assert(data.take(4)[3] == png_magic()[3]);
    }
}

} // verus!
