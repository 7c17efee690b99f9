use vstd::prelude::*;
use crate::pixel::PixelBuffer;

verus! {

/// What the external codec decodes from a byte string: the dimensions and
/// row-major RGBA bytes when the input is a readable image, nothing
/// otherwise. Decoding depends on the bytes alone.
pub uninterp spec fn decoded_rgba(bytes: Seq<u8>) -> Option<(u32, u32, Seq<u8>)>;

/// The PNG serialization the external codec produces for an RGBA buffer.
/// Encoding depends on the dimensions and bytes alone.
pub uninterp spec fn png_encoding(width: u32, height: u32, data: Seq<u8>) -> Seq<u8>;

/// The base64 text of a byte string, standard alphabet with padding.
pub uninterp spec fn base64_of(bytes: Seq<u8>) -> Seq<char>;

/// Relies on image::load_from_memory and DynamicImage::to_rgba8: decoding is
/// deterministic over the input bytes, and a decoded RGBA8 buffer of
/// dimensions `(w, h)` holds exactly `4*w*h` bytes.
#[verifier::external_body]
pub(crate) fn decode_rgba(bytes: &[u8]) -> (r: Option<PixelBuffer>)
    ensures
        r is Some <==> decoded_rgba(bytes@) is Some,
        r matches Some(b) ==> ({
            &&& b.wf()
            &&& decoded_rgba(bytes@) == Some((b.width, b.height, b.data@))
        }),
{
    match image::load_from_memory(bytes) {
        Ok(img) => {
            let rgba = img.to_rgba8();
            let (width, height) = rgba.dimensions();
            Some(PixelBuffer { width, height, data: rgba.into_raw() })
        },
        Err(_) => None,
    }
}

/// Relies on ImageBuffer::from_raw and DynamicImage::write_to with the PNG
/// format: encoding is deterministic over the buffer and rejects only
/// zero-dimension images, so success is owed whenever both dimensions are
/// positive. PNG stores RGBA8 pixels losslessly, so whenever the produced
/// bytes decode at all they decode to exactly this buffer; the decoder
/// enforces a 512 MiB allocation cap by default, so decoding is only owed
/// for buffers well below it (128 MiB of raw pixels here).
#[verifier::external_body]
pub(crate) fn encode_png(buf: &PixelBuffer) -> (r: Option<Vec<u8>>)
    requires
        buf.wf(),
    ensures
        buf.width >= 1 && buf.height >= 1 ==> r is Some,
        r matches Some(png) ==> ({
            &&& png@ == png_encoding(buf.width, buf.height, buf.data@)
            &&& (decoded_rgba(png@) is Some ==> decoded_rgba(png@) == Some(
                (buf.width, buf.height, buf.data@),
            ))
            &&& (buf.data@.len() <= 0x8000000 ==> decoded_rgba(png@) is Some)
        }),
{
    let rgba = match image::RgbaImage::from_raw(buf.width, buf.height, buf.data.clone()) {
        Some(i) => i,
        None => {
            return None;
        },
    };
    let mut out: Vec<u8> = Vec::new();
    let dynimg = image::DynamicImage::ImageRgba8(rgba);
    match dynimg.write_to(&mut std::io::Cursor::new(&mut out), image::ImageFormat::Png) {
        Ok(()) => Some(out),
        Err(_) => None,
    }
}

/// Relies on the base64 crate's STANDARD engine: deterministic over the
/// bytes, four output characters for every three input bytes, rounded up by
/// padding. Inputs long enough to overflow the output-size computation are
/// excluded.
#[verifier::external_body]
pub(crate) fn base64_encode(bytes: &Vec<u8>) -> (r: String)
    requires
        bytes@.len() <= 0x4000000000000000,
    ensures
        r@ == base64_of(bytes@),
        r@.len() == 4 * ((bytes@.len() + 2) / 3),
{
    base64::Engine::encode(&base64::engine::general_purpose::STANDARD, bytes)
}

} // verus!
