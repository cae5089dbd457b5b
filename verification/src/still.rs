use vstd::prelude::*;

use crate::media::{ConversionError, ConversionResult, FormatTag};

verus! {

#[verifier::external_type_specification]
#[verifier::external_body]
pub struct ExDynamicImage(image::DynamicImage);

/// The dimensions the still-image decoder reads out of a byte buffer:
/// `Some((width, height))` exactly on buffers that hold a recognizable,
/// well-formed still image, `None` on everything else. Decoding is a function
/// of the bytes alone.
pub uninterp spec fn decoded_dims(bytes: Seq<u8>) -> Option<(nat, nat)>;

/// The dimensions the bounding-box fit produces from a source of the given
/// dimensions; a function of the source dimensions alone.
pub uninterp spec fn fit_dims(w: nat, h: nat) -> (nat, nat);

/// A decoded still image: the opaque pixel buffer together with its
/// dimensions as plain values.
struct StillImage {
    handle: image::DynamicImage,
    width: u32,
    height: u32,
}

/// The aspect ratio of `rw` x `rh` equals that of `w` x `h` up to the
/// rounding of each output dimension to a whole number of pixels: cross
/// products differ by no more than one source dimension.
pub open spec fn aspect_preserved(w: nat, h: nat, rw: nat, rh: nat) -> bool {
    let m = if w >= h { w } else { h };
    rw * h <= rh * w + m && rh * w <= rw * h + m
}

/// Relies on image::ImageReader: new over an in-memory cursor, followed by
/// with_guessed_format and decode, succeeds exactly on buffers holding a
/// well-formed image in a recognized format, and yields a picture whose
/// dimensions GenericImageView::dimensions reports.
#[verifier::external_body]
fn decode_still(bytes: &Vec<u8>) -> (r: Option<StillImage>)
    ensures
        r is Some <==> decoded_dims(bytes@) is Some,
        r matches Some(img) ==> Some((img.width as nat, img.height as nat)) == decoded_dims(
            bytes@,
        ),
{
    let cur = std::io::Cursor::new(bytes.as_slice());
    let reader = match image::ImageReader::new(cur).with_guessed_format() {
        Ok(rd) => rd,
        Err(_) => return None,
    };
    match reader.decode() {
        Ok(handle) => {
            let (width, height) = image::GenericImageView::dimensions(&handle);
            Some(StillImage { handle, width, height })
        }
        Err(_) => None,
    }
}

/// Relies on image::DynamicImage::resize: it scales to the largest size that
/// fits within the 512x512 box, preserves the aspect ratio up to rounding,
/// never returns a zero dimension, and the dimensions of the result depend on
/// the source dimensions alone.
#[verifier::external_body]
fn resize_fit(img: &StillImage) -> (r: StillImage)
    ensures
        (r.width as nat, r.height as nat) == fit_dims(img.width as nat, img.height as nat),
        1 <= r.width <= 512,
        1 <= r.height <= 512,
        img.width >= 1 && img.height >= 1 ==> (r.width == 512 || r.height == 512)
            && aspect_preserved(img.width as nat, img.height as nat, r.width as nat, r.height as nat),
{
    let resized = img.handle.resize(512, 512, image::imageops::FilterType::Lanczos3);
    let (width, height) = image::GenericImageView::dimensions(&resized);
    StillImage { handle: resized, width, height }
}

/// Relies on webp::Encoder: from_image accepts exactly the pixel layouts the
/// encoder implements and rejects the rest as unimplemented, and
/// encode_lossless on an accepted picture of non-zero dimensions within the
/// format's limits returns a non-empty WebP container.
#[verifier::external_body]
fn try_encode_webp(img: &StillImage) -> (r: Option<Vec<u8>>)
    requires
        1 <= img.width <= 512,
        1 <= img.height <= 512,
    ensures
        r matches Some(v) ==> v@.len() > 0,
{
    match webp::Encoder::from_image(&img.handle) {
        Ok(enc) => Some(enc.encode_lossless().to_vec()),
        Err(_) => None,
    }
}

/// Relies on image::DynamicImage::to_rgba8 and write_to: every decoded
/// picture converts to an RGBA buffer, encoding that buffer as PNG into an
/// in-memory cursor always succeeds, and the stream written is a well-formed
/// PNG that the decoder reads back with the same dimensions.
#[verifier::external_body]
fn encode_png(img: &StillImage) -> (r: Vec<u8>)
    ensures
        r@.len() > 0,
        decoded_dims(r@) == Some((img.width as nat, img.height as nat)),
{
    let rgba = image::DynamicImage::ImageRgba8(img.handle.to_rgba8());
    let mut cur = std::io::Cursor::new(Vec::new());
    rgba.write_to(&mut cur, image::ImageFormat::Png).unwrap();
    cur.into_inner()
}

/// Still-image conversion: decode, fit into the 512x512 box, then encode
/// losslessly — "webp" where the encoder takes the picture, the "png"
/// fallback otherwise. Exactly the undecodable inputs are rejected, always as
/// `NotAnImage`; every decoded input yields a non-empty asset whose fitted
/// dimensions stay within the box and keep the source's aspect ratio.
pub fn transcode_image(bytes: &Vec<u8>) -> (r: Result<ConversionResult, ConversionError>)
    ensures
        r is Ok <==> decoded_dims(bytes@) is Some,
        r matches Err(e) ==> e == ConversionError::NotAnImage,
        r matches Ok(res) ==> res.wf() && (res.tag == FormatTag::Webp || res.tag
            == FormatTag::Png),
        r matches Ok(res) ==> ({
            let d = decoded_dims(bytes@)->0;
            let f = fit_dims(d.0, d.1);
            &&& 1 <= f.0 <= 512
            &&& 1 <= f.1 <= 512
            &&& d.0 >= 1 && d.1 >= 1 ==> ((f.0 == 512 || f.1 == 512) && aspect_preserved(
                d.0,
                d.1,
                f.0,
                f.1,
            ))
            &&& res.tag == FormatTag::Png ==> decoded_dims(res.bytes@) == Some(f)
        }),
{
    match decode_still(bytes) {
        Some(img) => {
            let resized = resize_fit(&img);
            match try_encode_webp(&resized) {
                Some(v) => Ok(ConversionResult { bytes: v, tag: FormatTag::Webp }),
                None => {
                    let v = encode_png(&resized);
                    Ok(ConversionResult { bytes: v, tag: FormatTag::Png })
                }
            }
        }
        None => Err(ConversionError::NotAnImage),
    }
}

} // verus!
