use vstd::prelude::*;
use crate::errors::ExportError;
use crate::raster::Canvas;
use crate::raster::pix_data;
use crate::raster::pix_height;
use crate::raster::pix_width;

verus! {

/// What PNG encoding produces for a buffer of the given bytes and
/// dimensions. The encoder is deterministic: the stream depends on the
/// pixel bytes and the dimensions alone.
pub uninterp spec fn png_of(data: Seq<u8>, width: nat, height: nat) -> Seq<u8>;

/// The Encoder: serializes the painted canvas as a compressed PNG stream,
/// in memory. Always succeeds, and the bytes are exactly the PNG encoding
/// of the canvas's pixels at the canvas's dimensions. The result keeps the
/// stage's `Result` shape for the pipeline, but the error arm is
/// unreachable; writing the stream to a destination is the host's job, not
/// this library's, and a failed write is the host's
/// [`ExportError::Encoding`].
pub fn encode_canvas(canvas: &Canvas) -> (r: Result<Vec<u8>, ExportError>)
    requires
        canvas.wf(),
    ensures
        r is Ok,
        r matches Ok(v) ==> v@ == png_of(
            canvas.data_spec(),
            canvas.width_spec() as nat,
            canvas.height_spec() as nat,
        ),
{
    match encode_pixmap(canvas.pixmap()) {
        Ok(v) => Ok(v),
        Err(text) => Err(ExportError::Encoding(text)),
    }
}

/// Relies on `tiny_skia::Pixmap::encode_png` (the `png` crate with fixed
/// RGBA 8-bit settings): encodes the buffer as a PNG stream whose bytes
/// depend only on the buffer's bytes and dimensions. The call cannot fail:
/// it writes to a `Vec`, an infallible writer, and the `png` crate's own
/// encoding errors arise only from zero dimensions or a data length that
/// does not match them, which every pixmap rules out by construction.
#[verifier::external_body]
fn encode_pixmap(pm: &tiny_skia::Pixmap) -> (r: Result<Vec<u8>, String>)
    ensures
        r is Ok,
        r matches Ok(v) ==> v@ == png_of(pix_data(*pm), pix_width(*pm), pix_height(*pm)),
{
    match pm.encode_png() {
        Ok(v) => Ok(v),
        Err(e) => Err(e.to_string()),
    }
}

} // verus!
