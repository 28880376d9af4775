use vstd::prelude::*;
use crate::encode::encode_canvas;
use crate::errors::ExportError;
use crate::fonts::FontCatalog;
use crate::encode::png_of;
use crate::raster::alloc_possible;
use crate::raster::blank;
use crate::raster::rasterize;
use crate::raster::rendered;
use crate::scale::plan_raster;
use crate::scale::scaled_dim;
use crate::scale::ScaleFactor;
use crate::scene::parse_accepts;
use crate::scene::SceneGraph;

verus! {

/// The finished product of one export request: a PNG stream together with
/// the pixel dimensions it encodes.
pub struct EncodedPng {
    /// The compressed PNG stream.
    pub bytes: Vec<u8>,
    /// Pixel width of the encoded image, at least one.
    pub width: u32,
    /// Pixel height of the encoded image, at least one.
    pub height: u32,
}

/// One whole export request, short of the file write: parse the document
/// against the catalog, plan the raster from the scene's intrinsic size and
/// the factor, paint, and encode.
///
/// The stages run strictly in that order and the first failure aborts the
/// rest, each stage with its own error kind: a document the parser rejects
/// is reported as `DocumentParse`, and only then; past parsing, a factor
/// that is not finite and strictly positive, or a planned size beyond
/// `u32`, is `InvalidSize` (found by pure arithmetic, before any buffer
/// exists); dimensions beyond the rasterizer's allocation limits are
/// `BufferAllocation`; otherwise the call succeeds — in-memory encoding
/// cannot fail — and the image's dimensions are the planned ones: each
/// intrinsic axis times the factor, rounded half-up, clamped to at least
/// one pixel, with the bytes the PNG encoding of the painted buffer (see
/// [`render_parsed`] for the exact statement). This function touches no
/// file; the host writes the returned bytes wherever the request's
/// destination points.
pub fn export_document(text: &str, catalog: &FontCatalog, scale: &ScaleFactor) -> (r: Result<
    EncodedPng,
    ExportError,
>)
    ensures
        !parse_accepts(text@) <==> (r matches Err(e) && e matches ExportError::DocumentParse(_)),
        parse_accepts(text@) && !scale.is_valid() ==> (r matches Err(e)
            && e matches ExportError::InvalidSize),
        r matches Ok(img) ==> parse_accepts(text@) && scale.is_valid() && 1 <= img.width && 1
            <= img.height,
{
    let scene = match SceneGraph::parse_document(text, catalog) {
        Ok(scene) => scene,
        Err(e) => {
            return Err(e);
        },
    };
    render_parsed(&scene, scale)
}

/// Everything after parsing: plan, paint, encode. For a well-formed scene
/// the outcome is pinned down: a factor that is not finite and strictly
/// positive, or a planned size beyond `u32`, is `InvalidSize`; planned
/// dimensions beyond the rasterizer's allocation limits are
/// `BufferAllocation`; on every other input the call succeeds, the image
/// has exactly the planned dimensions, and its bytes are exactly the PNG
/// encoding of the scene painted over a blank buffer of those dimensions —
/// so identical scenes and factors give byte-identical output.
pub fn render_parsed(scene: &SceneGraph, scale: &ScaleFactor) -> (r: Result<
    EncodedPng,
    ExportError,
>)
    requires
        scene.wf(),
    ensures
        !scale.is_valid() ==> (r matches Err(e) && e matches ExportError::InvalidSize),
        scale.is_valid() ==> ({
            let w = scaled_dim(scene.width_spec() as nat, scale.micros_spec());
            let h = scaled_dim(scene.height_spec() as nat, scale.micros_spec());
            if !(w <= u32::MAX && h <= u32::MAX) {
                r matches Err(e) && e matches ExportError::InvalidSize
            } else if !alloc_possible(w as u32, h as u32) {
                r matches Err(e) && e matches ExportError::BufferAllocation
            } else {
                r matches Ok(img) && img.width == w && img.height == h && img.bytes@ == png_of(
                    rendered(
                        scene.tree_spec(),
                        scale.micros_spec() as int,
                        w,
                        h,
                        blank(w as u32, h as u32),
                    ),
                    w,
                    h,
                )
            }
        }),
{
    let plan = match plan_raster(scene.width(), scene.height(), scale) {
        Ok(plan) => plan,
        Err(e) => {
            return Err(e);
        },
    };
    let canvas = match rasterize(scene, &plan) {
        Ok(canvas) => canvas,
        Err(e) => {
            return Err(e);
        },
    };
    let bytes = match encode_canvas(&canvas) {
        Ok(bytes) => bytes,
        Err(e) => {
            return Err(e);
        },
    };
    Ok(EncodedPng { bytes, width: plan.width, height: plan.height })
}

} // verus!
