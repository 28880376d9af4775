use vstd::prelude::*;
use crate::errors::ExportError;
use crate::scale::RasterPlan;
use crate::scale::MICROS_PER_UNIT;
use crate::scene::SceneGraph;

verus! {

#[verifier::external_type_specification]
#[verifier::external_body]
pub struct ExPixmap(tiny_skia::Pixmap);

/// What the pixel buffer holds: its premultiplied RGBA bytes, row by row,
/// four bytes per pixel.
pub uninterp spec fn pix_data(pm: tiny_skia::Pixmap) -> Seq<u8>;

/// The pixel buffer's width in pixels.
pub uninterp spec fn pix_width(pm: tiny_skia::Pixmap) -> nat;

/// The pixel buffer's height in pixels.
pub uninterp spec fn pix_height(pm: tiny_skia::Pixmap) -> nat;

/// What painting produces: the buffer's bytes after the resolved tree is
/// drawn at a uniform scale of `micros` millionths over a buffer of the
/// given dimensions holding `base`. The painter is deterministic: the
/// outcome depends on these arguments alone.
pub uninterp spec fn rendered(
    tree: usvg::Tree,
    micros: int,
    width: nat,
    height: nat,
    base: Seq<u8>,
) -> Seq<u8>;

/// The bytes of a freshly allocated buffer: all zero, four per pixel, which
/// is every pixel fully transparent.
pub open spec fn blank(width: u32, height: u32) -> Seq<u8> {
    Seq::new((4 * (width as int) * (height as int)) as nat, |i: int| 0u8)
}

/// Whether a buffer of the given dimensions is within the rasterizer's
/// allocation limits: a row must fit in `i32::MAX` bytes and the whole
/// buffer in `usize::MAX` bytes.
pub open spec fn alloc_possible(w: u32, h: u32) -> bool {
    4 * (w as int) <= i32::MAX && 4 * (w as int) * (h as int) <= usize::MAX
}

/// The Pixel Buffer: an exclusively owned grid of premultiplied RGBA
/// pixels, allocated once per request, painted by the rasterizer and then
/// read by the encoder.
pub struct Canvas {
    pm: tiny_skia::Pixmap,
    width: u32,
    height: u32,
}

impl Canvas {
    /// The recorded dimensions are positive and match the buffer, and the
    /// buffer holds exactly four bytes per pixel.
    pub closed spec fn wf(self) -> bool {
        1 <= self.width && 1 <= self.height && pix_width(self.pm) == self.width && pix_height(
            self.pm,
        ) == self.height && pix_data(self.pm).len() == 4 * (self.width as int) * (
        self.height as int)
    }

    /// The buffer's width in pixels.
    pub closed spec fn width_spec(self) -> u32 {
        self.width
    }

    /// The buffer's height in pixels.
    pub closed spec fn height_spec(self) -> u32 {
        self.height
    }

    /// The buffer's bytes.
    pub closed spec fn data_spec(self) -> Seq<u8> {
        pix_data(self.pm)
    }

    /// The buffer's width in pixels.
    pub fn width(&self) -> (r: u32)
        ensures
            r == self.width_spec(),
    {
        self.width
    }

    /// The buffer's height in pixels.
    pub fn height(&self) -> (r: u32)
        ensures
            r == self.height_spec(),
    {
        self.height
    }

    /// A copy of the buffer's premultiplied RGBA bytes, row by row.
    pub fn pixel_bytes(&self) -> (r: Vec<u8>)
        ensures
            r@ == self.data_spec(),
    {
        pixmap_bytes(&self.pm)
    }

    /// The underlying buffer, for the encoder.
    pub(crate) fn pixmap(&self) -> (r: &tiny_skia::Pixmap)
        ensures
            pix_data(*r) == self.data_spec(),
            self.wf() ==> pix_width(*r) == self.width_spec() && pix_height(*r)
                == self.height_spec(),
    {
        &self.pm
    }
}

/// The Rasterizer: allocates a fully transparent buffer of the planned
/// dimensions and paints the scene into it under the planned uniform scale
/// transform. Fails with [`ExportError::BufferAllocation`] exactly when the
/// planned dimensions are beyond the rasterizer's allocation limits; on
/// success the canvas has exactly the planned dimensions and holds exactly
/// the scene painted over a blank buffer, so equal scenes and plans yield
/// equal pixels.
pub fn rasterize(scene: &SceneGraph, plan: &RasterPlan) -> (r: Result<Canvas, ExportError>)
    requires
        plan.wf(),
    ensures
        r matches Ok(c) ==> c.wf() && c.width_spec() == plan.width && c.height_spec()
            == plan.height && alloc_possible(plan.width, plan.height),
        r matches Ok(c) ==> c.data_spec() == rendered(
            scene.tree_spec(),
            plan.micros as int,
            plan.width as nat,
            plan.height as nat,
            blank(plan.width, plan.height),
        ),
        r matches Err(e) ==> (e matches ExportError::BufferAllocation) && !alloc_possible(
            plan.width,
            plan.height,
        ),
{
    let mut pm = match new_pixmap(plan.width, plan.height) {
        Some(pm) => pm,
        None => {
            return Err(ExportError::BufferAllocation);
        },
    };
    let whole: u64 = plan.micros / MICROS_PER_UNIT;
    let frac: u64 = plan.micros % MICROS_PER_UNIT;
    render_into(scene.tree(), whole, frac, &mut pm);
    Ok(Canvas { pm, width: plan.width, height: plan.height })
}

/// Relies on `tiny_skia::Pixmap::new`: allocates a buffer filled with
/// transparent black, four bytes per pixel; returns `None` exactly when a
/// dimension is zero, a row would exceed `i32::MAX` bytes, or the buffer
/// would exceed `usize::MAX` bytes.
#[verifier::external_body]
fn new_pixmap(width: u32, height: u32) -> (r: Option<tiny_skia::Pixmap>)
    ensures
        match r {
            Some(pm) => 1 <= width && 1 <= height && alloc_possible(width, height) && pix_width(pm)
                == width && pix_height(pm) == height && pix_data(pm) == Seq::new(
                (4 * (width as int) * (height as int)) as nat,
                |i: int| 0u8,
            ),
            None => !(1 <= width && 1 <= height && alloc_possible(width, height)),
        },
{
    tiny_skia::Pixmap::new(width, height)
}

/// Relies on `resvg::render`: paints the tree into the buffer under a
/// uniform scale transform of `whole.frac` (the factor in millionths,
/// split into its whole and fractional parts), compositing source-over.
/// The painting is deterministic in the tree, the factor and the buffer,
/// and writes pixels only: the buffer's dimensions and byte length are left
/// unchanged.
#[verifier::external_body]
fn render_into(tree: &usvg::Tree, whole: u64, frac: u64, pm: &mut tiny_skia::Pixmap)
    requires
        frac < 1_000_000,
    ensures
        pix_width(*final(pm)) == pix_width(*old(pm)),
        pix_height(*final(pm)) == pix_height(*old(pm)),
        pix_data(*final(pm)).len() == pix_data(*old(pm)).len(),
        pix_data(*final(pm)) == rendered(
            *tree,
            whole * 1_000_000 + frac,
            pix_width(*old(pm)),
            pix_height(*old(pm)),
            pix_data(*old(pm)),
        ),
{
    let text = format!("{}.{:06}", whole, frac);
    let factor = text.parse().unwrap_or_default();
    resvg::render(tree, tiny_skia::Transform::from_scale(factor, factor), &mut pm.as_mut());
}

/// Relies on `tiny_skia::Pixmap::data`: the buffer's bytes, row by row.
#[verifier::external_body]
fn pixmap_bytes(pm: &tiny_skia::Pixmap) -> (r: Vec<u8>)
    ensures
        r@ == pix_data(*pm),
{
    pm.data().to_vec()
}

} // verus!
