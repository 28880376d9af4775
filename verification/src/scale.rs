use vstd::prelude::*;
use crate::errors::ExportError;

verus! {

/// One unit of scale, in millionths. A factor of one (native resolution) is
/// `MICROS_PER_UNIT` micros.
pub const MICROS_PER_UNIT: u64 = 1_000_000;

/// A requested scale factor, quantized to millionths of the native
/// resolution. The host quantizes its floating-point input at the boundary;
/// the pipeline itself works on these exact integer values only.
pub enum ScaleFactor {
    /// A finite factor of `micros` millionths. Zero and negative values are
    /// representable so that the pipeline itself can reject them.
    Finite { micros: i64 },
    /// The request carried a factor that is not a number or infinite.
    NonFinite,
}

impl ScaleFactor {
    /// A factor is usable only when it is finite and strictly positive.
    pub open spec fn is_valid(self) -> bool {
        match self {
            ScaleFactor::Finite { micros } => 1 <= micros,
            ScaleFactor::NonFinite => false,
        }
    }

    /// The factor in millionths, for a valid factor.
    pub open spec fn micros_spec(self) -> nat
        recommends
            self.is_valid(),
    {
        match self {
            ScaleFactor::Finite { micros } => micros as nat,
            ScaleFactor::NonFinite => 0,
        }
    }
}

/// The planned raster dimension for one axis: the intrinsic dimension times
/// the factor, rounded half-up at the half-pixel boundary, and clamped to at
/// least one pixel.
pub open spec fn scaled_dim(d: nat, micros: nat) -> nat {
    let rounded = (d * micros + 500_000) / 1_000_000;
    if rounded < 1 {
        1
    } else {
        rounded
    }
}

/// Computes [`scaled_dim`] for one axis, reporting `None` exactly when the
/// result does not fit a `u32`.
pub fn scale_axis(d: u32, micros: u64) -> (r: Option<u32>)
    requires
        1 <= micros,
    ensures
        match r {
            Some(v) => v == scaled_dim(d as nat, micros as nat) && scaled_dim(d as nat, micros as nat) <= u32::MAX,
            None => scaled_dim(d as nat, micros as nat) > u32::MAX,
        },
{
    proof {
        assert((d as int) * (micros as int) <= 0xFFFF_FFFF * 0xFFFF_FFFF_FFFF_FFFF) by (nonlinear_arith)
            requires
                d <= 0xFFFF_FFFF,
                micros <= 0xFFFF_FFFF_FFFF_FFFF,
                0 <= d,
                0 <= micros,
        ;
    }
    let prod: u128 = (d as u128) * (micros as u128);
    let rounded: u128 = (prod + 500_000) / 1_000_000;
    let dim: u128 = if rounded < 1 {
        1
    } else {
        rounded
    };
    if dim <= 0xFFFF_FFFF {
        Some(dim as u32)
    } else {
        None
    }
}

/// The planned raster: integer pixel dimensions for the buffer, and the
/// factor that the uniform scale transform applies on both axes.
pub struct RasterPlan {
    /// Pixel width of the buffer, at least one.
    pub width: u32,
    /// Pixel height of the buffer, at least one.
    pub height: u32,
    /// The scale factor in millionths, strictly positive.
    pub micros: u64,
}

impl RasterPlan {
    /// A plan always carries positive dimensions and a positive factor.
    pub open spec fn wf(self) -> bool {
        1 <= self.width && 1 <= self.height && 1 <= self.micros
    }
}

/// The Raster Planner: derives the buffer's pixel dimensions from the scene's
/// intrinsic size and the requested factor, each axis rounded half-up and
/// clamped to at least one pixel. Rejects factors that are not finite and
/// strictly positive, and results that exceed `u32`, with
/// [`ExportError::InvalidSize`]; succeeds on every other input. Pure
/// computation: no buffer is touched and no file is written here.
pub fn plan_raster(intrinsic_w: u32, intrinsic_h: u32, scale: &ScaleFactor) -> (r: Result<
    RasterPlan,
    ExportError,
>)
    requires
        1 <= intrinsic_w,
        1 <= intrinsic_h,
    ensures
        !scale.is_valid() ==> (r matches Err(e) && e matches ExportError::InvalidSize),
        scale.is_valid() ==> {
            let w = scaled_dim(intrinsic_w as nat, scale.micros_spec());
            let h = scaled_dim(intrinsic_h as nat, scale.micros_spec());
            if w <= u32::MAX && h <= u32::MAX {
                r matches Ok(p) && p.width == w && p.height == h && p.micros == scale.micros_spec()
                    && p.wf()
            } else {
                r matches Err(e) && e matches ExportError::InvalidSize
            }
        },
{
    let micros: i64 = match scale {
        ScaleFactor::Finite { micros } => *micros,
        ScaleFactor::NonFinite => {
            return Err(ExportError::InvalidSize);
        },
    };
    if micros < 1 {
        return Err(ExportError::InvalidSize);
    }
    let m: u64 = micros as u64;
    let width = match scale_axis(intrinsic_w, m) {
        Some(w) => w,
        None => {
            return Err(ExportError::InvalidSize);
        },
    };
    let height = match scale_axis(intrinsic_h, m) {
        Some(h) => h,
        None => {
            return Err(ExportError::InvalidSize);
        },
    };
    Ok(RasterPlan { width, height, micros: m })
}

/// However small the factor, a planned dimension is never below one pixel:
/// every successful plan yields at least a one-by-one buffer.
pub proof fn lemma_min_one(d: nat, micros: nat)
    ensures
        1 <= scaled_dim(d, micros),
{
}

/// At a factor of exactly one, the planned dimension is the intrinsic one:
/// native resolution reproduces the document's own size.
pub proof fn lemma_unit_scale(d: nat)
    requires
        1 <= d,
    ensures
        scaled_dim(d, MICROS_PER_UNIT as nat) == d,
{
    lemma_whole_scale(d, 1);
}

/// At a whole factor `k`, the planned dimension is exactly `k` times the
/// intrinsic one: doubling the factor doubles each axis.
pub proof fn lemma_whole_scale(d: nat, k: nat)
    requires
        1 <= d,
        1 <= k,
    ensures
        scaled_dim(d, (k * MICROS_PER_UNIT) as nat) == k * d,
{
    let p = d * k;
    assert(d * (k * 1_000_000) == p * 1_000_000) by (nonlinear_arith)
        requires
            p == d * k,
    ;
    assert(1 <= p) by (nonlinear_arith)
        requires
            1 <= d,
            1 <= k,
            p == d * k,
    ;
    assert((p * 1_000_000 + 500_000) / 1_000_000 == p) by (nonlinear_arith)
        requires
            1 <= p,
    ;
}

} // verus!
