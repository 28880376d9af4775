use vstd::prelude::*;

verus! {

/// Why an export request failed. Each variant belongs to one pipeline stage;
/// the first stage to fail aborts the rest, so one request reports one error.
#[derive(Debug)]
pub enum ExportError {
    /// The document text is not well-formed vector markup, or could not be
    /// resolved into a scene graph. Carries the parser's description.
    DocumentParse(String),
    /// The scale factor or the intrinsic size yields a degenerate or
    /// unrepresentable raster size.
    InvalidSize,
    /// A pixel buffer of the planned dimensions cannot be allocated.
    BufferAllocation,
    /// Encoding the pixel buffer as a PNG stream failed. Carries the
    /// encoder's description.
    Encoding(String),
}

} // verus!
