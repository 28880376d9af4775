use vstd::prelude::*;
use crate::errors::ExportError;
use crate::fonts::FontCatalog;

verus! {

#[verifier::external_type_specification]
#[verifier::external_body]
pub struct ExTree(usvg::Tree);

#[verifier::external_type_specification]
#[verifier::external_body]
pub struct ExUsvgError(usvg::Error);

/// Whether the parser accepts the document text, under this library's fixed
/// default parse options. Acceptance depends on the text alone: the font
/// catalog and the host's resources shape only the contents of the
/// resulting tree, never whether one is produced.
pub uninterp spec fn parse_accepts(text: Seq<char>) -> bool;

/// The parsed scene graph: the resolved tree together with its rounded
/// intrinsic size in scene units. Immutable once produced; its size is
/// always at least one by one.
pub struct SceneGraph {
    tree: usvg::Tree,
    width: u32,
    height: u32,
}

impl SceneGraph {
    /// A parsed scene always has positive integer intrinsic dimensions.
    pub closed spec fn wf(self) -> bool {
        1 <= self.width && 1 <= self.height
    }

    /// The rounded intrinsic width, in scene units.
    pub closed spec fn width_spec(self) -> u32 {
        self.width
    }

    /// The rounded intrinsic height, in scene units.
    pub closed spec fn height_spec(self) -> u32 {
        self.height
    }

    /// The resolved tree this scene holds.
    pub closed spec fn tree_spec(self) -> usvg::Tree {
        self.tree
    }

    /// The Document Parser: resolves the document text against the given
    /// font catalog into a scene graph. Fails exactly when the underlying
    /// parser rejects the text, and then always with
    /// [`ExportError::DocumentParse`] carrying the parser's description.
    /// No side effects: nothing is allocated for rendering and no file is
    /// touched.
    pub fn parse_document(text: &str, catalog: &FontCatalog) -> (r: Result<SceneGraph, ExportError>)
        ensures
            r is Ok <==> parse_accepts(text@),
            r matches Ok(g) ==> g.wf(),
            r matches Err(e) ==> e matches ExportError::DocumentParse(_),
    {
        match parse_tree(text, catalog) {
            Ok(tree) => {
                let (width, height) = tree_int_size(&tree);
                Ok(SceneGraph { tree, width, height })
            },
            Err(e) => Err(ExportError::DocumentParse(parse_error_text(&e))),
        }
    }

    /// The rounded intrinsic width, at least one for a well-formed scene.
    pub fn width(&self) -> (r: u32)
        ensures
            r == self.width_spec(),
            self.wf() ==> 1 <= r,
    {
        self.width
    }

    /// The rounded intrinsic height, at least one for a well-formed scene.
    pub fn height(&self) -> (r: u32)
        ensures
            r == self.height_spec(),
            self.wf() ==> 1 <= r,
    {
        self.height
    }

    /// The underlying tree, for the render wrapper.
    pub(crate) fn tree(&self) -> (r: &usvg::Tree)
        ensures
            *r == self.tree_spec(),
    {
        &self.tree
    }
}

/// Relies on `usvg::Tree::from_str` with default options and the given font
/// database: parses the text into a resolved tree, with all text runs laid
/// out against the catalog, or reports why the text was rejected. Whether
/// the text is accepted depends on the text alone: every error on the parse
/// path (malformed markup, a missing or foreign root element, the node
/// limit, an unresolvable document size) is decided before fonts or
/// external resources are consulted.
#[verifier::external_body]
fn parse_tree(text: &str, catalog: &FontCatalog) -> (r: Result<usvg::Tree, usvg::Error>)
    ensures
        r is Ok <==> parse_accepts(text@),
{
    let mut opt = usvg::Options::default();
    opt.fontdb = std::sync::Arc::new(catalog.database().clone());
    usvg::Tree::from_str(text, &opt)
}

/// Relies on `usvg::Tree::size` and `tiny_skia_path::Size::to_int_size`: the
/// tree's intrinsic size is positive and finite, and its rounded integer
/// form is clamped to at least one on each axis.
#[verifier::external_body]
fn tree_int_size(tree: &usvg::Tree) -> (r: (u32, u32))
    ensures
        1 <= r.0,
        1 <= r.1,
{
    let s = tree.size().to_int_size();
    (s.width(), s.height())
}

/// Relies on `usvg::Error`'s `Display` implementation for the human-readable
/// description of a parse failure.
#[verifier::external_body]
fn parse_error_text(e: &usvg::Error) -> String {
    e.to_string()
}

} // verus!
