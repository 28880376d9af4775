use svg_export::encode::encode_canvas;
use svg_export::errors::ExportError;
use svg_export::fonts::FontCatalog;
use svg_export::pipeline::export_document;
use svg_export::raster::rasterize;
use svg_export::scale::plan_raster;
use svg_export::scale::ScaleFactor;
use svg_export::scene::SceneGraph;

const SQUARE_100: &str = "<svg xmlns='http://www.w3.org/2000/svg' width='100' height='100'><rect x='0' y='0' width='100' height='100' fill='#ff0000'/></svg>";
const HALF_SQUARE_100: &str = "<svg xmlns='http://www.w3.org/2000/svg' width='100' height='100'><rect x='0' y='0' width='50' height='100' fill='#ff0000' shape-rendering='crispEdges'/></svg>";
const EMPTY_100: &str = "<svg xmlns='http://www.w3.org/2000/svg' width='100' height='100'/>";

fn unit_scale() -> ScaleFactor {
    ScaleFactor::Finite { micros: 1_000_000 }
}

#[test]
fn square_native_scale_is_fully_opaque() {
    let catalog = FontCatalog::empty();
    let scene = SceneGraph::parse_document(SQUARE_100, &catalog).unwrap();
    let plan = plan_raster(scene.width(), scene.height(), &unit_scale()).unwrap();
    assert_eq!(plan.width, 100);
    assert_eq!(plan.height, 100);
    let canvas = rasterize(&scene, &plan).unwrap();
    assert_eq!(canvas.width(), 100);
    assert_eq!(canvas.height(), 100);
    let bytes = canvas.pixel_bytes();
    assert_eq!(bytes.len(), 4 * 100 * 100);
    for px in bytes.chunks(4) {
        assert_eq!(px, [255, 0, 0, 255]);
    }
}

#[test]
fn square_double_scale_is_200_by_200() {
    let catalog = FontCatalog::empty();
    let scene = SceneGraph::parse_document(SQUARE_100, &catalog).unwrap();
    let plan = plan_raster(
        scene.width(),
        scene.height(),
        &ScaleFactor::Finite { micros: 2_000_000 },
    )
    .unwrap();
    assert_eq!(plan.width, 200);
    assert_eq!(plan.height, 200);
    let canvas = rasterize(&scene, &plan).unwrap();
    let bytes = canvas.pixel_bytes();
    assert_eq!(bytes.len(), 4 * 200 * 200);
    for px in bytes.chunks(4) {
        assert_eq!(px, [255, 0, 0, 255]);
    }
}

#[test]
fn negative_scale_fails_with_invalid_size() {
    let catalog = FontCatalog::empty();
    let r = export_document(
        SQUARE_100,
        &catalog,
        &ScaleFactor::Finite { micros: -1_000_000 },
    );
    assert!(matches!(r, Err(ExportError::InvalidSize)));
}

#[test]
fn zero_scale_fails_with_invalid_size() {
    let catalog = FontCatalog::empty();
    let r = export_document(SQUARE_100, &catalog, &ScaleFactor::Finite { micros: 0 });
    assert!(matches!(r, Err(ExportError::InvalidSize)));
}

#[test]
fn non_finite_scale_fails_with_invalid_size() {
    let catalog = FontCatalog::empty();
    let r = export_document(SQUARE_100, &catalog, &ScaleFactor::NonFinite);
    assert!(matches!(r, Err(ExportError::InvalidSize)));
}

#[test]
fn malformed_document_fails_with_parse_error() {
    let catalog = FontCatalog::empty();
    let r = export_document("not valid markup", &catalog, &unit_scale());
    match r {
        Err(ExportError::DocumentParse(msg)) => assert!(!msg.is_empty()),
        other => panic!("expected a parse error, got {:?}", other.is_ok()),
    }
}

#[test]
fn unclosed_tag_fails_with_parse_error() {
    let catalog = FontCatalog::empty();
    let r = export_document(
        "<svg xmlns='http://www.w3.org/2000/svg' width='10' height='10'><rect",
        &catalog,
        &unit_scale(),
    );
    assert!(matches!(r, Err(ExportError::DocumentParse(_))));
}

#[test]
fn export_is_deterministic() {
    let catalog = FontCatalog::empty();
    let a = export_document(SQUARE_100, &catalog, &unit_scale()).unwrap();
    let b = export_document(SQUARE_100, &catalog, &unit_scale()).unwrap();
    assert_eq!(a.bytes, b.bytes);
    assert_eq!(a.width, b.width);
    assert_eq!(a.height, b.height);
}

#[test]
fn half_covered_square_leaves_rest_transparent() {
    let catalog = FontCatalog::empty();
    let scene = SceneGraph::parse_document(HALF_SQUARE_100, &catalog).unwrap();
    let plan = plan_raster(scene.width(), scene.height(), &unit_scale()).unwrap();
    let canvas = rasterize(&scene, &plan).unwrap();
    let bytes = canvas.pixel_bytes();
    // A pixel well inside the rectangle is opaque red; one well outside is
    // fully transparent.
    let inside = 4 * (100 * 50 + 10);
    let outside = 4 * (100 * 50 + 90);
    assert_eq!(&bytes[inside..inside + 4], [255, 0, 0, 255]);
    assert_eq!(&bytes[outside..outside + 4], [0, 0, 0, 0]);
}

#[test]
fn structure_scales_with_the_factor() {
    let catalog = FontCatalog::empty();
    let scene = SceneGraph::parse_document(HALF_SQUARE_100, &catalog).unwrap();
    let plan = plan_raster(
        scene.width(),
        scene.height(),
        &ScaleFactor::Finite { micros: 2_000_000 },
    )
    .unwrap();
    let canvas = rasterize(&scene, &plan).unwrap();
    let bytes = canvas.pixel_bytes();
    // The covered/uncovered boundary sits at twice the native position.
    let inside = 4 * (200 * 100 + 20);
    let outside = 4 * (200 * 100 + 180);
    assert_eq!(&bytes[inside..inside + 4], [255, 0, 0, 255]);
    assert_eq!(&bytes[outside..outside + 4], [0, 0, 0, 0]);
}

#[test]
fn empty_document_renders_fully_transparent() {
    let catalog = FontCatalog::empty();
    let scene = SceneGraph::parse_document(EMPTY_100, &catalog).unwrap();
    let plan = plan_raster(scene.width(), scene.height(), &unit_scale()).unwrap();
    let canvas = rasterize(&scene, &plan).unwrap();
    for b in canvas.pixel_bytes() {
        assert_eq!(b, 0);
    }
}

#[test]
fn intrinsic_size_is_reported() {
    let catalog = FontCatalog::empty();
    let svg = "<svg xmlns='http://www.w3.org/2000/svg' width='123' height='45'/>";
    let scene = SceneGraph::parse_document(svg, &catalog).unwrap();
    assert_eq!(scene.width(), 123);
    assert_eq!(scene.height(), 45);
}

#[test]
fn fractional_scale_rounds_half_up() {
    let catalog = FontCatalog::empty();
    let scene = SceneGraph::parse_document(SQUARE_100, &catalog).unwrap();
    // 100 * 1.005 = 100.5 rounds up; 100 * 1.004 = 100.4 rounds down.
    let up = plan_raster(
        scene.width(),
        scene.height(),
        &ScaleFactor::Finite { micros: 1_005_000 },
    )
    .unwrap();
    assert_eq!(up.width, 101);
    let down = plan_raster(
        scene.width(),
        scene.height(),
        &ScaleFactor::Finite { micros: 1_004_000 },
    )
    .unwrap();
    assert_eq!(down.width, 100);
}

#[test]
fn tiny_scale_clamps_to_one_pixel() {
    let catalog = FontCatalog::empty();
    let scene = SceneGraph::parse_document(SQUARE_100, &catalog).unwrap();
    let plan = plan_raster(
        scene.width(),
        scene.height(),
        &ScaleFactor::Finite { micros: 1_000 },
    )
    .unwrap();
    assert_eq!(plan.width, 1);
    assert_eq!(plan.height, 1);
}

#[test]
fn huge_scale_fails_with_invalid_size() {
    let catalog = FontCatalog::empty();
    let r = export_document(
        SQUARE_100,
        &catalog,
        &ScaleFactor::Finite { micros: i64::MAX },
    );
    assert!(matches!(r, Err(ExportError::InvalidSize)));
}

#[test]
fn beyond_allocation_limit_fails_with_buffer_error() {
    let catalog = FontCatalog::empty();
    // 100 * 6_000_000 = 600_000_000 pixels per axis: representable as a
    // size, but a row would be over i32::MAX bytes.
    let r = export_document(
        SQUARE_100,
        &catalog,
        &ScaleFactor::Finite { micros: 6_000_000_000_000 },
    );
    assert!(matches!(r, Err(ExportError::BufferAllocation)));
}

#[test]
fn encoded_bytes_are_a_png_stream() {
    let catalog = FontCatalog::empty();
    let img = export_document(SQUARE_100, &catalog, &unit_scale()).unwrap();
    assert_eq!(img.width, 100);
    assert_eq!(img.height, 100);
    assert_eq!(&img.bytes[..8], [0x89, 0x50, 0x4E, 0x47, 0x0D, 0x0A, 0x1A, 0x0A]);
}

#[test]
fn encoding_matches_the_canvas() {
    let catalog = FontCatalog::empty();
    let scene = SceneGraph::parse_document(SQUARE_100, &catalog).unwrap();
    let plan = plan_raster(scene.width(), scene.height(), &unit_scale()).unwrap();
    let canvas = rasterize(&scene, &plan).unwrap();
    let direct = encode_canvas(&canvas).unwrap();
    let through_pipeline = export_document(SQUARE_100, &catalog, &unit_scale()).unwrap();
    assert_eq!(direct, through_pipeline.bytes);
}
