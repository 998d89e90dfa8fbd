use rustiles::color::Color;
use rustiles::engine::EvalError;
use rustiles::render::render_tile;
use rustiles::render::DrawCall;
use rustiles::render::RenderError;
use rustiles::render::SkippedKind;
use rustiles::style::Layer;
use rustiles::style::Paint;
use rustiles::style::FillColor;
use rustiles::style::Style;
use rustiles::style::StringOrNumberOrSequenceOrBool as Expr;
use rustiles::tile::Coord;
use rustiles::tile::DecodedTile;
use rustiles::tile::Feature;
use rustiles::tile::Geometry;
use rustiles::tile::Polygon;
use rustiles::tile::PropertyValue;
use rustiles::tile::TileLayer;

fn c(x: i64, y: i64) -> Coord {
    Coord { x, y }
}

fn feature(geometry: Geometry) -> Feature {
    Feature { geometry, properties: None }
}

fn classed_feature(geometry: Geometry, class: &str) -> Feature {
    Feature {
        geometry,
        properties: Some(vec![(
            String::from("class"),
            PropertyValue::Str(String::from(class)),
        )]),
    }
}

fn line_layer(id: &str, source_layer: &str, line_color: Option<FillColor>) -> Layer {
    Layer {
        id: String::from(id),
        source: None,
        source_layer: Some(String::from(source_layer)),
        layer_type: String::from("line"),
        paint: line_color.map(|fc| Paint {
            background_color: None,
            fill_color: None,
            line_color: Some(fc),
        }),
        filter: None,
    }
}

fn one_layer_tile(name: &str, features: Vec<Feature>) -> DecodedTile {
    DecodedTile { layers: vec![TileLayer { name: String::from(name), features }] }
}

fn style_of(layers: Vec<Layer>) -> Style {
    Style { name: String::from("test style"), layers }
}

#[test]
fn geometry_coverage_draws_seven_and_skips_three() {
    let features = vec![
        feature(Geometry::Point(c(1, 1))),
        feature(Geometry::MultiPoint(vec![c(2, 2)])),
        feature(Geometry::Line(c(0, 0), c(5, 5))),
        feature(Geometry::LineString(vec![c(0, 0), c(1, 2), c(3, 4)])),
        feature(Geometry::MultiLineString(vec![vec![c(0, 0), c(9, 9)]])),
        feature(Geometry::Polygon(Polygon {
            exterior: vec![c(0, 0), c(4, 0), c(4, 4)],
            interiors: Vec::new(),
        })),
        feature(Geometry::MultiPolygon(vec![Polygon {
            exterior: vec![c(0, 0), c(2, 0), c(2, 2)],
            interiors: Vec::new(),
        }])),
        feature(Geometry::Rect(c(0, 0), c(1, 1))),
        feature(Geometry::Triangle(c(0, 0), c(1, 0), c(0, 1))),
        feature(Geometry::GeometryCollection(Vec::new())),
    ];
    let style = style_of(vec![line_layer("roads", "roads", None)]);
    let tile = one_layer_tile("roads", features);
    let out = render_tile(&style, &tile, 14).unwrap();
    assert_eq!(out.calls.len(), 7);
    assert_eq!(
        out.skipped,
        vec![SkippedKind::Rect, SkippedKind::Triangle, SkippedKind::GeometryCollection]
    );
    assert_eq!(out.skipped_layers.len(), 0);
}

#[test]
fn layer_order_paints_the_later_layer_on_top() {
    let tile = DecodedTile {
        layers: vec![
            TileLayer { name: String::from("below"), features: vec![feature(Geometry::Point(c(10, 10)))] },
            TileLayer { name: String::from("above"), features: vec![feature(Geometry::Point(c(11, 11)))] },
        ],
    };
    let style = style_of(vec![
        line_layer("below", "below", Some(FillColor::String(String::from("#ff0000")))),
        line_layer("above", "above", Some(FillColor::String(String::from("#0000ff")))),
    ]);
    let out = render_tile(&style, &tile, 14).unwrap();
    assert_eq!(out.calls.len(), 2);

    let mut pixmap = tiny_skia::Pixmap::new(32, 32).unwrap();
    for call in &out.calls {
        match call {
            DrawCall::FillRect { x, y, width, height, color } => {
                let rect = tiny_skia::Rect::from_xywh(
                    *x as f32,
                    *y as f32,
                    *width as f32,
                    *height as f32,
                )
                .unwrap();
                let mut paint = tiny_skia::Paint::default();
                paint.set_color_rgba8(color.r, color.g, color.b, color.a);
                pixmap.fill_rect(rect, &paint, tiny_skia::Transform::identity(), None);
            }
            DrawCall::StrokePath { .. } => panic!("point markers only in this test"),
        }
    }
    let overlap = pixmap.pixel(11, 11).unwrap();
    assert_eq!(overlap.blue(), 255, "the later layer's color must be on top");
    assert_eq!(overlap.red(), 0);
}

#[test]
fn polygon_renders_only_its_exterior_ring() {
    let exterior = vec![c(0, 0), c(10, 0), c(10, 10), c(0, 10)];
    let hole = vec![c(4, 4), c(6, 4), c(6, 6)];
    let tile = one_layer_tile(
        "land",
        vec![feature(Geometry::Polygon(Polygon {
            exterior: exterior.clone(),
            interiors: vec![hole.clone()],
        }))],
    );
    let style = style_of(vec![line_layer("land", "land", None)]);
    let out = render_tile(&style, &tile, 14).unwrap();
    assert_eq!(out.calls.len(), 1);
    match &out.calls[0] {
        DrawCall::StrokePath { points, .. } => {
            assert_eq!(points, &exterior);
            for p in &hole {
                assert!(!points.contains(p), "an interior-ring vertex leaked into the path");
            }
        }
        DrawCall::FillRect { .. } => panic!("a polygon strokes its exterior"),
    }
}

#[test]
fn empty_line_string_aborts_the_render() {
    let tile = one_layer_tile("roads", vec![feature(Geometry::LineString(Vec::new()))]);
    let style = style_of(vec![line_layer("roads", "roads", None)]);
    assert_eq!(render_tile(&style, &tile, 14), Err(RenderError::EmptyPath));
}

#[test]
fn filtered_layer_draws_matching_features_only() {
    let filter = vec![
        Expr::String(String::from("==")),
        Expr::Sequence(vec![
            Expr::String(String::from("get")),
            Expr::String(String::from("kind")),
        ]),
        Expr::String(String::from("river")),
    ];
    let mut layer = line_layer("water", "water", None);
    layer.filter = Some(filter);
    let river = Feature {
        geometry: Geometry::Point(c(1, 1)),
        properties: Some(vec![(String::from("kind"), PropertyValue::Str(String::from("river")))]),
    };
    let road = Feature {
        geometry: Geometry::Point(c(2, 2)),
        properties: Some(vec![(String::from("kind"), PropertyValue::Str(String::from("road")))]),
    };
    let tile = one_layer_tile("water", vec![river, road]);
    let out = render_tile(&style_of(vec![layer]), &tile, 14).unwrap();
    assert_eq!(out.calls.len(), 1);
    match &out.calls[0] {
        DrawCall::FillRect { x, y, .. } => {
            assert_eq!((*x, *y), (0, 0), "the marker square is centered on the point");
        }
        DrawCall::StrokePath { .. } => panic!("a point draws a marker"),
    }
}

#[test]
fn unfiltered_layer_highlights_road_classes() {
    let tile = one_layer_tile(
        "roads",
        vec![
            classed_feature(Geometry::Point(c(1, 1)), "motorway"),
            classed_feature(Geometry::Point(c(2, 2)), "footway"),
        ],
    );
    let style = style_of(vec![line_layer("roads", "roads", None)]);
    let out = render_tile(&style, &tile, 14).unwrap();
    assert_eq!(out.calls.len(), 2);
    let color_of = |call: &DrawCall| match call {
        DrawCall::FillRect { color, .. } => *color,
        DrawCall::StrokePath { color, .. } => *color,
    };
    assert_eq!(color_of(&out.calls[0]), Color { r: 127, g: 0, b: 0, a: 200 });
    assert_eq!(color_of(&out.calls[1]), Color { r: 0, g: 127, b: 0, a: 200 });
}

#[test]
fn unbound_or_absent_source_layers_contribute_nothing() {
    let tile = one_layer_tile("roads", vec![feature(Geometry::Point(c(1, 1)))]);
    let mut unbound = line_layer("no binding", "roads", None);
    unbound.source_layer = None;
    let absent = line_layer("absent", "waterways", None);
    let out = render_tile(&style_of(vec![unbound, absent]), &tile, 14).unwrap();
    assert_eq!(out.calls.len(), 0);
    assert_eq!(out.skipped.len(), 0);
    assert_eq!(out.skipped_layers.len(), 0, "an unbound or absent binding is no warning");
}

#[test]
fn only_line_layers_are_rasterized() {
    let tile = one_layer_tile("roads", vec![feature(Geometry::Point(c(1, 1)))]);
    let mut fill = line_layer("fill layer", "roads", None);
    fill.layer_type = String::from("fill");
    let mut background = line_layer("background layer", "roads", None);
    background.layer_type = String::from("background");
    let out = render_tile(&style_of(vec![fill, background]), &tile, 14).unwrap();
    assert_eq!(out.calls.len(), 0);
    assert_eq!(
        out.skipped_layers,
        vec![String::from("fill"), String::from("background")],
        "unrasterized layer kinds are recorded so the caller can log them"
    );
}

#[test]
fn malformed_paint_aborts_and_filter_errors_surface() {
    let bad_paint = line_layer(
        "bad paint",
        "roads",
        Some(FillColor::String(String::from("fuchsia"))),
    );
    let tile = one_layer_tile("roads", vec![feature(Geometry::Point(c(1, 1)))]);
    assert_eq!(
        render_tile(&style_of(vec![bad_paint]), &tile, 14),
        Err(RenderError::Paint(rustiles::color::PaintError::InvalidColor))
    );

    let mut bad_filter = line_layer("bad filter", "roads", None);
    bad_filter.filter = Some(vec![Expr::Number(1)]);
    assert_eq!(
        render_tile(&style_of(vec![bad_filter]), &tile, 14),
        Err(RenderError::Filter(EvalError::NotAnOperator))
    );
}

#[test]
fn style_layer_ids_must_be_unique() {
    let unique = style_of(vec![line_layer("roads", "roads", None), line_layer("water", "water", None)]);
    assert!(unique.ids_unique());
    let duplicated = style_of(vec![line_layer("roads", "roads", None), line_layer("roads", "water", None)]);
    assert!(!duplicated.ids_unique());
}

#[test]
fn stops_paint_resolves_at_the_render_zoom() {
    let table = FillColor::FillColorWithStops(rustiles::style::FillColorWithStops {
        stops: vec![
            rustiles::style::Stop { input: 10, output: String::from("#101010") },
            rustiles::style::Stop { input: 14, output: String::from("#303030") },
        ],
    });
    let tile = one_layer_tile("roads", vec![feature(Geometry::Point(c(1, 1)))]);
    let style = style_of(vec![line_layer("roads", "roads", Some(table))]);
    let out = render_tile(&style, &tile, 12).unwrap();
    match &out.calls[0] {
        DrawCall::FillRect { color, .. } => {
            assert_eq!(*color, Color { r: 0x20, g: 0x20, b: 0x20, a: 255 });
        }
        DrawCall::StrokePath { .. } => panic!("a point draws a marker"),
    }
}
