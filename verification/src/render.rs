//! The rasterizer: walks style layers in document order (paint order,
//! back to front), selects matching features from each layer's bound
//! source layer, resolves the paint, and turns each feature's geometry
//! into drawing-surface commands.
//!
//! The outcome of a render is the exact command list a drawing backend
//! must execute, in order, plus records of the geometry kinds and the
//! layer kinds that were recognized and skipped, for the caller to
//! log.  Allocating the canvas, executing the
//! commands and encoding the image are the caller's side of the
//! drawing-surface boundary.  Either the whole tile renders, or the
//! first failure is reported and no command list is handed out.

use vstd::prelude::*;

use crate::color::Color;
use crate::color::PaintError;
use crate::color::resolve;
use crate::color::spec_resolve;
use crate::engine::EvalError;
use crate::engine::layer_filter_matches;
use crate::engine::matches_pattern;
use crate::engine::spec_layer_filter_matches;
use crate::engine::spec_matches_pattern;
use crate::style::Layer;
use crate::style::LayerType;
use crate::style::Style;
use crate::tile::Coord;
use crate::tile::DecodedTile;
use crate::tile::Feature;
use crate::tile::Geometry;
use crate::tile::Polygon;
use crate::tile::TileLayer;

verus! {

/// The side length of the canvas, in the tile's local coordinate units.
pub const CANVAS_SIZE: i64 = 4096;

/// The stroke parameters of one path command.
#[derive(Clone, Copy, PartialEq, Eq, Structural, Debug)]
pub struct StrokeStyle {
    pub width: i64,
    pub round_cap: bool,
    pub dash_on: i64,
    pub dash_off: i64,
}

/// One command for the drawing backend: a filled axis-aligned
/// rectangle, or a stroked open path visiting its points in order,
/// never closed.
#[derive(Debug, PartialEq, Eq, Clone)]
pub enum DrawCall {
    FillRect { x: i64, y: i64, width: i64, height: i64, color: Color },
    StrokePath { points: Vec<Coord>, color: Color, stroke: StrokeStyle },
}

/// The mathematical value of one drawing command.
pub enum DrawCallV {
    FillRect { x: i64, y: i64, width: i64, height: i64, color: Color },
    StrokePath { points: Seq<Coord>, color: Color, stroke: StrokeStyle },
}

impl View for DrawCall {
    type V = DrawCallV;

    open spec fn view(&self) -> DrawCallV {
        match self {
            DrawCall::FillRect { x, y, width, height, color } => DrawCallV::FillRect {
                x: *x,
                y: *y,
                width: *width,
                height: *height,
                color: *color,
            },
            DrawCall::StrokePath { points, color, stroke } => DrawCallV::StrokePath {
                points: points@,
                color: *color,
                stroke: *stroke,
            },
        }
    }
}

/// The geometry kinds that are recognized and skipped with a warning.
#[derive(Clone, Copy, PartialEq, Eq, Structural, Debug)]
pub enum SkippedKind {
    Rect,
    Triangle,
    GeometryCollection,
}

/// Why a render failed as a whole.
#[derive(Clone, Copy, PartialEq, Eq, Structural, Debug)]
pub enum RenderError {
    /// A malformed paint value of a layer whose features were reached.
    Paint(PaintError),
    /// A filter that did not evaluate on some feature.
    Filter(EvalError),
    /// A path geometry with no vertices at all.
    EmptyPath,
}

/// A finished render: the commands for the backend, in paint order, and
/// the geometry kinds that were skipped, in encounter order.
#[derive(Debug, PartialEq, Eq, Clone)]
pub struct RenderOutput {
    pub calls: Vec<DrawCall>,
    pub skipped: Vec<SkippedKind>,
    /// The `layer_type` of each recognized style layer of an
    /// unrasterized kind, in document order: the no-ops a caller logs.
    pub skipped_layers: Vec<String>,
}

/// The command list of a render outcome, as mathematical values.
pub open spec fn spec_calls(o: RenderOutput) -> Seq<DrawCallV> {
    o.calls@.map_values(|c: DrawCall| c@)
}

/// The skipped layer kinds of a render outcome, as character sequences.
pub open spec fn spec_skipped_layers(o: RenderOutput) -> Seq<Seq<char>> {
    o.skipped_layers@.map_values(|s: String| s@)
}

/// The fixed default paint color of a layer that declares none.
pub open spec fn spec_default_color() -> Color {
    Color { r: 0, g: 127, b: 0, a: 200 }
}

/// The distinguished highlight color of the fallback classification.
pub open spec fn spec_highlight_color() -> Color {
    Color { r: 127, g: 0, b: 0, a: 200 }
}

/// The fixed stroke: width six, round caps, a twenty-on forty-off dash.
pub open spec fn spec_default_stroke() -> StrokeStyle {
    StrokeStyle { width: 6, round_cap: true, dash_on: 20, dash_off: 40 }
}

/// The fixed default paint color of a layer that declares none.
pub fn default_color() -> (c: Color)
    ensures
        c == spec_default_color(),
{
    Color { r: 0, g: 127, b: 0, a: 200 }
}

/// The distinguished highlight color of the fallback classification.
pub fn highlight_color() -> (c: Color)
    ensures
        c == spec_highlight_color(),
{
    Color { r: 127, g: 0, b: 0, a: 200 }
}

/// The fixed stroke style every path is drawn with.
pub fn default_stroke() -> (s: StrokeStyle)
    ensures
        s == spec_default_stroke(),
{
    StrokeStyle { width: 6, round_cap: true, dash_on: 20, dash_off: 40 }
}

/// The origin of the three-unit marker square centered at coordinate
/// `c`: one unit back, held at the machine minimum where no smaller
/// coordinate exists.
pub open spec fn spec_marker_origin(c: i64) -> i64 {
    if c == i64::MIN {
        c
    } else {
        (c - 1) as i64
    }
}

/// One unit back from `c`, held at the machine minimum.
fn marker_origin(c: i64) -> (r: i64)
    ensures
        r == spec_marker_origin(c),
{
    if c == i64::MIN {
        c
    } else {
        c - 1
    }
}

/// The marker for a point: a small filled square centered at the point.
pub open spec fn spec_point_call(p: Coord, color: Color) -> DrawCallV {
    DrawCallV::FillRect {
        x: spec_marker_origin(p.x),
        y: spec_marker_origin(p.y),
        width: 3,
        height: 3,
        color,
    }
}

/// The command for one stroked path.
pub open spec fn spec_path_call(ps: Seq<Coord>, color: Color, stroke: StrokeStyle) -> DrawCallV {
    DrawCallV::StrokePath { points: ps, color, stroke }
}

/// The commands for a line string: one stroked path visiting every
/// vertex in order, or the failure for a path with no vertices.
pub open spec fn spec_linestring_calls(ps: Seq<Coord>, color: Color, stroke: StrokeStyle) -> Result<
    Seq<DrawCallV>,
    RenderError,
> {
    if ps.len() == 0 {
        Err(RenderError::EmptyPath)
    } else {
        Ok(seq![spec_path_call(ps, color, stroke)])
    }
}

/// The commands for the members of a multi line string from index `i`
/// on, each under the line-string rule, independently.
pub open spec fn spec_multilinestring_calls(
    ls: Seq<Vec<Coord>>,
    color: Color,
    stroke: StrokeStyle,
    i: int,
) -> Result<Seq<DrawCallV>, RenderError>
    decreases ls.len() - i,
{
    if i < 0 || i >= ls.len() {
        Ok(Seq::empty())
    } else {
        match spec_linestring_calls(ls[i]@, color, stroke) {
            Err(e) => Err(e),
            Ok(cs) => match spec_multilinestring_calls(ls, color, stroke, i + 1) {
                Err(e) => Err(e),
                Ok(rest) => Ok(cs + rest),
            },
        }
    }
}

/// The commands for the members of a multi polygon from index `i` on:
/// each member's exterior ring under the line-string rule.
pub open spec fn spec_multipolygon_calls(
    ps: Seq<Polygon>,
    color: Color,
    stroke: StrokeStyle,
    i: int,
) -> Result<Seq<DrawCallV>, RenderError>
    decreases ps.len() - i,
{
    if i < 0 || i >= ps.len() {
        Ok(Seq::empty())
    } else {
        match spec_linestring_calls(ps[i].exterior@, color, stroke) {
            Err(e) => Err(e),
            Ok(cs) => match spec_multipolygon_calls(ps, color, stroke, i + 1) {
                Err(e) => Err(e),
                Ok(rest) => Ok(cs + rest),
            },
        }
    }
}

/// The commands and skips for one geometry.  A point becomes a marker,
/// paths are stroked, a polygon contributes only its exterior ring, and
/// the three unsupported kinds are skipped, never a failure.
pub open spec fn spec_geometry_calls(g: Geometry, color: Color, stroke: StrokeStyle) -> Result<
    (Seq<DrawCallV>, Seq<SkippedKind>),
    RenderError,
> {
    match g {
        Geometry::Point(p) => Ok((seq![spec_point_call(p, color)], Seq::empty())),
        Geometry::MultiPoint(ps) => Ok(
            (ps@.map_values(|p: Coord| spec_point_call(p, color)), Seq::empty()),
        ),
        Geometry::Line(a, b) => Ok((seq![spec_path_call(seq![a, b], color, stroke)], Seq::empty())),
        Geometry::LineString(ps) => match spec_linestring_calls(ps@, color, stroke) {
            Err(e) => Err(e),
            Ok(cs) => Ok((cs, Seq::empty())),
        },
        Geometry::MultiLineString(ls) => match spec_multilinestring_calls(ls@, color, stroke, 0) {
            Err(e) => Err(e),
            Ok(cs) => Ok((cs, Seq::empty())),
        },
        Geometry::Polygon(poly) => match spec_linestring_calls(poly.exterior@, color, stroke) {
            Err(e) => Err(e),
            Ok(cs) => Ok((cs, Seq::empty())),
        },
        Geometry::MultiPolygon(ps) => match spec_multipolygon_calls(ps@, color, stroke, 0) {
            Err(e) => Err(e),
            Ok(cs) => Ok((cs, Seq::empty())),
        },
        Geometry::Rect(_, _) => Ok((Seq::empty(), seq![SkippedKind::Rect])),
        Geometry::Triangle(_, _, _) => Ok((Seq::empty(), seq![SkippedKind::Triangle])),
        Geometry::GeometryCollection(_) => Ok(
            (Seq::empty(), seq![SkippedKind::GeometryCollection]),
        ),
    }
}

/// A polygon's interior rings contribute no command at all: two
/// polygons sharing an exterior ring render identically, whatever their
/// holes.
pub proof fn lemma_polygon_hole_omission(
    exterior: Vec<Coord>,
    holes_a: Vec<Vec<Coord>>,
    holes_b: Vec<Vec<Coord>>,
    color: Color,
    stroke: StrokeStyle,
)
    ensures
        spec_geometry_calls(
            Geometry::Polygon(Polygon { exterior, interiors: holes_a }),
            color,
            stroke,
        ) == spec_geometry_calls(
            Geometry::Polygon(Polygon { exterior, interiors: holes_b }),
            color,
            stroke,
        ),
{
}

/// A polygon draws exactly one command: the stroked path of its
/// exterior ring, visiting its vertices in order; its interior rings
/// contribute nothing at all.
pub proof fn lemma_polygon_exterior_only(poly: Polygon, color: Color, stroke: StrokeStyle)
    requires
        poly.exterior@.len() > 0,
    ensures
        spec_geometry_calls(Geometry::Polygon(poly), color, stroke) == Ok::<
            (Seq<DrawCallV>, Seq<SkippedKind>),
            RenderError,
        >((seq![spec_path_call(poly.exterior@, color, stroke)], Seq::empty())),
{
}

/// The unsupported geometry kinds are recognized no-ops: each yields no
/// command and exactly one skip record of its own kind, never a
/// failure.
pub proof fn lemma_unsupported_geometry_is_skipped(g: Geometry, color: Color, stroke: StrokeStyle)
    requires
        g matches Geometry::Rect(_, _) || g matches Geometry::Triangle(_, _, _) || g matches
            Geometry::GeometryCollection(_),
    ensures
        spec_geometry_calls(g, color, stroke) matches Ok(p) && p.0 == Seq::<DrawCallV>::empty()
            && p.1.len() == 1,
        g matches Geometry::Rect(_, _) ==> spec_geometry_calls(g, color, stroke) == Ok::<
            (Seq<DrawCallV>, Seq<SkippedKind>),
            RenderError,
        >((Seq::empty(), seq![SkippedKind::Rect])),
        g matches Geometry::Triangle(_, _, _) ==> spec_geometry_calls(g, color, stroke) == Ok::<
            (Seq<DrawCallV>, Seq<SkippedKind>),
            RenderError,
        >((Seq::empty(), seq![SkippedKind::Triangle])),
        g matches Geometry::GeometryCollection(_) ==> spec_geometry_calls(g, color, stroke) == Ok::<
            (Seq<DrawCallV>, Seq<SkippedKind>),
            RenderError,
        >((Seq::empty(), seq![SkippedKind::GeometryCollection])),
{
}

/// One representative of each implemented geometry kind: a single
/// member for each aggregate kind, at least one vertex on each path.
pub open spec fn spec_single_member_geometry(g: Geometry) -> bool {
    match g {
        Geometry::Point(_) => true,
        Geometry::MultiPoint(ps) => ps@.len() == 1,
        Geometry::Line(_, _) => true,
        Geometry::LineString(ps) => ps@.len() > 0,
        Geometry::MultiLineString(ls) => ls@.len() == 1 && ls@[0]@.len() > 0,
        Geometry::Polygon(poly) => poly.exterior@.len() > 0,
        Geometry::MultiPolygon(ps) => ps@.len() == 1 && ps@[0].exterior@.len() > 0,
        _ => false,
    }
}

/// Each implemented geometry kind draws: a representative with a single
/// member and at least one vertex yields exactly one command and no
/// skip.  Together with the skip lemma this fixes the counts for a tile
/// holding one feature of every kind: one command per implemented kind,
/// one skip record per unsupported kind.
pub proof fn lemma_implemented_geometry_draws_once(g: Geometry, color: Color, stroke: StrokeStyle)
    requires
        spec_single_member_geometry(g),
    ensures
        spec_geometry_calls(g, color, stroke) matches Ok(p) && p.0.len() == 1 && p.1.len() == 0,
{
    reveal_with_fuel(spec_multilinestring_calls, 3);
    reveal_with_fuel(spec_multipolygon_calls, 3);
    match g {
        Geometry::MultiPoint(ps) => {
            assert(ps@.map_values(|q: Coord| spec_point_call(q, color)).len() == 1);
        },
        _ => {},
    }
}

/// The paint color a layer gives its features at `zoom`: its line
/// color, else its fill color, else the fixed default.
pub open spec fn spec_layer_color(layer: Layer, zoom: i64) -> Result<Color, PaintError> {
    match layer.paint {
        None => Ok(spec_default_color()),
        Some(paint) => match paint.line_color {
            Some(fc) => spec_resolve(fc, zoom),
            None => match paint.fill_color {
                Some(fc) => spec_resolve(fc, zoom),
                None => Ok(spec_default_color()),
            },
        },
    }
}

/// Resolves the paint color a layer gives its features at `zoom`.
pub fn layer_color(layer: &Layer, zoom: i64) -> (r: Result<Color, PaintError>)
    ensures
        r == spec_layer_color(*layer, zoom),
{
    match &layer.paint {
        None => Ok(default_color()),
        Some(paint) => match &paint.line_color {
            Some(fc) => resolve(fc, zoom),
            None => match &paint.fill_color {
                Some(fc) => resolve(fc, zoom),
                None => Ok(default_color()),
            },
        },
    }
}

/// The commands and skips one feature contributes under `layer`: the
/// filter is evaluated first, and only for a matched feature is the
/// paint resolved, so a malformed paint value surfaces exactly when a
/// feature reaches it.  With a filter, a matching feature takes the
/// layer color; without one, every feature draws, and the fallback
/// road classification takes the highlight color.
pub open spec fn spec_feature_calls(layer: Layer, f: Feature, zoom: i64) -> Result<
    (Seq<DrawCallV>, Seq<SkippedKind>),
    RenderError,
> {
    match layer.filter {
        Some(filt) => match spec_layer_filter_matches(filt, f) {
            Err(e) => Err(RenderError::Filter(e)),
            Ok(false) => Ok((Seq::empty(), Seq::empty())),
            Ok(true) => match spec_layer_color(layer, zoom) {
                Err(e) => Err(RenderError::Paint(e)),
                Ok(base) => spec_geometry_calls(f.geometry, base, spec_default_stroke()),
            },
        },
        None => match spec_layer_color(layer, zoom) {
            Err(e) => Err(RenderError::Paint(e)),
            Ok(base) => spec_geometry_calls(
                f.geometry,
                if spec_matches_pattern(f) {
                    spec_highlight_color()
                } else {
                    base
                },
                spec_default_stroke(),
            ),
        },
    }
}

/// The commands and skips of the features of one source layer from
/// index `i` on, concatenated in feature order.
pub open spec fn spec_features_calls(layer: Layer, fs: Seq<Feature>, zoom: i64, i: int) -> Result<
    (Seq<DrawCallV>, Seq<SkippedKind>),
    RenderError,
>
    decreases fs.len() - i,
{
    if i < 0 || i >= fs.len() {
        Ok((Seq::empty(), Seq::empty()))
    } else {
        match spec_feature_calls(layer, fs[i], zoom) {
            Err(e) => Err(e),
            Ok(p) => match spec_features_calls(layer, fs, zoom, i + 1) {
                Err(e) => Err(e),
                Ok(rest) => Ok((p.0 + rest.0, p.1 + rest.1)),
            },
        }
    }
}

/// The first tile layer named `name`, if any.
pub open spec fn spec_find_layer(layers: Seq<TileLayer>, name: Seq<char>) -> Option<TileLayer>
    decreases layers.len(),
{
    if layers.len() == 0 {
        None
    } else if layers[0].name@ == name {
        Some(layers[0])
    } else {
        spec_find_layer(layers.drop_first(), name)
    }
}

/// The commands, geometry skips and layer skips one style layer
/// contributes: a layer of an unrasterized kind is recorded as skipped
/// and draws nothing; one with no source-layer binding, or whose
/// binding names no layer of the tile, contributes nothing at all;
/// otherwise its features in order.
pub open spec fn spec_layer_calls(layer: Layer, tile: DecodedTile, zoom: i64) -> Result<
    (Seq<DrawCallV>, Seq<SkippedKind>, Seq<Seq<char>>),
    RenderError,
> {
    if !LayerType::spec_name_is_rasterized(layer.layer_type@) {
        Ok((Seq::empty(), Seq::empty(), seq![layer.layer_type@]))
    } else {
        match layer.source_layer {
            None => Ok((Seq::empty(), Seq::empty(), Seq::empty())),
            Some(name) => match spec_find_layer(tile.layers@, name@) {
                None => Ok((Seq::empty(), Seq::empty(), Seq::empty())),
                Some(tl) => match spec_features_calls(layer, tl.features@, zoom, 0) {
                    Err(e) => Err(e),
                    Ok(p) => Ok((p.0, p.1, Seq::empty())),
                },
            },
        }
    }
}

/// The commands, geometry skips and layer skips of the style layers
/// from index `i` on, in document order.
pub open spec fn spec_layers_calls(layers: Seq<Layer>, tile: DecodedTile, zoom: i64, i: int) -> Result<
    (Seq<DrawCallV>, Seq<SkippedKind>, Seq<Seq<char>>),
    RenderError,
>
    decreases layers.len() - i,
{
    if i < 0 || i >= layers.len() {
        Ok((Seq::empty(), Seq::empty(), Seq::empty()))
    } else {
        match spec_layer_calls(layers[i], tile, zoom) {
            Err(e) => Err(e),
            Ok(p) => match spec_layers_calls(layers, tile, zoom, i + 1) {
                Err(e) => Err(e),
                Ok(rest) => Ok((p.0 + rest.0, p.1 + rest.1, p.2 + rest.2)),
            },
        }
    }
}

/// What a whole render yields: every style layer's contribution, in
/// document order, which is paint order, back to front.
pub open spec fn spec_render(style: Style, tile: DecodedTile, zoom: i64) -> Result<
    (Seq<DrawCallV>, Seq<SkippedKind>, Seq<Seq<char>>),
    RenderError,
> {
    spec_layers_calls(style.layers@, tile, zoom, 0)
}

/// Document order is paint order: a style of two layers that each
/// render renders as a whole, and the second layer's commands come
/// after every command of the first, so the backend draws them on top.
pub proof fn lemma_layer_order(
    style: Style,
    tile: DecodedTile,
    zoom: i64,
    first: (Seq<DrawCallV>, Seq<SkippedKind>, Seq<Seq<char>>),
    second: (Seq<DrawCallV>, Seq<SkippedKind>, Seq<Seq<char>>),
)
    requires
        style.layers@.len() == 2,
        spec_layer_calls(style.layers@[0], tile, zoom) == Ok::<
            (Seq<DrawCallV>, Seq<SkippedKind>, Seq<Seq<char>>),
            RenderError,
        >(first),
        spec_layer_calls(style.layers@[1], tile, zoom) == Ok::<
            (Seq<DrawCallV>, Seq<SkippedKind>, Seq<Seq<char>>),
            RenderError,
        >(second),
    ensures
        spec_render(style, tile, zoom) == Ok::<
            (Seq<DrawCallV>, Seq<SkippedKind>, Seq<Seq<char>>),
            RenderError,
        >((first.0 + second.0, first.1 + second.1, first.2 + second.2)),
{
    reveal_with_fuel(spec_layers_calls, 3);
    assert(second.0 + Seq::<DrawCallV>::empty() =~= second.0);
    assert(second.1 + Seq::<SkippedKind>::empty() =~= second.1);
    assert(second.2 + Seq::<Seq<char>>::empty() =~= second.2);
}

/// Copies a coordinate list.
fn copy_coords(ps: &Vec<Coord>) -> (r: Vec<Coord>)
    ensures
        r@ == ps@,
{
    let mut out: Vec<Coord> = Vec::new();
    let mut i: usize = 0;
    while i < ps.len()
        invariant
            i <= ps.len(),
            out@ == ps@.take(i as int),
        decreases ps.len() - i,
    {
        out.push(ps[i]);
        assert(ps@.take(i as int).push(ps@[i as int]) =~= ps@.take(i as int + 1));
        i = i + 1;
    }
    assert(ps@.take(ps@.len() as int) =~= ps@);
    out
}

/// Appends the marker command for one point.
fn render_point(out: &mut RenderOutput, p: Coord, color: Color)
    ensures
        spec_calls(*final(out)) == spec_calls(*old(out)).push(spec_point_call(p, color)),
        final(out).skipped@ == old(out).skipped@,
        final(out).skipped_layers@ == old(out).skipped_layers@,
{
    out.calls.push(
        DrawCall::FillRect {
            x: marker_origin(p.x),
            y: marker_origin(p.y),
            width: 3,
            height: 3,
            color,
        },
    );
    proof {
        assert(spec_calls(*out) =~= spec_calls(*old(out)).push(spec_point_call(p, color)));
    }
}

/// Appends the path command for a line string, or fails on a path with
/// no vertices.
fn render_linestring(out: &mut RenderOutput, ps: &Vec<Coord>, color: Color, stroke: StrokeStyle) -> (r:
    Result<(), RenderError>)
    ensures
        match r {
            Ok(_) => spec_linestring_calls(ps@, color, stroke) matches Ok(cs) && spec_calls(
                *final(out),
            ) == spec_calls(*old(out)) + cs && final(out).skipped@ == old(out).skipped@
                && final(out).skipped_layers@ == old(out).skipped_layers@,
            Err(e) => spec_linestring_calls(ps@, color, stroke) == Err::<Seq<DrawCallV>, RenderError>(
                e,
            ),
        },
{
    if ps.len() == 0 {
        return Err(RenderError::EmptyPath);
    }
    let pts = copy_coords(ps);
    out.calls.push(DrawCall::StrokePath { points: pts, color, stroke });
    proof {
        assert(spec_calls(*out) =~= spec_calls(*old(out)) + seq![
            spec_path_call(ps@, color, stroke),
        ]);
    }
    Ok(())
}

/// Appends the commands and skips for one geometry.
fn render_geometry(out: &mut RenderOutput, g: &Geometry, color: Color, stroke: StrokeStyle) -> (r:
    Result<(), RenderError>)
    ensures
        match r {
            Ok(_) => spec_geometry_calls(*g, color, stroke) matches Ok(p) && spec_calls(*final(out))
                == spec_calls(*old(out)) + p.0 && final(out).skipped@ == old(out).skipped@ + p.1
                && final(out).skipped_layers@ == old(out).skipped_layers@,
            Err(e) => spec_geometry_calls(*g, color, stroke) == Err::<
                (Seq<DrawCallV>, Seq<SkippedKind>),
                RenderError,
            >(e),
        },
{
    match g {
        Geometry::Point(p) => {
            render_point(out, *p, color);
            proof {
                assert(spec_calls(*out) =~= spec_calls(*old(out)) + seq![
                    spec_point_call(*p, color),
                ]);
                assert(old(out).skipped@ + Seq::<SkippedKind>::empty() =~= old(out).skipped@);
            }
            Ok(())
        },
        Geometry::MultiPoint(ps) => {
            let ghost f = |q: Coord| spec_point_call(q, color);
            let mut i: usize = 0;
            while i < ps.len()
                invariant
                    i <= ps.len(),
                    spec_calls(*out) == spec_calls(*old(out)) + ps@.take(i as int).map_values(
                        |q: Coord| spec_point_call(q, color),
                    ),
                    out.skipped@ == old(out).skipped@,
                    out.skipped_layers@ == old(out).skipped_layers@,
                decreases ps.len() - i,
            {
                render_point(out, ps[i], color);
                proof {
                    assert(spec_calls(*out) =~= spec_calls(*old(out)) + ps@.take(
                        i as int + 1,
                    ).map_values(|q: Coord| spec_point_call(q, color)));
                }
                i = i + 1;
            }
            proof {
                assert(ps@.take(ps@.len() as int) =~= ps@);
                assert(old(out).skipped@ + Seq::<SkippedKind>::empty() =~= old(out).skipped@);
            }
            Ok(())
        },
        Geometry::Line(a, b) => {
            let mut pts: Vec<Coord> = Vec::new();
            pts.push(*a);
            pts.push(*b);
            assert(pts@ =~= seq![*a, *b]);
            out.calls.push(DrawCall::StrokePath { points: pts, color, stroke });
            proof {
                assert(spec_calls(*out) =~= spec_calls(*old(out)) + seq![
                    spec_path_call(seq![*a, *b], color, stroke),
                ]);
                assert(old(out).skipped@ + Seq::<SkippedKind>::empty() =~= old(out).skipped@);
            }
            Ok(())
        },
        Geometry::LineString(ps) => {
            let r = render_linestring(out, ps, color, stroke);
            proof {
                if r is Ok {
                    assert(old(out).skipped@ + Seq::<SkippedKind>::empty() =~= old(out).skipped@);
                }
            }
            r
        },
        Geometry::MultiLineString(ls) => {
            let ghost mut done: Seq<DrawCallV> = Seq::empty();
            proof {
                if let Ok(rest) = spec_multilinestring_calls(ls@, color, stroke, 0) {
                    assert(Seq::<DrawCallV>::empty() + rest =~= rest);
                }
            }
            let mut i: usize = 0;
            while i < ls.len()
                invariant
                    i <= ls.len(),
                    *g == Geometry::MultiLineString(*ls),
                    spec_calls(*out) == spec_calls(*old(out)) + done,
                    out.skipped@ == old(out).skipped@,
                    out.skipped_layers@ == old(out).skipped_layers@,
                    match spec_multilinestring_calls(ls@, color, stroke, i as int) {
                        Ok(rest) => spec_multilinestring_calls(ls@, color, stroke, 0) == Ok::<
                            Seq<DrawCallV>,
                            RenderError,
                        >(done + rest),
                        Err(e) => spec_multilinestring_calls(ls@, color, stroke, 0) == Err::<
                            Seq<DrawCallV>,
                            RenderError,
                        >(e),
                    },
                decreases ls.len() - i,
            {
                match render_linestring(out, &ls[i], color, stroke) {
                    Err(e) => {
                        return Err(e);
                    },
                    Ok(_) => {
                        let ghost cs = seq![spec_path_call(ls@[i as int]@, color, stroke)];
                        proof {
                            let done_before = done;
                            done = done + cs;
                            if let Ok(rest) = spec_multilinestring_calls(
                                ls@,
                                color,
                                stroke,
                                i as int + 1,
                            ) {
                                assert(done_before + (cs + rest) =~= done + rest);
                            }
                        }
                    },
                }
                i = i + 1;
            }
            proof {
                if let Ok(rest) = spec_multilinestring_calls(ls@, color, stroke, ls@.len() as int) {
                    assert(rest =~= Seq::<DrawCallV>::empty());
                    assert(done + rest =~= done);
                }
                assert(old(out).skipped@ + Seq::<SkippedKind>::empty() =~= old(out).skipped@);
            }
            Ok(())
        },
        Geometry::Polygon(poly) => {
            let r = render_linestring(out, &poly.exterior, color, stroke);
            proof {
                if r is Ok {
                    assert(old(out).skipped@ + Seq::<SkippedKind>::empty() =~= old(out).skipped@);
                }
            }
            r
        },
        Geometry::MultiPolygon(ps) => {
            let ghost mut done: Seq<DrawCallV> = Seq::empty();
            proof {
                if let Ok(rest) = spec_multipolygon_calls(ps@, color, stroke, 0) {
                    assert(Seq::<DrawCallV>::empty() + rest =~= rest);
                }
            }
            let mut i: usize = 0;
            while i < ps.len()
                invariant
                    i <= ps.len(),
                    *g == Geometry::MultiPolygon(*ps),
                    spec_calls(*out) == spec_calls(*old(out)) + done,
                    out.skipped@ == old(out).skipped@,
                    out.skipped_layers@ == old(out).skipped_layers@,
                    match spec_multipolygon_calls(ps@, color, stroke, i as int) {
                        Ok(rest) => spec_multipolygon_calls(ps@, color, stroke, 0) == Ok::<
                            Seq<DrawCallV>,
                            RenderError,
                        >(done + rest),
                        Err(e) => spec_multipolygon_calls(ps@, color, stroke, 0) == Err::<
                            Seq<DrawCallV>,
                            RenderError,
                        >(e),
                    },
                decreases ps.len() - i,
            {
                match render_linestring(out, &ps[i].exterior, color, stroke) {
                    Err(e) => {
                        return Err(e);
                    },
                    Ok(_) => {
                        let ghost cs = seq![spec_path_call(ps@[i as int].exterior@, color, stroke)];
                        proof {
                            let done_before = done;
                            done = done + cs;
                            if let Ok(rest) = spec_multipolygon_calls(
                                ps@,
                                color,
                                stroke,
                                i as int + 1,
                            ) {
                                assert(done_before + (cs + rest) =~= done + rest);
                            }
                        }
                    },
                }
                i = i + 1;
            }
            proof {
                if let Ok(rest) = spec_multipolygon_calls(ps@, color, stroke, ps@.len() as int) {
                    assert(rest =~= Seq::<DrawCallV>::empty());
                    assert(done + rest =~= done);
                }
                assert(old(out).skipped@ + Seq::<SkippedKind>::empty() =~= old(out).skipped@);
            }
            Ok(())
        },
        Geometry::Rect(_, _) => {
            out.skipped.push(SkippedKind::Rect);
            proof {
                assert(spec_calls(*out) =~= spec_calls(*old(out)) + Seq::<DrawCallV>::empty());
                assert(out.skipped@ =~= old(out).skipped@ + seq![SkippedKind::Rect]);
            }
            Ok(())
        },
        Geometry::Triangle(_, _, _) => {
            out.skipped.push(SkippedKind::Triangle);
            proof {
                assert(spec_calls(*out) =~= spec_calls(*old(out)) + Seq::<DrawCallV>::empty());
                assert(out.skipped@ =~= old(out).skipped@ + seq![SkippedKind::Triangle]);
            }
            Ok(())
        },
        Geometry::GeometryCollection(_) => {
            out.skipped.push(SkippedKind::GeometryCollection);
            proof {
                assert(spec_calls(*out) =~= spec_calls(*old(out)) + Seq::<DrawCallV>::empty());
                assert(out.skipped@ =~= old(out).skipped@ + seq![SkippedKind::GeometryCollection]);
            }
            Ok(())
        },
    }
}

/// Appends the commands and skips one feature contributes.
fn render_feature(out: &mut RenderOutput, layer: &Layer, f: &Feature, zoom: i64) -> (r: Result<
    (),
    RenderError,
>)
    ensures
        match r {
            Ok(_) => spec_feature_calls(*layer, *f, zoom) matches Ok(p) && spec_calls(*final(out))
                == spec_calls(*old(out)) + p.0 && final(out).skipped@ == old(out).skipped@ + p.1
                && final(out).skipped_layers@ == old(out).skipped_layers@,
            Err(e) => spec_feature_calls(*layer, *f, zoom) == Err::<
                (Seq<DrawCallV>, Seq<SkippedKind>),
                RenderError,
            >(e),
        },
{
    match &layer.filter {
        Some(filt) => match layer_filter_matches(filt, f) {
            Err(e) => Err(RenderError::Filter(e)),
            Ok(false) => {
                proof {
                    assert(spec_calls(*out) =~= spec_calls(*old(out)) + Seq::<DrawCallV>::empty());
                    assert(out.skipped@ =~= old(out).skipped@ + Seq::<SkippedKind>::empty());
                }
                Ok(())
            },
            Ok(true) => match layer_color(layer, zoom) {
                Err(e) => Err(RenderError::Paint(e)),
                Ok(base) => render_geometry(out, &f.geometry, base, default_stroke()),
            },
        },
        None => match layer_color(layer, zoom) {
            Err(e) => Err(RenderError::Paint(e)),
            Ok(base) => {
                let color = if matches_pattern(f) {
                    highlight_color()
                } else {
                    base
                };
                render_geometry(out, &f.geometry, color, default_stroke())
            },
        },
    }
}

/// Finds the first tile layer with the wanted name.
fn find_layer<'a>(layers: &'a Vec<TileLayer>, name: &String) -> (r: Option<&'a TileLayer>)
    ensures
        match r {
            Some(tl) => spec_find_layer(layers@, name@) == Some(*tl),
            None => spec_find_layer(layers@, name@) is None,
        },
{
    let mut i: usize = 0;
    assert(layers@.skip(0) =~= layers@);
    while i < layers.len()
        invariant
            i <= layers.len(),
            spec_find_layer(layers@, name@) == spec_find_layer(layers@.skip(i as int), name@),
        decreases layers.len() - i,
    {
        assert(layers@.skip(i as int)[0] == layers@[i as int]);
        assert(layers@.skip(i as int).drop_first() =~= layers@.skip(i as int + 1));
        if layers[i].name == *name {
            return Some(&layers[i]);
        }
        i = i + 1;
    }
    None
}

/// Appends the commands and skips one style layer contributes.
fn render_layer(out: &mut RenderOutput, layer: &Layer, tile: &DecodedTile, zoom: i64) -> (r: Result<
    (),
    RenderError,
>)
    ensures
        match r {
            Ok(_) => spec_layer_calls(*layer, *tile, zoom) matches Ok(p) && spec_calls(*final(out))
                == spec_calls(*old(out)) + p.0 && final(out).skipped@ == old(out).skipped@ + p.1
                && spec_skipped_layers(*final(out)) == spec_skipped_layers(*old(out)) + p.2,
            Err(e) => spec_layer_calls(*layer, *tile, zoom) == Err::<
                (Seq<DrawCallV>, Seq<SkippedKind>, Seq<Seq<char>>),
                RenderError,
            >(e),
        },
{
    if !LayerType::name_is_rasterized(&layer.layer_type) {
        out.skipped_layers.push(layer.layer_type.clone());
        proof {
            assert(spec_calls(*out) =~= spec_calls(*old(out)) + Seq::<DrawCallV>::empty());
            assert(out.skipped@ =~= old(out).skipped@ + Seq::<SkippedKind>::empty());
            assert(spec_skipped_layers(*out) =~= spec_skipped_layers(*old(out)) + seq![
                layer.layer_type@,
            ]);
        }
        return Ok(());
    }
    let name = match &layer.source_layer {
        Some(n) => n,
        None => {
            proof {
                assert(spec_calls(*out) =~= spec_calls(*old(out)) + Seq::<DrawCallV>::empty());
                assert(out.skipped@ =~= old(out).skipped@ + Seq::<SkippedKind>::empty());
                assert(spec_skipped_layers(*out) =~= spec_skipped_layers(*old(out)) + Seq::<
                    Seq<char>,
                >::empty());
            }
            return Ok(());
        },
    };
    let tl = match find_layer(&tile.layers, name) {
        Some(tl) => tl,
        None => {
            proof {
                assert(spec_calls(*out) =~= spec_calls(*old(out)) + Seq::<DrawCallV>::empty());
                assert(out.skipped@ =~= old(out).skipped@ + Seq::<SkippedKind>::empty());
                assert(spec_skipped_layers(*out) =~= spec_skipped_layers(*old(out)) + Seq::<
                    Seq<char>,
                >::empty());
            }
            return Ok(());
        },
    };
    let fs = &tl.features;
    let ghost mut done_c: Seq<DrawCallV> = Seq::empty();
    let ghost mut done_s: Seq<SkippedKind> = Seq::empty();
    proof {
        if let Ok(rest) = spec_features_calls(*layer, fs@, zoom, 0) {
            assert(Seq::<DrawCallV>::empty() + rest.0 =~= rest.0);
            assert(Seq::<SkippedKind>::empty() + rest.1 =~= rest.1);
        }
    }
    let mut i: usize = 0;
    while i < fs.len()
        invariant
            i <= fs.len(),
            LayerType::spec_name_is_rasterized(layer.layer_type@),
            layer.source_layer matches Some(n) && n@ == name@,
            spec_find_layer(tile.layers@, name@) == Some(*tl),
            fs@ == tl.features@,
            spec_calls(*out) == spec_calls(*old(out)) + done_c,
            out.skipped@ == old(out).skipped@ + done_s,
            out.skipped_layers@ == old(out).skipped_layers@,
            match spec_features_calls(*layer, fs@, zoom, i as int) {
                Ok(rest) => spec_features_calls(*layer, fs@, zoom, 0) == Ok::<
                    (Seq<DrawCallV>, Seq<SkippedKind>),
                    RenderError,
                >((done_c + rest.0, done_s + rest.1)),
                Err(e) => spec_features_calls(*layer, fs@, zoom, 0) == Err::<
                    (Seq<DrawCallV>, Seq<SkippedKind>),
                    RenderError,
                >(e),
            },
        decreases fs.len() - i,
    {
        match render_feature(out, layer, &fs[i], zoom) {
            Err(e) => {
                return Err(e);
            },
            Ok(_) => {
                proof {
                    let p = spec_feature_calls(*layer, fs@[i as int], zoom)->Ok_0;
                    let done_c_before = done_c;
                    let done_s_before = done_s;
                    done_c = done_c + p.0;
                    done_s = done_s + p.1;
                    if let Ok(rest) = spec_features_calls(*layer, fs@, zoom, i as int + 1) {
                        assert(done_c_before + (p.0 + rest.0) =~= done_c + rest.0);
                        assert(done_s_before + (p.1 + rest.1) =~= done_s + rest.1);
                    }
                }
            },
        }
        i = i + 1;
    }
    proof {
        if let Ok(rest) = spec_features_calls(*layer, fs@, zoom, fs@.len() as int) {
            assert(done_c + rest.0 =~= done_c);
            assert(done_s + rest.1 =~= done_s);
        }
        assert(spec_skipped_layers(*out) =~= spec_skipped_layers(*old(out)) + Seq::<
            Seq<char>,
        >::empty());
    }
    Ok(())
}

/// Renders one tile under one style at one zoom: every style layer in
/// document order, which is paint order, back to front.  Either the
/// whole command list is handed out, or the first failure is reported
/// and nothing is.
pub fn render_tile(style: &Style, tile: &DecodedTile, zoom: i64) -> (r: Result<
    RenderOutput,
    RenderError,
>)
    ensures
        match r {
            Ok(out) => spec_render(*style, *tile, zoom) matches Ok(p) && spec_calls(out) == p.0
                && out.skipped@ == p.1 && spec_skipped_layers(out) == p.2,
            Err(e) => spec_render(*style, *tile, zoom) == Err::<
                (Seq<DrawCallV>, Seq<SkippedKind>, Seq<Seq<char>>),
                RenderError,
            >(e),
        },
{
    let mut out = RenderOutput { calls: Vec::new(), skipped: Vec::new(), skipped_layers: Vec::new() };
    let ghost mut done_c: Seq<DrawCallV> = Seq::empty();
    let ghost mut done_s: Seq<SkippedKind> = Seq::empty();
    let ghost mut done_n: Seq<Seq<char>> = Seq::empty();
    proof {
        assert(spec_calls(out) =~= Seq::<DrawCallV>::empty());
        assert(spec_skipped_layers(out) =~= Seq::<Seq<char>>::empty());
        if let Ok(rest) = spec_layers_calls(style.layers@, *tile, zoom, 0) {
            assert(Seq::<DrawCallV>::empty() + rest.0 =~= rest.0);
            assert(Seq::<SkippedKind>::empty() + rest.1 =~= rest.1);
            assert(Seq::<Seq<char>>::empty() + rest.2 =~= rest.2);
        }
    }
    let layers = &style.layers;
    let mut i: usize = 0;
    while i < layers.len()
        invariant
            i <= layers.len(),
            layers@ == style.layers@,
            spec_calls(out) == done_c,
            out.skipped@ == done_s,
            spec_skipped_layers(out) == done_n,
            match spec_layers_calls(style.layers@, *tile, zoom, i as int) {
                Ok(rest) => spec_render(*style, *tile, zoom) == Ok::<
                    (Seq<DrawCallV>, Seq<SkippedKind>, Seq<Seq<char>>),
                    RenderError,
                >((done_c + rest.0, done_s + rest.1, done_n + rest.2)),
                Err(e) => spec_render(*style, *tile, zoom) == Err::<
                    (Seq<DrawCallV>, Seq<SkippedKind>, Seq<Seq<char>>),
                    RenderError,
                >(e),
            },
        decreases layers.len() - i,
    {
        match render_layer(&mut out, &layers[i], tile, zoom) {
            Err(e) => {
                return Err(e);
            },
            Ok(_) => {
                proof {
                    let p = spec_layer_calls(layers@[i as int], *tile, zoom)->Ok_0;
                    let done_c_before = done_c;
                    let done_s_before = done_s;
                    let done_n_before = done_n;
                    done_c = done_c + p.0;
                    done_s = done_s + p.1;
                    done_n = done_n + p.2;
                    if let Ok(rest) = spec_layers_calls(style.layers@, *tile, zoom, i as int + 1) {
                        assert(done_c_before + (p.0 + rest.0) =~= done_c + rest.0);
                        assert(done_s_before + (p.1 + rest.1) =~= done_s + rest.1);
                        assert(done_n_before + (p.2 + rest.2) =~= done_n + rest.2);
                    }
                }
            },
        }
        i = i + 1;
    }
    proof {
        if let Ok(rest) = spec_layers_calls(style.layers@, *tile, zoom, style.layers@.len() as int) {
            assert(done_c + rest.0 =~= done_c);
            assert(done_s + rest.1 =~= done_s);
            assert(done_n + rest.2 =~= done_n);
        }
    }
    Ok(out)
}

} // verus!
