//! The in-memory vector-tile model: decoded layers of features, each a
//! geometry in the tile's local integer coordinate space together with
//! key/value attributes.
//!
//! Coordinates are the vector-tile local units (the canvas is 4096 by
//! 4096 of them).  Attributes are an association list; a lookup returns
//! the first entry with the wanted key, and an absent key is distinct
//! from every present value.

use vstd::prelude::*;

verus! {

/// One position in the tile's local coordinate space.
#[derive(Clone, Copy, PartialEq, Eq, Structural, Debug)]
pub struct Coord {
    pub x: i64,
    pub y: i64,
}

/// A polygon as an exterior ring and any number of interior rings
/// (holes).  Only the exterior ring is rendered by this design.
pub struct Polygon {
    pub exterior: Vec<Coord>,
    pub interiors: Vec<Vec<Coord>>,
}

/// The geometry of one feature.  `Rect`, `Triangle` and
/// `GeometryCollection` are recognized but never rendered: they are
/// skipped with a warning, never a failure.
pub enum Geometry {
    Point(Coord),
    MultiPoint(Vec<Coord>),
    Line(Coord, Coord),
    LineString(Vec<Coord>),
    MultiLineString(Vec<Vec<Coord>>),
    Polygon(Polygon),
    MultiPolygon(Vec<Polygon>),
    Rect(Coord, Coord),
    Triangle(Coord, Coord, Coord),
    GeometryCollection(Vec<Geometry>),
}

/// One attribute value: a string, an integer or a boolean.
#[derive(Debug, PartialEq, Eq, Clone)]
pub enum PropertyValue {
    Str(String),
    Num(i64),
    Bool(bool),
}

/// One decoded feature: a geometry and its attributes, if any.
pub struct Feature {
    pub geometry: Geometry,
    pub properties: Option<Vec<(String, PropertyValue)>>,
}

/// One named layer of a decoded tile.
pub struct TileLayer {
    pub name: String,
    pub features: Vec<Feature>,
}

/// A whole decoded tile: its layers in decoding order.
pub struct DecodedTile {
    pub layers: Vec<TileLayer>,
}

/// The first value under `key` in the association list `props`, if any.
pub open spec fn spec_lookup(props: Seq<(String, PropertyValue)>, key: Seq<char>) -> Option<
    PropertyValue,
>
    decreases props.len(),
{
    if props.len() == 0 {
        None
    } else if props[0].0@ == key {
        Some(props[0].1)
    } else {
        spec_lookup(props.drop_first(), key)
    }
}

/// The attributes of `f`, or the empty list where it has none.
pub open spec fn spec_props(f: Feature) -> Seq<(String, PropertyValue)> {
    match f.properties {
        Some(props) => props@,
        None => Seq::empty(),
    }
}

/// Looks `key` up in `props` and hands back a reference to the first
/// matching value.
pub fn lookup_property<'a>(props: &'a Vec<(String, PropertyValue)>, key: &String) -> (r: Option<
    &'a PropertyValue,
>)
    ensures
        match r {
            Some(v) => spec_lookup(props@, key@) == Some(*v),
            None => spec_lookup(props@, key@) is None,
        },
{
    let mut i: usize = 0;
    assert(props@.skip(0) =~= props@);
    while i < props.len()
        invariant
            i <= props.len(),
            spec_lookup(props@, key@) == spec_lookup(props@.skip(i as int), key@),
        decreases props.len() - i,
    {
        assert(props@.skip(i as int)[0] == props@[i as int]);
        assert(props@.skip(i as int).drop_first() =~= props@.skip(i as int + 1));
        if props[i].0 == *key {
            return Some(&props[i].1);
        }
        i = i + 1;
    }
    None
}

/// Whether the first `"class"`-like lookup under `name` in `f` yields a
/// string, and which.  This is the single-attribute accessor of the
/// style engine: it reads one named attribute of a feature as a string.
pub open spec fn spec_get_string_property(f: Feature, name: Seq<char>) -> Option<Seq<char>> {
    match spec_lookup(spec_props(f), name) {
        Some(PropertyValue::Str(s)) => Some(s@),
        _ => None,
    }
}

/// Reads the attribute `attribute_name` of `feature` as a string: the
/// value where the attribute is present and string-valued, nothing
/// otherwise.
pub fn expression_get(attribute_name: &String, feature: &Feature) -> (r: Option<String>)
    ensures
        match r {
            Some(s) => spec_get_string_property(*feature, attribute_name@) == Some(s@),
            None => spec_get_string_property(*feature, attribute_name@) is None,
        },
{
    match &feature.properties {
        None => None,
        Some(props) => {
            match lookup_property(props, attribute_name) {
                Some(PropertyValue::Str(s)) => Some(s.clone()),
                _ => None,
            }
        },
    }
}

} // verus!
