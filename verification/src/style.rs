//! The declarative style document: named layers bound to source layers,
//! each with an optional filter expression and paint properties.
//!
//! Layer order is significant: it is paint order, first layer at the
//! bottom.  Paint colors are either literal color strings or stop tables
//! interpolated over zoom.

use vstd::prelude::*;

verus! {

/// A style document: a name and an ordered sequence of layers.
/// The layer order defines the paint (z-)order, back to front.
pub struct Style {
    pub name: String,
    pub layers: Vec<Layer>,
}

/// The layer kinds a style document may declare.  Only the `Line` family
/// is rasterized by this design; the others are recognized no-ops.
#[derive(Clone, Copy, PartialEq, Eq, Structural, Debug)]
pub enum LayerType {
    Fill,
    Line,
    Symbol,
    Circle,
    Heatmap,
    FillExtrusion,
    Raster,
    Hillshade,
    Model,
    Background,
    Sky,
    Slot,
}

/// An untyped style value: a literal string, number or boolean, or a
/// sequence of such values.  An operator invocation is a `Sequence`
/// whose first element is a `String` naming the operator; arity and
/// operand types are imposed at evaluation time, not at parse time.
pub enum StringOrNumberOrSequenceOrBool {
    String(String),
    Number(i64),
    Bool(bool),
    Sequence(Vec<StringOrNumberOrSequenceOrBool>),
}

/// One entry of a stop table: at input `input` (a zoom level) the paint
/// value is the color written in `output`.
pub struct Stop {
    pub input: i64,
    pub output: String,
}

/// A stops-based interpolation table.  Inputs are expected ascending;
/// the paint resolver defines first-match-wins bracketing for tables
/// that are not.
pub struct FillColorWithStops {
    pub stops: Vec<Stop>,
}

/// A paint color: either a literal color string or a stop table.
pub enum FillColor {
    String(String),
    FillColorWithStops(FillColorWithStops),
}

/// One style layer.  `source_layer` binds it to a vector-tile layer by
/// name; a layer with no binding, or whose binding names no layer of the
/// tile at hand, contributes nothing.  A layer with no filter matches
/// every feature of its source layer.
pub struct Layer {
    pub id: String,
    pub source: Option<String>,
    pub source_layer: Option<String>,
    pub layer_type: String,
    pub paint: Option<Paint>,
    pub filter: Option<Vec<StringOrNumberOrSequenceOrBool>>,
}

/// Paint properties of a layer; each color may be constant or data-driven.
pub struct Paint {
    pub background_color: Option<String>,
    pub fill_color: Option<FillColor>,
    pub line_color: Option<FillColor>,
}

impl Style {
    /// Well-formedness of a style document: its layer ids are unique.
    /// Duplicate ids are a configuration error, never silently merged.
    pub open spec fn spec_ids_unique(self) -> bool {
        forall|a: int, b: int|
            #![trigger self.layers@[a].id@, self.layers@[b].id@]
            0 <= a < b < self.layers@.len() ==> self.layers@[a].id@ != self.layers@[b].id@
    }

    /// Checks that every layer id of this style is unique.
    pub fn ids_unique(&self) -> (r: bool)
        ensures
            r == self.spec_ids_unique(),
    {
        let n = self.layers.len();
        let mut i: usize = 0;
        while i < n
            invariant
                n == self.layers@.len(),
                i <= n,
                forall|a: int, b: int|
                    #![trigger self.layers@[a].id@, self.layers@[b].id@]
                    0 <= a < b < n && a < i ==> self.layers@[a].id@ != self.layers@[b].id@,
            decreases n - i,
        {
            let mut j: usize = i + 1;
            while j < n
                invariant
                    n == self.layers@.len(),
                    i < j <= n,
                    i < n,
                    forall|b: int|
                        i < b < j ==> self.layers@[i as int].id@ != #[trigger] self.layers@[b].id@,
                decreases n - j,
            {
                if self.layers[i].id == self.layers[j].id {
                    assert(!self.spec_ids_unique());
                    return false;
                }
                j = j + 1;
            }
            i = i + 1;
        }
        true
    }
}

impl LayerType {
    /// The layer-type name used by style documents for this kind.
    pub open spec fn spec_name(self) -> Seq<char> {
        match self {
            LayerType::Fill => "fill"@,
            LayerType::Line => "line"@,
            LayerType::Symbol => "symbol"@,
            LayerType::Circle => "circle"@,
            LayerType::Heatmap => "heatmap"@,
            LayerType::FillExtrusion => "fill-extrusion"@,
            LayerType::Raster => "raster"@,
            LayerType::Hillshade => "hillshade"@,
            LayerType::Model => "model"@,
            LayerType::Background => "background"@,
            LayerType::Sky => "sky"@,
            LayerType::Slot => "slot"@,
        }
    }

    /// Whether layers whose `layer_type` field holds `name` produce draw
    /// calls: exactly the `Line` kind does.
    pub open spec fn spec_name_is_rasterized(name: Seq<char>) -> bool {
        name == LayerType::Line.spec_name()
    }

    /// Decides from a layer's `layer_type` string whether the layer is
    /// rasterized.
    pub fn name_is_rasterized(name: &String) -> (r: bool)
        ensures
            r == LayerType::spec_name_is_rasterized(name@),
    {
        let line = crate::engine::string_from_lit("line");
        *name == line
    }
}

} // verus!
