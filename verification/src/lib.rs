//! Renders one map tile to a list of drawing commands.
//!
//! The pipeline: a tiled blob store hands over a compressed vector-tile
//! blob for a `(zoom, column, row)` address, the decoded layers of
//! geometric features are matched against a declarative style (filter
//! expressions over feature attributes, paint values that may interpolate
//! over zoom), and each matched geometry becomes drawing-surface commands
//! in layer order.  Callers execute the commands on a raster backend of
//! their choice.

pub mod color;
pub mod engine;
pub mod mbtiles;
pub mod render;
pub mod style;
pub mod tile;
