//! The tiled blob store adapter: format validation at open time and
//! point lookup of one tile's bytes by `(zoom, column, row)` address,
//! with gzip decompression of the stored blob.
//!
//! The store is modeled over plain values: the `format` metadata values
//! the backing store declares, and its tile rows.  The caller reads
//! those out of whatever backing file holds them and hands them over;
//! everything from there on is pure and deterministic.

use vstd::prelude::*;

verus! {

/// Why opening a store or fetching a tile failed.
#[derive(Debug, PartialEq, Eq, Clone)]
pub enum TileError {
    /// The store declares a tile format other than the single supported
    /// `pbf` identifier; the offending value is carried along.
    UnsupportedFormat(String),
    /// No row matches the requested address.
    TileNotFound,
    /// A matching row's blob does not decompress.
    CorruptTile,
}

/// One stored tile row: its address and its gzip-compressed blob.
pub struct TileRow {
    pub zoom_level: i64,
    pub tile_column: i64,
    pub tile_row: i64,
    pub tile_data: Vec<u8>,
}

/// An opened tile store: its rows, known to declare a supported format.
pub struct MbTiles {
    rows: Vec<TileRow>,
}

/// What gzip decompression makes of `b`: the decompressed bytes, or
/// nothing where `b` is not well-formed gzip data.  The outcome is a
/// function of the input bytes alone.
pub uninterp spec fn gunzip_of(b: Seq<u8>) -> Option<Seq<u8>>;

/// Relies on flate2's read::GzDecoder: decompressing a byte slice is a
/// pure function of those bytes, yielding the decompressed stream or
/// failing on malformed input.
#[verifier::external_body]
fn gunzip(data: &Vec<u8>) -> (r: Option<Vec<u8>>)
    ensures
        match r {
            Some(out) => gunzip_of(data@) == Some(out@),
            None => gunzip_of(data@) is None,
        },
{
    let mut decoder = flate2::read::GzDecoder::new(data.as_slice());
    let mut buffer = Vec::new();
    match std::io::Read::read_to_end(&mut decoder, &mut buffer) {
        Ok(_) => Some(buffer),
        Err(_) => None,
    }
}

/// The first declared format value that is not the supported `pbf`
/// identifier, if any.
pub open spec fn spec_first_bad_format(formats: Seq<String>) -> Option<int>
    decreases formats.len(),
{
    if formats.len() == 0 {
        None
    } else if formats[0]@ != "pbf"@ {
        Some(0)
    } else {
        match spec_first_bad_format(formats.drop_first()) {
            Some(i) => Some(i + 1),
            None => None,
        }
    }
}

/// The compressed blob of the first row matching the address, if any.
pub open spec fn spec_find_tile(rows: Seq<TileRow>, zoom_level: i64, tile_column: i64, tile_row: i64) -> Option<Seq<u8>>
    decreases rows.len(),
{
    if rows.len() == 0 {
        None
    } else if rows[0].zoom_level == zoom_level && rows[0].tile_column == tile_column
        && rows[0].tile_row == tile_row {
        Some(rows[0].tile_data@)
    } else {
        spec_find_tile(rows.drop_first(), zoom_level, tile_column, tile_row)
    }
}

/// What fetching an address from a store yields: the decompressed bytes
/// of the first matching row, `TileNotFound` where no row matches, and
/// `CorruptTile` where the blob does not decompress.  A function of the
/// store and the address alone.
pub open spec fn spec_fetch(
    rows: Seq<TileRow>,
    zoom_level: i64,
    tile_column: i64,
    tile_row: i64,
) -> Result<Seq<u8>, TileError> {
    match spec_find_tile(rows, zoom_level, tile_column, tile_row) {
        None => Err(TileError::TileNotFound),
        Some(blob) => match gunzip_of(blob) {
            Some(bytes) => Ok(bytes),
            None => Err(TileError::CorruptTile),
        },
    }
}

impl MbTiles {
    /// The rows this store was opened over.
    pub closed spec fn spec_rows(&self) -> Seq<TileRow> {
        self.rows@
    }

    /// Opens a store over its declared `format` metadata values and its
    /// tile rows.  Fails with `UnsupportedFormat` carrying the first
    /// declared value other than `pbf`; a store declaring no format at
    /// all opens.  No tile lookup and no decompression happens here.
    pub fn open(formats: Vec<String>, rows: Vec<TileRow>) -> (r: Result<MbTiles, TileError>)
        ensures
            match r {
                Ok(store) => spec_first_bad_format(formats@) is None && store.spec_rows() == rows@,
                Err(e) => {
                    &&& e matches TileError::UnsupportedFormat(found)
                    &&& spec_first_bad_format(formats@) matches Some(i) && found@ == formats@[i]@
                },
            },
    {
        let mut i: usize = 0;
        assert(formats@.skip(0) =~= formats@);
        while i < formats.len()
            invariant
                i <= formats.len(),
                spec_first_bad_format(formats@) == (match spec_first_bad_format(
                    formats@.skip(i as int),
                ) {
                    Some(j) => Some(j + i),
                    None => None::<int>,
                }),
            decreases formats.len() - i,
        {
            assert(formats@.skip(i as int)[0] == formats@[i as int]);
            assert(formats@.skip(i as int).drop_first() =~= formats@.skip(i as int + 1));
            if !crate::engine::string_eq_lit(&formats[i], "pbf") {
                let found = formats[i].clone();
                assert(found@ == formats@[i as int]@);
                return Err(TileError::UnsupportedFormat(found));
            }
            i = i + 1;
        }
        Ok(MbTiles { rows })
    }

    /// Fetches one tile's decompressed bytes by address: a single point
    /// lookup, `TileNotFound` where no row matches, `CorruptTile` where
    /// the stored blob does not decompress.
    pub fn get_tile(&self, zoom_level: i64, tile_column: i64, tile_row: i64) -> (r: Result<
        Vec<u8>,
        TileError,
    >)
        ensures
            match r {
                Ok(bytes) => spec_fetch(self.spec_rows(), zoom_level, tile_column, tile_row)
                    == Ok::<Seq<u8>, TileError>(bytes@),
                Err(TileError::TileNotFound) => spec_fetch(
                    self.spec_rows(),
                    zoom_level,
                    tile_column,
                    tile_row,
                ) == Err::<Seq<u8>, TileError>(TileError::TileNotFound),
                Err(TileError::CorruptTile) => spec_fetch(
                    self.spec_rows(),
                    zoom_level,
                    tile_column,
                    tile_row,
                ) == Err::<Seq<u8>, TileError>(TileError::CorruptTile),
                Err(TileError::UnsupportedFormat(_)) => false,
            },
    {
        let rows = &self.rows;
        let mut i: usize = 0;
        assert(rows@.skip(0) =~= rows@);
        while i < rows.len()
            invariant
                i <= rows.len(),
                self.spec_rows() == rows@,
                spec_find_tile(rows@, zoom_level, tile_column, tile_row) == spec_find_tile(
                    rows@.skip(i as int),
                    zoom_level,
                    tile_column,
                    tile_row,
                ),
            decreases rows.len() - i,
        {
            assert(rows@.skip(i as int)[0] == rows@[i as int]);
            assert(rows@.skip(i as int).drop_first() =~= rows@.skip(i as int + 1));
            if rows[i].zoom_level == zoom_level && rows[i].tile_column == tile_column
                && rows[i].tile_row == tile_row {
                assert(spec_find_tile(rows@.skip(i as int), zoom_level, tile_column, tile_row)
                    == Some(rows@[i as int].tile_data@));
                return match gunzip(&rows[i].tile_data) {
                    Some(bytes) => Ok(bytes),
                    None => Err(TileError::CorruptTile),
                };
            }
            i = i + 1;
        }
        Err(TileError::TileNotFound)
    }
}

/// Fetching the same address from the same store twice yields the same
/// outcome, and in particular byte-identical decompressed output: any
/// two results that `get_tile` may return for one address agree.
pub proof fn lemma_fetch_deterministic(
    store: MbTiles,
    zoom_level: i64,
    tile_column: i64,
    tile_row: i64,
    r1: Result<Seq<u8>, TileError>,
    r2: Result<Seq<u8>, TileError>,
)
    requires
        r1 == spec_fetch(store.spec_rows(), zoom_level, tile_column, tile_row),
        r2 == spec_fetch(store.spec_rows(), zoom_level, tile_column, tile_row),
    ensures
        r1 == r2,
        r1 matches Ok(b1) ==> r2 matches Ok(b2) && b1 == b2,
{
}

/// A missing tile is an error, never an empty success: where no row
/// matches the address, fetching yields exactly `TileNotFound`, and a
/// successful fetch always had a matching row.
pub proof fn lemma_missing_tile_is_error(
    store: MbTiles,
    zoom_level: i64,
    tile_column: i64,
    tile_row: i64,
)
    ensures
        spec_find_tile(store.spec_rows(), zoom_level, tile_column, tile_row) is None
            <==> spec_fetch(store.spec_rows(), zoom_level, tile_column, tile_row) == Err::<
            Seq<u8>,
            TileError,
        >(TileError::TileNotFound),
{
}

} // verus!
