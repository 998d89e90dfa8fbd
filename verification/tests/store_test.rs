use rustiles::mbtiles::MbTiles;
use rustiles::mbtiles::TileError;
use rustiles::mbtiles::TileRow;
use std::io::Write;

fn gzip(data: &[u8]) -> Vec<u8> {
    let mut enc = flate2::write::GzEncoder::new(Vec::new(), flate2::Compression::default());
    enc.write_all(data).unwrap();
    enc.finish().unwrap()
}

fn row(zoom: i64, col: i64, r: i64, blob: Vec<u8>) -> TileRow {
    TileRow { zoom_level: zoom, tile_column: col, tile_row: r, tile_data: blob }
}

#[test]
fn format_gate_rejects_other_formats() {
    let result = MbTiles::open(vec![String::from("png")], Vec::new());
    match result {
        Err(TileError::UnsupportedFormat(found)) => assert_eq!(found, "png"),
        _ => panic!("a png store must be refused"),
    }
}

#[test]
fn format_gate_accepts_pbf_and_absent_format() {
    assert!(MbTiles::open(vec![String::from("pbf")], Vec::new()).is_ok());
    assert!(MbTiles::open(Vec::new(), Vec::new()).is_ok());
}

#[test]
fn fetch_same_address_twice_is_byte_identical() {
    let payload = b"layered vector tile payload".to_vec();
    let store = MbTiles::open(
        vec![String::from("pbf")],
        vec![row(14, 8568, 10637, gzip(&payload))],
    )
    .unwrap_or_else(|_| panic!("store must open"));
    let first = store.get_tile(14, 8568, 10637).unwrap();
    let second = store.get_tile(14, 8568, 10637).unwrap();
    assert_eq!(first, second);
    assert_eq!(first, payload);
}

#[test]
fn missing_tile_is_not_found_never_empty_success() {
    let store = MbTiles::open(
        vec![String::from("pbf")],
        vec![row(14, 8568, 10637, gzip(b"x"))],
    )
    .unwrap_or_else(|_| panic!("store must open"));
    match store.get_tile(14, 0, 0) {
        Err(TileError::TileNotFound) => {}
        Ok(bytes) => panic!("missing tile returned {} bytes as success", bytes.len()),
        Err(_) => panic!("missing tile must be TileNotFound"),
    }
}

#[test]
fn corrupt_blob_is_corrupt_tile() {
    let store = MbTiles::open(
        vec![String::from("pbf")],
        vec![row(1, 2, 3, vec![0xDE, 0xAD, 0xBE, 0xEF])],
    )
    .unwrap_or_else(|_| panic!("store must open"));
    assert_eq!(store.get_tile(1, 2, 3), Err(TileError::CorruptTile));
}

#[test]
fn fetch_decompresses_the_stored_blob() {
    let payload = b"the stored blob is gzip, the fetched bytes are not".to_vec();
    let blob = gzip(&payload);
    assert_ne!(blob, payload);
    let store = MbTiles::open(vec![String::from("pbf")], vec![row(0, 0, 0, blob.clone())])
        .unwrap_or_else(|_| panic!("store must open"));
    let fetched = store.get_tile(0, 0, 0).unwrap();
    assert_eq!(fetched, payload);
    assert_ne!(fetched, blob);
}

#[test]
fn first_matching_row_wins() {
    let store = MbTiles::open(
        vec![String::from("pbf")],
        vec![row(1, 1, 1, gzip(b"first")), row(1, 1, 1, gzip(b"second"))],
    )
    .unwrap_or_else(|_| panic!("store must open"));
    assert_eq!(store.get_tile(1, 1, 1).unwrap(), b"first".to_vec());
}
