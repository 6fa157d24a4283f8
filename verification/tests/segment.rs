use columnar::{Cardinality, ColumnType, ColumnTypeAndCardinality, ColumnarSerializer};

use tantivy_common::OwnedBytes;
use tantivy_sstable::{Dictionary, RangeSSTable};

fn trailer_value(segment: &[u8]) -> u64 {
    let n = segment.len();
    let mut trailer = [0u8; 8];
    trailer.copy_from_slice(&segment[n - 8..]);
    u64::from_le_bytes(trailer)
}

/// Splits a finished segment into payload, index and trailer value.
fn split_segment(segment: &[u8]) -> (&[u8], &[u8], u64) {
    let index_len = trailer_value(segment) as usize;
    let payload_end = segment.len() - 8 - index_len;
    (
        &segment[..payload_end],
        &segment[payload_end..segment.len() - 8],
        index_len as u64,
    )
}

#[test]
fn test_three_columns_ranges_and_order() {
    let ctc = ColumnTypeAndCardinality {
        typ: ColumnType::Bytes,
        cardinality: Cardinality::Required,
    };
    let k = ctc.to_code();

    let serializer = ColumnarSerializer::new(Vec::new());
    let mut col = serializer.serialize_column(b"a", ctc);
    col.write_all(&[10, 20, 30, 40]).unwrap();
    let serializer = col.end();
    let col = serializer.serialize_column(b"b", ctc);
    let serializer = col.end();
    let mut col = serializer.serialize_column(b"c", ctc);
    col.write_all(&[9, 8, 7, 6, 5]).unwrap();
    col.write_all(&[4, 3, 2, 1, 0]).unwrap();
    let serializer = col.end();
    let segment = serializer.finalize().unwrap();

    let (payload, index, index_len) = split_segment(&segment);
    assert_eq!(payload, &[10, 20, 30, 40, 9, 8, 7, 6, 5, 4, 3, 2, 1, 0]);
    assert_eq!(index.len() as u64, index_len);

    let dict: Dictionary<RangeSSTable> =
        Dictionary::from_bytes(OwnedBytes::new(index.to_vec())).unwrap();
    assert_eq!(dict.num_terms(), 3);
    let key_a = vec![b'a', 0u8, k];
    let key_b = vec![b'b', 0u8, k];
    let key_c = vec![b'c', 0u8, k];
    assert_eq!(dict.get(&key_a).unwrap(), Some(0..4));
    assert_eq!(dict.get(&key_b).unwrap(), Some(4..4));
    assert_eq!(dict.get(&key_c).unwrap(), Some(4..14));
    assert_eq!(dict.term_ord(&key_a).unwrap(), Some(0));
    assert_eq!(dict.term_ord(&key_b).unwrap(), Some(1));
    assert_eq!(dict.term_ord(&key_c).unwrap(), Some(2));
    // a key nobody registered
    assert_eq!(dict.get(b"d\0x").unwrap(), None);
}

#[test]
fn test_index_bytes_match_directly_built_dictionary() {
    let ctc = ColumnTypeAndCardinality {
        typ: ColumnType::U64,
        cardinality: Cardinality::Optional,
    };
    let k = ctc.to_code();

    let serializer = ColumnarSerializer::new(Vec::new());
    let mut col = serializer.serialize_column(b"first", ctc);
    col.write_all(b"xyz").unwrap();
    let serializer = col.end();
    let mut col = serializer.serialize_column(b"second", ctc);
    col.write_all(b"pq").unwrap();
    let serializer = col.end();
    let segment = serializer.finalize().unwrap();
    let (payload, index, _) = split_segment(&segment);
    assert_eq!(payload, b"xyzpq");

    // Build the same dictionary straight through the sstable crate.
    let mut expected_writer = Dictionary::<RangeSSTable>::builder(Vec::new()).unwrap();
    expected_writer
        .insert([b"first".as_slice(), &[0u8, k]].concat(), &(0..3))
        .unwrap();
    expected_writer
        .insert([b"second".as_slice(), &[0u8, k]].concat(), &(3..5))
        .unwrap();
    let expected_index = expected_writer.finish().unwrap();
    assert_eq!(index, expected_index.as_slice());
    // the trailer is exactly the index length, little-endian
    assert_eq!(trailer_value(&segment), expected_index.len() as u64);
    assert_eq!(
        &segment[segment.len() - 8..],
        (expected_index.len() as u64).to_le_bytes()
    );
}

#[test]
fn test_empty_segment_trailer() {
    let serializer = ColumnarSerializer::new(Vec::new());
    let segment = serializer.finalize().unwrap();
    assert!(segment.len() >= 8);
    let (payload, index, index_len) = split_segment(&segment);
    assert_eq!(payload, b"");
    assert_eq!(index.len() as u64, index_len);
    let dict: Dictionary<RangeSSTable> =
        Dictionary::from_bytes(OwnedBytes::new(index.to_vec())).unwrap();
    assert_eq!(dict.num_terms(), 0);
}

#[test]
fn test_prior_stream_contents_kept_and_offsets_from_zero() {
    let ctc = ColumnTypeAndCardinality {
        typ: ColumnType::Bool,
        cardinality: Cardinality::Multivalued,
    };
    let k = ctc.to_code();
    let serializer = ColumnarSerializer::new(b"HEADER".to_vec());
    let mut col = serializer.serialize_column(b"col", ctc);
    col.write_all(&[1, 2, 3]).unwrap();
    col.flush().unwrap();
    let serializer = col.end();
    let segment = serializer.finalize().unwrap();

    assert_eq!(&segment[..6], b"HEADER");
    let index_len = trailer_value(&segment) as usize;
    let payload = &segment[6..segment.len() - 8 - index_len];
    assert_eq!(payload, &[1, 2, 3]);
    let index = &segment[segment.len() - 8 - index_len..segment.len() - 8];
    let dict: Dictionary<RangeSSTable> =
        Dictionary::from_bytes(OwnedBytes::new(index.to_vec())).unwrap();
    // the byte range counts from the writer's creation, not the buffer start
    assert_eq!(dict.get(&[b'c', b'o', b'l', 0u8, k]).unwrap(), Some(0..3));
}

#[test]
fn test_write_reports_full_length() {
    let ctc = ColumnTypeAndCardinality {
        typ: ColumnType::I64,
        cardinality: Cardinality::Required,
    };
    let serializer = ColumnarSerializer::new(Vec::new());
    let mut col = serializer.serialize_column(b"n", ctc);
    let written = col.write(&[5, 6, 7]).unwrap();
    assert_eq!(written, 3);
    let written = col.write(&[]).unwrap();
    assert_eq!(written, 0);
    let serializer = col.end();
    let segment = serializer.finalize().unwrap();
    let (payload, _, _) = split_segment(&segment);
    assert_eq!(payload, &[5, 6, 7]);
}
