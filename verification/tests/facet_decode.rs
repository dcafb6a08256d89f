//! The dual-shape facet table: the string shape is tried first, the
//! leveled-range shape second, and a key matching neither is fatal.
use db_snap::facet::snap_facet_id_string_docids;
use db_snap::SnapError;

fn enc_set(vals: &[u32]) -> Vec<u8> {
    let mut out = (vals.len() as u32).to_be_bytes().to_vec();
    for v in vals {
        out.extend_from_slice(&v.to_be_bytes());
    }
    out
}

fn string_key(field_id: u16, normalized: &str) -> Vec<u8> {
    let mut key = field_id.to_be_bytes().to_vec();
    key.push(0);
    key.extend_from_slice(normalized.as_bytes());
    key
}

fn string_value(original: &str, docids: &[u32]) -> Vec<u8> {
    let mut v = (original.len() as u16).to_be_bytes().to_vec();
    v.extend_from_slice(original.as_bytes());
    v.extend_from_slice(&enc_set(docids));
    v
}

fn range_key(field_id: u16, level: u8, low: u32, high: u32) -> Vec<u8> {
    let mut key = field_id.to_be_bytes().to_vec();
    key.push(level);
    key.extend_from_slice(&low.to_be_bytes());
    key.extend_from_slice(&high.to_be_bytes());
    key
}

fn range_value_unbounded(docids: &[u32]) -> Vec<u8> {
    let mut v = vec![0u8];
    v.extend_from_slice(&enc_set(docids));
    v
}

fn range_value_bounded(low: &str, high: &str, docids: &[u32]) -> Vec<u8> {
    let mut v = vec![1u8];
    v.extend_from_slice(&(low.len() as u16).to_be_bytes());
    v.extend_from_slice(low.as_bytes());
    v.extend_from_slice(&(high.len() as u16).to_be_bytes());
    v.extend_from_slice(high.as_bytes());
    v.extend_from_slice(&enc_set(docids));
    v
}

#[test]
fn both_shapes_decode_into_their_own_line_forms() {
    let entries = vec![
        (string_key(7, "blue"), string_value("Blue", &[1, 2])),
        (range_key(3, 2, 10, 20), range_value_unbounded(&[5])),
    ];
    let snap = snap_facet_id_string_docids(&entries).unwrap();
    assert_eq!(snap, "7   blue     Blue     [1, 2, ]\n3   2  10     20     [5, ]\n");
}

#[test]
fn bounded_range_record_shows_the_bound_pair() {
    let entries = vec![(range_key(1, 1, 0, 9), range_value_bounded("aa", "zz", &[4]))];
    let snap = snap_facet_id_string_docids(&entries).unwrap();
    assert_eq!(snap, "1   1  0      9      aa       zz       [4, ]\n");
}

#[test]
fn unbounded_range_record_is_a_valid_subtype() {
    let entries = vec![(range_key(9, 3, 1, 2), range_value_unbounded(&[]))];
    let snap = snap_facet_id_string_docids(&entries).unwrap();
    assert_eq!(snap, "9   3  1      2      []\n");
}

#[test]
fn key_matching_neither_shape_is_fatal() {
    let entries = vec![
        (string_key(7, "blue"), string_value("Blue", &[1])),
        (vec![0, 1], range_value_unbounded(&[1])),
    ];
    assert_eq!(
        snap_facet_id_string_docids(&entries),
        Err(SnapError::KeyShape { index: 1 })
    );
}

#[test]
fn string_value_that_does_not_decode_is_fatal() {
    let entries = vec![(string_key(7, "blue"), vec![0, 9, b'x'])];
    assert_eq!(
        snap_facet_id_string_docids(&entries),
        Err(SnapError::ValueDecode { index: 0 })
    );
}

#[test]
fn range_value_with_unknown_tag_is_fatal() {
    let mut v = vec![2u8];
    v.extend_from_slice(&enc_set(&[1]));
    let entries = vec![(range_key(1, 1, 0, 9), v)];
    assert_eq!(
        snap_facet_id_string_docids(&entries),
        Err(SnapError::ValueDecode { index: 0 })
    );
}

#[test]
fn string_shape_wins_over_an_ambiguous_eleven_byte_key() {
    // An eleven-byte key whose level byte is zero and whose tail is valid
    // text matches both shapes; the string codec is tried first, so it
    // decides, exactly as the documented decode order demands.
    let key = string_key(1, "abcdefgh");
    assert_eq!(key.len(), 11);
    let entries = vec![(key, string_value("ABCDEFGH", &[1]))];
    let snap = snap_facet_id_string_docids(&entries).unwrap();
    assert_eq!(snap, "1   abcdefgh ABCDEFGH [1, ]\n");
}

#[test]
fn facet_rendering_is_deterministic_across_calls() {
    let entries = vec![
        (string_key(7, "blue"), string_value("Blue", &[1, 2])),
        (range_key(3, 2, 10, 20), range_value_unbounded(&[5])),
    ];
    let a = snap_facet_id_string_docids(&entries).unwrap();
    let b = snap_facet_id_string_docids(&entries).unwrap();
    assert_eq!(a, b);
}
