//! Table renderings on concrete entries: integer sets, hexadecimal
//! dumps, and the fixed-column table formats.
use db_snap::fields::{snap_field_distributions, snap_fields_ids_map};
use db_snap::sets::{
    display_bitmap, snap_documents_ids, snap_external_documents_ids, snap_geo_faceted_documents_ids,
    snap_number_faceted_documents_ids, snap_soft_deleted_documents_ids,
    snap_string_faceted_documents_ids, snap_words_fst, snap_words_prefixes_fst,
};
use db_snap::tables::{
    snap_docid_word_positions, snap_exact_word_docids, snap_exact_word_prefix_docids,
    snap_facet_id_f64_docids, snap_field_id_word_count_docids, snap_word_docids,
    snap_word_pair_proximity_docids, snap_word_position_docids, snap_word_prefix_docids,
    snap_word_prefix_pair_proximity_docids, snap_word_prefix_position_docids,
};
use db_snap::SnapError;
use roaring::RoaringBitmap;

/// Encodes the compressed integer set form: big-endian count, then the
/// elements, strictly ascending, each big-endian.
fn enc_set(vals: &[u32]) -> Vec<u8> {
    let mut out = (vals.len() as u32).to_be_bytes().to_vec();
    for v in vals {
        out.extend_from_slice(&v.to_be_bytes());
    }
    out
}

fn bitmap(vals: &[u32]) -> RoaringBitmap {
    let mut b = RoaringBitmap::new();
    for v in vals {
        b.insert(*v);
    }
    b
}

#[test]
fn int_set_renders_with_trailing_comma() {
    assert_eq!(display_bitmap(&bitmap(&[1, 5, 9])), "[1, 5, 9, ]");
}

#[test]
fn empty_int_set_renders_as_bare_brackets() {
    assert_eq!(display_bitmap(&bitmap(&[])), "[]");
}

#[test]
fn int_set_renders_ascending_regardless_of_insertion_order() {
    let mut b = RoaringBitmap::new();
    b.insert(9);
    b.insert(1);
    b.insert(5);
    assert_eq!(display_bitmap(&b), "[1, 5, 9, ]");
}

#[test]
fn documents_ids_render_like_any_bitmap() {
    assert_eq!(snap_documents_ids(&bitmap(&[0, 42])), "[0, 42, ]");
    assert_eq!(snap_soft_deleted_documents_ids(&bitmap(&[7])), "[7, ]");
    assert_eq!(snap_geo_faceted_documents_ids(&bitmap(&[])), "[]");
}

#[test]
fn word_docids_line_format() {
    let entries = vec![
        (b"brown".to_vec(), enc_set(&[1, 2])),
        (b"fox".to_vec(), enc_set(&[2])),
    ];
    let snap = snap_word_docids(&entries).unwrap();
    assert_eq!(snap, "brown            [1, 2, ]\nfox              [2, ]\n");
}

#[test]
fn word_docids_twice_is_identical() {
    let entries = vec![(b"word".to_vec(), enc_set(&[3]))];
    let a = snap_word_docids(&entries).unwrap();
    let b = snap_word_docids(&entries).unwrap();
    assert_eq!(a, b);
}

#[test]
fn word_docids_wide_word_is_not_truncated() {
    let entries = vec![(b"counterintuitively".to_vec(), enc_set(&[1]))];
    let snap = snap_word_docids(&entries).unwrap();
    assert_eq!(snap, "counterintuitively [1, ]\n");
}

#[test]
fn word_docids_invalid_utf8_key_is_fatal() {
    let entries = vec![
        (b"fine".to_vec(), enc_set(&[1])),
        (vec![0xff, 0xfe], enc_set(&[1])),
    ];
    assert_eq!(
        snap_word_docids(&entries),
        Err(SnapError::KeyDecode { index: 1 })
    );
}

#[test]
fn word_docids_bad_value_is_fatal() {
    let entries = vec![(b"fine".to_vec(), vec![0, 0, 0, 2, 0, 0, 0, 1])];
    assert_eq!(
        snap_word_docids(&entries),
        Err(SnapError::ValueDecode { index: 0 })
    );
}

#[test]
fn word_docids_unsorted_set_is_fatal() {
    // count 2, elements 5 then 3: not ascending.
    let mut v = enc_set(&[5]);
    v[3] = 2;
    v.extend_from_slice(&3u32.to_be_bytes());
    let entries = vec![(b"w".to_vec(), v)];
    assert_eq!(
        snap_word_docids(&entries),
        Err(SnapError::ValueDecode { index: 0 })
    );
}

#[test]
fn word_variant_tables_share_the_format() {
    let entries = vec![(b"pre".to_vec(), enc_set(&[4]))];
    let expected = "pre              [4, ]\n";
    assert_eq!(snap_exact_word_docids(&entries).unwrap(), expected);
    assert_eq!(snap_word_prefix_docids(&entries).unwrap(), expected);
    assert_eq!(snap_exact_word_prefix_docids(&entries).unwrap(), expected);
}

#[test]
fn docid_word_positions_line_format() {
    let mut key = 7u32.to_be_bytes().to_vec();
    key.extend_from_slice(b"quick");
    let entries = vec![(key, enc_set(&[0, 1]))];
    let snap = snap_docid_word_positions(&entries).unwrap();
    assert_eq!(snap, "7      quick            [0, 1, ]\n");
}

#[test]
fn docid_word_positions_short_key_is_fatal() {
    let entries = vec![(vec![1, 2], enc_set(&[1]))];
    assert_eq!(
        snap_docid_word_positions(&entries),
        Err(SnapError::KeyDecode { index: 0 })
    );
}

fn pair_key(w1: &[u8], w2: &[u8], proximity: u8) -> Vec<u8> {
    let mut key = (w1.len() as u16).to_be_bytes().to_vec();
    key.extend_from_slice(w1);
    key.extend_from_slice(w2);
    key.push(proximity);
    key
}

#[test]
fn word_pair_proximity_line_format() {
    let entries = vec![(pair_key(b"quick", b"fox", 2), enc_set(&[1]))];
    let snap = snap_word_pair_proximity_docids(&entries).unwrap();
    assert_eq!(snap, "quick            fox              2  [1, ]\n");
}

#[test]
fn word_prefix_pair_proximity_uses_narrow_prefix_column() {
    let entries = vec![(pair_key(b"quick", b"f", 1), enc_set(&[1]))];
    let snap = snap_word_prefix_pair_proximity_docids(&entries).unwrap();
    assert_eq!(snap, "quick            f    1  [1, ]\n");
}

#[test]
fn word_pair_length_overrun_is_fatal() {
    // claimed first-word length runs past the key end.
    let key = vec![0, 9, b'a', b'b', 3];
    let entries = vec![(key, enc_set(&[1]))];
    assert_eq!(
        snap_word_pair_proximity_docids(&entries),
        Err(SnapError::KeyDecode { index: 0 })
    );
}

fn position_key(word: &[u8], position: u32) -> Vec<u8> {
    let mut key = word.to_vec();
    key.extend_from_slice(&position.to_be_bytes());
    key
}

#[test]
fn word_position_line_format() {
    let entries = vec![(position_key(b"jump", 12), enc_set(&[3, 8]))];
    let snap = snap_word_position_docids(&entries).unwrap();
    assert_eq!(snap, "jump             12     [3, 8, ]\n");
}

#[test]
fn word_prefix_position_uses_narrow_prefix_column() {
    let entries = vec![(position_key(b"ju", 3), enc_set(&[1]))];
    let snap = snap_word_prefix_position_docids(&entries).unwrap();
    assert_eq!(snap, "ju   3      [1, ]\n");
}

#[test]
fn field_id_word_count_line_format() {
    let mut key = 3u16.to_be_bytes().to_vec();
    key.push(6);
    let entries = vec![(key, enc_set(&[9]))];
    let snap = snap_field_id_word_count_docids(&entries).unwrap();
    assert_eq!(snap, "3   6      [9, ]\n");
}

#[test]
fn field_id_word_count_wrong_key_length_is_fatal() {
    let entries = vec![(vec![0, 3], enc_set(&[9]))];
    assert_eq!(
        snap_field_id_word_count_docids(&entries),
        Err(SnapError::KeyDecode { index: 0 })
    );
}

fn facet_level_key(field_id: u16, level: u8, low: u32, high: u32) -> Vec<u8> {
    let mut key = field_id.to_be_bytes().to_vec();
    key.push(level);
    key.extend_from_slice(&low.to_be_bytes());
    key.extend_from_slice(&high.to_be_bytes());
    key
}

#[test]
fn facet_id_f64_line_format() {
    let entries = vec![(facet_level_key(2, 1, 10, 200), enc_set(&[1, 4]))];
    let snap = snap_facet_id_f64_docids(&entries).unwrap();
    assert_eq!(snap, "2   1  10     200    [1, 4, ]\n");
}

#[test]
fn words_fst_dumps_two_lowercase_digits_per_byte() {
    let bytes = vec![0x00, 0xab, 0x05, 0xff];
    assert_eq!(snap_words_fst(&bytes), "00ab05ff");
    assert_eq!(snap_words_prefixes_fst(&bytes), "00ab05ff");
}

#[test]
fn external_documents_ids_labelled_lines() {
    let snap = snap_external_documents_ids(&vec![0x0a], &vec![]);
    assert_eq!(snap, "soft: 0a\nhard: \n");
}

#[test]
fn field_distributions_line_format() {
    let rows = vec![("title".to_owned(), 12u64), ("overview".to_owned(), 3u64)];
    let snap = snap_field_distributions(&rows);
    assert_eq!(snap, "title            12    \noverview         3     \n");
}

#[test]
fn fields_ids_map_line_format() {
    let rows = vec![(0u16, "id".to_owned()), (1u16, "title".to_owned())];
    let snap = snap_fields_ids_map(&rows);
    assert_eq!(snap, "0   id              \n1   title           \n");
}

#[test]
fn faceted_documents_ids_one_line_per_field() {
    let rows = vec![(0u16, bitmap(&[1])), (1u16, bitmap(&[]))];
    let expected = "0   [1, ]\n1   []\n";
    assert_eq!(snap_number_faceted_documents_ids(&rows), expected);
    let rows = vec![(0u16, bitmap(&[1])), (1u16, bitmap(&[]))];
    assert_eq!(snap_string_faceted_documents_ids(&rows), expected);
}

#[test]
fn non_ascii_words_pad_by_character_count() {
    let entries = vec![("café".as_bytes().to_vec(), enc_set(&[1]))];
    let snap = snap_word_docids(&entries).unwrap();
    assert_eq!(snap, format!("{:<16} {}\n", "café", "[1, ]"));
}
