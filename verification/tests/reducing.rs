//! The snapshot reducer: thresholds, the full-snapshot override, the
//! digest, and the override flag parser.
use db_snap::reduce::{convert_snap_to_hash_if_needed, parse_bool_flag};

fn text_of_len(n: usize) -> String {
    std::iter::repeat('x').take(n).collect()
}

#[test]
fn inline_text_one_below_threshold_stays_whole() {
    let snap = text_of_len(255);
    let records = convert_snap_to_hash_if_needed("word_docids", &snap, true, false);
    assert_eq!(records, vec![("word_docids".to_owned(), snap)]);
}

#[test]
fn inline_text_at_threshold_becomes_a_hash() {
    let snap = text_of_len(256);
    let records = convert_snap_to_hash_if_needed("word_docids", &snap, true, false);
    assert_eq!(records.len(), 1);
    assert_eq!(records[0].0, "word_docids.hash");
    let expected = format!("{:x}", md5::compute(snap.as_bytes()));
    assert_eq!(records[0].1, expected);
}

#[test]
fn file_text_one_below_threshold_stays_whole() {
    let snap = text_of_len(2047);
    let records = convert_snap_to_hash_if_needed("settings", &snap, false, false);
    assert_eq!(records, vec![("settings".to_owned(), snap)]);
}

#[test]
fn file_text_at_threshold_becomes_a_hash() {
    let snap = text_of_len(2048);
    let records = convert_snap_to_hash_if_needed("settings", &snap, false, false);
    assert_eq!(records.len(), 1);
    assert_eq!(records[0].0, "settings.hash");
}

#[test]
fn override_keeps_full_text_before_the_hash() {
    let snap = text_of_len(300);
    let records = convert_snap_to_hash_if_needed("word_docids", &snap, true, true);
    assert_eq!(records.len(), 2);
    assert_eq!(records[0].0, "word_docids.full");
    assert_eq!(records[0].1, snap);
    assert_eq!(records[1].0, "word_docids.hash");
    assert_eq!(records[1].1, format!("{:x}", md5::compute(snap.as_bytes())));
}

#[test]
fn override_changes_nothing_below_the_threshold() {
    let snap = text_of_len(10);
    let records = convert_snap_to_hash_if_needed("word_docids", &snap, true, true);
    assert_eq!(records, vec![("word_docids".to_owned(), snap)]);
}

#[test]
fn digest_is_the_known_md5_form() {
    // A snapshot of exactly the threshold length whose digest the md5
    // crate computes directly; the library must hand back the same
    // 32-digit lowercase form.
    let snap = text_of_len(256);
    let records = convert_snap_to_hash_if_needed("t", &snap, true, false);
    let digest = &records[0].1;
    assert_eq!(digest.len(), 32);
    assert!(digest.chars().all(|c| c.is_ascii_hexdigit() && !c.is_ascii_uppercase()));
    assert_eq!(digest, &format!("{:x}", md5::compute(snap.as_bytes())));
}

#[test]
fn equal_texts_hash_equal_and_one_changed_character_differs() {
    let a = text_of_len(400);
    let mut b = a.clone();
    b.replace_range(200..201, "y");
    let ra1 = convert_snap_to_hash_if_needed("n", &a, true, false);
    let ra2 = convert_snap_to_hash_if_needed("n", &a, true, false);
    let rb = convert_snap_to_hash_if_needed("n", &b, true, false);
    assert_eq!(ra1, ra2);
    assert_ne!(ra1[0].1, rb[0].1);
}

#[test]
fn override_flag_parses_exactly_true_and_false() {
    assert_eq!(parse_bool_flag("true"), Some(true));
    assert_eq!(parse_bool_flag("false"), Some(false));
}

#[test]
fn override_flag_rejects_everything_else() {
    assert_eq!(parse_bool_flag(""), None);
    assert_eq!(parse_bool_flag("True"), None);
    assert_eq!(parse_bool_flag("1"), None);
    assert_eq!(parse_bool_flag("truex"), None);
}
