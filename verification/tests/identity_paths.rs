//! The snapshot identity resolver: pure path arithmetic from call site,
//! test identity, and optional case label.
use db_snap::identity::{resolve_snapshot_path, test_name_segment};

#[test]
fn test_name_is_the_innermost_segment() {
    assert_eq!(test_name_segment("index::tests::my_test"), "my_test");
    assert_eq!(test_name_segment("my_test"), "my_test");
    assert_eq!(test_name_segment("a::b"), "b");
}

#[test]
fn trailing_separator_yields_an_empty_segment() {
    assert_eq!(test_name_segment("a::"), "");
}

#[test]
fn path_without_case_label() {
    let p = resolve_snapshot_path("update/delete.rs", "milli::update::tests::delete_one", None);
    assert_eq!(p, "snapshots/update/delete.rs/delete_one");
}

#[test]
fn path_with_case_label() {
    let p = resolve_snapshot_path(
        "update/delete.rs",
        "milli::update::tests::delete_one",
        Some("initial"),
    );
    assert_eq!(p, "snapshots/update/delete.rs/delete_one/initial");
}

#[test]
fn resolver_is_deterministic() {
    let a = resolve_snapshot_path("x.rs", "t::n", Some("c"));
    let b = resolve_snapshot_path("x.rs", "t::n", Some("c"));
    assert_eq!(a, b);
}
