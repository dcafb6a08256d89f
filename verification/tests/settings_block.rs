//! The settings aggregator: fixed line count and order, stable `None`
//! sentinels, and the stop-word rendering.
use db_snap::settings::{snap_settings, snap_stop_words, Settings};

fn empty_settings() -> Settings {
    Settings {
        primary_key: None,
        criteria: vec![],
        displayed_fields: None,
        distinct_field: None,
        filterable_fields: vec![],
        sortable_fields: vec![],
        synonyms: vec![],
        authorize_typos: true,
        min_word_len_one_typo: 5,
        min_word_len_two_typos: 9,
        exact_words: None,
        exact_attributes: vec![],
        max_values_per_facet: None,
        pagination_max_total_hits: None,
        searchable_fields: None,
        user_defined_searchable_fields: None,
    }
}

#[test]
fn unset_settings_render_sixteen_stable_lines() {
    let snap = snap_settings(&empty_settings());
    let expected = "primary_key: None\n\
                    criteria: []\n\
                    displayed_fields: None\n\
                    distinct_field: None\n\
                    filterable_fields: {}\n\
                    sortable_fields: {}\n\
                    synonyms: {}\n\
                    authorize_typos: true\n\
                    min_word_len_one_typo: 5\n\
                    min_word_len_two_typos: 9\n\
                    exact_words: None\n\
                    exact_attributes: {}\n\
                    max_values_per_facet: None\n\
                    pagination_max_total_hits: None\n\
                    searchable_fields: None\n\
                    user_defined_searchable_fields: None\n";
    assert_eq!(snap, expected);
}

#[test]
fn populated_settings_change_values_not_lines() {
    let mut s = empty_settings();
    s.primary_key = Some("id".to_owned());
    s.criteria = vec!["words".to_owned(), "typo".to_owned()];
    s.filterable_fields = vec!["color".to_owned()];
    s.synonyms = vec![("car".to_owned(), vec!["auto".to_owned()])];
    s.authorize_typos = false;
    s.max_values_per_facet = Some(100);
    let snap = snap_settings(&s);
    assert!(snap.contains("primary_key: Some(\"id\")\n"));
    assert!(snap.contains("criteria: [\"words\", \"typo\"]\n"));
    assert!(snap.contains("filterable_fields: {\"color\"}\n"));
    assert!(snap.contains("synonyms: {\"car\": [\"auto\"]}\n"));
    assert!(snap.contains("authorize_typos: false\n"));
    assert!(snap.contains("max_values_per_facet: Some(100)\n"));
    assert_eq!(snap.lines().count(), 16);
    assert_eq!(snap_settings(&empty_settings()).lines().count(), 16);
}

#[test]
fn values_with_newlines_are_escaped_and_keep_the_line_count() {
    let mut s = empty_settings();
    s.primary_key = Some("a\nb".to_owned());
    s.distinct_field = Some("c\"d\\e".to_owned());
    let snap = snap_settings(&s);
    assert!(snap.contains("primary_key: Some(\"a\\nb\")\n"));
    assert!(snap.contains("distinct_field: Some(\"c\\\"d\\\\e\")\n"));
    assert_eq!(snap.matches('\n').count(), 16);
}

#[test]
fn settings_render_identically_across_calls() {
    let mut s = empty_settings();
    s.searchable_fields = Some(vec!["title".to_owned(), "overview".to_owned()]);
    let a = snap_settings(&s);
    let b = snap_settings(&s);
    assert_eq!(a, b);
    assert!(a.contains("searchable_fields: Some([\"title\", \"overview\"])\n"));
}

#[test]
fn stop_words_render_a_stable_sentinel_or_the_set() {
    assert_eq!(snap_stop_words(&None), "None");
    assert_eq!(
        snap_stop_words(&Some(vec!["of".to_owned(), "the".to_owned()])),
        "Some({\"of\", \"the\"})"
    );
    assert_eq!(snap_stop_words(&Some(vec![])), "Some({})");
}
