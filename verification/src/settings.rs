//! The settings aggregator: the store's computed and scalar settings as
//! one ordered text block, one line per setting in a fixed order chosen
//! here, never dependent on store iteration order.  An unset setting
//! renders a stable `None`, never an omitted line, so line count and
//! line identity are stable across snapshots.
use vstd::prelude::*;

verus! {

use vstd::string::StringExecFns;
use crate::text::{append_quoted, count_char, dec_rep, escape_text, quoted, u64_to_dec};

/// The stable rendering of an unset setting.
pub open spec fn none_text() -> Seq<char> {
    seq!['N', 'o', 'n', 'e']
}

/// A present setting value wrapped as `Some(<inner>)`.
pub open spec fn some_wrap(inner: Seq<char>) -> Seq<char> {
    seq!['S', 'o', 'm', 'e', '('] + inner + seq![')']
}

/// The rendering of a boolean setting.
pub open spec fn bool_text(b: bool) -> Seq<char> {
    if b {
        seq!['t', 'r', 'u', 'e']
    } else {
        seq!['f', 'a', 'l', 's', 'e']
    }
}

/// The comma-separated quoted items of a string list.
pub open spec fn quoted_items_text(v: Seq<String>) -> Seq<char>
    decreases v.len(),
{
    if v.len() == 0 {
        Seq::empty()
    } else if v.len() == 1 {
        quoted(v[0]@)
    } else {
        quoted_items_text(v.drop_last()) + seq![',', ' '] + quoted(v.last()@)
    }
}

/// A string list rendered as `["a", "b"]`.
pub open spec fn quoted_list_text(v: Seq<String>) -> Seq<char> {
    seq!['['] + quoted_items_text(v) + seq![']']
}

/// A string set rendered as `{"a", "b"}`, in the caller's fixed order.
pub open spec fn quoted_set_text(v: Seq<String>) -> Seq<char> {
    seq!['{'] + quoted_items_text(v) + seq!['}']
}

/// An optional string rendered as `Some("x")` or `None`.
pub open spec fn opt_str_text(o: Option<String>) -> Seq<char> {
    match o {
        Some(s) => some_wrap(quoted(s@)),
        None => none_text(),
    }
}

/// An optional string list rendered as `Some(["x"])` or `None`.
pub open spec fn opt_list_text(o: Option<Vec<String>>) -> Seq<char> {
    match o {
        Some(v) => some_wrap(quoted_list_text(v@)),
        None => none_text(),
    }
}

/// An optional integer rendered as `Some(7)` or `None`.
pub open spec fn opt_u32_text(o: Option<u32>) -> Seq<char> {
    match o {
        Some(n) => some_wrap(dec_rep(n as int)),
        None => none_text(),
    }
}

/// One synonym entry rendered as `"word": ["syn", ...]`.
pub open spec fn synonyms_entry_text(word: String, syns: Vec<String>) -> Seq<char> {
    quoted(word@) + seq![':', ' '] + quoted_list_text(syns@)
}

/// The comma-separated entries of the synonym map.
pub open spec fn synonyms_items_text(v: Seq<(String, Vec<String>)>) -> Seq<char>
    decreases v.len(),
{
    if v.len() == 0 {
        Seq::empty()
    } else if v.len() == 1 {
        synonyms_entry_text(v[0].0, v[0].1)
    } else {
        synonyms_items_text(v.drop_last()) + seq![',', ' '] + synonyms_entry_text(
            v.last().0,
            v.last().1,
        )
    }
}

/// The synonym map rendered as `{"a": ["b"], "c": []}`, in the caller's
/// fixed order.
pub open spec fn synonyms_text(v: Seq<(String, Vec<String>)>) -> Seq<char> {
    seq!['{'] + synonyms_items_text(v) + seq!['}']
}

/// Appends `None`.
fn append_none(out: &mut String)
    ensures
        final(out)@ == old(out)@ + none_text(),
{
    proof {
        reveal_strlit("None");
    }
    out.append("None");
    proof {
        assert(out@ =~= old(out)@ + none_text());
    }
}

/// Appends the opening `Some(` of a present value; the caller appends
/// the value and the closing parenthesis.
fn append_some_open(out: &mut String)
    ensures
        final(out)@ == old(out)@ + seq!['S', 'o', 'm', 'e', '('],
{
    proof {
        reveal_strlit("Some(");
    }
    out.append("Some(");
    proof {
        assert(out@ =~= old(out)@ + seq!['S', 'o', 'm', 'e', '(']);
    }
}

/// Appends the comma-separated quoted items of a string list.
fn append_quoted_items(out: &mut String, v: &Vec<String>)
    ensures
        final(out)@ == old(out)@ + quoted_items_text(v@),
{
    let n = v.len();
    for i in 0..n
        invariant
            n == v@.len(),
            out@ == old(out)@ + quoted_items_text(v@.subrange(0, i as int)),
    {
        if i > 0 {
            out.append(", ");
        }
        append_quoted(out, v[i].as_str());
        proof {
            reveal_strlit(", ");
            let pre = v@.subrange(0, i + 1);
            assert(pre.drop_last() =~= v@.subrange(0, i as int));
            assert(pre.last() == v@[i as int]);
            assert(pre[0] == v@[0]);
            assert(out@ =~= old(out)@ + quoted_items_text(pre));
        }
    }
    proof {
        assert(v@.subrange(0, n as int) =~= v@);
    }
}

/// Appends a string list as `["a", "b"]`.
fn append_quoted_list(out: &mut String, v: &Vec<String>)
    ensures
        final(out)@ == old(out)@ + quoted_list_text(v@),
{
    proof {
        reveal_strlit("[");
        reveal_strlit("]");
    }
    out.append("[");
    append_quoted_items(out, v);
    out.append("]");
    proof {
        assert(out@ =~= old(out)@ + quoted_list_text(v@));
    }
}

/// Appends a string set as `{"a", "b"}`.
fn append_quoted_set(out: &mut String, v: &Vec<String>)
    ensures
        final(out)@ == old(out)@ + quoted_set_text(v@),
{
    proof {
        reveal_strlit("{");
        reveal_strlit("}");
    }
    out.append("{");
    append_quoted_items(out, v);
    out.append("}");
    proof {
        assert(out@ =~= old(out)@ + quoted_set_text(v@));
    }
}

/// Appends an optional string as `Some("x")` or `None`.
fn append_opt_str(out: &mut String, o: &Option<String>)
    ensures
        final(out)@ == old(out)@ + opt_str_text(*o),
{
    proof {
        reveal_strlit(")");
    }
    match o {
        Some(s) => {
            append_some_open(out);
            append_quoted(out, s.as_str());
            out.append(")");
            proof {
                assert(out@ =~= old(out)@ + opt_str_text(*o));
            }
        },
        None => {
            append_none(out);
        },
    }
}

/// Appends an optional string list as `Some(["x"])` or `None`.
fn append_opt_list(out: &mut String, o: &Option<Vec<String>>)
    ensures
        final(out)@ == old(out)@ + opt_list_text(*o),
{
    proof {
        reveal_strlit(")");
    }
    match o {
        Some(v) => {
            append_some_open(out);
            append_quoted_list(out, v);
            out.append(")");
            proof {
                assert(out@ =~= old(out)@ + opt_list_text(*o));
            }
        },
        None => {
            append_none(out);
        },
    }
}

/// Appends an optional integer as `Some(7)` or `None`.
fn append_opt_u32(out: &mut String, o: &Option<u32>)
    ensures
        final(out)@ == old(out)@ + opt_u32_text(*o),
{
    proof {
        reveal_strlit(")");
    }
    match o {
        Some(n) => {
            append_some_open(out);
            let d = u64_to_dec(*n as u64);
            out.append(d.as_str());
            out.append(")");
            proof {
                assert(out@ =~= old(out)@ + opt_u32_text(*o));
            }
        },
        None => {
            append_none(out);
        },
    }
}

/// Appends a boolean as `true` or `false`.
fn append_bool(out: &mut String, b: bool)
    ensures
        final(out)@ == old(out)@ + bool_text(b),
{
    proof {
        reveal_strlit("true");
        reveal_strlit("false");
    }
    if b {
        out.append("true");
    } else {
        out.append("false");
    }
    proof {
        assert(out@ =~= old(out)@ + bool_text(b));
    }
}

/// Appends the synonym map as `{"a": ["b"], "c": []}`.
fn append_synonyms(out: &mut String, v: &Vec<(String, Vec<String>)>)
    ensures
        final(out)@ == old(out)@ + synonyms_text(v@),
{
    proof {
        reveal_strlit("{");
        reveal_strlit("}");
    }
    out.append("{");
    let n = v.len();
    proof {
        assert(v@.subrange(0, 0) =~= Seq::<(String, Vec<String>)>::empty());
    }
    for i in 0..n
        invariant
            n == v@.len(),
            out@ == old(out)@ + seq!['{'] + synonyms_items_text(v@.subrange(0, i as int)),
    {
        if i > 0 {
            out.append(", ");
        }
        let row = &v[i];
        append_quoted(out, row.0.as_str());
        out.append(": ");
        append_quoted_list(out, &row.1);
        proof {
            reveal_strlit(", ");
            reveal_strlit(": ");
            let pre = v@.subrange(0, i + 1);
            assert(pre.drop_last() =~= v@.subrange(0, i as int));
            assert(pre.last() == v@[i as int]);
            assert(pre[0] == v@[0]);
            assert(out@ =~= old(out)@ + seq!['{'] + synonyms_items_text(pre));
        }
    }
    out.append("}");
    proof {
        assert(v@.subrange(0, n as int) =~= v@);
        assert(out@ =~= old(out)@ + synonyms_text(v@));
    }
}

/// The store's computed and scalar settings, as plain values.  Set- and
/// map-valued settings carry the fixed order their caller chose once;
/// the aggregator renders them in that order, never in store order.
pub struct Settings {
    pub primary_key: Option<String>,
    pub criteria: Vec<String>,
    pub displayed_fields: Option<Vec<String>>,
    pub distinct_field: Option<String>,
    pub filterable_fields: Vec<String>,
    pub sortable_fields: Vec<String>,
    pub synonyms: Vec<(String, Vec<String>)>,
    pub authorize_typos: bool,
    pub min_word_len_one_typo: u8,
    pub min_word_len_two_typos: u8,
    pub exact_words: Option<Vec<String>>,
    pub exact_attributes: Vec<String>,
    pub max_values_per_facet: Option<u32>,
    pub pagination_max_total_hits: Option<u32>,
    pub searchable_fields: Option<Vec<String>>,
    pub user_defined_searchable_fields: Option<Vec<String>>,
}

/// One settings line: `<setting name>: <rendered value>`.
pub open spec fn setting_line(label: Seq<char>, value: Seq<char>) -> Seq<char> {
    label + seq![':', ' '] + value + seq!['\n']
}

/// The full settings block: sixteen lines, always the same names in the
/// same order; only the rendered values vary.
pub open spec fn settings_text(s: Settings) -> Seq<char> {
    setting_line("primary_key"@, opt_str_text(s.primary_key)) + setting_line(
        "criteria"@,
        quoted_list_text(s.criteria@),
    ) + setting_line("displayed_fields"@, opt_list_text(s.displayed_fields)) + setting_line(
        "distinct_field"@,
        opt_str_text(s.distinct_field),
    ) + setting_line("filterable_fields"@, quoted_set_text(s.filterable_fields@)) + setting_line(
        "sortable_fields"@,
        quoted_set_text(s.sortable_fields@),
    ) + setting_line("synonyms"@, synonyms_text(s.synonyms@)) + setting_line(
        "authorize_typos"@,
        bool_text(s.authorize_typos),
    ) + setting_line("min_word_len_one_typo"@, dec_rep(s.min_word_len_one_typo as int))
        + setting_line("min_word_len_two_typos"@, dec_rep(s.min_word_len_two_typos as int))
        + setting_line("exact_words"@, opt_list_text(s.exact_words)) + setting_line(
        "exact_attributes"@,
        quoted_set_text(s.exact_attributes@),
    ) + setting_line("max_values_per_facet"@, opt_u32_text(s.max_values_per_facet))
        + setting_line("pagination_max_total_hits"@, opt_u32_text(s.pagination_max_total_hits))
        + setting_line("searchable_fields"@, opt_list_text(s.searchable_fields)) + setting_line(
        "user_defined_searchable_fields"@,
        opt_list_text(s.user_defined_searchable_fields),
    )
}

/// Appends the `": "` separator and, after the value, the line break is
/// appended by the caller of this helper pair.
fn append_label(out: &mut String, label: &str)
    ensures
        final(out)@ == old(out)@ + label@ + seq![':', ' '],
{
    proof {
        reveal_strlit(": ");
    }
    out.append(label);
    out.append(": ");
    proof {
        assert(out@ =~= old(out)@ + label@ + seq![':', ' ']);
    }
}

/// Appends the final line break of one settings line.
fn append_line_break(out: &mut String)
    ensures
        final(out)@ == old(out)@ + seq!['\n'],
{
    proof {
        reveal_strlit("\n");
    }
    out.append("\n");
    proof {
        assert(out@ =~= old(out)@ + seq!['\n']);
    }
}

/// Renders the settings block: one `<setting name>: <value>` line per
/// setting, sixteen lines in a fixed order, unset settings rendered as a
/// stable `None`.
#[verifier::rlimit(100)]
pub fn snap_settings(settings: &Settings) -> (r: String)
    ensures
        r@ == settings_text(*settings),
{
    let s = settings;
    let mut out = String::new();
    let ghost mut done: Seq<char> = Seq::empty();

    append_label(&mut out, "primary_key");
    append_opt_str(&mut out, &s.primary_key);
    append_line_break(&mut out);
    proof {
        done = setting_line("primary_key"@, opt_str_text(s.primary_key));
        assert(out@ =~= done);
    }

    append_label(&mut out, "criteria");
    append_quoted_list(&mut out, &s.criteria);
    append_line_break(&mut out);
    proof {
        done = done + setting_line("criteria"@, quoted_list_text(s.criteria@));
        assert(out@ =~= done);
    }

    append_label(&mut out, "displayed_fields");
    append_opt_list(&mut out, &s.displayed_fields);
    append_line_break(&mut out);
    proof {
        done = done + setting_line("displayed_fields"@, opt_list_text(s.displayed_fields));
        assert(out@ =~= done);
    }

    append_label(&mut out, "distinct_field");
    append_opt_str(&mut out, &s.distinct_field);
    append_line_break(&mut out);
    proof {
        done = done + setting_line("distinct_field"@, opt_str_text(s.distinct_field));
        assert(out@ =~= done);
    }

    append_label(&mut out, "filterable_fields");
    append_quoted_set(&mut out, &s.filterable_fields);
    append_line_break(&mut out);
    proof {
        done = done + setting_line("filterable_fields"@, quoted_set_text(s.filterable_fields@));
        assert(out@ =~= done);
    }

    append_label(&mut out, "sortable_fields");
    append_quoted_set(&mut out, &s.sortable_fields);
    append_line_break(&mut out);
    proof {
        done = done + setting_line("sortable_fields"@, quoted_set_text(s.sortable_fields@));
        assert(out@ =~= done);
    }

    append_label(&mut out, "synonyms");
    append_synonyms(&mut out, &s.synonyms);
    append_line_break(&mut out);
    proof {
        done = done + setting_line("synonyms"@, synonyms_text(s.synonyms@));
        assert(out@ =~= done);
    }

    append_label(&mut out, "authorize_typos");
    append_bool(&mut out, s.authorize_typos);
    append_line_break(&mut out);
    proof {
        done = done + setting_line("authorize_typos"@, bool_text(s.authorize_typos));
        assert(out@ =~= done);
    }

    append_label(&mut out, "min_word_len_one_typo");
    let d1 = u64_to_dec(s.min_word_len_one_typo as u64);
    out.append(d1.as_str());
    append_line_break(&mut out);
    proof {
        done = done + setting_line(
            "min_word_len_one_typo"@,
            dec_rep(s.min_word_len_one_typo as int),
        );
        assert(out@ =~= done);
    }

    append_label(&mut out, "min_word_len_two_typos");
    let d2 = u64_to_dec(s.min_word_len_two_typos as u64);
    out.append(d2.as_str());
    append_line_break(&mut out);
    proof {
        done = done + setting_line(
            "min_word_len_two_typos"@,
            dec_rep(s.min_word_len_two_typos as int),
        );
        assert(out@ =~= done);
    }

    append_label(&mut out, "exact_words");
    append_opt_list(&mut out, &s.exact_words);
    append_line_break(&mut out);
    proof {
        done = done + setting_line("exact_words"@, opt_list_text(s.exact_words));
        assert(out@ =~= done);
    }

    append_label(&mut out, "exact_attributes");
    append_quoted_set(&mut out, &s.exact_attributes);
    append_line_break(&mut out);
    proof {
        done = done + setting_line("exact_attributes"@, quoted_set_text(s.exact_attributes@));
        assert(out@ =~= done);
    }

    append_label(&mut out, "max_values_per_facet");
    append_opt_u32(&mut out, &s.max_values_per_facet);
    append_line_break(&mut out);
    proof {
        done = done + setting_line("max_values_per_facet"@, opt_u32_text(s.max_values_per_facet));
        assert(out@ =~= done);
    }

    append_label(&mut out, "pagination_max_total_hits");
    append_opt_u32(&mut out, &s.pagination_max_total_hits);
    append_line_break(&mut out);
    proof {
        done = done + setting_line(
            "pagination_max_total_hits"@,
            opt_u32_text(s.pagination_max_total_hits),
        );
        assert(out@ =~= done);
    }

    append_label(&mut out, "searchable_fields");
    append_opt_list(&mut out, &s.searchable_fields);
    append_line_break(&mut out);
    proof {
        done = done + setting_line("searchable_fields"@, opt_list_text(s.searchable_fields));
        assert(out@ =~= done);
    }

    append_label(&mut out, "user_defined_searchable_fields");
    append_opt_list(&mut out, &s.user_defined_searchable_fields);
    append_line_break(&mut out);
    proof {
        done = done + setting_line(
            "user_defined_searchable_fields"@,
            opt_list_text(s.user_defined_searchable_fields),
        );
        assert(out@ =~= done);
        assert(done == settings_text(*settings));
    }

    out
}

/// The stop-word set rendered as `Some({"a", "b"})` or `None`.
pub open spec fn stop_words_text(o: Option<Vec<String>>) -> Seq<char> {
    match o {
        Some(v) => some_wrap(quoted_set_text(v@)),
        None => none_text(),
    }
}

/// Renders the stop-word set in a stable form: the words in the caller's
/// fixed order, or `None` when unset.
pub fn snap_stop_words(stop_words: &Option<Vec<String>>) -> (r: String)
    ensures
        r@ == stop_words_text(*stop_words),
{
    proof {
        reveal_strlit(")");
    }
    let mut out = String::new();
    match stop_words {
        Some(v) => {
            append_some_open(&mut out);
            append_quoted_set(&mut out, v);
            out.append(")");
            proof {
                assert(out@ =~= stop_words_text(*stop_words));
            }
        },
        None => {
            append_none(&mut out);
        },
    }
    out
}


/// A quoted, escaped string never holds a raw newline.
proof fn lemma_quoted_no_newline(t: Seq<char>)
    ensures
        count_char(quoted(t), '\n') == 0,
{
    crate::text::lemma_count_char_concat(seq!['"'] + escape_text(t), seq!['"'], '\n');
    crate::text::lemma_count_char_concat(seq!['"'], escape_text(t), '\n');
    crate::text::lemma_count_char_single('"', '\n');
    crate::text::lemma_escape_text_no_newline(t);
}

/// The quoted item list of any string list holds no newline.
proof fn lemma_quoted_items_no_newline(v: Seq<String>)
    ensures
        count_char(quoted_items_text(v), '\n') == 0,
    decreases v.len(),
{
    if v.len() == 0 {
    } else if v.len() == 1 {
        lemma_quoted_no_newline(v[0]@);
    } else {
        lemma_quoted_items_no_newline(v.drop_last());
        lemma_quoted_no_newline(v.last()@);
        crate::text::lemma_count_char_concat(
            quoted_items_text(v.drop_last()) + seq![',', ' '],
            quoted(v.last()@),
            '\n',
        );
        crate::text::lemma_count_char_concat(quoted_items_text(v.drop_last()), seq![',', ' '], '\n');
        crate::text::lemma_count_char_pair(',', ' ', '\n');
    }
}

/// A bracketed string list rendering holds no newline.
proof fn lemma_quoted_list_no_newline(v: Seq<String>)
    ensures
        count_char(quoted_list_text(v), '\n') == 0,
{
    lemma_quoted_items_no_newline(v);
    crate::text::lemma_count_char_concat(seq!['['] + quoted_items_text(v), seq![']'], '\n');
    crate::text::lemma_count_char_concat(seq!['['], quoted_items_text(v), '\n');
    crate::text::lemma_count_char_single('[', '\n');
    crate::text::lemma_count_char_single(']', '\n');
}

/// A braced string set rendering holds no newline.
proof fn lemma_quoted_set_no_newline(v: Seq<String>)
    ensures
        count_char(quoted_set_text(v), '\n') == 0,
{
    lemma_quoted_items_no_newline(v);
    crate::text::lemma_count_char_concat(seq!['{'] + quoted_items_text(v), seq!['}'], '\n');
    crate::text::lemma_count_char_concat(seq!['{'], quoted_items_text(v), '\n');
    crate::text::lemma_count_char_single('{', '\n');
    crate::text::lemma_count_char_single('}', '\n');
}

/// The `None` sentinel holds no newline.
proof fn lemma_none_no_newline()
    ensures
        count_char(none_text(), '\n') == 0,
{
    assert(count_char(none_text(), '\n') == 0) by {
        reveal_with_fuel(count_char, 6);
    }
}

/// A `Some(..)` wrapper adds no newline.
proof fn lemma_some_wrap_no_newline(inner: Seq<char>)
    requires
        count_char(inner, '\n') == 0,
    ensures
        count_char(some_wrap(inner), '\n') == 0,
{
    assert(count_char(seq!['S', 'o', 'm', 'e', '('], '\n') == 0) by {
        reveal_with_fuel(count_char, 7);
    }
    crate::text::lemma_count_char_concat(seq!['S', 'o', 'm', 'e', '('] + inner, seq![')'], '\n');
    crate::text::lemma_count_char_concat(seq!['S', 'o', 'm', 'e', '('], inner, '\n');
    crate::text::lemma_count_char_single(')', '\n');
}

/// An optional string rendering holds no newline.
proof fn lemma_opt_str_text_no_newline(o: Option<String>)
    ensures
        count_char(opt_str_text(o), '\n') == 0,
{
    match o {
        Some(t) => {
            lemma_quoted_no_newline(t@);
            lemma_some_wrap_no_newline(quoted(t@));
        },
        None => {
            lemma_none_no_newline();
        },
    }
}

/// An optional string list rendering holds no newline.
proof fn lemma_opt_list_text_no_newline(o: Option<Vec<String>>)
    ensures
        count_char(opt_list_text(o), '\n') == 0,
{
    match o {
        Some(v) => {
            lemma_quoted_list_no_newline(v@);
            lemma_some_wrap_no_newline(quoted_list_text(v@));
        },
        None => {
            lemma_none_no_newline();
        },
    }
}

/// An optional integer rendering holds no newline.
proof fn lemma_opt_u32_text_no_newline(o: Option<u32>)
    ensures
        count_char(opt_u32_text(o), '\n') == 0,
{
    match o {
        Some(n) => {
            crate::text::lemma_dec_rep_no_newline(n as int);
            lemma_some_wrap_no_newline(dec_rep(n as int));
        },
        None => {
            lemma_none_no_newline();
        },
    }
}

/// A boolean rendering holds no newline.
proof fn lemma_bool_text_no_newline(b: bool)
    ensures
        count_char(bool_text(b), '\n') == 0,
{
    assert(count_char(bool_text(b), '\n') == 0) by {
        reveal_with_fuel(count_char, 7);
    }
}

/// One synonym entry holds no newline.
proof fn lemma_synonyms_entry_no_newline(word: String, syns: Vec<String>)
    ensures
        count_char(synonyms_entry_text(word, syns), '\n') == 0,
{
    lemma_quoted_no_newline(word@);
    lemma_quoted_list_no_newline(syns@);
    crate::text::lemma_count_char_concat(
        quoted(word@) + seq![':', ' '],
        quoted_list_text(syns@),
        '\n',
    );
    crate::text::lemma_count_char_concat(quoted(word@), seq![':', ' '], '\n');
    crate::text::lemma_count_char_pair(':', ' ', '\n');
}

/// The synonym map rendering holds no newline.
proof fn lemma_synonyms_text_no_newline(v: Seq<(String, Vec<String>)>)
    ensures
        count_char(synonyms_text(v), '\n') == 0,
{
    lemma_synonyms_items_no_newline(v);
    crate::text::lemma_count_char_concat(seq!['{'] + synonyms_items_text(v), seq!['}'], '\n');
    crate::text::lemma_count_char_concat(seq!['{'], synonyms_items_text(v), '\n');
    crate::text::lemma_count_char_single('{', '\n');
    crate::text::lemma_count_char_single('}', '\n');
}

/// The synonym entry list holds no newline.
proof fn lemma_synonyms_items_no_newline(v: Seq<(String, Vec<String>)>)
    ensures
        count_char(synonyms_items_text(v), '\n') == 0,
    decreases v.len(),
{
    if v.len() == 0 {
    } else if v.len() == 1 {
        lemma_synonyms_entry_no_newline(v[0].0, v[0].1);
    } else {
        lemma_synonyms_items_no_newline(v.drop_last());
        lemma_synonyms_entry_no_newline(v.last().0, v.last().1);
        crate::text::lemma_count_char_concat(
            synonyms_items_text(v.drop_last()) + seq![',', ' '],
            synonyms_entry_text(v.last().0, v.last().1),
            '\n',
        );
        crate::text::lemma_count_char_concat(
            synonyms_items_text(v.drop_last()),
            seq![',', ' '],
            '\n',
        );
        crate::text::lemma_count_char_pair(',', ' ', '\n');
    }
}

/// One settings line holds exactly one newline: its terminator.
proof fn lemma_setting_line_count(label: Seq<char>, value: Seq<char>)
    requires
        count_char(label, '\n') == 0,
        count_char(value, '\n') == 0,
    ensures
        count_char(setting_line(label, value), '\n') == 1,
{
    crate::text::lemma_count_char_concat(label + seq![':', ' '] + value, seq!['\n'], '\n');
    crate::text::lemma_count_char_concat(label + seq![':', ' '], value, '\n');
    crate::text::lemma_count_char_concat(label, seq![':', ' '], '\n');
    crate::text::lemma_count_char_pair(':', ' ', '\n');
    crate::text::lemma_count_char_single('\n', '\n');
}

/// One settings line holds exactly its terminating newline.
#[verifier::rlimit(100)]
proof fn lemma_settings_line_1(s: Settings)
    ensures
        count_char(setting_line("primary_key"@, opt_str_text(s.primary_key)), '\n') == 1,
{
    assert(count_char("primary_key"@, '\n') == 0) by {
        reveal_strlit("primary_key");
        reveal_with_fuel(count_char, 13);
    }
    lemma_opt_str_text_no_newline(s.primary_key);
    lemma_setting_line_count("primary_key"@, opt_str_text(s.primary_key));
}

/// One settings line holds exactly its terminating newline.
#[verifier::rlimit(100)]
proof fn lemma_settings_line_2(s: Settings)
    ensures
        count_char(setting_line("criteria"@, quoted_list_text(s.criteria@)), '\n') == 1,
{
    assert(count_char("criteria"@, '\n') == 0) by {
        reveal_strlit("criteria");
        reveal_with_fuel(count_char, 10);
    }
    lemma_quoted_list_no_newline(s.criteria@);
    lemma_setting_line_count("criteria"@, quoted_list_text(s.criteria@));
}

/// One settings line holds exactly its terminating newline.
#[verifier::rlimit(100)]
proof fn lemma_settings_line_3(s: Settings)
    ensures
        count_char(setting_line("displayed_fields"@, opt_list_text(s.displayed_fields)), '\n') == 1,
{
    assert(count_char("displayed_fields"@, '\n') == 0) by {
        reveal_strlit("displayed_fields");
        reveal_with_fuel(count_char, 18);
    }
    lemma_opt_list_text_no_newline(s.displayed_fields);
    lemma_setting_line_count("displayed_fields"@, opt_list_text(s.displayed_fields));
}

/// One settings line holds exactly its terminating newline.
#[verifier::rlimit(100)]
proof fn lemma_settings_line_4(s: Settings)
    ensures
        count_char(setting_line("distinct_field"@, opt_str_text(s.distinct_field)), '\n') == 1,
{
    assert(count_char("distinct_field"@, '\n') == 0) by {
        reveal_strlit("distinct_field");
        reveal_with_fuel(count_char, 16);
    }
    lemma_opt_str_text_no_newline(s.distinct_field);
    lemma_setting_line_count("distinct_field"@, opt_str_text(s.distinct_field));
}

/// One settings line holds exactly its terminating newline.
#[verifier::rlimit(100)]
proof fn lemma_settings_line_5(s: Settings)
    ensures
        count_char(setting_line("filterable_fields"@, quoted_set_text(s.filterable_fields@)), '\n') == 1,
{
    assert(count_char("filterable_fields"@, '\n') == 0) by {
        reveal_strlit("filterable_fields");
        reveal_with_fuel(count_char, 19);
    }
    lemma_quoted_set_no_newline(s.filterable_fields@);
    lemma_setting_line_count("filterable_fields"@, quoted_set_text(s.filterable_fields@));
}

/// One settings line holds exactly its terminating newline.
#[verifier::rlimit(100)]
proof fn lemma_settings_line_6(s: Settings)
    ensures
        count_char(setting_line("sortable_fields"@, quoted_set_text(s.sortable_fields@)), '\n') == 1,
{
    assert(count_char("sortable_fields"@, '\n') == 0) by {
        reveal_strlit("sortable_fields");
        reveal_with_fuel(count_char, 17);
    }
    lemma_quoted_set_no_newline(s.sortable_fields@);
    lemma_setting_line_count("sortable_fields"@, quoted_set_text(s.sortable_fields@));
}

/// One settings line holds exactly its terminating newline.
#[verifier::rlimit(100)]
proof fn lemma_settings_line_7(s: Settings)
    ensures
        count_char(setting_line("synonyms"@, synonyms_text(s.synonyms@)), '\n') == 1,
{
    assert(count_char("synonyms"@, '\n') == 0) by {
        reveal_strlit("synonyms");
        reveal_with_fuel(count_char, 10);
    }
    lemma_synonyms_text_no_newline(s.synonyms@);
    lemma_setting_line_count("synonyms"@, synonyms_text(s.synonyms@));
}

/// One settings line holds exactly its terminating newline.
#[verifier::rlimit(100)]
proof fn lemma_settings_line_8(s: Settings)
    ensures
        count_char(setting_line("authorize_typos"@, bool_text(s.authorize_typos)), '\n') == 1,
{
    assert(count_char("authorize_typos"@, '\n') == 0) by {
        reveal_strlit("authorize_typos");
        reveal_with_fuel(count_char, 17);
    }
    lemma_bool_text_no_newline(s.authorize_typos);
    lemma_setting_line_count("authorize_typos"@, bool_text(s.authorize_typos));
}

/// One settings line holds exactly its terminating newline.
#[verifier::rlimit(100)]
proof fn lemma_settings_line_9(s: Settings)
    ensures
        count_char(setting_line("min_word_len_one_typo"@, dec_rep(s.min_word_len_one_typo as int)), '\n') == 1,
{
    assert(count_char("min_word_len_one_typo"@, '\n') == 0) by {
        reveal_strlit("min_word_len_one_typo");
        reveal_with_fuel(count_char, 23);
    }
    crate::text::lemma_dec_rep_no_newline(s.min_word_len_one_typo as int);
    lemma_setting_line_count("min_word_len_one_typo"@, dec_rep(s.min_word_len_one_typo as int));
}

/// One settings line holds exactly its terminating newline.
#[verifier::rlimit(100)]
proof fn lemma_settings_line_10(s: Settings)
    ensures
        count_char(setting_line("min_word_len_two_typos"@, dec_rep(s.min_word_len_two_typos as int)), '\n') == 1,
{
    assert(count_char("min_word_len_two_typos"@, '\n') == 0) by {
        reveal_strlit("min_word_len_two_typos");
        reveal_with_fuel(count_char, 24);
    }
    crate::text::lemma_dec_rep_no_newline(s.min_word_len_two_typos as int);
    lemma_setting_line_count("min_word_len_two_typos"@, dec_rep(s.min_word_len_two_typos as int));
}

/// One settings line holds exactly its terminating newline.
#[verifier::rlimit(100)]
proof fn lemma_settings_line_11(s: Settings)
    ensures
        count_char(setting_line("exact_words"@, opt_list_text(s.exact_words)), '\n') == 1,
{
    assert(count_char("exact_words"@, '\n') == 0) by {
        reveal_strlit("exact_words");
        reveal_with_fuel(count_char, 13);
    }
    lemma_opt_list_text_no_newline(s.exact_words);
    lemma_setting_line_count("exact_words"@, opt_list_text(s.exact_words));
}

/// One settings line holds exactly its terminating newline.
#[verifier::rlimit(100)]
proof fn lemma_settings_line_12(s: Settings)
    ensures
        count_char(setting_line("exact_attributes"@, quoted_set_text(s.exact_attributes@)), '\n') == 1,
{
    assert(count_char("exact_attributes"@, '\n') == 0) by {
        reveal_strlit("exact_attributes");
        reveal_with_fuel(count_char, 18);
    }
    lemma_quoted_set_no_newline(s.exact_attributes@);
    lemma_setting_line_count("exact_attributes"@, quoted_set_text(s.exact_attributes@));
}

/// One settings line holds exactly its terminating newline.
#[verifier::rlimit(100)]
proof fn lemma_settings_line_13(s: Settings)
    ensures
        count_char(setting_line("max_values_per_facet"@, opt_u32_text(s.max_values_per_facet)), '\n') == 1,
{
    assert(count_char("max_values_per_facet"@, '\n') == 0) by {
        reveal_strlit("max_values_per_facet");
        reveal_with_fuel(count_char, 22);
    }
    lemma_opt_u32_text_no_newline(s.max_values_per_facet);
    lemma_setting_line_count("max_values_per_facet"@, opt_u32_text(s.max_values_per_facet));
}

/// One settings line holds exactly its terminating newline.
#[verifier::rlimit(100)]
proof fn lemma_settings_line_14(s: Settings)
    ensures
        count_char(setting_line("pagination_max_total_hits"@, opt_u32_text(s.pagination_max_total_hits)), '\n') == 1,
{
    assert(count_char("pagination_max_total_hits"@, '\n') == 0) by {
        reveal_strlit("pagination_max_total_hits");
        reveal_with_fuel(count_char, 27);
    }
    lemma_opt_u32_text_no_newline(s.pagination_max_total_hits);
    lemma_setting_line_count("pagination_max_total_hits"@, opt_u32_text(s.pagination_max_total_hits));
}

/// One settings line holds exactly its terminating newline.
#[verifier::rlimit(100)]
proof fn lemma_settings_line_15(s: Settings)
    ensures
        count_char(setting_line("searchable_fields"@, opt_list_text(s.searchable_fields)), '\n') == 1,
{
    assert(count_char("searchable_fields"@, '\n') == 0) by {
        reveal_strlit("searchable_fields");
        reveal_with_fuel(count_char, 19);
    }
    lemma_opt_list_text_no_newline(s.searchable_fields);
    lemma_setting_line_count("searchable_fields"@, opt_list_text(s.searchable_fields));
}

/// One settings line holds exactly its terminating newline.
#[verifier::rlimit(100)]
proof fn lemma_settings_line_16(s: Settings)
    ensures
        count_char(setting_line("user_defined_searchable_fields"@, opt_list_text(s.user_defined_searchable_fields)), '\n') == 1,
{
    assert(count_char("user_defined_searchable_fields"@, '\n') == 0) by {
        reveal_strlit("user_defined_searchable_fields");
        reveal_with_fuel(count_char, 32);
    }
    lemma_opt_list_text_no_newline(s.user_defined_searchable_fields);
    lemma_setting_line_count("user_defined_searchable_fields"@, opt_list_text(s.user_defined_searchable_fields));
}

/// The settings block always holds exactly sixteen lines, whatever the
/// settings values: every setting emits one line, unset ones included.
#[verifier::rlimit(100)]
pub proof fn lemma_settings_line_count(s: Settings)
    ensures
        count_char(settings_text(s), '\n') == 16,
{
    lemma_settings_line_1(s);
    lemma_settings_line_2(s);
    lemma_settings_line_3(s);
    lemma_settings_line_4(s);
    lemma_settings_line_5(s);
    lemma_settings_line_6(s);
    lemma_settings_line_7(s);
    lemma_settings_line_8(s);
    lemma_settings_line_9(s);
    lemma_settings_line_10(s);
    lemma_settings_line_11(s);
    lemma_settings_line_12(s);
    lemma_settings_line_13(s);
    lemma_settings_line_14(s);
    lemma_settings_line_15(s);
    lemma_settings_line_16(s);
    let l1 = setting_line("primary_key"@, opt_str_text(s.primary_key));
    let l2 = setting_line("criteria"@, quoted_list_text(s.criteria@));
    let l3 = setting_line("displayed_fields"@, opt_list_text(s.displayed_fields));
    let l4 = setting_line("distinct_field"@, opt_str_text(s.distinct_field));
    let l5 = setting_line("filterable_fields"@, quoted_set_text(s.filterable_fields@));
    let l6 = setting_line("sortable_fields"@, quoted_set_text(s.sortable_fields@));
    let l7 = setting_line("synonyms"@, synonyms_text(s.synonyms@));
    let l8 = setting_line("authorize_typos"@, bool_text(s.authorize_typos));
    let l9 = setting_line("min_word_len_one_typo"@, dec_rep(s.min_word_len_one_typo as int));
    let l10 = setting_line("min_word_len_two_typos"@, dec_rep(s.min_word_len_two_typos as int));
    let l11 = setting_line("exact_words"@, opt_list_text(s.exact_words));
    let l12 = setting_line("exact_attributes"@, quoted_set_text(s.exact_attributes@));
    let l13 = setting_line("max_values_per_facet"@, opt_u32_text(s.max_values_per_facet));
    let l14 = setting_line("pagination_max_total_hits"@, opt_u32_text(s.pagination_max_total_hits));
    let l15 = setting_line("searchable_fields"@, opt_list_text(s.searchable_fields));
    let l16 = setting_line("user_defined_searchable_fields"@, opt_list_text(s.user_defined_searchable_fields));
    crate::text::lemma_count_char_concat(l1, l2, '\n');
    crate::text::lemma_count_char_concat(l1 + l2, l3, '\n');
    crate::text::lemma_count_char_concat(l1 + l2 + l3, l4, '\n');
    crate::text::lemma_count_char_concat(l1 + l2 + l3 + l4, l5, '\n');
    crate::text::lemma_count_char_concat(l1 + l2 + l3 + l4 + l5, l6, '\n');
    crate::text::lemma_count_char_concat(l1 + l2 + l3 + l4 + l5 + l6, l7, '\n');
    crate::text::lemma_count_char_concat(l1 + l2 + l3 + l4 + l5 + l6 + l7, l8, '\n');
    crate::text::lemma_count_char_concat(l1 + l2 + l3 + l4 + l5 + l6 + l7 + l8, l9, '\n');
    crate::text::lemma_count_char_concat(l1 + l2 + l3 + l4 + l5 + l6 + l7 + l8 + l9, l10, '\n');
    crate::text::lemma_count_char_concat(l1 + l2 + l3 + l4 + l5 + l6 + l7 + l8 + l9 + l10, l11, '\n');
    crate::text::lemma_count_char_concat(l1 + l2 + l3 + l4 + l5 + l6 + l7 + l8 + l9 + l10 + l11, l12, '\n');
    crate::text::lemma_count_char_concat(l1 + l2 + l3 + l4 + l5 + l6 + l7 + l8 + l9 + l10 + l11 + l12, l13, '\n');
    crate::text::lemma_count_char_concat(l1 + l2 + l3 + l4 + l5 + l6 + l7 + l8 + l9 + l10 + l11 + l12 + l13, l14, '\n');
    crate::text::lemma_count_char_concat(l1 + l2 + l3 + l4 + l5 + l6 + l7 + l8 + l9 + l10 + l11 + l12 + l13 + l14, l15, '\n');
    crate::text::lemma_count_char_concat(l1 + l2 + l3 + l4 + l5 + l6 + l7 + l8 + l9 + l10 + l11 + l12 + l13 + l14 + l15, l16, '\n');
    assert(settings_text(s) == l1 + l2 + l3 + l4 + l5 + l6 + l7 + l8 + l9 + l10 + l11 + l12 + l13 + l14 + l15 + l16);
}

/// Rendering one settings state twice yields byte-identical text: the
/// block is a pure function of the settings values.
pub proof fn lemma_settings_deterministic(s1: Settings, s2: Settings)
    requires
        s1 == s2,
    ensures
        settings_text(s1) == settings_text(s2),
{
}

} // verus!
