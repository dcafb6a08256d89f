//! The entry formatter registry: one renderer per table, each turning the
//! table's raw `(key, value)` byte pairs into fixed-column text lines, one
//! line per record, in the table's own iteration order.
//!
//! Every renderer decodes with its table's codec pair and aborts on the
//! first record that does not decode: a placeholder line would silently
//! corrupt the fixture the text feeds.
use vstd::prelude::*;

verus! {

use vstd::string::StringExecFns;
use vstd::utf8::{decode_utf8, valid_utf8};
use crate::SnapError;
use crate::codec::{be16, be32, decode_str_range, read_be16, read_be32};
use crate::intset::{append_int_set, decode_int_set, int_set_text, int_set_values, valid_int_set};
use crate::text::{append_padded, append_u64_padded, dec_rep, pad_right};

/// The raw byte view of a table's entries, in iteration order.
pub open spec fn raw_entries(entries: Seq<(Vec<u8>, Vec<u8>)>) -> Seq<(Seq<u8>, Seq<u8>)> {
    Seq::new(entries.len(), |i: int| (entries[i].0@, entries[i].1@))
}

/// Whether one entry decodes: its key under the table's key codec and its
/// value as a compressed integer set.
pub open spec fn entry_ok(en: (Seq<u8>, Seq<u8>), key_ok: spec_fn(Seq<u8>) -> bool) -> bool {
    key_ok(en.0) && valid_int_set(en.1)
}

/// Whether every entry of the table decodes.
pub open spec fn table_ok(es: Seq<(Seq<u8>, Seq<u8>)>, key_ok: spec_fn(Seq<u8>) -> bool) -> bool {
    forall|i: int| 0 <= i < es.len() ==> #[trigger] entry_ok(es[i], key_ok)
}

/// Whether `e` reports the first entry that fails to decode.
pub open spec fn fails_at(
    es: Seq<(Seq<u8>, Seq<u8>)>,
    key_ok: spec_fn(Seq<u8>) -> bool,
    e: SnapError,
) -> bool {
    match e {
        SnapError::KeyDecode { index } => {
            &&& index < es.len()
            &&& !key_ok(es[index as int].0)
            &&& forall|j: int| 0 <= j < index ==> #[trigger] entry_ok(es[j], key_ok)
        },
        SnapError::ValueDecode { index } => {
            &&& index < es.len()
            &&& key_ok(es[index as int].0)
            &&& !valid_int_set(es[index as int].1)
            &&& forall|j: int| 0 <= j < index ==> #[trigger] entry_ok(es[j], key_ok)
        },
        SnapError::KeyShape { .. } => false,
    }
}

/// The table's text: every entry's line, concatenated in iteration order.
pub open spec fn table_text(
    es: Seq<(Seq<u8>, Seq<u8>)>,
    line: spec_fn(Seq<u8>, Seq<u8>) -> Seq<char>,
) -> Seq<char>
    decreases es.len(),
{
    if es.len() == 0 {
        Seq::empty()
    } else {
        table_text(es.drop_last(), line) + line(es.last().0, es.last().1)
    }
}

/// A key codec accepting any whole-key UTF-8 string.
pub open spec fn string_key_ok(k: Seq<u8>) -> bool {
    valid_utf8(k)
}

/// One line of a string-keyed table: the key string left-justified to
/// `width` columns, a space, the document-id set.
pub open spec fn string_key_line(k: Seq<u8>, v: Seq<u8>, width: int) -> Seq<char> {
    pad_right(decode_utf8(k), width) + seq![' '] + int_set_text(int_set_values(v)) + seq!['\n']
}

/// The text of a string-keyed table rendered at `width` columns.
pub open spec fn string_key_table_text(es: Seq<(Seq<u8>, Seq<u8>)>, width: int) -> Seq<char> {
    table_text(es, |k: Seq<u8>, v: Seq<u8>| string_key_line(k, v, width))
}

/// Whether every entry of a string-keyed table decodes.
pub open spec fn string_key_table_ok(es: Seq<(Seq<u8>, Seq<u8>)>) -> bool {
    table_ok(es, |k: Seq<u8>| string_key_ok(k))
}

/// Whether `e` reports the first failing entry of a string-keyed table.
pub open spec fn string_key_table_fails(es: Seq<(Seq<u8>, Seq<u8>)>, e: SnapError) -> bool {
    fails_at(es, |k: Seq<u8>| string_key_ok(k), e)
}

/// Renders a table whose key is one string and whose value is a
/// document-id set, at the given key column width.
#[verifier::rlimit(100)]
fn snap_string_key_table(entries: &Vec<(Vec<u8>, Vec<u8>)>, width: usize) -> (r: Result<
    String,
    SnapError,
>)
    ensures
        ({
            let es = raw_entries(entries@);
            &&& r is Ok <==> string_key_table_ok(es)
            &&& r is Ok ==> r.unwrap()@ == string_key_table_text(es, width as int)
            &&& r is Err ==> string_key_table_fails(es, r.unwrap_err())
        }),
{
    let ghost es = raw_entries(entries@);
    let ghost kf = |k: Seq<u8>| string_key_ok(k);
    let mut out = String::new();
    let n = entries.len();
    proof {
        assert(es.subrange(0, 0) =~= Seq::<(Seq<u8>, Seq<u8>)>::empty());
    }
    for i in 0..n
        invariant
            n == entries@.len(),
            es == raw_entries(entries@),
            kf == (|k: Seq<u8>| string_key_ok(k)),
            out@ == string_key_table_text(es.subrange(0, i as int), width as int),
            forall|j: int| 0 <= j < i ==> #[trigger] entry_ok(es[j], kf),
    {
        let entry = &entries[i];
        let klen = entry.0.len();
        let word = match decode_str_range(entry.0.as_slice(), 0, klen) {
            Some(w) => w,
            None => {
                proof {
                    assert(entry.0@.subrange(0, klen as int) =~= es[i as int].0);
                    assert(string_key_table_fails(es, SnapError::KeyDecode { index: i }));
                    assert(!entry_ok(es[i as int], kf));
                }
                return Err(SnapError::KeyDecode { index: i });
            },
        };
        let vals = match decode_int_set(entry.1.as_slice()) {
            Some(v) => v,
            None => {
                proof {
                    assert(entry.0@.subrange(0, klen as int) =~= es[i as int].0);
                    assert(string_key_table_fails(es, SnapError::ValueDecode { index: i }));
                    assert(!entry_ok(es[i as int], kf));
                }
                return Err(SnapError::ValueDecode { index: i });
            },
        };
        append_padded(&mut out, word.as_str(), width);
        out.append(" ");
        append_int_set(&mut out, &vals);
        out.append("\n");
        proof {
            reveal_strlit(" ");
            reveal_strlit("\n");
            assert(entry.0@.subrange(0, klen as int) =~= es[i as int].0);
            let pre = es.subrange(0, i + 1);
            assert(pre.drop_last() =~= es.subrange(0, i as int));
            assert(pre.last() == es[i as int]);
            assert(out@ =~= string_key_table_text(pre, width as int));
            assert(entry_ok(es[i as int], kf));
        }
    }
    proof {
        assert(es.subrange(0, n as int) =~= es);
    }
    Ok(out)
}

/// A key codec for a document id followed by a string: a big-endian
/// 32-bit id, then the rest of the key as UTF-8.
pub open spec fn docid_word_key_ok(k: Seq<u8>) -> bool {
    k.len() >= 4 && valid_utf8(k.subrange(4, k.len() as int))
}

/// One line of the per-document word table:
/// `<docid:6> <word:16> <document-id set>`.
pub open spec fn docid_word_line(k: Seq<u8>, v: Seq<u8>) -> Seq<char> {
    pad_right(dec_rep(be32(k, 0)), 6) + seq![' '] + pad_right(
        decode_utf8(k.subrange(4, k.len() as int)),
        16,
    ) + seq![' '] + int_set_text(int_set_values(v)) + seq!['\n']
}

/// The text of the per-document word table.
pub open spec fn docid_word_table_text(es: Seq<(Seq<u8>, Seq<u8>)>) -> Seq<char> {
    table_text(es, |k: Seq<u8>, v: Seq<u8>| docid_word_line(k, v))
}

/// Whether every entry of the per-document word table decodes.
pub open spec fn docid_word_table_ok(es: Seq<(Seq<u8>, Seq<u8>)>) -> bool {
    table_ok(es, |k: Seq<u8>| docid_word_key_ok(k))
}

/// Whether `e` reports the first failing entry of that table.
pub open spec fn docid_word_table_fails(es: Seq<(Seq<u8>, Seq<u8>)>, e: SnapError) -> bool {
    fails_at(es, |k: Seq<u8>| docid_word_key_ok(k), e)
}

/// Renders a table keyed by a document id and a word.
#[verifier::rlimit(100)]
fn snap_docid_word_table(entries: &Vec<(Vec<u8>, Vec<u8>)>) -> (r: Result<String, SnapError>)
    ensures
        ({
            let es = raw_entries(entries@);
            &&& r is Ok <==> docid_word_table_ok(es)
            &&& r is Ok ==> r.unwrap()@ == docid_word_table_text(es)
            &&& r is Err ==> docid_word_table_fails(es, r.unwrap_err())
        }),
{
    let ghost es = raw_entries(entries@);
    let ghost kf = |k: Seq<u8>| docid_word_key_ok(k);
    let mut out = String::new();
    let n = entries.len();
    proof {
        assert(es.subrange(0, 0) =~= Seq::<(Seq<u8>, Seq<u8>)>::empty());
    }
    for i in 0..n
        invariant
            n == entries@.len(),
            es == raw_entries(entries@),
            kf == (|k: Seq<u8>| docid_word_key_ok(k)),
            out@ == docid_word_table_text(es.subrange(0, i as int)),
            forall|j: int| 0 <= j < i ==> #[trigger] entry_ok(es[j], kf),
    {
        let entry = &entries[i];
        let klen = entry.0.len();
        if klen < 4 {
            proof {
                assert(!entry_ok(es[i as int], kf));
                assert(docid_word_table_fails(es, SnapError::KeyDecode { index: i }));
            }
            return Err(SnapError::KeyDecode { index: i });
        }
        let word = match decode_str_range(entry.0.as_slice(), 4, klen) {
            Some(w) => w,
            None => {
                proof {
                    assert(!entry_ok(es[i as int], kf));
                    assert(docid_word_table_fails(es, SnapError::KeyDecode { index: i }));
                }
                return Err(SnapError::KeyDecode { index: i });
            },
        };
        let docid = read_be32(entry.0.as_slice(), 0);
        let vals = match decode_int_set(entry.1.as_slice()) {
            Some(v) => v,
            None => {
                proof {
                    assert(!entry_ok(es[i as int], kf));
                    assert(docid_word_table_fails(es, SnapError::ValueDecode { index: i }));
                }
                return Err(SnapError::ValueDecode { index: i });
            },
        };
        append_u64_padded(&mut out, docid as u64, 6);
        out.append(" ");
        append_padded(&mut out, word.as_str(), 16);
        out.append(" ");
        append_int_set(&mut out, &vals);
        out.append("\n");
        proof {
            reveal_strlit(" ");
            reveal_strlit("\n");
            let pre = es.subrange(0, i + 1);
            assert(pre.drop_last() =~= es.subrange(0, i as int));
            assert(pre.last() == es[i as int]);
            assert(out@ =~= docid_word_table_text(pre));
            assert(entry_ok(es[i as int], kf));
        }
    }
    proof {
        assert(es.subrange(0, n as int) =~= es);
    }
    Ok(out)
}

/// Renders the per-document word positions table:
/// `<docid:6> <word:16> <position set>` per line.
pub fn snap_docid_word_positions(docid_word_positions: &Vec<(Vec<u8>, Vec<u8>)>) -> (r: Result<
    String,
    SnapError,
>)
    ensures
        ({
            let es = raw_entries(docid_word_positions@);
            &&& r is Ok <==> docid_word_table_ok(es)
            &&& r is Ok ==> r.unwrap()@ == docid_word_table_text(es)
            &&& r is Err ==> docid_word_table_fails(es, r.unwrap_err())
        }),
{
    snap_docid_word_table(docid_word_positions)
}

/// A key codec for a word pair with a proximity: a big-endian 16-bit
/// length of the first word, the first word, the second word, then one
/// trailing proximity byte.
pub open spec fn word_pair_key_ok(k: Seq<u8>) -> bool {
    &&& k.len() >= 3
    &&& 2 + be16(k, 0) + 1 <= k.len()
    &&& valid_utf8(k.subrange(2, 2 + be16(k, 0)))
    &&& valid_utf8(k.subrange(2 + be16(k, 0), k.len() - 1))
}

/// One line of a word pair table: the first word at 16 columns, the
/// second at `w2_width`, the proximity at 2, then the set.
pub open spec fn word_pair_line(k: Seq<u8>, v: Seq<u8>, w2_width: int) -> Seq<char> {
    pad_right(decode_utf8(k.subrange(2, 2 + be16(k, 0))), 16) + seq![' '] + pad_right(
        decode_utf8(k.subrange(2 + be16(k, 0), k.len() - 1)),
        w2_width,
    ) + seq![' '] + pad_right(dec_rep(k.last() as int), 2) + seq![' '] + int_set_text(
        int_set_values(v),
    ) + seq!['\n']
}

/// The text of a word pair table at the given second-word width.
pub open spec fn word_pair_table_text(es: Seq<(Seq<u8>, Seq<u8>)>, w2_width: int) -> Seq<char> {
    table_text(es, |k: Seq<u8>, v: Seq<u8>| word_pair_line(k, v, w2_width))
}

/// Whether every entry of a word pair table decodes.
pub open spec fn word_pair_table_ok(es: Seq<(Seq<u8>, Seq<u8>)>) -> bool {
    table_ok(es, |k: Seq<u8>| word_pair_key_ok(k))
}

/// Whether `e` reports the first failing entry of a word pair table.
pub open spec fn word_pair_table_fails(es: Seq<(Seq<u8>, Seq<u8>)>, e: SnapError) -> bool {
    fails_at(es, |k: Seq<u8>| word_pair_key_ok(k), e)
}

/// Builds one word pair line from its decoded parts.
fn word_pair_line_string(
    word1: &str,
    word2: &str,
    proximity: u8,
    vals: &Vec<u32>,
    w2_width: usize,
) -> (s: String)
    ensures
        s@ == pad_right(word1@, 16) + seq![' '] + pad_right(word2@, w2_width as int) + seq![' ']
            + pad_right(dec_rep(proximity as int), 2) + seq![' '] + int_set_text(vals@)
            + seq!['\n'],
{
    proof {
        reveal_strlit(" ");
        reveal_strlit("\n");
    }
    let mut s = String::new();
    append_padded(&mut s, word1, 16);
    s.append(" ");
    append_padded(&mut s, word2, w2_width);
    s.append(" ");
    append_u64_padded(&mut s, proximity as u64, 2);
    s.append(" ");
    append_int_set(&mut s, vals);
    s.append("\n");
    proof {
        assert(s@ =~= pad_right(word1@, 16) + seq![' '] + pad_right(word2@, w2_width as int)
            + seq![' '] + pad_right(dec_rep(proximity as int), 2) + seq![' '] + int_set_text(vals@)
            + seq!['\n']);
    }
    s
}

/// Renders a word pair table at the given second-word column width.
fn snap_word_pair_table(entries: &Vec<(Vec<u8>, Vec<u8>)>, w2_width: usize) -> (r: Result<
    String,
    SnapError,
>)
    ensures
        ({
            let es = raw_entries(entries@);
            &&& r is Ok <==> word_pair_table_ok(es)
            &&& r is Ok ==> r.unwrap()@ == word_pair_table_text(es, w2_width as int)
            &&& r is Err ==> word_pair_table_fails(es, r.unwrap_err())
        }),
{
    let ghost es = raw_entries(entries@);
    let ghost kf = |k: Seq<u8>| word_pair_key_ok(k);
    let mut out = String::new();
    let n = entries.len();
    proof {
        assert(es.subrange(0, 0) =~= Seq::<(Seq<u8>, Seq<u8>)>::empty());
    }
    for i in 0..n
        invariant
            n == entries@.len(),
            es == raw_entries(entries@),
            kf == (|k: Seq<u8>| word_pair_key_ok(k)),
            out@ == word_pair_table_text(es.subrange(0, i as int), w2_width as int),
            forall|j: int| 0 <= j < i ==> #[trigger] entry_ok(es[j], kf),
    {
        let entry = &entries[i];
        let klen = entry.0.len();
        if klen < 3 {
            proof {
                assert(!entry_ok(es[i as int], kf));
                assert(word_pair_table_fails(es, SnapError::KeyDecode { index: i }));
            }
            return Err(SnapError::KeyDecode { index: i });
        }
        let l1 = read_be16(entry.0.as_slice(), 0) as usize;
        if 2 + l1 + 1 > klen {
            proof {
                assert(!entry_ok(es[i as int], kf));
                assert(word_pair_table_fails(es, SnapError::KeyDecode { index: i }));
            }
            return Err(SnapError::KeyDecode { index: i });
        }
        let word1 = match decode_str_range(entry.0.as_slice(), 2, 2 + l1) {
            Some(w) => w,
            None => {
                proof {
                    assert(!entry_ok(es[i as int], kf));
                    assert(word_pair_table_fails(es, SnapError::KeyDecode { index: i }));
                }
                return Err(SnapError::KeyDecode { index: i });
            },
        };
        let word2 = match decode_str_range(entry.0.as_slice(), 2 + l1, klen - 1) {
            Some(w) => w,
            None => {
                proof {
                    assert(!entry_ok(es[i as int], kf));
                    assert(word_pair_table_fails(es, SnapError::KeyDecode { index: i }));
                }
                return Err(SnapError::KeyDecode { index: i });
            },
        };
        let proximity = entry.0[klen - 1];
        let vals = match decode_int_set(entry.1.as_slice()) {
            Some(v) => v,
            None => {
                proof {
                    assert(!entry_ok(es[i as int], kf));
                    assert(word_pair_table_fails(es, SnapError::ValueDecode { index: i }));
                }
                return Err(SnapError::ValueDecode { index: i });
            },
        };
        let line = word_pair_line_string(word1.as_str(), word2.as_str(), proximity, &vals, w2_width);
        out.append(line.as_str());
        proof {
            let pre = es.subrange(0, i + 1);
            assert(pre.drop_last() =~= es.subrange(0, i as int));
            assert(pre.last() == es[i as int]);
            assert(es[i as int].0.last() == entry.0@[klen - 1]);
            assert(line@ == word_pair_line(es[i as int].0, es[i as int].1, w2_width as int));
            assert(out@ == word_pair_table_text(pre, w2_width as int));
            assert(entry_ok(es[i as int], kf));
        }
    }
    proof {
        assert(es.subrange(0, n as int) =~= es);
    }
    Ok(out)
}

/// Renders the word pair proximity table:
/// `<word1:16> <word2:16> <proximity:2> <document-id set>` per line.
pub fn snap_word_pair_proximity_docids(word_pair_proximity_docids: &Vec<(Vec<u8>, Vec<u8>)>) -> (r:
    Result<String, SnapError>)
    ensures
        ({
            let es = raw_entries(word_pair_proximity_docids@);
            &&& r is Ok <==> word_pair_table_ok(es)
            &&& r is Ok ==> r.unwrap()@ == word_pair_table_text(es, 16)
            &&& r is Err ==> word_pair_table_fails(es, r.unwrap_err())
        }),
{
    snap_word_pair_table(word_pair_proximity_docids, 16)
}

/// Renders the word-to-prefix proximity table:
/// `<word1:16> <prefix:4> <proximity:2> <document-id set>` per line.
pub fn snap_word_prefix_pair_proximity_docids(
    word_prefix_pair_proximity_docids: &Vec<(Vec<u8>, Vec<u8>)>,
) -> (r: Result<String, SnapError>)
    ensures
        ({
            let es = raw_entries(word_prefix_pair_proximity_docids@);
            &&& r is Ok <==> word_pair_table_ok(es)
            &&& r is Ok ==> r.unwrap()@ == word_pair_table_text(es, 4)
            &&& r is Err ==> word_pair_table_fails(es, r.unwrap_err())
        }),
{
    snap_word_pair_table(word_prefix_pair_proximity_docids, 4)
}

/// Renders the word table: `<word:16> <document-id set>` per line.
pub fn snap_word_docids(word_docids: &Vec<(Vec<u8>, Vec<u8>)>) -> (r: Result<String, SnapError>)
    ensures
        ({
            let es = raw_entries(word_docids@);
            &&& r is Ok <==> string_key_table_ok(es)
            &&& r is Ok ==> r.unwrap()@ == string_key_table_text(es, 16)
            &&& r is Err ==> string_key_table_fails(es, r.unwrap_err())
        }),
{
    snap_string_key_table(word_docids, 16)
}

/// Renders the exact-word table: `<word:16> <document-id set>` per line.
pub fn snap_exact_word_docids(exact_word_docids: &Vec<(Vec<u8>, Vec<u8>)>) -> (r: Result<
    String,
    SnapError,
>)
    ensures
        ({
            let es = raw_entries(exact_word_docids@);
            &&& r is Ok <==> string_key_table_ok(es)
            &&& r is Ok ==> r.unwrap()@ == string_key_table_text(es, 16)
            &&& r is Err ==> string_key_table_fails(es, r.unwrap_err())
        }),
{
    snap_string_key_table(exact_word_docids, 16)
}

/// Renders the word-prefix table: `<prefix:16> <document-id set>` per line.
pub fn snap_word_prefix_docids(word_prefix_docids: &Vec<(Vec<u8>, Vec<u8>)>) -> (r: Result<
    String,
    SnapError,
>)
    ensures
        ({
            let es = raw_entries(word_prefix_docids@);
            &&& r is Ok <==> string_key_table_ok(es)
            &&& r is Ok ==> r.unwrap()@ == string_key_table_text(es, 16)
            &&& r is Err ==> string_key_table_fails(es, r.unwrap_err())
        }),
{
    snap_string_key_table(word_prefix_docids, 16)
}

/// Renders the exact-word-prefix table: `<prefix:16> <document-id set>`.
pub fn snap_exact_word_prefix_docids(exact_word_prefix_docids: &Vec<(Vec<u8>, Vec<u8>)>) -> (r:
    Result<String, SnapError>)
    ensures
        ({
            let es = raw_entries(exact_word_prefix_docids@);
            &&& r is Ok <==> string_key_table_ok(es)
            &&& r is Ok ==> r.unwrap()@ == string_key_table_text(es, 16)
            &&& r is Err ==> string_key_table_fails(es, r.unwrap_err())
        }),
{
    snap_string_key_table(exact_word_prefix_docids, 16)
}


/// A key codec for a word followed by a position: the word as UTF-8,
/// then a trailing big-endian 32-bit position.
pub open spec fn word_position_key_ok(k: Seq<u8>) -> bool {
    k.len() >= 4 && valid_utf8(k.subrange(0, k.len() - 4))
}

/// One line of a word position table: the word at `word_width` columns,
/// the position at 6, then the set.
pub open spec fn word_position_line(k: Seq<u8>, v: Seq<u8>, word_width: int) -> Seq<char> {
    pad_right(decode_utf8(k.subrange(0, k.len() - 4)), word_width) + seq![' '] + pad_right(
        dec_rep(be32(k, k.len() - 4)),
        6,
    ) + seq![' '] + int_set_text(int_set_values(v)) + seq!['\n']
}

/// The text of a word position table at the given word width.
pub open spec fn word_position_table_text(es: Seq<(Seq<u8>, Seq<u8>)>, word_width: int) -> Seq<
    char,
> {
    table_text(es, |k: Seq<u8>, v: Seq<u8>| word_position_line(k, v, word_width))
}

/// Whether every entry of a word position table decodes.
pub open spec fn word_position_table_ok(es: Seq<(Seq<u8>, Seq<u8>)>) -> bool {
    table_ok(es, |k: Seq<u8>| word_position_key_ok(k))
}

/// Whether `e` reports the first failing entry of a word position table.
pub open spec fn word_position_table_fails(es: Seq<(Seq<u8>, Seq<u8>)>, e: SnapError) -> bool {
    fails_at(es, |k: Seq<u8>| word_position_key_ok(k), e)
}

/// Renders a word position table at the given word column width.
#[verifier::rlimit(100)]
fn snap_word_position_table(entries: &Vec<(Vec<u8>, Vec<u8>)>, word_width: usize) -> (r: Result<
    String,
    SnapError,
>)
    ensures
        ({
            let es = raw_entries(entries@);
            &&& r is Ok <==> word_position_table_ok(es)
            &&& r is Ok ==> r.unwrap()@ == word_position_table_text(es, word_width as int)
            &&& r is Err ==> word_position_table_fails(es, r.unwrap_err())
        }),
{
    let ghost es = raw_entries(entries@);
    let ghost kf = |k: Seq<u8>| word_position_key_ok(k);
    let mut out = String::new();
    let n = entries.len();
    proof {
        assert(es.subrange(0, 0) =~= Seq::<(Seq<u8>, Seq<u8>)>::empty());
    }
    for i in 0..n
        invariant
            n == entries@.len(),
            es == raw_entries(entries@),
            kf == (|k: Seq<u8>| word_position_key_ok(k)),
            out@ == word_position_table_text(es.subrange(0, i as int), word_width as int),
            forall|j: int| 0 <= j < i ==> #[trigger] entry_ok(es[j], kf),
    {
        let entry = &entries[i];
        let klen = entry.0.len();
        if klen < 4 {
            proof {
                assert(!entry_ok(es[i as int], kf));
                assert(word_position_table_fails(es, SnapError::KeyDecode { index: i }));
            }
            return Err(SnapError::KeyDecode { index: i });
        }
        let word = match decode_str_range(entry.0.as_slice(), 0, klen - 4) {
            Some(w) => w,
            None => {
                proof {
                    assert(!entry_ok(es[i as int], kf));
                    assert(word_position_table_fails(es, SnapError::KeyDecode { index: i }));
                }
                return Err(SnapError::KeyDecode { index: i });
            },
        };
        let position = read_be32(entry.0.as_slice(), klen - 4);
        let vals = match decode_int_set(entry.1.as_slice()) {
            Some(v) => v,
            None => {
                proof {
                    assert(!entry_ok(es[i as int], kf));
                    assert(word_position_table_fails(es, SnapError::ValueDecode { index: i }));
                }
                return Err(SnapError::ValueDecode { index: i });
            },
        };
        append_padded(&mut out, word.as_str(), word_width);
        out.append(" ");
        append_u64_padded(&mut out, position as u64, 6);
        out.append(" ");
        append_int_set(&mut out, &vals);
        out.append("\n");
        proof {
            reveal_strlit(" ");
            reveal_strlit("\n");
            let pre = es.subrange(0, i + 1);
            assert(pre.drop_last() =~= es.subrange(0, i as int));
            assert(pre.last() == es[i as int]);
            assert(out@ =~= word_position_table_text(pre, word_width as int));
            assert(entry_ok(es[i as int], kf));
        }
    }
    proof {
        assert(es.subrange(0, n as int) =~= es);
    }
    Ok(out)
}

/// Renders the word position table:
/// `<word:16> <position:6> <document-id set>` per line.
pub fn snap_word_position_docids(word_position_docids: &Vec<(Vec<u8>, Vec<u8>)>) -> (r: Result<
    String,
    SnapError,
>)
    ensures
        ({
            let es = raw_entries(word_position_docids@);
            &&& r is Ok <==> word_position_table_ok(es)
            &&& r is Ok ==> r.unwrap()@ == word_position_table_text(es, 16)
            &&& r is Err ==> word_position_table_fails(es, r.unwrap_err())
        }),
{
    snap_word_position_table(word_position_docids, 16)
}

/// Renders the word-prefix position table:
/// `<prefix:4> <position:6> <document-id set>` per line.
pub fn snap_word_prefix_position_docids(word_prefix_position_docids: &Vec<(Vec<u8>, Vec<u8>)>) -> (
    r: Result<String, SnapError>)
    ensures
        ({
            let es = raw_entries(word_prefix_position_docids@);
            &&& r is Ok <==> word_position_table_ok(es)
            &&& r is Ok ==> r.unwrap()@ == word_position_table_text(es, 4)
            &&& r is Err ==> word_position_table_fails(es, r.unwrap_err())
        }),
{
    snap_word_position_table(word_prefix_position_docids, 4)
}

/// A key codec for a field id and a word count: a big-endian 16-bit
/// field id then one count byte, exactly three bytes.
pub open spec fn field_id_word_count_key_ok(k: Seq<u8>) -> bool {
    k.len() == 3
}

/// One line of the field word-count table:
/// `<field id:3> <word count:6> <document-id set>`.
pub open spec fn field_id_word_count_line(k: Seq<u8>, v: Seq<u8>) -> Seq<char> {
    pad_right(dec_rep(be16(k, 0)), 3) + seq![' '] + pad_right(dec_rep(k[2] as int), 6) + seq![' ']
        + int_set_text(int_set_values(v)) + seq!['\n']
}

/// The text of the field word-count table.
pub open spec fn field_id_word_count_table_text(es: Seq<(Seq<u8>, Seq<u8>)>) -> Seq<char> {
    table_text(es, |k: Seq<u8>, v: Seq<u8>| field_id_word_count_line(k, v))
}

/// Whether every entry of the field word-count table decodes.
pub open spec fn field_id_word_count_table_ok(es: Seq<(Seq<u8>, Seq<u8>)>) -> bool {
    table_ok(es, |k: Seq<u8>| field_id_word_count_key_ok(k))
}

/// Whether `e` reports the first failing entry of that table.
pub open spec fn field_id_word_count_table_fails(
    es: Seq<(Seq<u8>, Seq<u8>)>,
    e: SnapError,
) -> bool {
    fails_at(es, |k: Seq<u8>| field_id_word_count_key_ok(k), e)
}

/// The field word-count rendering loop.
#[verifier::rlimit(100)]
fn snap_field_id_word_count_table(entries: &Vec<(Vec<u8>, Vec<u8>)>) -> (r: Result<
    String,
    SnapError,
>)
    ensures
        ({
            let es = raw_entries(entries@);
            &&& r is Ok <==> field_id_word_count_table_ok(es)
            &&& r is Ok ==> r.unwrap()@ == field_id_word_count_table_text(es)
            &&& r is Err ==> field_id_word_count_table_fails(es, r.unwrap_err())
        }),
{
    let ghost es = raw_entries(entries@);
    let ghost kf = |k: Seq<u8>| field_id_word_count_key_ok(k);
    let mut out = String::new();
    let n = entries.len();
    proof {
        assert(es.subrange(0, 0) =~= Seq::<(Seq<u8>, Seq<u8>)>::empty());
    }
    for i in 0..n
        invariant
            n == entries@.len(),
            es == raw_entries(entries@),
            kf == (|k: Seq<u8>| field_id_word_count_key_ok(k)),
            out@ == field_id_word_count_table_text(es.subrange(0, i as int)),
            forall|j: int| 0 <= j < i ==> #[trigger] entry_ok(es[j], kf),
    {
        let entry = &entries[i];
        if entry.0.len() != 3 {
            proof {
                assert(!entry_ok(es[i as int], kf));
                assert(field_id_word_count_table_fails(es, SnapError::KeyDecode { index: i }));
            }
            return Err(SnapError::KeyDecode { index: i });
        }
        let field_id = read_be16(entry.0.as_slice(), 0);
        let word_count = entry.0[2];
        let vals = match decode_int_set(entry.1.as_slice()) {
            Some(v) => v,
            None => {
                proof {
                    assert(!entry_ok(es[i as int], kf));
                    assert(field_id_word_count_table_fails(
                        es,
                        SnapError::ValueDecode { index: i },
                    ));
                }
                return Err(SnapError::ValueDecode { index: i });
            },
        };
        append_u64_padded(&mut out, field_id as u64, 3);
        out.append(" ");
        append_u64_padded(&mut out, word_count as u64, 6);
        out.append(" ");
        append_int_set(&mut out, &vals);
        out.append("\n");
        proof {
            reveal_strlit(" ");
            reveal_strlit("\n");
            let pre = es.subrange(0, i + 1);
            assert(pre.drop_last() =~= es.subrange(0, i as int));
            assert(pre.last() == es[i as int]);
            assert(out@ =~= field_id_word_count_table_text(pre));
            assert(entry_ok(es[i as int], kf));
        }
    }
    proof {
        assert(es.subrange(0, n as int) =~= es);
    }
    Ok(out)
}

/// Renders the field word-count table.
pub fn snap_field_id_word_count_docids(field_id_word_count_docids: &Vec<(Vec<u8>, Vec<u8>)>) -> (r:
    Result<String, SnapError>)
    ensures
        ({
            let es = raw_entries(field_id_word_count_docids@);
            &&& r is Ok <==> field_id_word_count_table_ok(es)
            &&& r is Ok ==> r.unwrap()@ == field_id_word_count_table_text(es)
            &&& r is Err ==> field_id_word_count_table_fails(es, r.unwrap_err())
        }),
{
    snap_field_id_word_count_table(field_id_word_count_docids)
}

/// The leveled facet range key codec: a big-endian 16-bit field id, one
/// level byte, then the two big-endian 32-bit range bounds; exactly
/// eleven bytes.
pub open spec fn facet_level_key_ok(k: Seq<u8>) -> bool {
    k.len() == 11
}

/// The fixed prefix of a leveled facet range line:
/// `<field id:3> <level:2> <low:6> <high:6> `.
pub open spec fn facet_level_prefix(k: Seq<u8>) -> Seq<char> {
    pad_right(dec_rep(be16(k, 0)), 3) + seq![' '] + pad_right(dec_rep(k[2] as int), 2) + seq![' ']
        + pad_right(dec_rep(be32(k, 3)), 6) + seq![' '] + pad_right(dec_rep(be32(k, 7)), 6)
        + seq![' ']
}

/// One line of the numeric facet range table.
pub open spec fn facet_level_line(k: Seq<u8>, v: Seq<u8>) -> Seq<char> {
    facet_level_prefix(k) + int_set_text(int_set_values(v)) + seq!['\n']
}

/// The text of the numeric facet range table.
pub open spec fn facet_level_table_text(es: Seq<(Seq<u8>, Seq<u8>)>) -> Seq<char> {
    table_text(es, |k: Seq<u8>, v: Seq<u8>| facet_level_line(k, v))
}

/// Whether every entry of the numeric facet range table decodes.
pub open spec fn facet_level_table_ok(es: Seq<(Seq<u8>, Seq<u8>)>) -> bool {
    table_ok(es, |k: Seq<u8>| facet_level_key_ok(k))
}

/// Whether `e` reports the first failing entry of that table.
pub open spec fn facet_level_table_fails(es: Seq<(Seq<u8>, Seq<u8>)>, e: SnapError) -> bool {
    fails_at(es, |k: Seq<u8>| facet_level_key_ok(k), e)
}

/// Appends the fixed prefix of a leveled facet range line.
pub(crate) fn append_facet_level_prefix(out: &mut String, key: &[u8])
    requires
        facet_level_key_ok(key@),
    ensures
        final(out)@ == old(out)@ + facet_level_prefix(key@),
{
    proof {
        reveal_strlit(" ");
    }
    let field_id = read_be16(key, 0);
    let level = key[2];
    let low = read_be32(key, 3);
    let high = read_be32(key, 7);
    append_u64_padded(out, field_id as u64, 3);
    out.append(" ");
    append_u64_padded(out, level as u64, 2);
    out.append(" ");
    append_u64_padded(out, low as u64, 6);
    out.append(" ");
    append_u64_padded(out, high as u64, 6);
    out.append(" ");
    proof {
        assert(out@ =~= old(out)@ + facet_level_prefix(key@));
    }
}

/// Builds one numeric facet range line from its decoded parts.
fn facet_level_line_string(key: &[u8], vals: &Vec<u32>) -> (s: String)
    requires
        facet_level_key_ok(key@),
    ensures
        s@ == facet_level_prefix(key@) + int_set_text(vals@) + seq!['\n'],
{
    proof {
        reveal_strlit("\n");
    }
    let mut s = String::new();
    append_facet_level_prefix(&mut s, key);
    append_int_set(&mut s, vals);
    s.append("\n");
    proof {
        assert(s@ =~= facet_level_prefix(key@) + int_set_text(vals@) + seq!['\n']);
    }
    s
}

/// The numeric facet range rendering loop.
#[verifier::rlimit(100)]
fn snap_facet_level_table(entries: &Vec<(Vec<u8>, Vec<u8>)>) -> (r: Result<String, SnapError>)
    ensures
        ({
            let es = raw_entries(entries@);
            &&& r is Ok <==> facet_level_table_ok(es)
            &&& r is Ok ==> r.unwrap()@ == facet_level_table_text(es)
            &&& r is Err ==> facet_level_table_fails(es, r.unwrap_err())
        }),
{
    let ghost es = raw_entries(entries@);
    let ghost kf = |k: Seq<u8>| facet_level_key_ok(k);
    let mut out = String::new();
    let n = entries.len();
    proof {
        assert(es.subrange(0, 0) =~= Seq::<(Seq<u8>, Seq<u8>)>::empty());
    }
    for i in 0..n
        invariant
            n == entries@.len(),
            es == raw_entries(entries@),
            kf == (|k: Seq<u8>| facet_level_key_ok(k)),
            out@ == facet_level_table_text(es.subrange(0, i as int)),
            forall|j: int| 0 <= j < i ==> #[trigger] entry_ok(es[j], kf),
    {
        let entry = &entries[i];
        if entry.0.len() != 11 {
            proof {
                assert(!entry_ok(es[i as int], kf));
                assert(facet_level_table_fails(es, SnapError::KeyDecode { index: i }));
            }
            return Err(SnapError::KeyDecode { index: i });
        }
        let vals = match decode_int_set(entry.1.as_slice()) {
            Some(v) => v,
            None => {
                proof {
                    assert(!entry_ok(es[i as int], kf));
                    assert(facet_level_table_fails(es, SnapError::ValueDecode { index: i }));
                }
                return Err(SnapError::ValueDecode { index: i });
            },
        };
        let line = facet_level_line_string(entry.0.as_slice(), &vals);
        out.append(line.as_str());
        proof {
            let pre = es.subrange(0, i + 1);
            assert(pre.drop_last() =~= es.subrange(0, i as int));
            assert(pre.last() == es[i as int]);
            assert(es[i as int].0 == entry.0@);
            assert(es[i as int].1 == entry.1@);
            assert(line@ == facet_level_line(es[i as int].0, es[i as int].1));
            assert(out@ == facet_level_table_text(pre));
            assert(entry_ok(es[i as int], kf));
        }
    }
    proof {
        assert(es.subrange(0, n as int) =~= es);
    }
    Ok(out)
}

/// Renders the numeric facet range table:
/// `<field id:3> <level:2> <low:6> <high:6> <document-id set>` per line.
pub fn snap_facet_id_f64_docids(facet_id_f64_docids: &Vec<(Vec<u8>, Vec<u8>)>) -> (r: Result<
    String,
    SnapError,
>)
    ensures
        ({
            let es = raw_entries(facet_id_f64_docids@);
            &&& r is Ok <==> facet_level_table_ok(es)
            &&& r is Ok ==> r.unwrap()@ == facet_level_table_text(es)
            &&& r is Err ==> facet_level_table_fails(es, r.unwrap_err())
        }),
{
    snap_facet_level_table(facet_id_f64_docids)
}

} // verus!
