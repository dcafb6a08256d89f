//! The heterogeneous facet table: one physical table holding two record
//! shapes with no explicit tag.  String-facet level-zero records and
//! numeric leveled-range records are told apart only by the key's byte
//! pattern, so the string shape is always tried first; preserving that
//! order is part of the format, since an ambiguous key would otherwise
//! render differently.
use vstd::prelude::*;

verus! {

use vstd::string::StringExecFns;
use vstd::utf8::{decode_utf8, valid_utf8};
use crate::SnapError;
use crate::codec::{be16, decode_str_range, read_be16, sub_bytes};
use crate::intset::{append_int_set, decode_int_set, int_set_text, int_set_values, valid_int_set};
use crate::tables::{append_facet_level_prefix, facet_level_key_ok, facet_level_prefix, raw_entries, table_text};
use crate::text::{append_padded, append_u64_padded, dec_rep, pad_right};

/// The string-facet level-zero key: a big-endian 16-bit field id, a zero
/// level byte, then the normalized string as UTF-8.
pub open spec fn facet_string_key_ok(k: Seq<u8>) -> bool {
    k.len() >= 3 && k[2] == 0 && valid_utf8(k.subrange(3, k.len() as int))
}

/// The string-facet level-zero value: a big-endian 16-bit length, the
/// original string as UTF-8, then the document-id set.
pub open spec fn facet_string_value_ok(v: Seq<u8>) -> bool {
    &&& v.len() >= 2
    &&& 2 + be16(v, 0) <= v.len()
    &&& valid_utf8(v.subrange(2, 2 + be16(v, 0)))
    &&& valid_int_set(v.subrange(2 + be16(v, 0), v.len() as int))
}

/// The leveled-range value: a tag byte saying whether string bounds are
/// present; with bounds, two length-prefixed UTF-8 strings precede the
/// document-id set, else the set follows the tag directly.  Absent
/// bounds are a valid record subtype, not an error.
pub open spec fn facet_bounds_value_ok(v: Seq<u8>) -> bool {
    &&& v.len() >= 1
    &&& (v[0] == 0 || v[0] == 1)
    &&& (v[0] == 0 ==> valid_int_set(v.subrange(1, v.len() as int)))
    &&& (v[0] == 1 ==> {
        let l1 = be16(v, 1);
        let off2 = 3 + l1;
        &&& v.len() >= 3
        &&& off2 + 2 <= v.len()
        &&& valid_utf8(v.subrange(3, off2))
        &&& off2 + 2 + be16(v, off2) <= v.len()
        &&& valid_utf8(v.subrange(off2 + 2, off2 + 2 + be16(v, off2)))
        &&& valid_int_set(v.subrange(off2 + 2 + be16(v, off2), v.len() as int))
    })
}

/// One string-facet line:
/// `<field id:3> <normalized:8> <original:8> <document-id set>`.
pub open spec fn facet_string_line(k: Seq<u8>, v: Seq<u8>) -> Seq<char> {
    pad_right(dec_rep(be16(k, 0)), 3) + seq![' '] + pad_right(
        decode_utf8(k.subrange(3, k.len() as int)),
        8,
    ) + seq![' '] + pad_right(decode_utf8(v.subrange(2, 2 + be16(v, 0))), 8) + seq![' ']
        + int_set_text(int_set_values(v.subrange(2 + be16(v, 0), v.len() as int))) + seq!['\n']
}

/// The value part of a leveled-range line: the optional
/// `<low bound:8> <high bound:8> ` pair, then the document-id set.
pub open spec fn facet_bounds_segment(v: Seq<u8>) -> Seq<char> {
    if v[0] == 1 {
        let l1 = be16(v, 1);
        let off2 = 3 + l1;
        pad_right(decode_utf8(v.subrange(3, off2)), 8) + seq![' '] + pad_right(
            decode_utf8(v.subrange(off2 + 2, off2 + 2 + be16(v, off2))),
            8,
        ) + seq![' '] + int_set_text(
            int_set_values(v.subrange(off2 + 2 + be16(v, off2), v.len() as int)),
        )
    } else {
        int_set_text(int_set_values(v.subrange(1, v.len() as int)))
    }
}

/// One leveled-range line:
/// `<field id:3> <level:2> <low:6> <high:6> [<bounds>] <document-id set>`.
pub open spec fn facet_bounds_line(k: Seq<u8>, v: Seq<u8>) -> Seq<char> {
    facet_level_prefix(k) + facet_bounds_segment(v) + seq!['\n']
}

/// The line of one facet entry: the string shape wherever its key codec
/// matches, else the leveled-range shape.
pub open spec fn facet_entry_line(k: Seq<u8>, v: Seq<u8>) -> Seq<char> {
    if facet_string_key_ok(k) {
        facet_string_line(k, v)
    } else {
        facet_bounds_line(k, v)
    }
}

/// Whether one facet entry decodes under the shape its key selects.
pub open spec fn facet_entry_ok(en: (Seq<u8>, Seq<u8>)) -> bool {
    if facet_string_key_ok(en.0) {
        facet_string_value_ok(en.1)
    } else if facet_level_key_ok(en.0) {
        facet_bounds_value_ok(en.1)
    } else {
        false
    }
}

/// Whether every entry of the facet table decodes.
pub open spec fn facet_table_ok(es: Seq<(Seq<u8>, Seq<u8>)>) -> bool {
    forall|i: int| 0 <= i < es.len() ==> #[trigger] facet_entry_ok(es[i])
}

/// The text of the facet table.
pub open spec fn facet_table_text(es: Seq<(Seq<u8>, Seq<u8>)>) -> Seq<char> {
    table_text(es, |k: Seq<u8>, v: Seq<u8>| facet_entry_line(k, v))
}

/// Whether `e` reports the first failing entry of the facet table.
pub open spec fn facet_table_fails(es: Seq<(Seq<u8>, Seq<u8>)>, e: SnapError) -> bool {
    match e {
        SnapError::KeyShape { index } => {
            &&& index < es.len()
            &&& !facet_string_key_ok(es[index as int].0)
            &&& !facet_level_key_ok(es[index as int].0)
            &&& forall|j: int| 0 <= j < index ==> #[trigger] facet_entry_ok(es[j])
        },
        SnapError::ValueDecode { index } => {
            &&& index < es.len()
            &&& facet_entry_ok(es[index as int]) == false
            &&& (facet_string_key_ok(es[index as int].0) || facet_level_key_ok(
                es[index as int].0,
            ))
            &&& forall|j: int| 0 <= j < index ==> #[trigger] facet_entry_ok(es[j])
        },
        SnapError::KeyDecode { .. } => false,
    }
}

/// Which shape a facet key selects: the decoded normalized string of a
/// string-facet key, or the leveled-range shape.
enum FacetKeyShape {
    Text(String),
    Range,
}

/// Decodes a facet key, trying the string shape strictly first.
fn decode_facet_key(k: &[u8]) -> (r: Option<FacetKeyShape>)
    ensures
        r is Some <==> (facet_string_key_ok(k@) || facet_level_key_ok(k@)),
        r is Some ==> ((r.unwrap() is Text) <==> facet_string_key_ok(k@)),
        forall|s: String|
            r == Some(FacetKeyShape::Text(s)) ==> s@ == decode_utf8(
                k@.subrange(3, k@.len() as int),
            ),
{
    if k.len() >= 3 && k[2] == 0 {
        if let Some(s) = decode_str_range(k, 3, k.len()) {
            return Some(FacetKeyShape::Text(s));
        }
    }
    if k.len() == 11 {
        return Some(FacetKeyShape::Range);
    }
    None
}

/// Decodes a string-facet level-zero value into the original string and
/// the document-id set.
fn decode_facet_string_value(v: &[u8]) -> (r: Option<(String, Vec<u32>)>)
    ensures
        r is Some <==> facet_string_value_ok(v@),
        r is Some ==> r.unwrap().0@ == decode_utf8(v@.subrange(2, 2 + be16(v@, 0))),
        r is Some ==> r.unwrap().1@ == int_set_values(
            v@.subrange(2 + be16(v@, 0), v@.len() as int),
        ),
{
    if v.len() < 2 {
        return None;
    }
    let l = read_be16(v, 0) as usize;
    if 2 + l > v.len() {
        return None;
    }
    let orig = match decode_str_range(v, 2, 2 + l) {
        Some(s) => s,
        None => {
            return None;
        },
    };
    let set_bytes = sub_bytes(v, 2 + l, v.len());
    let ids = match decode_int_set(set_bytes.as_slice()) {
        Some(x) => x,
        None => {
            return None;
        },
    };
    Some((orig, ids))
}

/// Decodes a leveled-range value into its optional string bounds and the
/// document-id set.
fn decode_facet_bounds_value(v: &[u8]) -> (r: Option<(Option<(String, String)>, Vec<u32>)>)
    ensures
        r is Some <==> facet_bounds_value_ok(v@),
        r is Some ==> ((r.unwrap().0 is Some) <==> v@[0] == 1),
        r is Some && v@[0] == 0 ==> r.unwrap().1@ == int_set_values(
            v@.subrange(1, v@.len() as int),
        ),
        r is Some && v@[0] == 1 ==> ({
            let l1 = be16(v@, 1);
            let off2 = 3 + l1;
            &&& r.unwrap().0.unwrap().0@ == decode_utf8(v@.subrange(3, off2))
            &&& r.unwrap().0.unwrap().1@ == decode_utf8(
                v@.subrange(off2 + 2, off2 + 2 + be16(v@, off2)),
            )
            &&& r.unwrap().1@ == int_set_values(
                v@.subrange(off2 + 2 + be16(v@, off2), v@.len() as int),
            )
        }),
{
    if v.len() < 1 {
        return None;
    }
    let tag = v[0];
    if tag == 0 {
        let set_bytes = sub_bytes(v, 1, v.len());
        let ids = match decode_int_set(set_bytes.as_slice()) {
            Some(x) => x,
            None => {
                return None;
            },
        };
        Some((None, ids))
    } else if tag == 1 {
        if v.len() < 3 {
            return None;
        }
        let l1 = read_be16(v, 1) as usize;
        let off2 = 3 + l1;
        if off2 + 2 > v.len() {
            return None;
        }
        let low = match decode_str_range(v, 3, off2) {
            Some(s) => s,
            None => {
                return None;
            },
        };
        let l2 = read_be16(v, off2) as usize;
        if off2 + 2 + l2 > v.len() {
            return None;
        }
        let high = match decode_str_range(v, off2 + 2, off2 + 2 + l2) {
            Some(s) => s,
            None => {
                return None;
            },
        };
        let set_bytes = sub_bytes(v, off2 + 2 + l2, v.len());
        let ids = match decode_int_set(set_bytes.as_slice()) {
            Some(x) => x,
            None => {
                return None;
            },
        };
        Some((Some((low, high)), ids))
    } else {
        None
    }
}

/// Renders the facet table, decoding each record with the string shape
/// first and the leveled-range shape second; a record matching neither
/// shape aborts the snapshot.
#[verifier::rlimit(100)]
pub fn snap_facet_id_string_docids(facet_id_string_docids: &Vec<(Vec<u8>, Vec<u8>)>) -> (r: Result<
    String,
    SnapError,
>)
    ensures
        ({
            let es = raw_entries(facet_id_string_docids@);
            &&& r is Ok <==> facet_table_ok(es)
            &&& r is Ok ==> r.unwrap()@ == facet_table_text(es)
            &&& r is Err ==> facet_table_fails(es, r.unwrap_err())
        }),
{
    snap_facet_table(facet_id_string_docids)
}

/// The facet table rendering loop.
#[verifier::rlimit(100)]
fn snap_facet_table(entries: &Vec<(Vec<u8>, Vec<u8>)>) -> (r: Result<String, SnapError>)
    ensures
        ({
            let es = raw_entries(entries@);
            &&& r is Ok <==> facet_table_ok(es)
            &&& r is Ok ==> r.unwrap()@ == facet_table_text(es)
            &&& r is Err ==> facet_table_fails(es, r.unwrap_err())
        }),
{
    let ghost es = raw_entries(entries@);
    let mut out = String::new();
    let n = entries.len();
    proof {
        assert(es.subrange(0, 0) =~= Seq::<(Seq<u8>, Seq<u8>)>::empty());
    }
    for i in 0..n
        invariant
            n == entries@.len(),
            es == raw_entries(entries@),
            out@ == facet_table_text(es.subrange(0, i as int)),
            forall|j: int| 0 <= j < i ==> #[trigger] facet_entry_ok(es[j]),
    {
        let entry = &entries[i];
        let shape = match decode_facet_key(entry.0.as_slice()) {
            Some(s) => s,
            None => {
                proof {
                    assert(!facet_entry_ok(es[i as int]));
                    assert(facet_table_fails(es, SnapError::KeyShape { index: i }));
                }
                return Err(SnapError::KeyShape { index: i });
            },
        };
        match shape {
            FacetKeyShape::Text(normalized) => {
                let (original, ids) = match decode_facet_string_value(entry.1.as_slice()) {
                    Some(p) => p,
                    None => {
                        proof {
                            assert(!facet_entry_ok(es[i as int]));
                            assert(facet_table_fails(es, SnapError::ValueDecode { index: i }));
                        }
                        return Err(SnapError::ValueDecode { index: i });
                    },
                };
                let field_id = read_be16(entry.0.as_slice(), 0);
                append_u64_padded(&mut out, field_id as u64, 3);
                out.append(" ");
                append_padded(&mut out, normalized.as_str(), 8);
                out.append(" ");
                append_padded(&mut out, original.as_str(), 8);
                out.append(" ");
                append_int_set(&mut out, &ids);
                out.append("\n");
            },
            FacetKeyShape::Range => {
                let (bounds, ids) = match decode_facet_bounds_value(entry.1.as_slice()) {
                    Some(p) => p,
                    None => {
                        proof {
                            assert(!facet_entry_ok(es[i as int]));
                            assert(facet_table_fails(es, SnapError::ValueDecode { index: i }));
                        }
                        return Err(SnapError::ValueDecode { index: i });
                    },
                };
                append_facet_level_prefix(&mut out, entry.0.as_slice());
                if let Some((low, high)) = bounds {
                    append_padded(&mut out, low.as_str(), 8);
                    out.append(" ");
                    append_padded(&mut out, high.as_str(), 8);
                    out.append(" ");
                }
                append_int_set(&mut out, &ids);
                out.append("\n");
            },
        }
        proof {
            reveal_strlit(" ");
            reveal_strlit("\n");
            let pre = es.subrange(0, i + 1);
            assert(pre.drop_last() =~= es.subrange(0, i as int));
            assert(pre.last() == es[i as int]);
            assert(facet_entry_ok(es[i as int]));
            assert(out@ =~= facet_table_text(pre));
        }
    }
    proof {
        assert(es.subrange(0, n as int) =~= es);
    }
    Ok(out)
}

} // verus!
