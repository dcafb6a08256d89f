//! Renderings of the store's document-id sets and of its compact
//! sorted-string-set structures.  The id sets are roaring bitmaps and stay
//! in their own compressed form; the string sets are automata whose raw
//! bytes are dumped as lowercase hexadecimal.
use vstd::prelude::*;

verus! {

use vstd::string::StringExecFns;
use crate::intset::{append_int_set, int_set_text};
use crate::text::{append_hex_dump, append_u64_padded, dec_rep, hex_dump, pad_right};

#[verifier::external_type_specification]
#[verifier::external_body]
pub struct ExRoaringBitmap(roaring::RoaringBitmap);

/// The members of a compressed document-id set, in ascending order.
pub uninterp spec fn bitmap_contents(b: roaring::RoaringBitmap) -> Seq<u32>;

/// Relies on `RoaringBitmap::iter`: it yields each stored value exactly
/// once, ordered by value.
#[verifier::external_body]
fn bitmap_to_vec(b: &roaring::RoaringBitmap) -> (r: Vec<u32>)
    ensures
        r@ == bitmap_contents(*b),
        forall|i: int, j: int| 0 <= i < j < r@.len() ==> r@[i] < r@[j],
{
    b.iter().collect()
}

/// Renders a document-id set in its canonical bracketed form.
pub fn display_bitmap(b: &roaring::RoaringBitmap) -> (s: String)
    ensures
        s@ == int_set_text(bitmap_contents(*b)),
{
    let v = bitmap_to_vec(b);
    let mut s = String::new();
    append_int_set(&mut s, &v);
    s
}

/// Renders the set of live document ids.
pub fn snap_documents_ids(documents_ids: &roaring::RoaringBitmap) -> (s: String)
    ensures
        s@ == int_set_text(bitmap_contents(*documents_ids)),
{
    display_bitmap(documents_ids)
}

/// Renders the set of soft-deleted document ids.
pub fn snap_soft_deleted_documents_ids(soft_deleted_documents_ids: &roaring::RoaringBitmap) -> (s:
    String)
    ensures
        s@ == int_set_text(bitmap_contents(*soft_deleted_documents_ids)),
{
    display_bitmap(soft_deleted_documents_ids)
}

/// Renders the set of geo-faceted document ids.
pub fn snap_geo_faceted_documents_ids(geo_faceted_documents_ids: &roaring::RoaringBitmap) -> (s:
    String)
    ensures
        s@ == int_set_text(bitmap_contents(*geo_faceted_documents_ids)),
{
    display_bitmap(geo_faceted_documents_ids)
}

/// Renders the full word set automaton as a hexadecimal byte dump.
pub fn snap_words_fst(words_fst: &Vec<u8>) -> (s: String)
    ensures
        s@ == hex_dump(words_fst@),
{
    let mut s = String::new();
    append_hex_dump(&mut s, words_fst.as_slice());
    s
}

/// Renders the prefix word set automaton as a hexadecimal byte dump.
pub fn snap_words_prefixes_fst(words_prefixes_fst: &Vec<u8>) -> (s: String)
    ensures
        s@ == hex_dump(words_prefixes_fst@),
{
    let mut s = String::new();
    append_hex_dump(&mut s, words_prefixes_fst.as_slice());
    s
}

/// The two-line rendering of the external document-id maps: the soft and
/// hard automaton byte dumps, each on a labelled line.
pub open spec fn external_documents_ids_text(soft: Seq<u8>, hard: Seq<u8>) -> Seq<char> {
    seq!['s', 'o', 'f', 't', ':', ' '] + hex_dump(soft) + seq!['\n'] + seq![
        'h',
        'a',
        'r',
        'd',
        ':',
        ' ',
    ] + hex_dump(hard) + seq!['\n']
}

/// Renders the soft and hard external document-id automata.
pub fn snap_external_documents_ids(soft: &Vec<u8>, hard: &Vec<u8>) -> (s: String)
    ensures
        s@ == external_documents_ids_text(soft@, hard@),
{
    proof {
        reveal_strlit("soft: ");
        reveal_strlit("hard: ");
        reveal_strlit("\n");
    }
    let mut s = String::new();
    s.append("soft: ");
    append_hex_dump(&mut s, soft.as_slice());
    s.append("\n");
    s.append("hard: ");
    append_hex_dump(&mut s, hard.as_slice());
    s.append("\n");
    proof {
        assert(s@ =~= external_documents_ids_text(soft@, hard@));
    }
    s
}

/// One line of a per-field document-id listing: the field id padded to
/// three columns, a space, then the set.
pub open spec fn faceted_ids_line(field_id: u16, ids: roaring::RoaringBitmap) -> Seq<char> {
    pad_right(dec_rep(field_id as int), 3) + seq![' '] + int_set_text(bitmap_contents(ids))
        + seq!['\n']
}

/// The per-field document-id listing, one line per field in given order.
pub open spec fn faceted_ids_text(rows: Seq<(u16, roaring::RoaringBitmap)>) -> Seq<char>
    decreases rows.len(),
{
    if rows.len() == 0 {
        Seq::empty()
    } else {
        faceted_ids_text(rows.drop_last()) + faceted_ids_line(rows.last().0, rows.last().1)
    }
}

/// Appends one listing line per `(field id, document-id set)` row.
fn append_faceted_rows(out: &mut String, rows: &Vec<(u16, roaring::RoaringBitmap)>)
    ensures
        final(out)@ == old(out)@ + faceted_ids_text(rows@),
{
    let n = rows.len();
    for i in 0..n
        invariant
            n == rows@.len(),
            out@ == old(out)@ + faceted_ids_text(rows@.subrange(0, i as int)),
    {
        let row = &rows[i];
        append_u64_padded(out, row.0 as u64, 3);
        out.append(" ");
        let ids = bitmap_to_vec(&row.1);
        append_int_set(out, &ids);
        out.append("\n");
        proof {
            reveal_strlit(" ");
            reveal_strlit("\n");
            let pre = rows@.subrange(0, i + 1);
            assert(pre.drop_last() =~= rows@.subrange(0, i as int));
            assert(pre.last() == rows@[i as int]);
            assert(out@ =~= old(out)@ + faceted_ids_text(pre));
        }
    }
    proof {
        assert(rows@.subrange(0, n as int) =~= rows@);
    }
}

/// Renders the number-faceted document ids, one line per field.
pub fn snap_number_faceted_documents_ids(
    number_faceted_documents_ids: &Vec<(u16, roaring::RoaringBitmap)>,
) -> (s: String)
    ensures
        s@ == faceted_ids_text(number_faceted_documents_ids@),
{
    let mut s = String::new();
    append_faceted_rows(&mut s, number_faceted_documents_ids);
    s
}

/// Renders the string-faceted document ids, one line per field.
pub fn snap_string_faceted_documents_ids(
    string_faceted_documents_ids: &Vec<(u16, roaring::RoaringBitmap)>,
) -> (s: String)
    ensures
        s@ == faceted_ids_text(string_faceted_documents_ids@),
{
    let mut s = String::new();
    append_faceted_rows(&mut s, string_faceted_documents_ids);
    s
}

} // verus!
