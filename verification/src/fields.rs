//! Renderings of the store's field metadata: the per-field document
//! count distribution and the field-name-to-id map.
use vstd::prelude::*;

verus! {

use vstd::string::StringExecFns;
use crate::text::{append_padded, append_u64_padded, dec_rep, pad_right};

/// One field distribution line: `<field:16> <count:6>`.
pub open spec fn field_distribution_line(field: String, count: u64) -> Seq<char> {
    pad_right(field@, 16) + seq![' '] + pad_right(dec_rep(count as int), 6) + seq!['\n']
}

/// The field distribution text, one line per field in given order.
pub open spec fn field_distribution_text(rows: Seq<(String, u64)>) -> Seq<char>
    decreases rows.len(),
{
    if rows.len() == 0 {
        Seq::empty()
    } else {
        field_distribution_text(rows.drop_last()) + field_distribution_line(
            rows.last().0,
            rows.last().1,
        )
    }
}

/// Renders the field distribution: `<field:16> <count:6>` per line.
pub fn snap_field_distributions(field_distribution: &Vec<(String, u64)>) -> (s: String)
    ensures
        s@ == field_distribution_text(field_distribution@),
{
    let rows = field_distribution;
    let mut out = String::new();
    let n = rows.len();
    proof {
        assert(rows@.subrange(0, 0) =~= Seq::<(String, u64)>::empty());
    }
    for i in 0..n
        invariant
            n == rows@.len(),
            out@ == field_distribution_text(rows@.subrange(0, i as int)),
    {
        let row = &rows[i];
        append_padded(&mut out, row.0.as_str(), 16);
        out.append(" ");
        append_u64_padded(&mut out, row.1, 6);
        out.append("\n");
        proof {
            reveal_strlit(" ");
            reveal_strlit("\n");
            let pre = rows@.subrange(0, i + 1);
            assert(pre.drop_last() =~= rows@.subrange(0, i as int));
            assert(pre.last() == rows@[i as int]);
            assert(out@ =~= field_distribution_text(pre));
        }
    }
    proof {
        assert(rows@.subrange(0, n as int) =~= rows@);
    }
    out
}

/// One field-id map line: `<id:3> <name:16>`.
pub open spec fn fields_ids_map_line(id: u16, name: String) -> Seq<char> {
    pad_right(dec_rep(id as int), 3) + seq![' '] + pad_right(name@, 16) + seq!['\n']
}

/// The field-id map text, one line per field in given order.
pub open spec fn fields_ids_map_text(rows: Seq<(u16, String)>) -> Seq<char>
    decreases rows.len(),
{
    if rows.len() == 0 {
        Seq::empty()
    } else {
        fields_ids_map_text(rows.drop_last()) + fields_ids_map_line(rows.last().0, rows.last().1)
    }
}

/// Renders the field-name-to-id map: `<id:3> <name:16>` per line.
pub fn snap_fields_ids_map(fields_ids_map: &Vec<(u16, String)>) -> (s: String)
    ensures
        s@ == fields_ids_map_text(fields_ids_map@),
{
    let rows = fields_ids_map;
    let mut out = String::new();
    let n = rows.len();
    proof {
        assert(rows@.subrange(0, 0) =~= Seq::<(u16, String)>::empty());
    }
    for i in 0..n
        invariant
            n == rows@.len(),
            out@ == fields_ids_map_text(rows@.subrange(0, i as int)),
    {
        let row = &rows[i];
        append_u64_padded(&mut out, row.0 as u64, 3);
        out.append(" ");
        append_padded(&mut out, row.1.as_str(), 16);
        out.append("\n");
        proof {
            reveal_strlit(" ");
            reveal_strlit("\n");
            let pre = rows@.subrange(0, i + 1);
            assert(pre.drop_last() =~= rows@.subrange(0, i as int));
            assert(pre.last() == rows@[i as int]);
            assert(out@ =~= fields_ids_map_text(pre));
        }
    }
    proof {
        assert(rows@.subrange(0, n as int) =~= rows@);
    }
    out
}

} // verus!
