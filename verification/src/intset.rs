//! The compressed integer set: an ordered set of document identifiers in a
//! compact binary form (a big-endian element count followed by the elements,
//! strictly ascending, each a big-endian 32-bit integer), and its canonical
//! bracketed rendering.
use vstd::prelude::*;

verus! {

use vstd::string::StringExecFns;
use crate::codec::{be32, read_be32};
use crate::text::{dec_rep, u64_to_dec};

/// The element count claimed by the set's header.
pub open spec fn int_set_count(bytes: Seq<u8>) -> int {
    be32(bytes, 0)
}

/// The `i`-th element stored in the set.
pub open spec fn int_set_value(bytes: Seq<u8>, i: int) -> int {
    be32(bytes, 4 + 4 * i)
}

/// Whether `bytes` is a well-formed compressed integer set: the length
/// matches the header count and the elements are strictly ascending.
pub open spec fn valid_int_set(bytes: Seq<u8>) -> bool {
    &&& bytes.len() >= 4
    &&& bytes.len() == 4 + 4 * int_set_count(bytes)
    &&& forall|i: int|
        0 <= i && i + 1 < int_set_count(bytes) ==> #[trigger] int_set_value(bytes, i)
            < int_set_value(bytes, i + 1)
}

/// The elements of a well-formed set, in stored (ascending) order.
pub open spec fn int_set_values(bytes: Seq<u8>) -> Seq<u32> {
    Seq::new(
        if int_set_count(bytes) < 0 {
            0
        } else {
            int_set_count(bytes) as nat
        },
        |i: int| int_set_value(bytes, i) as u32,
    )
}

/// Decodes a compressed integer set, checking shape and element order.
pub fn decode_int_set(bytes: &[u8]) -> (r: Option<Vec<u32>>)
    ensures
        r is Some <==> valid_int_set(bytes@),
        r is Some ==> r.unwrap()@ == int_set_values(bytes@),
{
    if bytes.len() < 4 {
        return None;
    }
    let count = read_be32(bytes, 0);
    let need: u64 = 4 + 4 * (count as u64);
    if bytes.len() as u64 != need {
        return None;
    }
    let count = count as usize;
    let blen = bytes.len();
    let mut vals: Vec<u32> = Vec::new();
    for i in 0..count
        invariant
            count == int_set_count(bytes@),
            blen == bytes@.len(),
            bytes@.len() == 4 + 4 * count,
            vals@.len() == i,
            forall|j: int| 0 <= j < i ==> vals@[j] == int_set_value(bytes@, j) as u32,
            forall|j: int|
                0 <= j && j + 1 < i ==> #[trigger] int_set_value(bytes@, j) < int_set_value(
                    bytes@,
                    j + 1,
                ),
    {
        let v = read_be32(bytes, 4 + 4 * i);
        if i > 0 {
            let prev = vals[i - 1];
            if prev >= v {
                proof {
                    assert(int_set_value(bytes@, i - 1) >= int_set_value(bytes@, i as int));
                    assert(!valid_int_set(bytes@));
                }
                return None;
            }
        }
        vals.push(v);
    }
    proof {
        assert(vals@ =~= int_set_values(bytes@));
    }
    Some(vals)
}

/// The members of the set, each followed by a comma and a space.
pub open spec fn int_set_items_text(v: Seq<u32>) -> Seq<char>
    decreases v.len(),
{
    if v.len() == 0 {
        Seq::empty()
    } else {
        int_set_items_text(v.drop_last()) + dec_rep(v.last() as int) + seq![',', ' ']
    }
}

/// The canonical bracketed rendering of an integer set: `[` then every
/// member as `<value>, ` (the trailing comma and space are part of the
/// form), then `]`; the empty set renders as `[]`.
pub open spec fn int_set_text(v: Seq<u32>) -> Seq<char> {
    seq!['['] + int_set_items_text(v) + seq![']']
}

/// Appends the canonical rendering of the members of `v`, in stored order.
pub fn append_int_set(out: &mut String, v: &Vec<u32>)
    ensures
        final(out)@ == old(out)@ + int_set_text(v@),
{
    proof {
        reveal_strlit("[");
        reveal_strlit("]");
    }
    out.append("[");
    proof {
        assert(v@.subrange(0, 0) =~= Seq::<u32>::empty());
        assert(out@ =~= old(out)@ + seq!['['] + int_set_items_text(v@.subrange(0, 0)));
    }
    let n = v.len();
    for i in 0..n
        invariant
            n == v@.len(),
            out@ == old(out)@ + seq!['['] + int_set_items_text(v@.subrange(0, i as int)),
    {
        let s = u64_to_dec(v[i] as u64);
        out.append(s.as_str());
        out.append(", ");
        proof {
            reveal_strlit(", ");
            let pre = v@.subrange(0, i + 1);
            assert(pre.drop_last() =~= v@.subrange(0, i as int));
            assert(pre.last() == v@[i as int]);
            assert(out@ =~= old(out)@ + seq!['['] + int_set_items_text(pre));
        }
    }
    out.append("]");
    proof {
        assert(v@.subrange(0, n as int) =~= v@);
        assert(out@ =~= old(out)@ + int_set_text(v@));
    }
}

} // verus!
