//! The snapshot reducer: decides, from a snapshot's size and the test
//! configuration, whether the full text is stored verbatim or shrunk to a
//! content hash, and parses the override flag that keeps the full text
//! alongside the hash.
use vstd::prelude::*;

verus! {

use vstd::string::{StrSliceExecFns, StringExecFns, StringSliceAdditionalSpecFns};
use crate::text::eq_str;

/// The byte-length cutoff for snapshots compared inline in test source.
pub const INLINE_SNAPSHOT_MAX_LEN: usize = 256;

/// The byte-length cutoff for snapshots compared against fixture files.
pub const FILE_SNAPSHOT_MAX_LEN: usize = 2048;

/// The content digest of a snapshot text: the 128-bit hash of its bytes,
/// as 32 lowercase hexadecimal characters.
pub uninterp spec fn md5_hex(text: Seq<char>) -> Seq<char>;

/// Relies on `md5::compute` and `Digest`'s `LowerHex` form: a fixed,
/// platform-independent 128-bit digest of the text's bytes, printed as 32
/// lowercase hexadecimal digits; it depends on the text alone.
#[verifier::external_body]
fn md5_hex_digest(text: &str) -> (r: String)
    ensures
        r@ == md5_hex(text@),
        r@.len() == 32,
{
    format!("{:x}", md5::compute(text.as_bytes()))
}

/// The cutoff that applies to a snapshot: inline comparisons use the
/// short cutoff, fixture-file comparisons the long one.
pub open spec fn snapshot_threshold(inline: bool) -> int {
    if inline {
        256
    } else {
        2048
    }
}

/// The name suffix of a full-text record kept beside a hash.
pub open spec fn full_suffix() -> Seq<char> {
    seq!['.', 'f', 'u', 'l', 'l']
}

/// The name suffix of a hash-reduced record.
pub open spec fn hash_suffix() -> Seq<char> {
    seq!['.', 'h', 'a', 's', 'h']
}

/// The records the reducer emits for one snapshot, in order: below the
/// cutoff, the full text under its own name; at or above it, the digest
/// under `<name>.hash`, preceded by the full text under `<name>.full`
/// exactly when the override is enabled.
pub open spec fn reduced_records(
    name: Seq<char>,
    text: Seq<char>,
    byte_len: usize,
    inline: bool,
    store_whole: bool,
) -> Seq<(Seq<char>, Seq<char>)> {
    if byte_len < snapshot_threshold(inline) {
        seq![(name, text)]
    } else if store_whole {
        seq![(name + full_suffix(), text), (name + hash_suffix(), md5_hex(text))]
    } else {
        seq![(name + hash_suffix(), md5_hex(text))]
    }
}

/// The character view of a list of named records.
pub open spec fn records_view(v: Seq<(String, String)>) -> Seq<(Seq<char>, Seq<char>)> {
    Seq::new(v.len(), |i: int| (v[i].0@, v[i].1@))
}

/// Reduces one snapshot to the records handed to the fixture comparator:
/// `(name, full text)` below the applicable cutoff, else the content hash
/// under `<name>.hash`, with the full text kept under `<name>.full` if and
/// only if the override is enabled.
pub fn convert_snap_to_hash_if_needed(
    name: &str,
    snap: &str,
    inline: bool,
    store_whole_snapshot: bool,
) -> (r: Vec<(String, String)>)
    ensures
        records_view(r@) == reduced_records(
            name@,
            snap@,
            snap.spec_bytes().len() as usize,
            inline,
            store_whole_snapshot,
        ),
{
    let max_len: usize = if inline {
        INLINE_SNAPSHOT_MAX_LEN
    } else {
        FILE_SNAPSHOT_MAX_LEN
    };
    let mut r: Vec<(String, String)> = Vec::new();
    if snap.len() < max_len {
        r.push((name.to_owned(), snap.to_owned()));
    } else {
        if store_whole_snapshot {
            let mut full_name = name.to_owned();
            full_name.append(".full");
            r.push((full_name, snap.to_owned()));
        }
        let mut hash_name = name.to_owned();
        hash_name.append(".hash");
        let digest = md5_hex_digest(snap);
        r.push((hash_name, digest));
    }
    proof {
        reveal_strlit(".full");
        reveal_strlit(".hash");
        assert(".full"@ =~= full_suffix());
        assert(".hash"@ =~= hash_suffix());
        assert(records_view(r@) =~~= reduced_records(
            name@,
            snap@,
            snap.spec_bytes().len() as usize,
            inline,
            store_whole_snapshot,
        ));
    }
    r
}

/// Parses the full-snapshot override flag: exactly `true` or `false`; any
/// other value is a fatal configuration error, never a silent default.
pub fn parse_bool_flag(value: &str) -> (r: Option<bool>)
    ensures
        r == Some(true) <==> value@ == seq!['t', 'r', 'u', 'e'],
        r == Some(false) <==> value@ == seq!['f', 'a', 'l', 's', 'e'],
        r is None <==> (value@ != seq!['t', 'r', 'u', 'e'] && value@ != seq![
            'f',
            'a',
            'l',
            's',
            'e',
        ]),
{
    proof {
        reveal_strlit("true");
        reveal_strlit("false");
        assert("true"@ =~= seq!['t', 'r', 'u', 'e']);
        assert("false"@ =~= seq!['f', 'a', 'l', 's', 'e']);
    }
    if eq_str(value, "true") {
        Some(true)
    } else if eq_str(value, "false") {
        Some(false)
    } else {
        None
    }
}

/// A text strictly below the applicable cutoff — one byte less is
/// enough — is stored whole, as the only record, whatever the override
/// says.
pub proof fn lemma_below_threshold_stays_whole(
    name: Seq<char>,
    text: Seq<char>,
    byte_len: usize,
    inline: bool,
    store_whole: bool,
)
    requires
        byte_len < snapshot_threshold(inline),
    ensures
        reduced_records(name, text, byte_len, inline, store_whole) == seq![(name, text)],
{
}

/// A text at or above the cutoff always ends in the hash record; with
/// the override enabled the full text stands before it, under its
/// `.full` name, and both values match the source text and its digest.
pub proof fn lemma_at_threshold_reduces_to_hash(
    name: Seq<char>,
    text: Seq<char>,
    byte_len: usize,
    inline: bool,
    store_whole: bool,
)
    requires
        byte_len >= snapshot_threshold(inline),
    ensures
        reduced_records(name, text, byte_len, inline, store_whole).last() == (
            name + hash_suffix(),
            md5_hex(text),
        ),
        store_whole ==> reduced_records(name, text, byte_len, inline, store_whole) == seq![
            (name + full_suffix(), text),
            (name + hash_suffix(), md5_hex(text)),
        ],
        !store_whole ==> reduced_records(name, text, byte_len, inline, store_whole) == seq![
            (name + hash_suffix(), md5_hex(text)),
        ],
{
}

/// Hashing one text twice yields one digest: the content hash is a pure
/// function of the snapshot text.
pub proof fn lemma_hash_stable(a: Seq<char>, b: Seq<char>)
    requires
        a == b,
    ensures
        md5_hex(a) == md5_hex(b),
{
}

} // verus!
