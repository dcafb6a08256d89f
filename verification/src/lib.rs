//! Deterministic snapshot rendering for the tables and settings of an
//! embedded key-value search store.
//!
//! Every table is a sorted binary relation; each table's codec decodes raw
//! key and value bytes into structured records, and each renderer turns the
//! records into one fixed-column text line per entry.  A reducer then decides
//! whether the assembled text is stored verbatim or shrunk to a content hash.
//! The store itself (transactions, iteration, fixture files) lives outside
//! this crate: callers hand in the raw entries and take the text back.
use vstd::prelude::*;

pub mod codec;
pub mod facet;
pub mod fields;
pub mod identity;
pub mod intset;
pub mod reduce;
pub mod sets;
pub mod settings;
pub mod tables;
pub mod text;

verus! {

/// Why a snapshot computation was aborted: the record at `index` (in table
/// iteration order) did not decode.  A failed decode is fatal by design:
/// rendering a placeholder would corrupt the fixture it feeds.
#[derive(Clone, Copy, PartialEq, Eq, Debug)]
pub enum SnapError {
    /// The entry's key bytes did not match the table's key codec.
    KeyDecode { index: usize },
    /// The entry's value bytes did not match the table's value codec.
    ValueDecode { index: usize },
    /// Neither key shape of a dual-shape table matched the entry's key.
    KeyShape { index: usize },
}

/// Rendering one table twice over one store state yields byte-identical
/// text: every table text is a pure function of the raw entries handed
/// in, so two renderings of equal entries agree, in this process or any
/// other.
pub proof fn lemma_snapshot_deterministic(
    e1: Seq<(Seq<u8>, Seq<u8>)>,
    e2: Seq<(Seq<u8>, Seq<u8>)>,
    width: int,
)
    requires
        e1 == e2,
    ensures
        tables::string_key_table_text(e1, width) == tables::string_key_table_text(e2, width),
        tables::docid_word_table_text(e1) == tables::docid_word_table_text(e2),
        tables::word_pair_table_text(e1, width) == tables::word_pair_table_text(e2, width),
        tables::word_position_table_text(e1, width) == tables::word_position_table_text(e2, width),
        tables::field_id_word_count_table_text(e1) == tables::field_id_word_count_table_text(e2),
        tables::facet_level_table_text(e1) == tables::facet_level_table_text(e2),
        facet::facet_table_text(e1) == facet::facet_table_text(e2),
{
}

} // verus!
