//! Trusted boundary to `tantivy_sstable`, the sorted dictionary engine
//! that builds the segment index.
//!
//! The dictionary builder writes into an in-memory `Vec<u8>`, so every
//! write it makes is infallible (std documents `Write` for `Vec<u8>` as
//! infallible, and `BufWriter` over it only fails where the sink fails).
//! Its `insert` panics on keys that do not strictly increase, and its
//! range codec panics on ranges that do not tile the space one after the
//! other; the `requires` below leave exactly those inputs out.

use vstd::prelude::*;

use tantivy_sstable::value::RangeValueWriter;
use tantivy_sstable::{Dictionary, RangeSSTable, Writer};

use crate::keys::lex_lt;

verus! {

/// The sorted dictionary builder the segment writer feeds: keys mapped to
/// byte ranges, buffered in memory until it is serialized. The field is
/// `tantivy_sstable`'s writer; this struct only carries it past the
/// verifier, which cannot take that type's `io::Write` bound.
#[verifier::external_body]
pub struct RangeDictBuilder {
    inner: Writer<Vec<u8>, RangeValueWriter>,
}

/// The `(key, (start, end))` pairs inserted into a dictionary builder so
/// far, in insertion order.
pub uninterp spec fn dict_entries(w: RangeDictBuilder) -> Seq<(Seq<u8>, (u64, u64))>;

/// The bytes `Writer::finish` serializes a dictionary with the given
/// entries to. The sstable format is deterministic: the output depends on
/// the inserted entries alone.
pub uninterp spec fn index_bytes_of(entries: Seq<(Seq<u8>, (u64, u64))>) -> Seq<u8>;

/// Relies on `Dictionary::<RangeSSTable>::builder`, which returns a fresh
/// dictionary builder and cannot fail (it only constructs the writer).
#[verifier::external_body]
pub(crate) fn dict_builder() -> (w: RangeDictBuilder)
    ensures
        dict_entries(w) == Seq::<(Seq<u8>, (u64, u64))>::empty(),
{
    let inner = Dictionary::<RangeSSTable>::builder(Vec::with_capacity(100_000)).unwrap();
    RangeDictBuilder { inner }
}

/// Relies on `Writer::insert`: appends one `(key, range)` entry to the
/// dictionary. With an in-memory sink the call cannot return an error,
/// and the `requires` rule out both of its panics: keys must strictly
/// increase, and each range must begin where the previous one ended.
#[verifier::external_body]
pub(crate) fn dict_insert(w: &mut RangeDictBuilder, key: &[u8], start: u64, end: u64)
    requires
        dict_entries(*old(w)).len() < u64::MAX,
        start <= end,
        dict_entries(*old(w)).len() > 0 ==> lex_lt(dict_entries(*old(w)).last().0, key@),
        dict_entries(*old(w)).len() > 0 ==> dict_entries(*old(w)).last().1.1 == start,
    ensures
        dict_entries(*final(w)) == dict_entries(*old(w)).push((key@, (start, end))),
{
    w.inner.insert(key, &(start..end)).unwrap();
}

/// Relies on `Writer::finish`: serializes the dictionary and returns the
/// bytes. With an in-memory sink every write along the way is infallible,
/// so the call returns `Ok`.
#[verifier::external_body]
pub(crate) fn dict_finish(w: RangeDictBuilder) -> (r: Result<Vec<u8>, std::io::Error>)
    ensures
        r is Ok,
        r matches Ok(bytes) ==> bytes@ == index_bytes_of(dict_entries(w)),
{
    w.inner.finish()
}

} // verus!
