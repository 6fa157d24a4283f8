//! The segment writer and the per-column span recorder.
//!
//! A `ColumnarSerializer` owns the output stream and the sorted index
//! builder. For each column, `serialize_column` hands out a
//! `ColumnSerializer` that forwards payload bytes to the stream and, when
//! ended, registers the column's byte range under its encoded key —
//! exactly once, because ending consumes the recorder. `finalize` appends
//! the serialized index and the 8-byte little-endian length trailer.

use vstd::bytes::*;
use vstd::prelude::*;

use tantivy_common::CountingWriter;

use crate::column_type::ColumnTypeAndCardinality;
use crate::dict::{
    RangeDictBuilder, dict_builder, dict_entries, dict_finish, dict_insert, index_bytes_of,
};
use crate::keys::{column_key, lex_lt, prepare_key};
use crate::stream::{
    counting_finish, counting_flush, counting_log, counting_prior, counting_wrap, counting_write,
    counting_write_all, counting_written_bytes,
};

verus! {

/// Well-formed index entries: each byte range runs forward, keys strictly
/// increase in lexicographic order, and the ranges tile the payload from
/// offset zero with no gap and no overlap between consecutive columns.
pub open spec fn entries_wf(entries: Seq<(Seq<u8>, (u64, u64))>) -> bool {
    &&& forall|i: int| 0 <= i < entries.len() ==> (#[trigger] entries[i]).1.0 <= entries[i].1.1
    &&& forall|i: int| 0 < i < entries.len() ==> lex_lt(entries[i - 1].0, (#[trigger] entries[i]).0)
    &&& forall|i: int| 0 < i < entries.len() ==> (#[trigger] entries[i]).1.0 == entries[i - 1].1.1
    &&& entries.len() > 0 ==> entries[0].1.0 == 0
}

/// Writes a columnar segment: column payloads forwarded to the stream,
/// then a sorted index mapping each column key to its byte range, then a
/// trailer giving the index's length.
pub struct ColumnarSerializer {
    wrt: CountingWriter<Vec<u8>>,
    sstable_range: RangeDictBuilder,
    prepare_key_buffer: Vec<u8>,
}

/// Records one column's span: forwards payload bytes to the segment's
/// stream and, on `end`, registers `(key, start..end)` in the index.
/// It holds the segment writer for its whole life, so no second column
/// can begin and the writer cannot finalize until this one is ended.
pub struct ColumnSerializer {
    columnar_serializer: ColumnarSerializer,
    start_offset: u64,
}

impl ColumnarSerializer {
    /// The bytes written through this serializer: the column payloads.
    pub closed spec fn written(self) -> Seq<u8> {
        counting_log(self.wrt)
    }

    /// The bytes the output buffer held before this serializer was made.
    pub closed spec fn prior(self) -> Seq<u8> {
        counting_prior(self.wrt)
    }

    /// The `(key, (start, end))` pairs registered so far, in order.
    pub closed spec fn entries(self) -> Seq<(Seq<u8>, (u64, u64))> {
        dict_entries(self.sstable_range)
    }

    /// The reusable key-encoding buffer.
    pub closed spec fn key_buf(self) -> Seq<u8> {
        self.prepare_key_buffer@
    }

    /// A segment writer between columns: entries well formed and ending
    /// exactly at the write cursor, key buffer clear.
    pub open spec fn wf(self) -> bool {
        &&& entries_wf(self.entries())
        &&& self.written().len() <= u64::MAX
        &&& (self.entries().len() > 0 ==> self.entries().last().1.1 == self.written().len())
        &&& (self.entries().len() == 0 ==> self.written().len() == 0)
        &&& self.key_buf().len() == 0
    }

    /// Creates a segment writer appending to `wrt`, with no columns
    /// registered and its offset counter at zero.
    pub fn new(wrt: Vec<u8>) -> (s: ColumnarSerializer)
        ensures
            s.wf(),
            s.prior() == wrt@,
            s.written() == Seq::<u8>::empty(),
            s.entries() == Seq::<(Seq<u8>, (u64, u64))>::empty(),
    {
        let sstable_range: RangeDictBuilder = dict_builder();
        ColumnarSerializer {
            wrt: counting_wrap(wrt),
            sstable_range,
            prepare_key_buffer: Vec::new(),
        }
    }

    /// Begins a column: takes the current write cursor as the column's
    /// start offset and encodes its key into the reusable buffer. Writes
    /// no bytes itself. Columns must begin in strictly increasing key
    /// order; beginning one whose key is not above the last registered
    /// key is a caller error that this precondition rejects, never a
    /// silent insert. Column names must not contain the `0x00` separator.
    pub fn serialize_column(
        self,
        column_name: &[u8],
        column_type_cardinality: ColumnTypeAndCardinality,
    ) -> (c: ColumnSerializer)
        requires
            self.wf(),
            !column_name@.contains(0u8),
            self.entries().len() < u64::MAX,
            self.entries().len() > 0 ==> lex_lt(
                self.entries().last().0,
                column_key(column_name@, column_type_cardinality.to_code()),
            ),
        ensures
            c.wf(),
            c.entries() == self.entries(),
            c.written() == self.written(),
            c.prior() == self.prior(),
            c.key() == column_key(column_name@, column_type_cardinality.to_code()),
            c.start() == self.written().len(),
    {
        let mut this = self;
        let start_offset: u64 = counting_written_bytes(&this.wrt);
        prepare_key(column_name, column_type_cardinality, &mut this.prepare_key_buffer);
        ColumnSerializer { columnar_serializer: this, start_offset }
    }

    /// Serializes the index, appends it to the stream, appends the 8-byte
    /// little-endian trailer holding the index's byte length, and returns
    /// the finished segment.
    pub fn finalize(self) -> (r: Result<Vec<u8>, std::io::Error>)
        requires
            self.wf(),
        ensures
            r is Ok,
            r matches Ok(segment) ==> segment@ == self.prior() + self.written()
                + index_bytes_of(self.entries()) + spec_u64_to_le_bytes(
                index_bytes_of(self.entries()).len() as u64,
            ),
    {
        let ColumnarSerializer { wrt, sstable_range, prepare_key_buffer: _ } = self;
        let sstable_bytes: Vec<u8> = match dict_finish(sstable_range) {
            Ok(bytes) => bytes,
            Err(e) => {
                return Err(e);
            },
        };
        let sstable_num_bytes: u64 = sstable_bytes.len() as u64;
        let mut segment: Vec<u8> = counting_finish(wrt);
        append_bytes(&mut segment, sstable_bytes.as_slice());
        let trailer: Vec<u8> = u64_to_le_bytes(sstable_num_bytes);
        append_bytes(&mut segment, trailer.as_slice());
        Ok(segment)
    }
}

impl ColumnSerializer {
    /// The bytes written through the segment writer so far.
    pub closed spec fn written(self) -> Seq<u8> {
        self.columnar_serializer.written()
    }

    /// The bytes the output buffer held before the segment writer.
    pub closed spec fn prior(self) -> Seq<u8> {
        self.columnar_serializer.prior()
    }

    /// The `(key, (start, end))` pairs registered so far, in order.
    pub closed spec fn entries(self) -> Seq<(Seq<u8>, (u64, u64))> {
        self.columnar_serializer.entries()
    }

    /// The encoded key this column will be registered under.
    pub closed spec fn key(self) -> Seq<u8> {
        self.columnar_serializer.key_buf()
    }

    /// The write cursor's value when this column began.
    pub closed spec fn start(self) -> u64 {
        self.start_offset
    }

    /// A recorder mid-column: entries well formed and ending exactly at
    /// this column's start offset, the cursor at or past the start, and
    /// the pending key above every registered key.
    pub open spec fn wf(self) -> bool {
        &&& entries_wf(self.entries())
        &&& self.written().len() <= u64::MAX
        &&& self.entries().len() < u64::MAX
        &&& self.start() <= self.written().len()
        &&& (self.entries().len() > 0 ==> self.entries().last().1.1 == self.start())
        &&& (self.entries().len() == 0 ==> self.start() == 0)
        &&& (self.entries().len() > 0 ==> lex_lt(self.entries().last().0, self.key()))
    }

    /// Forwards payload bytes to the segment's stream. Any number of
    /// calls, in any chunking; the total becomes this column's payload.
    pub fn write(&mut self, buf: &[u8]) -> (r: Result<usize, std::io::Error>)
        requires
            old(self).wf(),
            old(self).written().len() + buf@.len() <= u64::MAX,
        ensures
            final(self).wf(),
            r is Ok,
            r matches Ok(n) ==> n == buf@.len(),
            final(self).written() == old(self).written() + buf@,
            final(self).entries() == old(self).entries(),
            final(self).key() == old(self).key(),
            final(self).start() == old(self).start(),
            final(self).prior() == old(self).prior(),
    {
        counting_write(&mut self.columnar_serializer.wrt, buf)
    }

    /// Forwards the whole buffer to the segment's stream.
    pub fn write_all(&mut self, buf: &[u8]) -> (r: Result<(), std::io::Error>)
        requires
            old(self).wf(),
            old(self).written().len() + buf@.len() <= u64::MAX,
        ensures
            final(self).wf(),
            r is Ok,
            final(self).written() == old(self).written() + buf@,
            final(self).entries() == old(self).entries(),
            final(self).key() == old(self).key(),
            final(self).start() == old(self).start(),
            final(self).prior() == old(self).prior(),
    {
        counting_write_all(&mut self.columnar_serializer.wrt, buf)
    }

    /// Forwards a flush to the underlying stream; changes nothing.
    pub fn flush(&mut self) -> (r: Result<(), std::io::Error>)
        requires
            old(self).wf(),
        ensures
            final(self).wf(),
            r is Ok,
            final(self).written() == old(self).written(),
            final(self).entries() == old(self).entries(),
            final(self).key() == old(self).key(),
            final(self).start() == old(self).start(),
            final(self).prior() == old(self).prior(),
    {
        counting_flush(&mut self.columnar_serializer.wrt)
    }

    /// Ends the column: reads the write cursor as the end offset,
    /// registers `(key, start..end)` in the index, clears the reusable
    /// key buffer, and hands the segment writer back. The recorder is
    /// consumed, so its span is registered exactly once; no other exit
    /// path exists.
    pub fn end(self) -> (s: ColumnarSerializer)
        requires
            self.wf(),
        ensures
            s.wf(),
            s.written() == self.written(),
            s.prior() == self.prior(),
            s.entries() == self.entries().push(
                (self.key(), (self.start(), self.written().len() as u64)),
            ),
    {
        let ColumnSerializer { columnar_serializer: mut this, start_offset } = self;
        let end_offset: u64 = counting_written_bytes(&this.wrt);
        dict_insert(&mut this.sstable_range, this.prepare_key_buffer.as_slice(), start_offset, end_offset);
        this.prepare_key_buffer.clear();
        this
    }
}

/// Appends `src` to `dst`.
fn append_bytes(dst: &mut Vec<u8>, src: &[u8])
    ensures
        final(dst)@ == old(dst)@ + src@,
{
    dst.extend_from_slice(src);
    proof {
        assert forall|i: int| old(dst)@.len() <= i < dst@.len() implies dst@[i] == src@[i - old(
            dst,
        )@.len()] by {
            assert(cloned::<u8>(src@[i - old(dst)@.len()], dst@[i]));
        }
        assert(dst@ =~= old(dst)@ + src@);
    }
}

/// Law: registered byte ranges never overlap. For any two columns in
/// registration order the earlier one ends at or before the later one
/// begins; consecutive columns meet exactly (`entries_wf` states the
/// meeting directly).
pub proof fn lemma_ranges_disjoint(entries: Seq<(Seq<u8>, (u64, u64))>, i: int, j: int)
    requires
        entries_wf(entries),
        0 <= i < j < entries.len(),
    ensures
        entries[i].1.1 <= entries[j].1.0,
    decreases j - i,
{
    if i + 1 < j {
        lemma_ranges_disjoint(entries, i + 1, j);
    }
}

/// Law: the last 8 bytes of a finalized segment, decoded as a
/// little-endian integer, equal the byte length of the index section
/// that immediately precedes them.
pub proof fn lemma_trailer_gives_index_len(segment: Seq<u8>, payload: Seq<u8>, index: Seq<u8>)
    requires
        index.len() <= u64::MAX,
        segment == payload + index + spec_u64_to_le_bytes(index.len() as u64),
    ensures
        segment.len() == payload.len() + index.len() + 8,
        spec_u64_from_le_bytes(segment.subrange(segment.len() - 8, segment.len() as int))
            == index.len(),
{
    lemma_auto_spec_u64_to_from_le_bytes();
    assert(segment.subrange(segment.len() - 8, segment.len() as int) =~= spec_u64_to_le_bytes(
        index.len() as u64,
    ));
}

} // verus!
