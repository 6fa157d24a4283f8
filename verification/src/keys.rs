use vstd::prelude::*;

use crate::column_type::ColumnTypeAndCardinality;

verus! {

/// The byte string under which a column is registered in the segment
/// index: the column's name, then the `0x00` separator, then the single
/// byte code of its type and cardinality.
pub open spec fn column_key(name: Seq<u8>, code: u8) -> Seq<u8> {
    name + seq![0u8] + seq![code]
}

/// Strict lexicographic order on byte strings: `a` comes before `b`.
pub open spec fn lex_lt(a: Seq<u8>, b: Seq<u8>) -> bool
    decreases a.len(),
{
    &&& b.len() > 0
    &&& (a.len() == 0 || a[0] < b[0] || (a[0] == b[0] && lex_lt(a.skip(1), b.skip(1))))
}

/// Returns a key consisting of the concatenation of the key and the
/// column_type_and_cardinality code.
///
/// The buffer's previous contents are discarded, whatever they were: the
/// result depends on `key` and `column_type_cardinality` alone.
pub fn prepare_key(
    key: &[u8],
    column_type_cardinality: ColumnTypeAndCardinality,
    buffer: &mut Vec<u8>,
)
    ensures
        final(buffer)@ == column_key(key@, column_type_cardinality.to_code()),
{
    buffer.clear();
    buffer.extend_from_slice(key);
    proof {
        assert forall|i: int| 0 <= i < buffer@.len() implies buffer@[i] == key@[i] by {
            assert(cloned::<u8>(key@[i], buffer@[i]));
        }
        assert(buffer@ =~= key@);
    }
    buffer.push(0u8);
    buffer.push(column_type_cardinality.to_code());
    proof {
        assert(buffer@ =~= column_key(key@, column_type_cardinality.to_code()));
    }
}

/// Law: encoding a key is reversible. The encoded key determines the name
/// (everything before the final two bytes), the separator, and the code;
/// decoding the code recovers the original type and cardinality pair.
pub proof fn lemma_column_key_round_trip(name: Seq<u8>, ctc: ColumnTypeAndCardinality)
    ensures
        column_key(name, ctc.code()).len() == name.len() + 2,
        column_key(name, ctc.code()).subrange(0, name.len() as int) == name,
        column_key(name, ctc.code())[name.len() as int] == 0u8,
        column_key(name, ctc.code()).last() == ctc.code(),
        ColumnTypeAndCardinality::spec_from_code(column_key(name, ctc.code()).last()) == Some(ctc),
{
    assert(column_key(name, ctc.code()).subrange(0, name.len() as int) =~= name);
    crate::column_type::lemma_code_round_trip(ctc);
}

} // verus!
