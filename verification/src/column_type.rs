use vstd::prelude::*;

verus! {

/// The value type of a column.
#[derive(Clone, Copy, Debug, PartialEq, Eq, Structural)]
pub enum ColumnType {
    I64,
    U64,
    Bool,
    Str,
    Bytes,
    DateTime,
}

/// How many values a column holds per record.
#[derive(Clone, Copy, Debug, PartialEq, Eq, Structural)]
pub enum Cardinality {
    /// Exactly one value per record.
    Required,
    /// Zero or one value per record.
    Optional,
    /// Any number of values per record.
    Multivalued,
}

/// The identity of a column besides its name. Encodes bijectively to a
/// single byte code, which becomes the last byte of the column's key.
#[derive(Clone, Copy, Debug, PartialEq, Eq, Structural)]
pub struct ColumnTypeAndCardinality {
    pub typ: ColumnType,
    pub cardinality: Cardinality,
}

impl ColumnType {
    pub open spec fn type_code(self) -> u8 {
        match self {
            ColumnType::I64 => 0,
            ColumnType::U64 => 1,
            ColumnType::Bool => 2,
            ColumnType::Str => 3,
            ColumnType::Bytes => 4,
            ColumnType::DateTime => 5,
        }
    }

    pub open spec fn spec_from_type_code(code: u8) -> Option<ColumnType> {
        if code == 0 {
            Some(ColumnType::I64)
        } else if code == 1 {
            Some(ColumnType::U64)
        } else if code == 2 {
            Some(ColumnType::Bool)
        } else if code == 3 {
            Some(ColumnType::Str)
        } else if code == 4 {
            Some(ColumnType::Bytes)
        } else if code == 5 {
            Some(ColumnType::DateTime)
        } else {
            None
        }
    }
}

impl Cardinality {
    pub open spec fn card_code(self) -> u8 {
        match self {
            Cardinality::Required => 0,
            Cardinality::Optional => 1,
            Cardinality::Multivalued => 2,
        }
    }

    pub open spec fn spec_from_card_code(code: u8) -> Option<Cardinality> {
        if code == 0 {
            Some(Cardinality::Required)
        } else if code == 1 {
            Some(Cardinality::Optional)
        } else if code == 2 {
            Some(Cardinality::Multivalued)
        } else {
            None
        }
    }
}

impl ColumnTypeAndCardinality {
    /// The single byte code of this `(type, cardinality)` pair.
    pub open spec fn code(self) -> u8 {
        (self.typ.type_code() * 4 + self.cardinality.card_code()) as u8
    }

    /// Which pair, if any, a byte code stands for.
    pub open spec fn spec_from_code(code: u8) -> Option<ColumnTypeAndCardinality> {
        match (ColumnType::spec_from_type_code(code / 4), Cardinality::spec_from_card_code(
            code % 4,
        )) {
            (Some(typ), Some(cardinality)) => Some(ColumnTypeAndCardinality { typ, cardinality }),
            _ => None,
        }
    }

    /// Encodes this pair as its single byte code.
    #[verifier::when_used_as_spec(code)]
    pub fn to_code(self) -> (code: u8)
        ensures
            code == self.code(),
    {
        let typ_code: u8 = match self.typ {
            ColumnType::I64 => 0,
            ColumnType::U64 => 1,
            ColumnType::Bool => 2,
            ColumnType::Str => 3,
            ColumnType::Bytes => 4,
            ColumnType::DateTime => 5,
        };
        let card_code: u8 = match self.cardinality {
            Cardinality::Required => 0,
            Cardinality::Optional => 1,
            Cardinality::Multivalued => 2,
        };
        typ_code * 4 + card_code
    }

    /// Decodes a byte code back into a `(type, cardinality)` pair; `None`
    /// on a byte that no pair encodes to.
    pub fn try_from_code(code: u8) -> (r: Option<ColumnTypeAndCardinality>)
        ensures
            r == Self::spec_from_code(code),
    {
        let typ: Option<ColumnType> = match code / 4 {
            0 => Some(ColumnType::I64),
            1 => Some(ColumnType::U64),
            2 => Some(ColumnType::Bool),
            3 => Some(ColumnType::Str),
            4 => Some(ColumnType::Bytes),
            5 => Some(ColumnType::DateTime),
            _ => None,
        };
        let cardinality: Option<Cardinality> = match code % 4 {
            0 => Some(Cardinality::Required),
            1 => Some(Cardinality::Optional),
            2 => Some(Cardinality::Multivalued),
            _ => None,
        };
        match (typ, cardinality) {
            (Some(typ), Some(cardinality)) => Some(ColumnTypeAndCardinality { typ, cardinality }),
            _ => None,
        }
    }
}

/// Law: decoding the code of any pair recovers that pair, so the code map
/// is total and injective over valid pairs.
pub proof fn lemma_code_round_trip(ctc: ColumnTypeAndCardinality)
    ensures
        ColumnTypeAndCardinality::spec_from_code(ctc.code()) == Some(ctc),
{
}

/// Law: every byte that decodes at all decodes to the one pair whose code
/// it is, so no two distinct pairs share a code.
pub proof fn lemma_code_injective(code: u8)
    ensures
        ColumnTypeAndCardinality::spec_from_code(code) matches Some(ctc) ==> ctc.code() == code,
{
}

} // verus!
