//! The numeric encodings that cross the boundary to the engine: backend
//! kinds, open modes, query operators and the syntax flags of the query
//! parser.

use vstd::prelude::*;

verus! {

/// Backend kind: the first on-disk format.
pub const BRASS: i8 = 1;

/// Backend kind: the second on-disk format.
pub const CHERT: i8 = 2;

/// Backend kind: a database held in memory only.
pub const IN_MEMORY: i8 = 3;

/// No backend kind named.
pub const UNKNOWN: i8 = 0;

/// Open for reading and writing; create the store if none exists.
pub const DB_CREATE_OR_OPEN: i8 = 1;

/// Create a new store; fail if one exists.
pub const DB_CREATE: i8 = 2;

/// Overwrite an existing store; create one if none exists.
pub const DB_CREATE_OR_OVERWRITE: i8 = 3;

/// Open for reading and writing; fail if no store exists.
pub const DB_OPEN: i8 = 4;

/// The operators that combine or build queries.
#[derive(Clone, Copy, Debug, PartialEq, Eq, Structural)]
pub enum XapianOp {
    /// Matches where both operands match.
    OpAnd,
    /// Matches where either operand matches.
    OpOr,
    /// Matches where the left operand matches and the right does not.
    OpAndNot,
    /// Matches where exactly one operand matches.
    OpXor,
    /// Matches where the left operand matches; weights come from both.
    OpAndMaybe,
    /// As `OpAnd`, with weights from the left operand only.
    OpFilter,
    /// Matches where the terms occur within a window of positions, in any
    /// order. The window defaults to the number of terms.
    OpNear,
    /// Matches where the terms occur within a window of positions, in the
    /// order given. The window defaults to the number of terms.
    OpPhrase,
    /// Filters by a range test on a document value.
    OpValueRange,
    /// Scales the weight of the operand by a factor, which must not be
    /// negative.
    OpScaleWeight,
    /// Picks the best few operands and combines them as `OpOr` does.
    OpEliteSet,
    /// Filters by a greater-than-or-equal test on a document value.
    OpValueGe,
    /// Filters by a less-than-or-equal test on a document value.
    OpValueLe,
    /// Matches as `OpOr` does, weighting the operands as one term.
    OpSynonym,
}

impl XapianOp {
    /// The number the engine knows this operator by.
    pub open spec fn spec_code(self) -> i32 {
        match self {
            XapianOp::OpAnd => 0i32,
            XapianOp::OpOr => 1i32,
            XapianOp::OpAndNot => 2i32,
            XapianOp::OpXor => 3i32,
            XapianOp::OpAndMaybe => 4i32,
            XapianOp::OpFilter => 5i32,
            XapianOp::OpNear => 6i32,
            XapianOp::OpPhrase => 7i32,
            XapianOp::OpValueRange => 8i32,
            XapianOp::OpScaleWeight => 9i32,
            XapianOp::OpEliteSet => 10i32,
            XapianOp::OpValueGe => 11i32,
            XapianOp::OpValueLe => 12i32,
            XapianOp::OpSynonym => 13i32,
        }
    }

    /// The number to hand to the engine for this operator.
    pub fn code(self) -> (code: i32)
        ensures
            code == self.spec_code(),
    {
        match self {
            XapianOp::OpAnd => 0,
            XapianOp::OpOr => 1,
            XapianOp::OpAndNot => 2,
            XapianOp::OpXor => 3,
            XapianOp::OpAndMaybe => 4,
            XapianOp::OpFilter => 5,
            XapianOp::OpNear => 6,
            XapianOp::OpPhrase => 7,
            XapianOp::OpValueRange => 8,
            XapianOp::OpScaleWeight => 9,
            XapianOp::OpEliteSet => 10,
            XapianOp::OpValueGe => 11,
            XapianOp::OpValueLe => 12,
            XapianOp::OpSynonym => 13,
        }
    }
}

/// No two operators share a number, and the numbers fill `0..=13`.
pub proof fn lemma_op_codes_distinct(a: XapianOp, b: XapianOp)
    ensures
        0 <= a.spec_code() <= 13,
        a.spec_code() == b.spec_code() ==> a == b,
{
}

/// The syntax features of the query parser. A set of features is the bitwise
/// or of their masks.
#[derive(Clone, Copy, Debug, PartialEq, Eq, Structural)]
pub enum FeatureFlag {
    /// AND, OR and the like, and bracketed subexpressions.
    FlagBoolean,
    /// Quoted phrases.
    FlagPhrase,
    /// `+` and `-`.
    FlagLovehate,
    /// AND, OR and the like even when not in capitals.
    FlagBooleanAnyCase,
    /// Right truncation, as in `Xap*`. Needs a database to expand from.
    FlagWildcard,
    /// Queries that only negate, such as `NOT apples`.
    FlagPureNot,
    /// Partial matching: the last word is taken as entered so far. Needs a
    /// database to expand from.
    FlagPartial,
    /// Spelling correction. Needs a database.
    FlagSpellingCorrection,
    /// The synonym operator `~`. Needs a database.
    FlagSynonym,
    /// Synonyms for single terms without an operator. Needs a database.
    FlagAutoSynonyms,
    /// Synonyms for single terms and for groups of terms without an
    /// operator; includes `FlagAutoSynonyms`. Needs a database.
    FlagAutoMultiwordSynonyms,
    /// The features in force when none are chosen: phrases, boolean
    /// operators, and `+` and `-`.
    FlagDefault,
}

impl FeatureFlag {
    /// The mask of this feature.
    pub open spec fn spec_bits(self) -> i16 {
        match self {
            FeatureFlag::FlagBoolean => 1i16,
            FeatureFlag::FlagPhrase => 2i16,
            FeatureFlag::FlagLovehate => 4i16,
            FeatureFlag::FlagBooleanAnyCase => 8i16,
            FeatureFlag::FlagWildcard => 16i16,
            FeatureFlag::FlagPureNot => 32i16,
            FeatureFlag::FlagPartial => 64i16,
            FeatureFlag::FlagSpellingCorrection => 128i16,
            FeatureFlag::FlagSynonym => 256i16,
            FeatureFlag::FlagAutoSynonyms => 512i16,
            FeatureFlag::FlagAutoMultiwordSynonyms => 1536i16,
            FeatureFlag::FlagDefault => 7i16,
        }
    }

    /// Whether this member names one feature, rather than a set of them.
    pub open spec fn is_single(self) -> bool {
        self != FeatureFlag::FlagAutoMultiwordSynonyms && self != FeatureFlag::FlagDefault
    }

    /// The mask to hand to the parser for this feature.
    pub fn bits(self) -> (bits: i16)
        ensures
            bits == self.spec_bits(),
    {
        match self {
            FeatureFlag::FlagBoolean => 1,
            FeatureFlag::FlagPhrase => 2,
            FeatureFlag::FlagLovehate => 4,
            FeatureFlag::FlagBooleanAnyCase => 8,
            FeatureFlag::FlagWildcard => 16,
            FeatureFlag::FlagPureNot => 32,
            FeatureFlag::FlagPartial => 64,
            FeatureFlag::FlagSpellingCorrection => 128,
            FeatureFlag::FlagSynonym => 256,
            FeatureFlag::FlagAutoSynonyms => 512,
            FeatureFlag::FlagAutoMultiwordSynonyms => 1536,
            FeatureFlag::FlagDefault => 7,
        }
    }
}

/// The default set is exactly phrases, boolean operators, and `+` and `-`.
pub proof fn lemma_default_flags()
    ensures
        FeatureFlag::FlagDefault.spec_bits() == FeatureFlag::FlagPhrase.spec_bits()
            | FeatureFlag::FlagBoolean.spec_bits() | FeatureFlag::FlagLovehate.spec_bits(),
{
    assert(7i16 == 2i16 | 1i16 | 4i16) by (bit_vector);
}

/// Synonyms for groups of terms include synonyms for single terms, and add
/// one bit of their own.
pub proof fn lemma_multiword_includes_auto_synonyms()
    ensures
        FeatureFlag::FlagAutoMultiwordSynonyms.spec_bits() == 1024i16
            | FeatureFlag::FlagAutoSynonyms.spec_bits(),
        FeatureFlag::FlagAutoMultiwordSynonyms.spec_bits()
            & FeatureFlag::FlagAutoSynonyms.spec_bits()
            == FeatureFlag::FlagAutoSynonyms.spec_bits(),
{
    assert(1536i16 == 1024i16 | 512i16) by (bit_vector);
    assert(1536i16 & 512i16 == 512i16) by (bit_vector);
}

/// Each single feature can be switched on or off by itself: two different
/// single features have no bit in common.
pub proof fn lemma_single_flags_independent(a: FeatureFlag, b: FeatureFlag)
    requires
        a.is_single(),
        b.is_single(),
        a != b,
    ensures
        a.spec_bits() & b.spec_bits() == 0,
{
    let x = a.spec_bits();
    let y = b.spec_bits();
    assert(x & y == 0i16) by (bit_vector)
        requires
            x == 1i16 || x == 2i16 || x == 4i16 || x == 8i16 || x == 16i16 || x == 32i16 || x
                == 64i16 || x == 128i16 || x == 256i16 || x == 512i16,
            y == 1i16 || y == 2i16 || y == 4i16 || y == 8i16 || y == 16i16 || y == 32i16 || y
                == 64i16 || y == 128i16 || y == 256i16 || y == 512i16,
            x != y,
    ;
}

} // verus!
