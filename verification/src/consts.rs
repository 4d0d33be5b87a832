//! The quality tiers and the compass directions of placed entities.
use vstd::prelude::*;

verus! {

/// One of the five quality tiers that multiply the signal space.
#[derive(Debug, Clone, Copy, PartialEq, Eq, Structural)]
pub enum QualityType {
    NORMAL,
    UNCOMMON,
    RARE,
    EPIC,
    LEGENDARY,
}

/// The label of the tier that the cyclic position `index` selects.
pub open spec fn quality_label(index: int) -> Seq<char> {
    QualityType::spec_from_index(index).label()
}

impl QualityType {
    /// The label under which the tier is written in a document.
    pub open spec fn label(self) -> Seq<char> {
        match self {
            QualityType::NORMAL => "normal"@,
            QualityType::UNCOMMON => "uncommon"@,
            QualityType::RARE => "rare"@,
            QualityType::EPIC => "epic"@,
            QualityType::LEGENDARY => "legendary"@,
        }
    }

    /// The tier at position `index mod 5` of the tier table.
    pub open spec fn spec_from_index(index: int) -> QualityType {
        let r = index % 5;
        if r == 0 {
            QualityType::NORMAL
        } else if r == 1 {
            QualityType::UNCOMMON
        } else if r == 2 {
            QualityType::RARE
        } else if r == 3 {
            QualityType::EPIC
        } else {
            QualityType::LEGENDARY
        }
    }

    pub fn as_str(&self) -> (label: &'static str)
        ensures
            label@ == self.label(),
    {
        match self {
            QualityType::NORMAL => "normal",
            QualityType::UNCOMMON => "uncommon",
            QualityType::RARE => "rare",
            QualityType::EPIC => "epic",
            QualityType::LEGENDARY => "legendary",
        }
    }

    /// Selects a tier cyclically: positions 0 to 4 are the five tiers in
    /// rising order, and position 5 is the first tier again.
    pub fn from_index(index: u64) -> (tier: QualityType)
        ensures
            tier == QualityType::spec_from_index(index as int),
    {
        let r: u64 = index % 5;
        if r == 0 {
            QualityType::NORMAL
        } else if r == 1 {
            QualityType::UNCOMMON
        } else if r == 2 {
            QualityType::RARE
        } else if r == 3 {
            QualityType::EPIC
        } else {
            QualityType::LEGENDARY
        }
    }
}

/// The five tiers carry five different labels, so that a signal at one tier
/// is never taken for the same signal at another.
pub proof fn lemma_quality_labels_differ(i: int, j: int)
    requires
        i % 5 != j % 5,
    ensures
        quality_label(i) != quality_label(j),
{
    reveal_strlit("normal");
    reveal_strlit("uncommon");
    reveal_strlit("rare");
    reveal_strlit("epic");
    reveal_strlit("legendary");
    let a = quality_label(i);
    let b = quality_label(j);
    if a.len() == b.len() {
        assert(a[0] != b[0]);
    }
}

/// A position is addressed by a catalog entry and a quality tier: a fifth
/// of the position, rounded down, and the remainder. Two positions with the
/// same address are the same position.
pub proof fn lemma_address_is_unique(a: int, b: int)
    requires
        a / 5 == b / 5,
        a % 5 == b % 5,
    ensures
        a == b,
{
}

/// The eight compass directions an entity can face.
#[allow(non_camel_case_types)]
#[derive(Debug, Clone, Copy, PartialEq, Eq, Structural)]
pub enum DirectionType {
    NORTH,
    NORTH_EAST,
    EAST,
    SOUTH_EAST,
    SOUTH,
    SOUTH_WEST,
    WEST,
    NORTH_WEST,
}

impl DirectionType {
    /// The direction's code in the sixteen-step compass encoding: the eight
    /// directions take the even codes, clockwise from north.
    pub open spec fn code(self) -> int {
        match self {
            DirectionType::NORTH => 0,
            DirectionType::NORTH_EAST => 2,
            DirectionType::EAST => 4,
            DirectionType::SOUTH_EAST => 6,
            DirectionType::SOUTH => 8,
            DirectionType::SOUTH_WEST => 10,
            DirectionType::WEST => 12,
            DirectionType::NORTH_WEST => 14,
        }
    }

    pub fn value(&self) -> (code: i64)
        ensures
            code == self.code(),
            0 <= code < 16,
    {
        match self {
            DirectionType::NORTH => 0,
            DirectionType::NORTH_EAST => 2,
            DirectionType::EAST => 4,
            DirectionType::SOUTH_EAST => 6,
            DirectionType::SOUTH => 8,
            DirectionType::SOUTH_WEST => 10,
            DirectionType::WEST => 12,
            DirectionType::NORTH_WEST => 14,
        }
    }
}

} // verus!
