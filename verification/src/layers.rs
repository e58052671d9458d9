use vstd::prelude::*;

verus! {

/// Which side of the fight an entity (or an attack) belongs to.
///
/// Bit 0 marks the player's side, bit 1 the enemies' side; no other bit is used.
#[derive(Clone, Copy, Debug, PartialEq, Eq, Hash)]
pub struct CombatLayerMask {
    bits: u8,
}

pub open spec fn known_bits(b: u8) -> bool {
    b < 4
}

impl CombatLayerMask {
    #[verifier::type_invariant]
    spec fn inv(self) -> bool {
        known_bits(self.bits)
    }

    pub closed spec fn view_bits(self) -> u8 {
        self.bits
    }

    /// The raw bits of the mask.
    pub fn bits(&self) -> (r: u8)
        ensures
            r == self.view_bits(),
            known_bits(r),
    {
        proof { use_type_invariant(self); }
        self.bits
    }

    /// The player's side.
    pub fn player() -> (r: Self)
        ensures
            r.view_bits() == 1,
    {
        CombatLayerMask { bits: 1 }
    }

    /// The enemies' side.
    pub fn enemy() -> (r: Self)
        ensures
            r.view_bits() == 2,
    {
        CombatLayerMask { bits: 2 }
    }

    /// No side at all: allied with nobody.
    pub fn empty() -> (r: Self)
        ensures
            r.view_bits() == 0,
    {
        CombatLayerMask { bits: 0 }
    }

    /// Both sides.
    pub fn all() -> (r: Self)
        ensures
            r.view_bits() == 3,
    {
        CombatLayerMask { bits: 3 }
    }

    /// A layer that is hostile to every entity.
    pub fn hostile_to_all() -> (r: Self)
        ensures
            r.view_bits() == 0,
    {
        Self::empty()
    }

    /// A layer that is friendly to every entity that belongs to a side.
    pub fn friendly_to_all() -> (r: Self)
        ensures
            r.view_bits() == 3,
    {
        Self::all()
    }

    /// The mask with exactly the known bits of `bits`; unknown bits are dropped.
    pub fn from_bits_truncate(bits: u8) -> (r: Self)
        ensures
            r.view_bits() == bits & 3,
    {
        assert(bits & 3u8 < 4) by (bit_vector);
        CombatLayerMask { bits: bits & 3 }
    }

    /// Two layers are allies when they share at least one side.
    pub fn is_ally_with(self, other: Self) -> (r: bool)
        ensures
            r == (self.view_bits() & other.view_bits() != 0),
    {
        self.bits & other.bits != 0
    }
}

impl Default for CombatLayerMask {
    fn default() -> (r: Self)
        ensures
            r.view_bits() == 0,
    {
        Self::empty()
    }
}

/// Alliance goes both ways.
pub proof fn lemma_ally_symmetric(a: CombatLayerMask, b: CombatLayerMask)
    ensures
        (a.view_bits() & b.view_bits() != 0) == (b.view_bits() & a.view_bits() != 0),
{
    let x = a.view_bits();
    let y = b.view_bits();
    assert(x & y == y & x) by (bit_vector);
}

/// The empty layer is allied with no layer.
pub proof fn lemma_hostile_to_all(other: CombatLayerMask)
    ensures
        0u8 & other.view_bits() == 0,
{
    let y = other.view_bits();
    assert(0u8 & y == 0) by (bit_vector);
}

/// The full layer is allied with every layer that belongs to a side.
pub proof fn lemma_friendly_to_all(other: CombatLayerMask)
    requires
        known_bits(other.view_bits()),
    ensures
        other.view_bits() != 0 ==> 3u8 & other.view_bits() != 0,
{
    let y = other.view_bits();
    assert(y < 4 && y != 0 ==> 3u8 & y != 0) by (bit_vector);
}

/// The player's side and the enemies' side are not allies.
pub proof fn lemma_player_enemy_hostile()
    ensures
        1u8 & 2u8 == 0,
{
    assert(1u8 & 2u8 == 0) by (bit_vector);
}

/// A layer that belongs to a side is allied with itself.
pub proof fn lemma_ally_reflexive(a: CombatLayerMask)
    ensures
        a.view_bits() != 0 ==> a.view_bits() & a.view_bits() != 0,
{
    let x = a.view_bits();
    assert(x != 0 ==> x & x != 0) by (bit_vector);
}

} // verus!
