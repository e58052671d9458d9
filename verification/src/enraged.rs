use vstd::prelude::*;
use crate::stage::BossStage;

verus! {

/// The moves the boss cycles through once enraged.
#[derive(Clone, Copy, Debug, PartialEq, Eq, Structural)]
pub enum EnragedAttackMove {
    Rest,
    Boom,
    RelocateRight,
    ChargeLeft,
    TurnRight,
    ChargeRight,
    Hover,
    Slam,
    Leap,
    Takeoff,
}

/// Number of moves in the enraged attack sequence.
pub const ATTACK_SEQUENCE_LEN: usize = 19;

/// The enraged attack sequence, played in order and then from the start again.
pub open spec fn attack_sequence_spec() -> Seq<EnragedAttackMove> {
    seq![
        EnragedAttackMove::Rest,
        EnragedAttackMove::Boom,
        EnragedAttackMove::Rest,
        EnragedAttackMove::RelocateRight,
        EnragedAttackMove::ChargeLeft,
        EnragedAttackMove::TurnRight,
        EnragedAttackMove::ChargeRight,
        EnragedAttackMove::Rest,
        EnragedAttackMove::ChargeLeft,
        EnragedAttackMove::TurnRight,
        EnragedAttackMove::ChargeRight,
        EnragedAttackMove::Rest,
        EnragedAttackMove::Hover,
        EnragedAttackMove::Slam,
        EnragedAttackMove::Hover,
        EnragedAttackMove::Slam,
        EnragedAttackMove::Hover,
        EnragedAttackMove::Slam,
        EnragedAttackMove::Rest,
    ]
}

/// The enraged attack sequence.
pub fn attack_sequence() -> (r: [EnragedAttackMove; 19])
    ensures
        r@ == attack_sequence_spec(),
{
    let r: [EnragedAttackMove; 19] = [
        EnragedAttackMove::Rest,
        EnragedAttackMove::Boom,
        EnragedAttackMove::Rest,
        EnragedAttackMove::RelocateRight,
        EnragedAttackMove::ChargeLeft,
        EnragedAttackMove::TurnRight,
        EnragedAttackMove::ChargeRight,
        EnragedAttackMove::Rest,
        EnragedAttackMove::ChargeLeft,
        EnragedAttackMove::TurnRight,
        EnragedAttackMove::ChargeRight,
        EnragedAttackMove::Rest,
        EnragedAttackMove::Hover,
        EnragedAttackMove::Slam,
        EnragedAttackMove::Hover,
        EnragedAttackMove::Slam,
        EnragedAttackMove::Hover,
        EnragedAttackMove::Slam,
        EnragedAttackMove::Rest,
    ];
    assert(r@ =~= attack_sequence_spec());
    r
}

/// Index of the move after the one at `i`, wrapping around.
pub open spec fn following_index(i: int) -> int {
    (i + 1) % (ATTACK_SEQUENCE_LEN as int)
}

/// Index of the move before the one at `i`, wrapping around.
pub open spec fn preceding_index(i: int) -> int {
    if i == 0 { ATTACK_SEQUENCE_LEN - 1 } else { i - 1 }
}

/// The boss's place in the enraged attack sequence.
#[derive(Clone, Copy, Debug, PartialEq, Eq, Structural)]
pub struct Boss {
    pub move_index: usize,
}

impl Default for Boss {
    fn default() -> (r: Self)
        ensures
            r.move_index == 0,
    {
        Boss { move_index: 0 }
    }
}

impl Boss {
    /// The move being played.
    pub fn current_move(&self) -> (r: EnragedAttackMove)
        requires
            self.move_index < ATTACK_SEQUENCE_LEN,
        ensures
            r == attack_sequence_spec()[self.move_index as int],
    {
        let seq = attack_sequence();
        seq[self.move_index]
    }

    /// The move played before the current one; the first move is preceded by the
    /// last, and so is the index just past the end.
    pub fn previous_move(&self) -> (r: EnragedAttackMove)
        requires
            self.move_index <= ATTACK_SEQUENCE_LEN,
        ensures
            r == attack_sequence_spec()[preceding_index(self.move_index as int)],
    {
        let i = if self.move_index == 0 {
            ATTACK_SEQUENCE_LEN - 1
        } else {
            self.move_index - 1
        };
        let seq = attack_sequence();
        seq[i]
    }

    /// The move to be played after the current one; the last move is followed by the first.
    pub fn next_move(&self) -> (r: EnragedAttackMove)
        requires
            self.move_index < usize::MAX,
        ensures
            r == attack_sequence_spec()[following_index(self.move_index as int)],
    {
        let next = (self.move_index + 1) % ATTACK_SEQUENCE_LEN;
        let seq = attack_sequence();
        seq[next]
    }
}

/// Entering the enraged stage restarts the attack sequence.
pub fn boss_enter_enraged(boss: &mut Boss)
    ensures
        final(boss).move_index == 0,
{
    boss.move_index = 0;
}

/// Picking the next move steps through the sequence, but only while enraged.
pub fn boss_enraged_update(stage: BossStage, boss: &mut Boss)
    requires
        old(boss).move_index < usize::MAX,
    ensures
        stage == BossStage::Enraged ==> final(boss).move_index == following_index(old(boss).move_index as int),
        stage != BossStage::Enraged ==> *final(boss) == *old(boss),
{
    if stage != BossStage::Enraged {
        return;
    }
    boss.move_index = (boss.move_index + 1) % ATTACK_SEQUENCE_LEN;
}

/// The enraged boss starts an attack when the current move is that attack.
pub fn attack_triggered(boss: &Boss, stage: BossStage, action: EnragedAttackMove) -> (r: bool)
    requires
        stage == BossStage::Enraged ==> boss.move_index < ATTACK_SEQUENCE_LEN,
    ensures
        r == (stage == BossStage::Enraged && attack_sequence_spec()[boss.move_index as int] == action),
{
    stage == BossStage::Enraged && boss.current_move() == action
}

/// The enraged boss rests when the current move is a rest.
pub fn rest_triggered(boss: &Boss, stage: BossStage) -> (r: bool)
    requires
        stage == BossStage::Enraged ==> boss.move_index < ATTACK_SEQUENCE_LEN,
    ensures
        r == (stage == BossStage::Enraged && attack_sequence_spec()[boss.move_index as int] == EnragedAttackMove::Rest),
{
    if stage != BossStage::Enraged {
        return false;
    }
    match boss.current_move() {
        EnragedAttackMove::Rest => true,
        _ => false,
    }
}

/// A hurt enraged boss goes on to its next move once its current rest is over.
pub fn pick_next_move_triggered(boss: &Boss, stage: BossStage, rest_finished: bool) -> (r: bool)
    requires
        stage == BossStage::Enraged ==> boss.move_index < ATTACK_SEQUENCE_LEN,
    ensures
        r == (stage == BossStage::Enraged
            && attack_sequence_spec()[boss.move_index as int] == EnragedAttackMove::Rest
            && rest_finished),
{
    if stage != BossStage::Enraged {
        return false;
    }
    match boss.current_move() {
        EnragedAttackMove::Rest => rest_finished,
        _ => false,
    }
}

/// The move announced as next is the move that becomes current after one step.
pub proof fn lemma_next_becomes_current(i: int)
    requires
        0 <= i < ATTACK_SEQUENCE_LEN,
    ensures
        0 <= following_index(i) < ATTACK_SEQUENCE_LEN,
        preceding_index(following_index(i)) == i,
{
}

/// Stepping through the sequence from the last move comes back to the first.
pub proof fn lemma_sequence_wraps()
    ensures
        following_index(ATTACK_SEQUENCE_LEN - 1) == 0,
        preceding_index(0) == ATTACK_SEQUENCE_LEN - 1,
{
}

/// Every index of the sequence is reached again after one full cycle of steps.
pub proof fn lemma_cycle_returns(i: int)
    requires
        0 <= i < ATTACK_SEQUENCE_LEN,
    ensures
        (i + ATTACK_SEQUENCE_LEN) % (ATTACK_SEQUENCE_LEN as int) == i,
{
}

/// The sequence opens with a rest.
pub proof fn lemma_sequence_starts_with_rest()
    ensures
        attack_sequence_spec()[0] == EnragedAttackMove::Rest,
{
}

/// Every slam comes right after a hover.
pub proof fn lemma_slam_after_hover(i: int)
    requires
        0 <= i < ATTACK_SEQUENCE_LEN,
        attack_sequence_spec()[i] == EnragedAttackMove::Slam,
    ensures
        attack_sequence_spec()[preceding_index(i)] == EnragedAttackMove::Hover,
{
}

/// Every charge to the right comes right after a turn, which comes right after
/// a charge to the left.
pub proof fn lemma_charge_right_after_turn(i: int)
    requires
        0 <= i < ATTACK_SEQUENCE_LEN,
        attack_sequence_spec()[i] == EnragedAttackMove::ChargeRight,
    ensures
        attack_sequence_spec()[preceding_index(i)] == EnragedAttackMove::TurnRight,
        attack_sequence_spec()[preceding_index(preceding_index(i))] == EnragedAttackMove::ChargeLeft,
{
}

} // verus!
