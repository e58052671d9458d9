use vstd::prelude::*;
use crate::anim::{Facing, FacingX, FacingY};
use crate::enraged::EnragedAttackMove;
use crate::stage::BossStage;

verus! {

/// Which way a charge goes.
#[derive(Clone, Copy, Debug, PartialEq, Eq, Structural)]
pub enum ChargeDirection {
    Left,
    Right,
}

/// The charge a move stands for, if it is a charge.
pub open spec fn spec_charge_direction(mv: EnragedAttackMove) -> Option<ChargeDirection> {
    match mv {
        EnragedAttackMove::ChargeLeft => Some(ChargeDirection::Left),
        EnragedAttackMove::ChargeRight => Some(ChargeDirection::Right),
        _ => None,
    }
}

/// The charge a move stands for, if it is a charge.
pub fn charge_direction(mv: EnragedAttackMove) -> (r: Option<ChargeDirection>)
    ensures
        r == spec_charge_direction(mv),
{
    match mv {
        EnragedAttackMove::ChargeLeft => Some(ChargeDirection::Left),
        EnragedAttackMove::ChargeRight => Some(ChargeDirection::Right),
        _ => None,
    }
}

/// How a charge begins: the boss turns its head up (left) or down (right) and
/// moves along the x axis with the given sign.
#[derive(Clone, Copy, Debug, PartialEq, Eq, Structural)]
pub struct ChargeStart {
    pub facing_y: FacingY,
    pub sign: i8,
}

/// How a charge in direction `dir` begins.
pub open spec fn spec_charge_start(dir: ChargeDirection) -> ChargeStart {
    match dir {
        ChargeDirection::Left => ChargeStart { facing_y: FacingY::Up, sign: -1i8 },
        ChargeDirection::Right => ChargeStart { facing_y: FacingY::Down, sign: 1 },
    }
}

/// Where the boss looks once a charge in direction `dir` is over.
pub open spec fn spec_charge_end_facing(dir: ChargeDirection) -> Facing {
    match dir {
        ChargeDirection::Left => Facing { x: FacingX::Left, y: FacingY::Down },
        ChargeDirection::Right => Facing { x: FacingX::Right, y: FacingY::Up },
    }
}

/// How a charge in direction `dir` begins.
pub fn charge_start(dir: ChargeDirection) -> (r: ChargeStart)
    ensures
        r == spec_charge_start(dir),
{
    match dir {
        ChargeDirection::Left => ChargeStart { facing_y: FacingY::Up, sign: -1i8 },
        ChargeDirection::Right => ChargeStart { facing_y: FacingY::Down, sign: 1 },
    }
}

/// Where the boss looks once a charge in direction `dir` is over.
pub fn charge_end_facing(dir: ChargeDirection) -> (r: Facing)
    ensures
        r == spec_charge_end_facing(dir),
{
    match dir {
        ChargeDirection::Left => Facing { x: FacingX::Left, y: FacingY::Down },
        ChargeDirection::Right => Facing { x: FacingX::Right, y: FacingY::Up },
    }
}

/// What the boss shows the player while it rests before its next move.
#[derive(Clone, Copy, Debug, PartialEq, Eq, Structural)]
pub enum RestTelegraph {
    /// The lane of the coming charge, with the head attack moved to the side
    /// the charge starts from.
    ChargeLane(ChargeDirection),
    /// The floor strip the coming slam will hit.
    SlamZone,
    /// Nothing to show.
    Nothing,
}

/// What the boss shows while resting, given the move that follows the rest.
pub fn rest_telegraph(next: EnragedAttackMove) -> (r: RestTelegraph)
    ensures
        (next == EnragedAttackMove::ChargeLeft) ==> r == RestTelegraph::ChargeLane(ChargeDirection::Left),
        (next == EnragedAttackMove::ChargeRight) ==> r == RestTelegraph::ChargeLane(ChargeDirection::Right),
        (next == EnragedAttackMove::Slam) ==> r == RestTelegraph::SlamZone,
        (next != EnragedAttackMove::ChargeLeft && next != EnragedAttackMove::ChargeRight
            && next != EnragedAttackMove::Slam) ==> r == RestTelegraph::Nothing,
{
    match next {
        EnragedAttackMove::ChargeLeft => RestTelegraph::ChargeLane(ChargeDirection::Left),
        EnragedAttackMove::ChargeRight => RestTelegraph::ChargeLane(ChargeDirection::Right),
        EnragedAttackMove::Slam => RestTelegraph::SlamZone,
        _ => RestTelegraph::Nothing,
    }
}

/// Sign of the vertical offset of the head attack while a charge is telegraphed:
/// below the body for a charge to the left, above it for one to the right.
pub fn telegraph_head_sign(dir: ChargeDirection) -> (r: i8)
    ensures
        dir == ChargeDirection::Left ==> r == -1,
        dir == ChargeDirection::Right ==> r == 1,
{
    match dir {
        ChargeDirection::Left => -1,
        ChargeDirection::Right => 1,
    }
}

/// Number of explosions the boom attack places.
pub const BOSS_BOOM_EXPLOSION_COUNT: usize = 16;

/// Phase of the boom attack.
#[derive(Clone, Copy, Debug, PartialEq, Eq, Structural)]
pub enum BoomPhase {
    /// The boss is not booming.
    Inactive,
    /// Explosion spots are still being chosen.
    Selecting,
    /// All spots are chosen; the boss waits for the blasts.
    Waiting,
}

/// Phase of the boom attack of a boss in `stage` whose current move is `mv`,
/// with `chosen` explosion spots picked so far.
pub open spec fn spec_boom_phase(stage: BossStage, mv: EnragedAttackMove, chosen: int) -> BoomPhase {
    if stage != BossStage::Enraged || mv != EnragedAttackMove::Boom {
        BoomPhase::Inactive
    } else if chosen < BOSS_BOOM_EXPLOSION_COUNT {
        BoomPhase::Selecting
    } else {
        BoomPhase::Waiting
    }
}

/// Spots are only chosen while fewer than `BOSS_BOOM_EXPLOSION_COUNT` are, so
/// choosing one more never takes the attack past that many explosions.
pub proof fn lemma_boom_spots_bounded(stage: BossStage, mv: EnragedAttackMove, chosen: int)
    requires
        spec_boom_phase(stage, mv, chosen) == BoomPhase::Selecting,
    ensures
        chosen + 1 <= BOSS_BOOM_EXPLOSION_COUNT,
{
}

/// Phase of the boom attack of a boss in `stage` whose current move is `mv`,
/// with `chosen` explosion spots picked so far.
pub fn boom_phase(stage: BossStage, mv: EnragedAttackMove, chosen: usize) -> (r: BoomPhase)
    ensures
        r == spec_boom_phase(stage, mv, chosen as int),
        (stage != BossStage::Enraged || mv != EnragedAttackMove::Boom) ==> r == BoomPhase::Inactive,
        (stage == BossStage::Enraged && mv == EnragedAttackMove::Boom && chosen < BOSS_BOOM_EXPLOSION_COUNT)
            ==> r == BoomPhase::Selecting,
        (stage == BossStage::Enraged && mv == EnragedAttackMove::Boom && chosen >= BOSS_BOOM_EXPLOSION_COUNT)
            ==> r == BoomPhase::Waiting,
{
    if stage != BossStage::Enraged || mv != EnragedAttackMove::Boom {
        BoomPhase::Inactive
    } else if chosen < BOSS_BOOM_EXPLOSION_COUNT {
        BoomPhase::Selecting
    } else {
        BoomPhase::Waiting
    }
}

/// What the waiting boom attack does this frame.
#[derive(Clone, Copy, Debug, PartialEq, Eq, Structural)]
pub struct BoomActions {
    /// Call in the enemies chosen at the start of the attack.
    pub spawn_enemies: bool,
    /// Set off every chosen explosion, turn immune and end the attack.
    pub detonate: bool,
}

/// While waiting, the boom attack calls in its enemies when their timer has just
/// run out, and sets off its explosions once the blast timer has run out while
/// the boss is still in its boom state.
pub fn boom_wait_actions(summon_wait_just_finished: bool, wait_finished: bool, booming: bool) -> (r: BoomActions)
    ensures
        r.spawn_enemies == summon_wait_just_finished,
        r.detonate == (wait_finished && booming),
{
    BoomActions { spawn_enemies: summon_wait_just_finished, detonate: wait_finished && booming }
}

/// Animations of the boss, by their key in its animation map.
#[derive(Clone, Copy, Debug, PartialEq, Eq, Structural)]
pub enum BossAnimation {
    Idle,
    Fly,
    Leap,
    Boom,
    Retract,
    Extend,
    Slam,
}

impl BossAnimation {
    /// The key of the animation in the boss's animation map.
    pub fn key(&self) -> (r: &'static str)
        ensures
            *self == BossAnimation::Idle ==> r@ == "IDLE"@,
            *self == BossAnimation::Fly ==> r@ == "FLY"@,
            *self == BossAnimation::Leap ==> r@ == "LEAP"@,
            *self == BossAnimation::Boom ==> r@ == "BOOM"@,
            *self == BossAnimation::Retract ==> r@ == "RETRACT"@,
            *self == BossAnimation::Extend ==> r@ == "EXTEND"@,
            *self == BossAnimation::Slam ==> r@ == "SLAM"@,
    {
        match self {
            BossAnimation::Idle => "IDLE",
            BossAnimation::Fly => "FLY",
            BossAnimation::Leap => "LEAP",
            BossAnimation::Boom => "BOOM",
            BossAnimation::Retract => "RETRACT",
            BossAnimation::Extend => "EXTEND",
            BossAnimation::Slam => "SLAM",
        }
    }
}

/// Animation shown when a rest begins: idle, unless the boss comes out of a
/// slam, whose animation is kept.
pub fn rest_animation(previous: EnragedAttackMove) -> (r: Option<BossAnimation>)
    ensures
        previous == EnragedAttackMove::Slam ==> r.is_none(),
        previous != EnragedAttackMove::Slam ==> r == Some(BossAnimation::Idle),
{
    if previous != EnragedAttackMove::Slam {
        Some(BossAnimation::Idle)
    } else {
        None
    }
}

/// Animation the boss takes on near the end of a rest, to wind up for the
/// following move: flying before a takeoff or a charge, leaping before a leap.
pub fn early_flight_animation(next: EnragedAttackMove) -> (r: Option<BossAnimation>)
    ensures
        (next == EnragedAttackMove::Takeoff || next == EnragedAttackMove::ChargeLeft
            || next == EnragedAttackMove::ChargeRight) ==> r == Some(BossAnimation::Fly),
        next == EnragedAttackMove::Leap ==> r == Some(BossAnimation::Leap),
        (next != EnragedAttackMove::Takeoff && next != EnragedAttackMove::ChargeLeft
            && next != EnragedAttackMove::ChargeRight && next != EnragedAttackMove::Leap) ==> r.is_none(),
{
    match next {
        EnragedAttackMove::Takeoff | EnragedAttackMove::ChargeLeft | EnragedAttackMove::ChargeRight => Some(BossAnimation::Fly),
        EnragedAttackMove::Leap => Some(BossAnimation::Leap),
        _ => None,
    }
}

/// A charge ends facing the way it went, with the head turned the other way
/// from the start of the charge, and moves towards the side it ends facing.
pub proof fn lemma_charge_turns_head(dir: ChargeDirection)
    ensures
        spec_charge_end_facing(dir).y != spec_charge_start(dir).facing_y,
        (spec_charge_end_facing(dir).x == FacingX::Left) == (spec_charge_start(dir).sign < 0),
{
}

} // verus!
