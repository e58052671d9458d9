use gardenfight::abilities::{
    boom_phase, boom_wait_actions, charge_direction, charge_end_facing, charge_start,
    early_flight_animation, rest_animation, rest_telegraph, telegraph_head_sign, BoomActions,
    BoomPhase, BossAnimation, ChargeDirection, ChargeStart, RestTelegraph,
    BOSS_BOOM_EXPLOSION_COUNT,
};
use gardenfight::anim::{Facing, FacingX, FacingY};
use gardenfight::enraged::EnragedAttackMove::{Boom, ChargeLeft, ChargeRight, Hover, Leap, Rest, Slam, Takeoff, TurnRight};
use gardenfight::stage::BossStage;

#[test]
fn charges() {
    assert_eq!(charge_direction(ChargeLeft), Some(ChargeDirection::Left));
    assert_eq!(charge_direction(ChargeRight), Some(ChargeDirection::Right));
    assert_eq!(charge_direction(TurnRight), None);
    assert_eq!(charge_start(ChargeDirection::Left), ChargeStart { facing_y: FacingY::Up, sign: -1 });
    assert_eq!(charge_start(ChargeDirection::Right), ChargeStart { facing_y: FacingY::Down, sign: 1 });
    assert_eq!(charge_end_facing(ChargeDirection::Left), Facing { x: FacingX::Left, y: FacingY::Down });
    assert_eq!(charge_end_facing(ChargeDirection::Right), Facing { x: FacingX::Right, y: FacingY::Up });
    for d in [ChargeDirection::Left, ChargeDirection::Right] {
        assert_ne!(charge_end_facing(d).y, charge_start(d).facing_y);
    }
}

#[test]
fn telegraphs() {
    assert_eq!(rest_telegraph(ChargeLeft), RestTelegraph::ChargeLane(ChargeDirection::Left));
    assert_eq!(rest_telegraph(ChargeRight), RestTelegraph::ChargeLane(ChargeDirection::Right));
    assert_eq!(rest_telegraph(Slam), RestTelegraph::SlamZone);
    assert_eq!(rest_telegraph(Hover), RestTelegraph::Nothing);
    assert_eq!(rest_telegraph(Rest), RestTelegraph::Nothing);
    assert_eq!(telegraph_head_sign(ChargeDirection::Left), -1);
    assert_eq!(telegraph_head_sign(ChargeDirection::Right), 1);
}

#[test]
fn boom_phases() {
    assert_eq!(BOSS_BOOM_EXPLOSION_COUNT, 16);
    assert_eq!(boom_phase(BossStage::SummonHard, Boom, 0), BoomPhase::Inactive);
    assert_eq!(boom_phase(BossStage::Enraged, Rest, 0), BoomPhase::Inactive);
    assert_eq!(boom_phase(BossStage::Enraged, Boom, 0), BoomPhase::Selecting);
    assert_eq!(boom_phase(BossStage::Enraged, Boom, 15), BoomPhase::Selecting);
    assert_eq!(boom_phase(BossStage::Enraged, Boom, 16), BoomPhase::Waiting);
    assert_eq!(boom_wait_actions(true, false, true), BoomActions { spawn_enemies: true, detonate: false });
    assert_eq!(boom_wait_actions(false, true, true), BoomActions { spawn_enemies: false, detonate: true });
    assert_eq!(boom_wait_actions(false, true, false), BoomActions { spawn_enemies: false, detonate: false });
}

#[test]
fn boss_animations() {
    assert_eq!(rest_animation(Slam), None);
    assert_eq!(rest_animation(Hover), Some(BossAnimation::Idle));
    assert_eq!(early_flight_animation(Takeoff), Some(BossAnimation::Fly));
    assert_eq!(early_flight_animation(ChargeLeft), Some(BossAnimation::Fly));
    assert_eq!(early_flight_animation(ChargeRight), Some(BossAnimation::Fly));
    assert_eq!(early_flight_animation(Leap), Some(BossAnimation::Leap));
    assert_eq!(early_flight_animation(Slam), None);
    assert_eq!(BossAnimation::Idle.key(), "IDLE");
    assert_eq!(BossAnimation::Fly.key(), "FLY");
    assert_eq!(BossAnimation::Leap.key(), "LEAP");
    assert_eq!(BossAnimation::Boom.key(), "BOOM");
    assert_eq!(BossAnimation::Retract.key(), "RETRACT");
    assert_eq!(BossAnimation::Extend.key(), "EXTEND");
    assert_eq!(BossAnimation::Slam.key(), "SLAM");
}
