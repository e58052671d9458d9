use vstd::prelude::*;
use crate::stage::BossStage;
use crate::random::random_index;

verus! {

/// Kinds of enemies the boss calls in.
#[derive(Clone, Copy, Debug, PartialEq, Eq, Structural)]
pub enum EnemyType {
    Flower,
    Dandelion,
    Pumpkin,
    Tumbleweed,
}

/// How strong summoned enemies are.
#[derive(Clone, Copy, Debug, PartialEq, Eq, Structural)]
pub enum EnemyDifficulty {
    Easy,
    Medium,
    Hard,
}

/// Enemies summoned in the easy summon stage.
pub const BOSS_SUMMON_COUNT_EASY: usize = 6;
/// Enemies summoned in the medium summon stage.
pub const BOSS_SUMMON_COUNT_MEDIUM: usize = 9;
/// Enemies summoned in the hard summon stage.
pub const BOSS_SUMMON_COUNT_HARD: usize = 12;

/// How many enemies, and how strong, a summon stage calls in.
pub open spec fn spec_summon_plan(stage: BossStage) -> (usize, EnemyDifficulty) {
    match stage {
        BossStage::SummonEasy => (BOSS_SUMMON_COUNT_EASY, EnemyDifficulty::Easy),
        BossStage::SummonMedium => (BOSS_SUMMON_COUNT_MEDIUM, EnemyDifficulty::Medium),
        _ => (BOSS_SUMMON_COUNT_HARD, EnemyDifficulty::Hard),
    }
}

/// How many enemies, and how strong, a summon stage calls in. Only summon
/// stages call in enemies.
pub fn summon_plan(stage: BossStage) -> (r: (usize, EnemyDifficulty))
    requires
        stage.spec_is_summon(),
    ensures
        r == spec_summon_plan(stage),
{
    match stage {
        BossStage::SummonEasy => (BOSS_SUMMON_COUNT_EASY, EnemyDifficulty::Easy),
        BossStage::SummonMedium => (BOSS_SUMMON_COUNT_MEDIUM, EnemyDifficulty::Medium),
        _ => (BOSS_SUMMON_COUNT_HARD, EnemyDifficulty::Hard),
    }
}

/// Later summon stages call in more, and stronger, enemies.
pub proof fn lemma_summons_grow()
    ensures
        spec_summon_plan(BossStage::SummonEasy).0 < spec_summon_plan(BossStage::SummonMedium).0,
        spec_summon_plan(BossStage::SummonMedium).0 < spec_summon_plan(BossStage::SummonHard).0,
{
}

/// The kinds a summon stage picks from, in order.
pub open spec fn summon_types_spec() -> Seq<EnemyType> {
    seq![EnemyType::Flower, EnemyType::Dandelion, EnemyType::Pumpkin, EnemyType::Tumbleweed]
}

/// The kind at position `i` of the summon list.
pub fn summon_type_at(i: usize) -> (r: EnemyType)
    requires
        i < 4,
    ensures
        r == summon_types_spec()[i as int],
{
    let types: [EnemyType; 4] = [EnemyType::Flower, EnemyType::Dandelion, EnemyType::Pumpkin, EnemyType::Tumbleweed];
    assert(types@ =~= summon_types_spec());
    types[i]
}

/// A kind drawn at random from the summon list.
pub fn random_summon_type() -> (r: EnemyType)
    ensures
        summon_types_spec().contains(r),
{
    let i = random_index(4);
    let r = summon_type_at(i);
    assert(summon_types_spec()[i as int] == r);
    r
}

/// The kinds the boom attack calls in: one drawn from the boom list by `roll`
/// (the roll only ever reaches its first two entries), then a dandelion.
pub open spec fn spec_boom_enemy_types(roll: int) -> (EnemyType, EnemyType) {
    (if roll == 0 { EnemyType::Tumbleweed } else { EnemyType::Pumpkin }, EnemyType::Dandelion)
}

/// The two kinds the boom attack calls in for a roll below 2.
pub fn boom_enemy_types_for(roll: usize) -> (r: (EnemyType, EnemyType))
    requires
        roll < 2,
    ensures
        r == spec_boom_enemy_types(roll as int),
{
    let ty_list: [EnemyType; 3] = [EnemyType::Tumbleweed, EnemyType::Pumpkin, EnemyType::Flower];
    (ty_list[roll], EnemyType::Dandelion)
}

/// The two kinds the boom attack calls in, with the first drawn at random.
pub fn boom_enemy_types() -> (r: (EnemyType, EnemyType))
    ensures
        r.0 == EnemyType::Tumbleweed || r.0 == EnemyType::Pumpkin,
        r.1 == EnemyType::Dandelion,
{
    let roll = random_index(3 - 1);
    boom_enemy_types_for(roll)
}

/// A summon stage adds an enemy to its list when the list is not full yet and
/// the summon delay has just run out.
pub fn should_summon_next(summoned: usize, target: usize, lag_just_finished: bool) -> (r: bool)
    ensures
        r == (summoned < target && lag_just_finished),
{
    summoned < target && lag_just_finished
}

} // verus!
