use vstd::prelude::*;
use crate::combat::Health;

verus! {

/// Starting health of the boss.
pub const BOSS_HEALTH: i32 = 400;
/// Health below which the easy summon stage is over.
pub const BOSS_EASY_HEALTH_THRESHOLD: i32 = 300;
/// Health below which the medium summon stage is over.
pub const BOSS_MEDIUM_HEALTH_THRESHOLD: i32 = 200;
/// Health below which the hard summon stage is over.
pub const BOSS_HARD_HEALTH_THRESHOLD: i32 = 100;

/// The phases of the boss fight, in the order in which they are played.
#[derive(Clone, Copy, Debug, PartialEq, Eq, Structural)]
pub enum BossStage {
    Waiting,
    SummonEasy,
    VulnerableEasy,
    SummonMedium,
    VulnerableMedium,
    SummonHard,
    VulnerableHard,
    Enraged,
}

/// The stages in play order.
pub open spec fn stage_order() -> Seq<BossStage> {
    seq![
        BossStage::Waiting,
        BossStage::SummonEasy,
        BossStage::VulnerableEasy,
        BossStage::SummonMedium,
        BossStage::VulnerableMedium,
        BossStage::SummonHard,
        BossStage::VulnerableHard,
        BossStage::Enraged,
    ]
}

impl BossStage {
    /// Position of the stage in `stage_order()`.
    pub open spec fn order_index(self) -> int {
        match self {
            BossStage::Waiting => 0,
            BossStage::SummonEasy => 1,
            BossStage::VulnerableEasy => 2,
            BossStage::SummonMedium => 3,
            BossStage::VulnerableMedium => 4,
            BossStage::SummonHard => 5,
            BossStage::VulnerableHard => 6,
            BossStage::Enraged => 7,
        }
    }

    /// The stage that follows this one (the last stage has none).
    pub open spec fn spec_next(self) -> BossStage
        recommends self != BossStage::Enraged,
    {
        match self {
            BossStage::Waiting => BossStage::SummonEasy,
            BossStage::SummonEasy => BossStage::VulnerableEasy,
            BossStage::VulnerableEasy => BossStage::SummonMedium,
            BossStage::SummonMedium => BossStage::VulnerableMedium,
            BossStage::VulnerableMedium => BossStage::SummonHard,
            BossStage::SummonHard => BossStage::VulnerableHard,
            BossStage::VulnerableHard => BossStage::Enraged,
            BossStage::Enraged => BossStage::Enraged,
        }
    }

    pub open spec fn spec_is_summon(self) -> bool {
        self is SummonEasy || self is SummonMedium || self is SummonHard
    }

    pub open spec fn spec_is_vulnerable(self) -> bool {
        self is VulnerableEasy || self is VulnerableMedium || self is VulnerableHard
    }

    /// The boss stays in a stage while its health is above this value.
    pub open spec fn spec_threshold(self) -> int {
        match self {
            BossStage::Waiting => BOSS_HEALTH as int,
            BossStage::SummonEasy => BOSS_EASY_HEALTH_THRESHOLD as int,
            BossStage::VulnerableEasy => BOSS_EASY_HEALTH_THRESHOLD as int,
            BossStage::SummonMedium => BOSS_MEDIUM_HEALTH_THRESHOLD as int,
            BossStage::VulnerableMedium => BOSS_MEDIUM_HEALTH_THRESHOLD as int,
            BossStage::SummonHard => BOSS_HARD_HEALTH_THRESHOLD as int,
            BossStage::VulnerableHard => BOSS_HARD_HEALTH_THRESHOLD as int,
            BossStage::Enraged => 0,
        }
    }

    /// The first stage, in play order, whose threshold lies below `health`.
    pub open spec fn first_stage_below(health: int) -> BossStage {
        if health > BOSS_HEALTH {
            BossStage::Waiting
        } else if health > BOSS_EASY_HEALTH_THRESHOLD {
            BossStage::SummonEasy
        } else if health > BOSS_MEDIUM_HEALTH_THRESHOLD {
            BossStage::SummonMedium
        } else if health > BOSS_HARD_HEALTH_THRESHOLD {
            BossStage::SummonHard
        } else {
            BossStage::Enraged
        }
    }

    /// The initial stage of a fight.
    pub fn waiting() -> (r: Self)
        ensures
            r == BossStage::Waiting,
    {
        BossStage::Waiting
    }

    /// Moves to the following stage.
    pub fn advance(&mut self)
        requires
            *old(self) != BossStage::Enraged,
        ensures
            *final(self) == old(self).spec_next(),
    {
        *self = self.next();
    }

    /// The stage that follows this one. There is none after `Enraged`.
    pub fn next(self) -> (r: Self)
        requires
            self != BossStage::Enraged,
        ensures
            r == self.spec_next(),
    {
        match self {
            BossStage::Waiting => BossStage::SummonEasy,
            BossStage::SummonEasy => BossStage::VulnerableEasy,
            BossStage::VulnerableEasy => BossStage::SummonMedium,
            BossStage::SummonMedium => BossStage::VulnerableMedium,
            BossStage::VulnerableMedium => BossStage::SummonHard,
            BossStage::SummonHard => BossStage::VulnerableHard,
            BossStage::VulnerableHard => BossStage::Enraged,
            BossStage::Enraged => BossStage::Enraged,
        }
    }

    /// Whether the boss summons enemies in this stage.
    pub fn is_summon_stage(&self) -> (r: bool)
        ensures
            r == self.spec_is_summon(),
    {
        match self {
            BossStage::SummonEasy | BossStage::SummonMedium | BossStage::SummonHard => true,
            _ => false,
        }
    }

    /// Whether the boss can be damaged in this stage.
    pub fn is_vulnerable_stage(&self) -> (r: bool)
        ensures
            r == self.spec_is_vulnerable(),
    {
        match self {
            BossStage::VulnerableEasy | BossStage::VulnerableMedium | BossStage::VulnerableHard => true,
            _ => false,
        }
    }

    /// Health above which the boss remains in this stage.
    pub fn health_threshold(&self) -> (r: i32)
        ensures
            r == self.spec_threshold(),
    {
        match self {
            BossStage::Waiting => BOSS_HEALTH,
            BossStage::SummonEasy => BOSS_EASY_HEALTH_THRESHOLD,
            BossStage::VulnerableEasy => BOSS_EASY_HEALTH_THRESHOLD,
            BossStage::SummonMedium => BOSS_MEDIUM_HEALTH_THRESHOLD,
            BossStage::VulnerableMedium => BOSS_MEDIUM_HEALTH_THRESHOLD,
            BossStage::SummonHard => BOSS_HARD_HEALTH_THRESHOLD,
            BossStage::VulnerableHard => BOSS_HARD_HEALTH_THRESHOLD,
            BossStage::Enraged => 0,
        }
    }

    /// The first stage, in play order, whose threshold `health` exceeds.
    /// No stage matches a health of zero or less.
    pub fn from_health(health: i32) -> (r: Self)
        requires
            health > 0,
        ensures
            r.spec_threshold() < health,
            forall|j: int| 0 <= j < r.order_index() ==> health <= #[trigger] stage_order()[j].spec_threshold(),
            stage_order()[r.order_index()] == r,
            r == Self::first_stage_below(health as int),
    {
        let choices: [BossStage; 8] = [
            BossStage::Waiting,
            BossStage::SummonEasy,
            BossStage::VulnerableEasy,
            BossStage::SummonMedium,
            BossStage::VulnerableMedium,
            BossStage::SummonHard,
            BossStage::VulnerableHard,
            BossStage::Enraged,
        ];
        assert(choices@ =~= stage_order());
        let mut i: usize = 0;
        while i < 8
            invariant
                0 <= i <= 8,
                health > 0,
                choices@ == stage_order(),
                forall|j: int| 0 <= j < i ==> health <= #[trigger] stage_order()[j].spec_threshold(),
            decreases 8 - i,
        {
            let choice = choices[i];
            if health > choice.health_threshold() {
                assert(choice.order_index() == i);
                assert(i > 0 ==> health <= stage_order()[0].spec_threshold());
                assert(i > 1 ==> health <= stage_order()[1].spec_threshold());
                assert(i > 3 ==> health <= stage_order()[3].spec_threshold());
                assert(i > 5 ==> health <= stage_order()[5].spec_threshold());
                return choice;
            }
            i = i + 1;
        }
        assert(stage_order()[7].spec_threshold() == 0);
        assert(false);
        BossStage::Enraged
    }
}

impl Default for BossStage {
    fn default() -> (r: Self)
        ensures
            r == BossStage::Waiting,
    {
        BossStage::Waiting
    }
}

/// Moves the boss to the stage that its health selects; a boss without
/// health left keeps its stage.
pub fn boss_advance_stage(health: &Health, stage: &mut BossStage)
    ensures
        health.hp <= 0 ==> *final(stage) == *old(stage),
        health.hp > 0 ==> *final(stage) == BossStage::first_stage_below(health.hp as int),
{
    if health.hp <= 0 {
        return;
    }
    *stage = BossStage::from_health(health.hp);
}

/// While vulnerable, a boss whose health falls under its stage's threshold
/// moves on to the stage its health selects.
pub fn boss_vulnerable_update(health: &Health, stage: &mut BossStage)
    ensures
        (health.hp < old(stage).spec_threshold() && health.hp > 0)
            ==> *final(stage) == BossStage::first_stage_below(health.hp as int),
        !(health.hp < old(stage).spec_threshold() && health.hp > 0) ==> *final(stage) == *old(stage),
{
    if health.hp < stage.health_threshold() {
        boss_advance_stage(health, stage);
    }
}

/// When the vulnerability timer runs out during a vulnerable stage, the boss
/// moves on to the stage its health selects.
pub fn boss_vulnerable_timeout(timer_just_finished: bool, health: &Health, stage: &mut BossStage)
    ensures
        (timer_just_finished && old(stage).spec_is_vulnerable() && health.hp > 0)
            ==> *final(stage) == BossStage::first_stage_below(health.hp as int),
        !(timer_just_finished && old(stage).spec_is_vulnerable() && health.hp > 0)
            ==> *final(stage) == *old(stage),
{
    if timer_just_finished && stage.is_vulnerable_stage() {
        boss_advance_stage(health, stage);
    }
}

/// A boss that has finished summoning becomes vulnerable once none of its
/// summoned enemies is left. Returns whether it did.
pub fn boss_enter_vulnerable(summoned_left: usize, stage: &mut BossStage) -> (entered: bool)
    ensures
        entered == (summoned_left == 0 && old(stage).spec_is_summon()),
        entered ==> *final(stage) == old(stage).spec_next() && final(stage).spec_is_vulnerable(),
        !entered ==> *final(stage) == *old(stage),
{
    if summoned_left != 0 || !stage.is_summon_stage() {
        return false;
    }
    stage.advance();
    true
}

/// The first hit on a waiting boss starts the fight at the stage its health selects.
pub fn boss_got_hurt(has_hit: bool, health: &Health, stage: &mut BossStage)
    requires
        (has_hit && *old(stage) == BossStage::Waiting) ==> health.hp > 0,
    ensures
        (has_hit && *old(stage) == BossStage::Waiting)
            ==> *final(stage) == BossStage::first_stage_below(health.hp as int),
        !(has_hit && *old(stage) == BossStage::Waiting) ==> *final(stage) == *old(stage),
{
    if has_hit && *stage == BossStage::Waiting {
        *stage = BossStage::from_health(health.hp);
    }
}

/// Each stage but the last is followed by the stage one place later in play order.
pub proof fn lemma_next_is_one_step(s: BossStage)
    requires
        s != BossStage::Enraged,
    ensures
        s.spec_next().order_index() == s.order_index() + 1,
{
}

/// Thresholds never rise as the fight goes on.
pub proof fn lemma_thresholds_non_increasing(s: BossStage, t: BossStage)
    requires
        s.order_index() <= t.order_index(),
    ensures
        t.spec_threshold() <= s.spec_threshold(),
{
}

/// More health never selects a later stage.
pub proof fn lemma_from_health_monotone(h1: int, h2: int)
    requires
        0 < h1 <= h2,
    ensures
        BossStage::first_stage_below(h2).order_index() <= BossStage::first_stage_below(h1).order_index(),
{
}

/// A stage chosen from health is never a vulnerable stage: each vulnerable
/// stage shares its threshold with the summon stage before it.
pub proof fn lemma_from_health_skips_vulnerable(h: int)
    requires
        h > 0,
    ensures
        !BossStage::first_stage_below(h).spec_is_vulnerable(),
{
}

/// No stage is both a summon stage and a vulnerable stage.
pub proof fn lemma_summon_and_vulnerable_exclusive(s: BossStage)
    ensures
        !(s.spec_is_summon() && s.spec_is_vulnerable()),
{
}

/// A summon stage is followed by a vulnerable stage with the same threshold.
pub proof fn lemma_summon_then_vulnerable(s: BossStage)
    requires
        s.spec_is_summon(),
    ensures
        s.spec_next().spec_is_vulnerable(),
        s.spec_next().spec_threshold() == s.spec_threshold(),
{
}

/// A vulnerable stage is followed by a summon stage or by the enraged stage.
pub proof fn lemma_vulnerable_then_summon_or_enraged(s: BossStage)
    requires
        s.spec_is_vulnerable(),
    ensures
        s.spec_next().spec_is_summon() || s.spec_next() == BossStage::Enraged,
{
}

/// Losing health past a stage's threshold always moves the fight forward.
pub proof fn lemma_stage_progress(s: BossStage, hp: int)
    requires
        0 < hp < s.spec_threshold(),
    ensures
        BossStage::first_stage_below(hp).order_index() > s.order_index(),
{
}

/// The stage a health selects is the one whose band holds it: its threshold lies
/// below the health, and the threshold of the stage before it does not.
pub proof fn lemma_health_band(hp: int)
    requires
        hp > 0,
    ensures
        BossStage::first_stage_below(hp).spec_threshold() < hp,
        BossStage::first_stage_below(hp) != BossStage::Waiting ==> hp <= stage_order()[BossStage::first_stage_below(hp).order_index() - 1].spec_threshold(),
{
}

} // verus!
