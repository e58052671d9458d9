use vstd::prelude::*;

verus! {

/// Conditions on which a state machine leaves a state.
#[derive(Clone, Copy, Debug, PartialEq, Eq, Structural)]
pub enum TriggerKind {
    /// Fires every frame.
    Always,
    /// The negation of `Always`: never fires.
    NotAlways,
    /// The current state reported success.
    DoneSuccess,
    /// A hit is pending.
    Hurt,
    /// Health is used up.
    Death,
    /// The boss is in a summon stage.
    Summon,
    /// The boss is in a vulnerable stage.
    Vulnerable,
    /// The boss is enraged.
    Enraged,
    /// The enraged boss's current move is a rest.
    Rest,
    /// The enraged boss's rest is over.
    PickNextMove,
    ChargeLeft,
    ChargeRight,
    Hover,
    Relocate,
    Slam,
    Boom,
    Takeoff,
    Leap,
    /// A coin has a collector to go to and has landed.
    CollectorInRange,
    /// A coin reached its collector.
    PickedUp,
    /// A projectile ran into something.
    Collided,
    /// A projectile's lifetime ran out.
    Expiration,
}

/// Whether a trigger can ever fire.
pub open spec fn can_fire(t: TriggerKind) -> bool {
    t != TriggerKind::NotAlways
}

/// A transition of a state machine: in state `from`, when `trigger` fires, go to `to`.
#[derive(Clone, Copy, Debug, PartialEq, Eq, Structural)]
pub struct Transition<S> {
    pub from: S,
    pub trigger: TriggerKind,
    pub to: S,
}

/// States of the boss.
#[derive(Clone, Copy, Debug, PartialEq, Eq, Structural)]
pub enum BossState {
    Idle,
    Hurt,
    Summon,
    BeginVulnerable,
    Vulnerable,
    BeginEnraged,
    AbilityStartup,
    Rest,
    PickNextMove,
    Charge,
    Hover,
    Relocate,
    Slam,
    Boom,
    Takeoff,
    Leap,
    Fall,
    Die,
}

/// The boss's transitions, in the order they are declared.
pub open spec fn boss_transitions_spec() -> Seq<Transition<BossState>> {
    seq![
        Transition { from: BossState::Hurt, trigger: TriggerKind::DoneSuccess, to: BossState::Idle },
        Transition { from: BossState::Idle, trigger: TriggerKind::Hurt, to: BossState::Hurt },
        Transition { from: BossState::Idle, trigger: TriggerKind::Summon, to: BossState::Summon },
        Transition { from: BossState::Hurt, trigger: TriggerKind::Summon, to: BossState::Summon },
        Transition { from: BossState::Summon, trigger: TriggerKind::Vulnerable, to: BossState::BeginVulnerable },
        Transition { from: BossState::BeginVulnerable, trigger: TriggerKind::Always, to: BossState::Vulnerable },
        Transition { from: BossState::Vulnerable, trigger: TriggerKind::Summon, to: BossState::Summon },
        Transition { from: BossState::Vulnerable, trigger: TriggerKind::Hurt, to: BossState::Hurt },
        Transition { from: BossState::Idle, trigger: TriggerKind::Vulnerable, to: BossState::Vulnerable },
        Transition { from: BossState::Vulnerable, trigger: TriggerKind::Enraged, to: BossState::BeginEnraged },
        Transition { from: BossState::BeginEnraged, trigger: TriggerKind::Always, to: BossState::AbilityStartup },
        Transition { from: BossState::Idle, trigger: TriggerKind::Rest, to: BossState::Rest },
        Transition { from: BossState::Rest, trigger: TriggerKind::Hurt, to: BossState::Hurt },
        Transition { from: BossState::Rest, trigger: TriggerKind::DoneSuccess, to: BossState::PickNextMove },
        Transition { from: BossState::Hurt, trigger: TriggerKind::PickNextMove, to: BossState::PickNextMove },
        Transition { from: BossState::Idle, trigger: TriggerKind::ChargeLeft, to: BossState::Charge },
        Transition { from: BossState::Charge, trigger: TriggerKind::DoneSuccess, to: BossState::PickNextMove },
        Transition { from: BossState::Idle, trigger: TriggerKind::ChargeRight, to: BossState::Charge },
        Transition { from: BossState::Charge, trigger: TriggerKind::DoneSuccess, to: BossState::PickNextMove },
        Transition { from: BossState::Idle, trigger: TriggerKind::Hover, to: BossState::Hover },
        Transition { from: BossState::Hover, trigger: TriggerKind::DoneSuccess, to: BossState::PickNextMove },
        Transition { from: BossState::Idle, trigger: TriggerKind::Relocate, to: BossState::Relocate },
        Transition { from: BossState::Relocate, trigger: TriggerKind::DoneSuccess, to: BossState::PickNextMove },
        Transition { from: BossState::Idle, trigger: TriggerKind::Slam, to: BossState::Slam },
        Transition { from: BossState::Slam, trigger: TriggerKind::DoneSuccess, to: BossState::PickNextMove },
        Transition { from: BossState::Idle, trigger: TriggerKind::Boom, to: BossState::Boom },
        Transition { from: BossState::Boom, trigger: TriggerKind::DoneSuccess, to: BossState::PickNextMove },
        Transition { from: BossState::Idle, trigger: TriggerKind::Takeoff, to: BossState::Takeoff },
        Transition { from: BossState::Takeoff, trigger: TriggerKind::DoneSuccess, to: BossState::PickNextMove },
        Transition { from: BossState::Idle, trigger: TriggerKind::Leap, to: BossState::Leap },
        Transition { from: BossState::Leap, trigger: TriggerKind::DoneSuccess, to: BossState::PickNextMove },
        Transition { from: BossState::PickNextMove, trigger: TriggerKind::Always, to: BossState::AbilityStartup },
        Transition { from: BossState::AbilityStartup, trigger: TriggerKind::Always, to: BossState::Idle },
        Transition { from: BossState::Fall, trigger: TriggerKind::Death, to: BossState::Die },
        Transition { from: BossState::Idle, trigger: TriggerKind::Death, to: BossState::Die },
        Transition { from: BossState::Hurt, trigger: TriggerKind::Death, to: BossState::Die },
        Transition { from: BossState::Rest, trigger: TriggerKind::Death, to: BossState::Die },
        Transition { from: BossState::Leap, trigger: TriggerKind::Death, to: BossState::Die },
        Transition { from: BossState::Boom, trigger: TriggerKind::Death, to: BossState::Die },
        Transition { from: BossState::Relocate, trigger: TriggerKind::Death, to: BossState::Die },
        Transition { from: BossState::Charge, trigger: TriggerKind::Death, to: BossState::Die },
        Transition { from: BossState::Hover, trigger: TriggerKind::Death, to: BossState::Die },
        Transition { from: BossState::Slam, trigger: TriggerKind::Death, to: BossState::Die },
        Transition { from: BossState::Die, trigger: TriggerKind::NotAlways, to: BossState::Die },
    ]
}

/// The state the boss starts in.
pub fn boss_initial_state() -> (r: BossState)
    ensures
        r == BossState::Idle,
{
    BossState::Idle
}

/// The boss's transitions, in the order they are declared.
pub fn boss_state_machine() -> (r: Vec<Transition<BossState>>)
    ensures
        r@ == boss_transitions_spec(),
{
    let mut v: Vec<Transition<BossState>> = Vec::new();
    v.push(Transition { from: BossState::Hurt, trigger: TriggerKind::DoneSuccess, to: BossState::Idle });
    v.push(Transition { from: BossState::Idle, trigger: TriggerKind::Hurt, to: BossState::Hurt });
    v.push(Transition { from: BossState::Idle, trigger: TriggerKind::Summon, to: BossState::Summon });
    v.push(Transition { from: BossState::Hurt, trigger: TriggerKind::Summon, to: BossState::Summon });
    v.push(Transition { from: BossState::Summon, trigger: TriggerKind::Vulnerable, to: BossState::BeginVulnerable });
    v.push(Transition { from: BossState::BeginVulnerable, trigger: TriggerKind::Always, to: BossState::Vulnerable });
    v.push(Transition { from: BossState::Vulnerable, trigger: TriggerKind::Summon, to: BossState::Summon });
    v.push(Transition { from: BossState::Vulnerable, trigger: TriggerKind::Hurt, to: BossState::Hurt });
    v.push(Transition { from: BossState::Idle, trigger: TriggerKind::Vulnerable, to: BossState::Vulnerable });
    v.push(Transition { from: BossState::Vulnerable, trigger: TriggerKind::Enraged, to: BossState::BeginEnraged });
    v.push(Transition { from: BossState::BeginEnraged, trigger: TriggerKind::Always, to: BossState::AbilityStartup });
    v.push(Transition { from: BossState::Idle, trigger: TriggerKind::Rest, to: BossState::Rest });
    v.push(Transition { from: BossState::Rest, trigger: TriggerKind::Hurt, to: BossState::Hurt });
    v.push(Transition { from: BossState::Rest, trigger: TriggerKind::DoneSuccess, to: BossState::PickNextMove });
    v.push(Transition { from: BossState::Hurt, trigger: TriggerKind::PickNextMove, to: BossState::PickNextMove });
    v.push(Transition { from: BossState::Idle, trigger: TriggerKind::ChargeLeft, to: BossState::Charge });
    v.push(Transition { from: BossState::Charge, trigger: TriggerKind::DoneSuccess, to: BossState::PickNextMove });
    v.push(Transition { from: BossState::Idle, trigger: TriggerKind::ChargeRight, to: BossState::Charge });
    v.push(Transition { from: BossState::Charge, trigger: TriggerKind::DoneSuccess, to: BossState::PickNextMove });
    v.push(Transition { from: BossState::Idle, trigger: TriggerKind::Hover, to: BossState::Hover });
    v.push(Transition { from: BossState::Hover, trigger: TriggerKind::DoneSuccess, to: BossState::PickNextMove });
    v.push(Transition { from: BossState::Idle, trigger: TriggerKind::Relocate, to: BossState::Relocate });
    v.push(Transition { from: BossState::Relocate, trigger: TriggerKind::DoneSuccess, to: BossState::PickNextMove });
    v.push(Transition { from: BossState::Idle, trigger: TriggerKind::Slam, to: BossState::Slam });
    v.push(Transition { from: BossState::Slam, trigger: TriggerKind::DoneSuccess, to: BossState::PickNextMove });
    v.push(Transition { from: BossState::Idle, trigger: TriggerKind::Boom, to: BossState::Boom });
    v.push(Transition { from: BossState::Boom, trigger: TriggerKind::DoneSuccess, to: BossState::PickNextMove });
    v.push(Transition { from: BossState::Idle, trigger: TriggerKind::Takeoff, to: BossState::Takeoff });
    v.push(Transition { from: BossState::Takeoff, trigger: TriggerKind::DoneSuccess, to: BossState::PickNextMove });
    v.push(Transition { from: BossState::Idle, trigger: TriggerKind::Leap, to: BossState::Leap });
    v.push(Transition { from: BossState::Leap, trigger: TriggerKind::DoneSuccess, to: BossState::PickNextMove });
    v.push(Transition { from: BossState::PickNextMove, trigger: TriggerKind::Always, to: BossState::AbilityStartup });
    v.push(Transition { from: BossState::AbilityStartup, trigger: TriggerKind::Always, to: BossState::Idle });
    v.push(Transition { from: BossState::Fall, trigger: TriggerKind::Death, to: BossState::Die });
    v.push(Transition { from: BossState::Idle, trigger: TriggerKind::Death, to: BossState::Die });
    v.push(Transition { from: BossState::Hurt, trigger: TriggerKind::Death, to: BossState::Die });
    v.push(Transition { from: BossState::Rest, trigger: TriggerKind::Death, to: BossState::Die });
    v.push(Transition { from: BossState::Leap, trigger: TriggerKind::Death, to: BossState::Die });
    v.push(Transition { from: BossState::Boom, trigger: TriggerKind::Death, to: BossState::Die });
    v.push(Transition { from: BossState::Relocate, trigger: TriggerKind::Death, to: BossState::Die });
    v.push(Transition { from: BossState::Charge, trigger: TriggerKind::Death, to: BossState::Die });
    v.push(Transition { from: BossState::Hover, trigger: TriggerKind::Death, to: BossState::Die });
    v.push(Transition { from: BossState::Slam, trigger: TriggerKind::Death, to: BossState::Die });
    v.push(Transition { from: BossState::Die, trigger: TriggerKind::NotAlways, to: BossState::Die });
    assert(v@ =~= boss_transitions_spec());
    v
}

/// Whether `t` is one of the boss's transitions.
pub open spec fn is_boss_transition(t: Transition<BossState>) -> bool {
    boss_transitions_spec().contains(t)
}

/// A dead boss stays dead: the only transition out of `Die` waits on a trigger
/// that never fires, and leads back to `Die`.
pub proof fn lemma_boss_death_is_final(t: Transition<BossState>)
    requires
        is_boss_transition(t),
        t.from == BossState::Die,
    ensures
        !can_fire(t.trigger),
        t.to == BossState::Die,
{
    let s = boss_transitions_spec();
    let k = choose|k: int| 0 <= k < s.len() && s[k] == t;
    assert(0 <= k < s.len() && s[k] == t);
}

/// The boss only dies of its health running out.
pub proof fn lemma_boss_dies_only_of_death(t: Transition<BossState>)
    requires
        is_boss_transition(t),
        t.to == BossState::Die,
        t.from != BossState::Die,
    ensures
        t.trigger == TriggerKind::Death,
{
    let s = boss_transitions_spec();
    let k = choose|k: int| 0 <= k < s.len() && s[k] == t;
    assert(0 <= k < s.len() && s[k] == t);
}

/// Running out of health always leads to `Die`.
pub proof fn lemma_boss_death_trigger_kills(t: Transition<BossState>)
    requires
        is_boss_transition(t),
        t.trigger == TriggerKind::Death,
    ensures
        t.to == BossState::Die,
{
    let s = boss_transitions_spec();
    let k = choose|k: int| 0 <= k < s.len() && s[k] == t;
    assert(0 <= k < s.len() && s[k] == t);
}

/// The boss passes through `BeginVulnerable`, `BeginEnraged`, `PickNextMove` and
/// `AbilityStartup` without stopping: each is left on the trigger that always fires.
pub proof fn lemma_boss_passing_states(t: Transition<BossState>)
    requires
        is_boss_transition(t),
        t.from == BossState::BeginVulnerable || t.from == BossState::BeginEnraged
            || t.from == BossState::PickNextMove || t.from == BossState::AbilityStartup,
    ensures
        t.trigger == TriggerKind::Always,
{
    let s = boss_transitions_spec();
    let k = choose|k: int| 0 <= k < s.len() && s[k] == t;
    assert(0 <= k < s.len() && s[k] == t);
}

/// Every enraged attack ends by picking the next move, once it reports success.
pub proof fn lemma_boss_attacks_end_in_pick(t: Transition<BossState>)
    requires
        is_boss_transition(t),
        t.trigger == TriggerKind::DoneSuccess,
        t.from != BossState::Hurt,
    ensures
        t.to == BossState::PickNextMove,
{
    let s = boss_transitions_spec();
    let k = choose|k: int| 0 <= k < s.len() && s[k] == t;
    assert(0 <= k < s.len() && s[k] == t);
}

/// Whenever a summon stage begins, the boss goes to `Summon`: every transition on
/// the `Summon` trigger leads there, and the idle, hurt and vulnerable boss each
/// have one.
pub proof fn lemma_boss_summon_trigger_summons(t: Transition<BossState>)
    requires
        is_boss_transition(t),
        t.trigger == TriggerKind::Summon,
    ensures
        t.to == BossState::Summon,
        is_boss_transition(Transition { from: BossState::Idle, trigger: TriggerKind::Summon, to: BossState::Summon }),
        is_boss_transition(Transition { from: BossState::Hurt, trigger: TriggerKind::Summon, to: BossState::Summon }),
        is_boss_transition(Transition { from: BossState::Vulnerable, trigger: TriggerKind::Summon, to: BossState::Summon }),
{
    let s = boss_transitions_spec();
    let k = choose|k: int| 0 <= k < s.len() && s[k] == t;
    assert(0 <= k < s.len() && s[k] == t);
    assert(s[2] == Transition { from: BossState::Idle, trigger: TriggerKind::Summon, to: BossState::Summon });
    assert(s[3] == Transition { from: BossState::Hurt, trigger: TriggerKind::Summon, to: BossState::Summon });
    assert(s[6] == Transition { from: BossState::Vulnerable, trigger: TriggerKind::Summon, to: BossState::Summon });
}

/// States of a coin.
#[derive(Clone, Copy, Debug, PartialEq, Eq, Structural)]
pub enum CoinState {
    Idle,
    Follow,
    Die,
}

/// The coin's transitions, in the order they are declared.
pub open spec fn coin_transitions_spec() -> Seq<Transition<CoinState>> {
    seq![
        Transition { from: CoinState::Idle, trigger: TriggerKind::CollectorInRange, to: CoinState::Follow },
        Transition { from: CoinState::Follow, trigger: TriggerKind::PickedUp, to: CoinState::Die },
        Transition { from: CoinState::Die, trigger: TriggerKind::NotAlways, to: CoinState::Die },
    ]
}

/// The state a coin starts in.
pub fn coin_initial_state() -> (r: CoinState)
    ensures
        r == CoinState::Idle,
{
    CoinState::Idle
}

/// The coin's transitions, in the order they are declared.
pub fn coin_state_machine() -> (r: Vec<Transition<CoinState>>)
    ensures
        r@ == coin_transitions_spec(),
{
    let mut v: Vec<Transition<CoinState>> = Vec::new();
    v.push(Transition { from: CoinState::Idle, trigger: TriggerKind::CollectorInRange, to: CoinState::Follow });
    v.push(Transition { from: CoinState::Follow, trigger: TriggerKind::PickedUp, to: CoinState::Die });
    v.push(Transition { from: CoinState::Die, trigger: TriggerKind::NotAlways, to: CoinState::Die });
    assert(v@ =~= coin_transitions_spec());
    v
}

/// A coin is only used up after following a collector and being picked up,
/// and stays used up.
pub proof fn lemma_coin_dies_after_pickup(t: Transition<CoinState>)
    requires
        coin_transitions_spec().contains(t),
    ensures
        (t.to == CoinState::Die && t.from != CoinState::Die)
            ==> (t.from == CoinState::Follow && t.trigger == TriggerKind::PickedUp),
        t.from == CoinState::Die ==> (t.to == CoinState::Die && !can_fire(t.trigger)),
{
    let s = coin_transitions_spec();
    let k = choose|k: int| 0 <= k < s.len() && s[k] == t;
    assert(0 <= k < s.len() && s[k] == t);
}

/// States of a short-lived attack (projectile, explosion, spore cloud).
#[derive(Clone, Copy, Debug, PartialEq, Eq, Structural)]
pub enum AttackState {
    Active,
    Die { should_despawn: bool },
}

/// The projectile's transitions, in the order they are declared.
pub open spec fn projectile_transitions_spec() -> Seq<Transition<AttackState>> {
    seq![
        Transition { from: AttackState::Active, trigger: TriggerKind::Collided, to: AttackState::Die { should_despawn: true } },
        Transition { from: AttackState::Active, trigger: TriggerKind::Expiration, to: AttackState::Die { should_despawn: true } },
        Transition { from: AttackState::Die { should_despawn: true }, trigger: TriggerKind::NotAlways, to: AttackState::Die { should_despawn: true } },
    ]
}

/// The projectile's transitions, in the order they are declared.
pub fn projectile_state_machine() -> (r: Vec<Transition<AttackState>>)
    ensures
        r@ == projectile_transitions_spec(),
{
    let death = AttackState::Die { should_despawn: true };
    let mut v: Vec<Transition<AttackState>> = Vec::new();
    v.push(Transition { from: AttackState::Active, trigger: TriggerKind::Collided, to: death });
    v.push(Transition { from: AttackState::Active, trigger: TriggerKind::Expiration, to: death });
    v.push(Transition { from: death, trigger: TriggerKind::NotAlways, to: death });
    assert(v@ =~= projectile_transitions_spec());
    v
}

/// The explosion's transitions, in the order they are declared.
pub open spec fn explosion_transitions_spec() -> Seq<Transition<AttackState>> {
    seq![
        Transition { from: AttackState::Active, trigger: TriggerKind::DoneSuccess, to: AttackState::Die { should_despawn: false } },
        Transition { from: AttackState::Die { should_despawn: false }, trigger: TriggerKind::NotAlways, to: AttackState::Active },
    ]
}

/// The explosion's transitions, in the order they are declared.
pub fn explosion_attack_state_machine() -> (r: Vec<Transition<AttackState>>)
    ensures
        r@ == explosion_transitions_spec(),
{
    let mut v: Vec<Transition<AttackState>> = Vec::new();
    v.push(Transition { from: AttackState::Active, trigger: TriggerKind::DoneSuccess, to: AttackState::Die { should_despawn: false } });
    v.push(Transition { from: AttackState::Die { should_despawn: false }, trigger: TriggerKind::NotAlways, to: AttackState::Active });
    assert(v@ =~= explosion_transitions_spec());
    v
}

/// The spore cloud's transitions, in the order they are declared.
pub open spec fn spore_cloud_transitions_spec() -> Seq<Transition<AttackState>> {
    seq![
        Transition { from: AttackState::Active, trigger: TriggerKind::DoneSuccess, to: AttackState::Die { should_despawn: true } },
        Transition { from: AttackState::Die { should_despawn: true }, trigger: TriggerKind::NotAlways, to: AttackState::Active },
    ]
}

/// The spore cloud's transitions, in the order they are declared.
pub fn spore_cloud_attack_state_machine() -> (r: Vec<Transition<AttackState>>)
    ensures
        r@ == spore_cloud_transitions_spec(),
{
    let mut v: Vec<Transition<AttackState>> = Vec::new();
    v.push(Transition { from: AttackState::Active, trigger: TriggerKind::DoneSuccess, to: AttackState::Die { should_despawn: true } });
    v.push(Transition { from: AttackState::Die { should_despawn: true }, trigger: TriggerKind::NotAlways, to: AttackState::Active });
    assert(v@ =~= spore_cloud_transitions_spec());
    v
}

/// The state every short-lived attack starts in.
pub fn attack_initial_state() -> (r: AttackState)
    ensures
        r == AttackState::Active,
{
    AttackState::Active
}

/// Short-lived attacks never leave `Die`: the way back to `Active` waits on a
/// trigger that never fires.
pub proof fn lemma_attacks_stay_dead(t: Transition<AttackState>)
    requires
        projectile_transitions_spec().contains(t) || explosion_transitions_spec().contains(t)
            || spore_cloud_transitions_spec().contains(t),
        t.from is Die,
    ensures
        !can_fire(t.trigger),
{
    if projectile_transitions_spec().contains(t) {
        let s = projectile_transitions_spec();
        let k = choose|k: int| 0 <= k < s.len() && s[k] == t;
        assert(0 <= k < s.len() && s[k] == t);
    } else if explosion_transitions_spec().contains(t) {
        let s = explosion_transitions_spec();
        let k = choose|k: int| 0 <= k < s.len() && s[k] == t;
        assert(0 <= k < s.len() && s[k] == t);
    } else {
        let s = spore_cloud_transitions_spec();
        let k = choose|k: int| 0 <= k < s.len() && s[k] == t;
        assert(0 <= k < s.len() && s[k] == t);
    }
}

/// An attack leaves `Active` only on its own event, never on the trigger that
/// fires every frame: a projectile when it collides or expires, an explosion and
/// a spore cloud when their attack reports success. Each of those events ends
/// the attack, and only the spore cloud and the projectile are despawned.
pub proof fn lemma_attacks_end_on_their_event(t: Transition<AttackState>)
    ensures
        projectile_transitions_spec().contains(t) && t.from == AttackState::Active
            ==> (t.trigger == TriggerKind::Collided || t.trigger == TriggerKind::Expiration),
        explosion_transitions_spec().contains(t) && t.from == AttackState::Active
            ==> t.trigger == TriggerKind::DoneSuccess,
        spore_cloud_transitions_spec().contains(t) && t.from == AttackState::Active
            ==> t.trigger == TriggerKind::DoneSuccess,
        projectile_transitions_spec().contains(Transition {
            from: AttackState::Active, trigger: TriggerKind::Collided, to: AttackState::Die { should_despawn: true } }),
        projectile_transitions_spec().contains(Transition {
            from: AttackState::Active, trigger: TriggerKind::Expiration, to: AttackState::Die { should_despawn: true } }),
        explosion_transitions_spec().contains(Transition {
            from: AttackState::Active, trigger: TriggerKind::DoneSuccess, to: AttackState::Die { should_despawn: false } }),
        spore_cloud_transitions_spec().contains(Transition {
            from: AttackState::Active, trigger: TriggerKind::DoneSuccess, to: AttackState::Die { should_despawn: true } }),
{
    let p = projectile_transitions_spec();
    let e = explosion_transitions_spec();
    let c = spore_cloud_transitions_spec();
    if p.contains(t) {
        let k = choose|k: int| 0 <= k < p.len() && p[k] == t;
        assert(0 <= k < p.len() && p[k] == t);
    }
    if e.contains(t) {
        let k = choose|k: int| 0 <= k < e.len() && e[k] == t;
        assert(0 <= k < e.len() && e[k] == t);
    }
    if c.contains(t) {
        let k = choose|k: int| 0 <= k < c.len() && c[k] == t;
        assert(0 <= k < c.len() && c[k] == t);
    }
    assert(p[0].from == AttackState::Active);
    assert(p[1].from == AttackState::Active);
    assert(e[0].from == AttackState::Active);
    assert(c[0].from == AttackState::Active);
}

/// A projectile that dies is always despawned.
pub proof fn lemma_projectile_death_despawns(t: Transition<AttackState>)
    requires
        projectile_transitions_spec().contains(t),
    ensures
        t.to == (AttackState::Die { should_despawn: true }),
{
    let s = projectile_transitions_spec();
    let k = choose|k: int| 0 <= k < s.len() && s[k] == t;
    assert(0 <= k < s.len() && s[k] == t);
}

} // verus!
