use vstd::prelude::*;
use crate::layers::CombatLayerMask;

verus! {

/// Hit points of an entity.
#[derive(Clone, Copy, Debug, PartialEq, Eq, Structural)]
pub struct Health {
    pub hp: i32,
    pub max_hp: i32,
}

impl Health {
    /// Full health of `hp` points.
    pub fn new(hp: i32) -> (r: Self)
        ensures
            r.hp == hp,
            r.max_hp == hp,
    {
        Self::new_with_max(hp, hp)
    }

    /// `hp` points out of `max_hp`.
    pub fn new_with_max(hp: i32, max_hp: i32) -> (r: Self)
        ensures
            r.hp == hp,
            r.max_hp == max_hp,
    {
        Health { hp, max_hp }
    }

    /// The death trigger: an entity dies once its health reaches zero.
    pub fn is_depleted(&self) -> (r: bool)
        ensures
            r == (self.hp <= 0),
    {
        self.hp <= 0
    }
}

impl Default for Health {
    fn default() -> (r: Self)
        ensures
            r.hp == 0,
            r.max_hp == 0,
    {
        Health { hp: 0, max_hp: 0 }
    }
}

/// Damage an attack deals.
#[derive(Clone, Copy, Debug, PartialEq, Eq, Structural)]
pub struct AttackStrength {
    pub power: i32,
}

impl AttackStrength {
    pub fn new(n: i32) -> (r: Self)
        ensures
            r.power == n,
    {
        Self { power: n }
    }
}

impl Default for AttackStrength {
    fn default() -> (r: Self)
        ensures
            r.power == 0,
    {
        Self { power: 0 }
    }
}

/// Whether an entity currently ignores hits.
#[derive(Clone, Copy, Debug, PartialEq, Eq, Structural)]
pub struct Immunity {
    pub is_immune: bool,
}

impl Default for Immunity {
    fn default() -> (r: Self)
        ensures
            !r.is_immune,
    {
        Immunity { is_immune: false }
    }
}

/// An attack shaped like its owner's body; it only hurts while enabled.
#[derive(Clone, Copy, Debug, PartialEq, Eq, Structural)]
pub struct ColliderAttack {
    pub enabled: bool,
}

impl Default for ColliderAttack {
    fn default() -> (r: Self)
        ensures
            r.enabled,
    {
        Self { enabled: true }
    }
}

/// What becomes of a hit that reaches an entity able to be hurt.
#[derive(Clone, Copy, Debug, PartialEq, Eq, Structural)]
pub enum HitResolution {
    /// The target is immune: the hit is dropped and any pending hit is cleared.
    ClearPending,
    /// The target is already reacting to a hit: this one is dropped.
    Ignored,
    /// The hit lands: the target loses the absolute value of the damage.
    Applied { hp: i32 },
}

pub open spec fn abs(x: int) -> int {
    if x < 0 { -x } else { x }
}

/// Decides a hit on a target that is neither hurt nor dying.
pub open spec fn spec_resolve_hit(hp: int, immune: bool, has_pending: bool, damage: int) -> HitResolution {
    if immune {
        HitResolution::ClearPending
    } else if has_pending {
        HitResolution::Ignored
    } else {
        HitResolution::Applied { hp: (hp - abs(damage)) as i32 }
    }
}

/// Whether a hit can land without the health counter leaving the range of `i32`.
pub open spec fn hit_fits(hp: int, damage: int) -> bool {
    damage != i32::MIN && hp - abs(damage) >= i32::MIN
}

/// Decides a hit on a target that is neither hurt nor dying: an immune target
/// clears its pending hit, a target with a pending hit ignores the new one,
/// any other target loses the absolute value of the damage.
pub fn resolve_hit(hp: i32, immune: bool, has_pending: bool, damage: i32) -> (r: HitResolution)
    requires
        (!immune && !has_pending) ==> hit_fits(hp as int, damage as int),
    ensures
        r == spec_resolve_hit(hp as int, immune, has_pending, damage as int),
        r matches HitResolution::Applied { hp: h } ==> h == hp - abs(damage as int),
{
    if immune {
        HitResolution::ClearPending
    } else if has_pending {
        HitResolution::Ignored
    } else {
        let d: i32 = if damage < 0 { -damage } else { damage };
        HitResolution::Applied { hp: hp - d }
    }
}

/// Applies a hit to a health component and a pending-hit flag, returning whether it landed.
pub fn apply_hit(health: &mut Health, pending: &mut bool, immune: bool, damage: i32) -> (landed: bool)
    requires
        (!immune && !*old(pending)) ==> hit_fits(old(health).hp as int, damage as int),
    ensures
        landed == (!immune && !*old(pending)),
        landed ==> final(health).hp == old(health).hp - abs(damage as int) && *final(pending),
        !landed ==> final(health).hp == old(health).hp,
        immune ==> !*final(pending),
        (!immune && *old(pending)) ==> *final(pending),
        final(health).max_hp == old(health).max_hp,
{
    match resolve_hit(health.hp, immune, *pending, damage) {
        HitResolution::ClearPending => {
            *pending = false;
            false
        },
        HitResolution::Ignored => false,
        HitResolution::Applied { hp } => {
            health.hp = hp;
            *pending = true;
            true
        },
    }
}

/// Whether a collider or melee attack from `attacker` hurts a target on `target`:
/// attacks never hurt allies.
pub fn attack_hits(target: CombatLayerMask, attacker: CombatLayerMask) -> (r: bool)
    ensures
        r == (target.view_bits() & attacker.view_bits() == 0),
{
    !target.is_ally_with(attacker)
}

/// Whether a projectile from `attacker` hurts a target on `target`:
/// it spares allies and immune targets.
pub fn projectile_hits(target: CombatLayerMask, attacker: CombatLayerMask, target_immune: bool) -> (r: bool)
    ensures
        r == (target.view_bits() & attacker.view_bits() == 0 && !target_immune),
{
    !(target.is_ally_with(attacker) || target_immune)
}

/// Damage dealt by a projectile that runs into an enemy.
pub const PROJECTILE_IMPACT_DAMAGE: i32 = 2;

/// Outcome of a projectile's frame: whether it disappears, and which of the
/// touched targets it hurts.
#[derive(Clone, Debug, PartialEq, Eq)]
pub struct ImpactOutcome {
    pub despawn: bool,
    pub hits: Vec<bool>,
}

/// A projectile hurts every touched target that is not its ally, dealing
/// `PROJECTILE_IMPACT_DAMAGE`, and disappears when it touches a wall or hurts someone.
pub fn projectile_impact(hit_wall: bool, touched: &Vec<CombatLayerMask>, own: CombatLayerMask) -> (r: ImpactOutcome)
    ensures
        r.hits.len() == touched.len(),
        forall|i: int| 0 <= i < touched.len()
            ==> r.hits@[i] == (touched@[i].view_bits() & own.view_bits() == 0),
        r.despawn == (hit_wall || exists|i: int| 0 <= i < touched.len() && #[trigger] r.hits@[i]),
{
    let mut hits: Vec<bool> = Vec::new();
    let mut any = false;
    let mut i: usize = 0;
    while i < touched.len()
        invariant
            0 <= i <= touched.len(),
            hits.len() == i,
            forall|k: int| 0 <= k < i ==> hits@[k] == (touched@[k].view_bits() & own.view_bits() == 0),
            any == exists|k: int| 0 <= k < i && #[trigger] hits@[k],
        decreases touched.len() - i,
    {
        let h = !touched[i].is_ally_with(own);
        let ghost before = hits@;
        hits.push(h);
        assert(hits@[i as int] == h);
        assert(forall|k: int| 0 <= k < i ==> hits@[k] == before[k]);
        if h {
            any = true;
        }
        proof {
            if any && !h {
                let w = choose|k: int| 0 <= k < i && #[trigger] before[k];
                assert(hits@[w]);
            }
            if !any {
                assert forall|k: int| 0 <= k < i + 1 implies !hits@[k] by {
                    if k < i {
                        assert(!before[k]);
                    }
                }
            }
        }
        i = i + 1;
    }
    ImpactOutcome { despawn: hit_wall || any, hits }
}

/// Changes that one frame of a hurt reaction makes, once its timers have ticked.
#[derive(Clone, Copy, Debug, PartialEq, Eq, Structural)]
pub struct HurtUpdate {
    /// The hurt state is over.
    pub done: bool,
    pub is_immune: bool,
    pub should_disable_immunity: bool,
}

/// One frame of a hurt reaction. `regain_control_just_finished` is `None` when the
/// entity has no regain-control timer. The hurt state ends when control comes back
/// while hurting; when the immunity timer runs out, immunity is dropped unless
/// something asked to keep it, and that request is spent.
pub fn hurt_update(
    regain_control_just_finished: Option<bool>,
    hurting: bool,
    immunity_just_finished: bool,
    should_disable_immunity: bool,
    is_immune: bool,
) -> (r: HurtUpdate)
    ensures
        r.done == (regain_control_just_finished == Some(true) && hurting),
        r.is_immune == (if immunity_just_finished && should_disable_immunity { false } else { is_immune }),
        r.should_disable_immunity == (immunity_just_finished || should_disable_immunity),
{
    let done = match regain_control_just_finished {
        Some(j) => j && hurting,
        None => false,
    };
    let mut immune = is_immune;
    let mut disable = should_disable_immunity;
    if immunity_just_finished {
        if disable {
            immune = false;
        }
        disable = true;
    }
    HurtUpdate { done, is_immune: immune, should_disable_immunity: disable }
}

/// Whether a hurt entity is drawn in its flash colour this frame: an immune,
/// living entity toggles between flash and normal colour each time its flash
/// timer runs out; any other entity is drawn normally.
pub fn hurt_flash(is_immune: bool, dead: bool, flash_just_finished: bool, flashing: bool) -> (r: bool)
    ensures
        r == (if is_immune && !dead {
            if flash_just_finished { !flashing } else { flashing }
        } else {
            false
        }),
{
    if is_immune && !dead {
        if flash_just_finished { !flashing } else { flashing }
    } else {
        false
    }
}

/// A hit never heals: a landed hit leaves at most the health there was,
/// and a dropped hit leaves health alone.
pub proof fn lemma_hits_never_heal(hp: int, immune: bool, has_pending: bool, damage: int)
    requires
        (!immune && !has_pending) ==> hit_fits(hp, damage),
    ensures
        spec_resolve_hit(hp, immune, has_pending, damage) matches HitResolution::Applied { hp: h } ==> h <= hp,
        immune ==> spec_resolve_hit(hp, immune, has_pending, damage) == HitResolution::ClearPending,
{
}

} // verus!
