use gardenfight::combat::{
    apply_hit, attack_hits, hurt_flash, hurt_update, projectile_hits, projectile_impact,
    resolve_hit, AttackStrength, ColliderAttack, Health, HitResolution, HurtUpdate, Immunity,
    PROJECTILE_IMPACT_DAMAGE,
};
use gardenfight::layers::CombatLayerMask;

fn layers() -> Vec<CombatLayerMask> {
    vec![
        CombatLayerMask::empty(),
        CombatLayerMask::player(),
        CombatLayerMask::enemy(),
        CombatLayerMask::all(),
    ]
}

#[test]
fn layer_bits() {
    assert_eq!(CombatLayerMask::player().bits(), 1);
    assert_eq!(CombatLayerMask::enemy().bits(), 2);
    assert_eq!(CombatLayerMask::empty().bits(), 0);
    assert_eq!(CombatLayerMask::all().bits(), 3);
    assert_eq!(CombatLayerMask::default().bits(), 0);
    assert_eq!(CombatLayerMask::hostile_to_all().bits(), 0);
    assert_eq!(CombatLayerMask::friendly_to_all().bits(), 3);
    assert_eq!(CombatLayerMask::from_bits_truncate(0xff).bits(), 3);
    assert_eq!(CombatLayerMask::from_bits_truncate(6).bits(), 2);
}

#[test]
fn alliances() {
    let p = CombatLayerMask::player();
    let e = CombatLayerMask::enemy();
    assert!(p.is_ally_with(p));
    assert!(e.is_ally_with(e));
    assert!(!p.is_ally_with(e));
    assert!(!e.is_ally_with(p));
    for a in layers() {
        assert!(!CombatLayerMask::hostile_to_all().is_ally_with(a));
        assert_eq!(CombatLayerMask::friendly_to_all().is_ally_with(a), a.bits() != 0);
        for b in layers() {
            assert_eq!(a.is_ally_with(b), b.is_ally_with(a));
        }
    }
}

#[test]
fn components() {
    let h = Health::new(40);
    assert_eq!((h.hp, h.max_hp), (40, 40));
    let h = Health::new_with_max(10, 40);
    assert_eq!((h.hp, h.max_hp), (10, 40));
    assert_eq!(AttackStrength::new(12).power, 12);
    assert_eq!(AttackStrength::default().power, 0);
    assert!(!Immunity::default().is_immune);
    assert!(ColliderAttack::default().enabled);
    assert!(Health::new(0).is_depleted());
    assert!(Health::new(-3).is_depleted());
    assert!(!Health::new(1).is_depleted());
}

#[test]
fn hit_resolution() {
    assert_eq!(resolve_hit(10, true, false, 4), HitResolution::ClearPending);
    assert_eq!(resolve_hit(10, true, true, 4), HitResolution::ClearPending);
    assert_eq!(resolve_hit(10, false, true, 4), HitResolution::Ignored);
    assert_eq!(resolve_hit(10, false, false, 4), HitResolution::Applied { hp: 6 });
    assert_eq!(resolve_hit(10, false, false, -4), HitResolution::Applied { hp: 6 });
    assert_eq!(resolve_hit(3, false, false, 5), HitResolution::Applied { hp: -2 });
}

#[test]
fn applying_hits() {
    let mut h = Health::new(20);
    let mut pending = false;
    assert!(apply_hit(&mut h, &mut pending, false, 7));
    assert_eq!(h.hp, 13);
    assert!(pending);
    assert!(!apply_hit(&mut h, &mut pending, false, 7));
    assert_eq!(h.hp, 13);
    assert!(pending);
    assert!(!apply_hit(&mut h, &mut pending, true, 7));
    assert_eq!(h.hp, 13);
    assert!(!pending);
    assert_eq!(h.max_hp, 20);
}

#[test]
fn who_gets_hit() {
    let p = CombatLayerMask::player();
    let e = CombatLayerMask::enemy();
    assert!(attack_hits(e, p));
    assert!(!attack_hits(p, p));
    assert!(attack_hits(e, CombatLayerMask::empty()));
    assert!(projectile_hits(e, p, false));
    assert!(!projectile_hits(e, p, true));
    assert!(!projectile_hits(p, p, false));
}

#[test]
fn projectile_impacts() {
    let p = CombatLayerMask::player();
    let e = CombatLayerMask::enemy();
    let out = projectile_impact(false, &vec![], p);
    assert!(!out.despawn);
    assert!(out.hits.is_empty());
    let out = projectile_impact(true, &vec![p], p);
    assert!(out.despawn);
    assert_eq!(out.hits, vec![false]);
    let out = projectile_impact(false, &vec![p, e, p], p);
    assert!(out.despawn);
    assert_eq!(out.hits, vec![false, true, false]);
    let out = projectile_impact(false, &vec![p, p], p);
    assert!(!out.despawn);
    assert_eq!(PROJECTILE_IMPACT_DAMAGE, 2);
}

#[test]
fn hurt_reaction() {
    assert_eq!(
        hurt_update(Some(true), true, false, true, true),
        HurtUpdate { done: true, is_immune: true, should_disable_immunity: true }
    );
    assert_eq!(
        hurt_update(Some(true), false, false, true, true),
        HurtUpdate { done: false, is_immune: true, should_disable_immunity: true }
    );
    assert_eq!(
        hurt_update(None, true, true, true, true),
        HurtUpdate { done: false, is_immune: false, should_disable_immunity: true }
    );
    assert_eq!(
        hurt_update(Some(false), true, true, false, true),
        HurtUpdate { done: false, is_immune: true, should_disable_immunity: true }
    );
    assert_eq!(
        hurt_update(None, false, false, false, true),
        HurtUpdate { done: false, is_immune: true, should_disable_immunity: false }
    );
}

#[test]
fn hurt_flashing() {
    assert!(hurt_flash(true, false, true, false));
    assert!(!hurt_flash(true, false, true, true));
    assert!(hurt_flash(true, false, false, true));
    assert!(!hurt_flash(true, true, true, false));
    assert!(!hurt_flash(false, false, true, true));
}
