use gardenfight::machines::{
    attack_initial_state, boss_initial_state, boss_state_machine, coin_initial_state,
    coin_state_machine, explosion_attack_state_machine, projectile_state_machine,
    spore_cloud_attack_state_machine, AttackState, BossState, CoinState, Transition, TriggerKind,
};

#[test]
fn boss_table_shape() {
    let t = boss_state_machine();
    assert_eq!(t.len(), 44);
    assert_eq!(boss_initial_state(), BossState::Idle);
    assert_eq!(
        t[0],
        Transition { from: BossState::Hurt, trigger: TriggerKind::DoneSuccess, to: BossState::Idle }
    );
    assert_eq!(
        t[43],
        Transition { from: BossState::Die, trigger: TriggerKind::NotAlways, to: BossState::Die }
    );
    assert_eq!(
        t[4],
        Transition { from: BossState::Summon, trigger: TriggerKind::Vulnerable, to: BossState::BeginVulnerable }
    );
}

#[test]
fn boss_death_rules() {
    for t in boss_state_machine() {
        if t.from == BossState::Die {
            assert_eq!(t.trigger, TriggerKind::NotAlways);
            assert_eq!(t.to, BossState::Die);
        }
        if t.trigger == TriggerKind::Death {
            assert_eq!(t.to, BossState::Die);
        }
        if t.to == BossState::Die && t.from != BossState::Die {
            assert_eq!(t.trigger, TriggerKind::Death);
        }
    }
    let deadly = boss_state_machine().iter().filter(|t| t.trigger == TriggerKind::Death).count();
    assert_eq!(deadly, 10);
}

#[test]
fn boss_passing_states_and_attack_ends() {
    for t in boss_state_machine() {
        if matches!(
            t.from,
            BossState::BeginVulnerable | BossState::BeginEnraged | BossState::PickNextMove | BossState::AbilityStartup
        ) {
            assert_eq!(t.trigger, TriggerKind::Always);
        }
        if t.trigger == TriggerKind::DoneSuccess && t.from != BossState::Hurt {
            assert_eq!(t.to, BossState::PickNextMove);
        }
    }
}

#[test]
fn coin_table() {
    let t = coin_state_machine();
    assert_eq!(coin_initial_state(), CoinState::Idle);
    assert_eq!(
        t,
        vec![
            Transition { from: CoinState::Idle, trigger: TriggerKind::CollectorInRange, to: CoinState::Follow },
            Transition { from: CoinState::Follow, trigger: TriggerKind::PickedUp, to: CoinState::Die },
            Transition { from: CoinState::Die, trigger: TriggerKind::NotAlways, to: CoinState::Die },
        ]
    );
}

#[test]
fn attack_tables() {
    let death = AttackState::Die { should_despawn: true };
    assert_eq!(attack_initial_state(), AttackState::Active);
    assert_eq!(
        projectile_state_machine(),
        vec![
            Transition { from: AttackState::Active, trigger: TriggerKind::Collided, to: death },
            Transition { from: AttackState::Active, trigger: TriggerKind::Expiration, to: death },
            Transition { from: death, trigger: TriggerKind::NotAlways, to: death },
        ]
    );
    assert_eq!(
        explosion_attack_state_machine(),
        vec![
            Transition {
                from: AttackState::Active,
                trigger: TriggerKind::DoneSuccess,
                to: AttackState::Die { should_despawn: false }
            },
            Transition {
                from: AttackState::Die { should_despawn: false },
                trigger: TriggerKind::NotAlways,
                to: AttackState::Active
            },
        ]
    );
    let spore = spore_cloud_attack_state_machine();
    assert_eq!(spore.len(), 2);
    assert_eq!(spore[0].to, death);
    assert_eq!(spore[1].trigger, TriggerKind::NotAlways);
}
