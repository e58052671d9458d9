use gardenfight::random::{add_free_cell, cell_taken, pick_cell, random_index, Cell};
use gardenfight::stage::BossStage;
use gardenfight::summon::{
    boom_enemy_types, boom_enemy_types_for, random_summon_type, should_summon_next, summon_plan,
    summon_type_at, EnemyDifficulty, EnemyType,
};

#[test]
fn summon_plans() {
    assert_eq!(summon_plan(BossStage::SummonEasy), (6, EnemyDifficulty::Easy));
    assert_eq!(summon_plan(BossStage::SummonMedium), (9, EnemyDifficulty::Medium));
    assert_eq!(summon_plan(BossStage::SummonHard), (12, EnemyDifficulty::Hard));
}

#[test]
fn summon_list() {
    assert_eq!(summon_type_at(0), EnemyType::Flower);
    assert_eq!(summon_type_at(1), EnemyType::Dandelion);
    assert_eq!(summon_type_at(2), EnemyType::Pumpkin);
    assert_eq!(summon_type_at(3), EnemyType::Tumbleweed);
}

#[test]
fn random_summons_cover_the_list() {
    let mut seen = Vec::new();
    for _ in 0..400 {
        let t = random_summon_type();
        if !seen.contains(&t) {
            seen.push(t);
        }
    }
    assert_eq!(seen.len(), 4);
}

#[test]
fn boom_summons() {
    assert_eq!(boom_enemy_types_for(0), (EnemyType::Tumbleweed, EnemyType::Dandelion));
    assert_eq!(boom_enemy_types_for(1), (EnemyType::Pumpkin, EnemyType::Dandelion));
    let mut firsts = Vec::new();
    for _ in 0..200 {
        let (a, b) = boom_enemy_types();
        assert!(a == EnemyType::Tumbleweed || a == EnemyType::Pumpkin);
        assert_eq!(b, EnemyType::Dandelion);
        if !firsts.contains(&a) {
            firsts.push(a);
        }
    }
    assert_eq!(firsts.len(), 2);
}

#[test]
fn random_indices_stay_below_len() {
    let mut seen = [false; 5];
    for _ in 0..500 {
        let i = random_index(5);
        assert!(i < 5);
        seen[i] = true;
    }
    assert!(seen.iter().all(|s| *s));
    assert_eq!(random_index(1), 0);
}

#[test]
fn cells_lie_in_range() {
    for _ in 0..300 {
        let (x, y) = pick_cell(-2, 3, 10, 12);
        assert!(-2 <= x && x < 3);
        assert!(10 <= y && y < 12);
    }
    assert_eq!(pick_cell(4, 5, -1, 0), (4, -1));
}

#[test]
fn taken_cells() {
    let taken = vec![(1, 2), (3, 4)];
    assert!(cell_taken((3, 4), &taken));
    assert!(!cell_taken((4, 3), &taken));
    assert!(!cell_taken((0, 0), &Vec::new()));
}

#[test]
fn summon_pacing() {
    assert!(should_summon_next(0, 6, true));
    assert!(!should_summon_next(0, 6, false));
    assert!(!should_summon_next(6, 6, true));
}

#[test]
fn free_cells_stay_distinct() {
    let mut taken: Vec<Cell> = Vec::new();
    for _ in 0..16 {
        let mut c = pick_cell(0, 6, 0, 4);
        while cell_taken(c, &taken) {
            c = pick_cell(0, 6, 0, 4);
        }
        add_free_cell(&mut taken, c);
        assert_eq!(*taken.last().unwrap(), c);
    }
    assert_eq!(taken.len(), 16);
    for i in 0..taken.len() {
        for j in (i + 1)..taken.len() {
            assert_ne!(taken[i], taken[j]);
        }
    }
}
