use starsoldier_bytecode_playground::{
    Enemy, EnemyInit, EnemyState, InterpreterInit, InterpreterReport, SpawnOrder,
};

fn blueprint() -> EnemyInit {
    EnemyInit {
        sprite_idx_base: 0xC8,
        program: vec![0xA9, 0x00, 0x60],
        boss: true,
        difficulty: 200,
        shot_with_rank: false,
        accel_shot_with_rank: true,
        homing_shot_with_rank: false,
        extra_act_with_rank: true,
        accel_with_rank: false,
        rank: 7,
        x: 255,
        y: 0,
    }
}

fn report(state: EnemyState, x: u8, y: u8, sprite_index: u8) -> InterpreterReport {
    InterpreterReport { state, x, y, sprite_index }
}

#[test]
fn init_copies_every_value_and_adds_the_entrypoint() {
    let order = blueprint().init(42);
    assert_eq!(
        order,
        SpawnOrder {
            sprite_idx_base: 0xC8,
            interp: InterpreterInit {
                program: vec![0xA9, 0x00, 0x60],
                pc: 42,
                boss: true,
                difficulty: 200,
                shot_with_rank: false,
                accel_shot_with_rank: true,
                homing_shot_with_rank: false,
                extra_act_with_rank: true,
                accel_with_rank: false,
                rank: 7,
                x: 255,
                y: 0,
            },
        }
    );
}

#[test]
fn init_keeps_each_flag_apart() {
    for bits in 0..32u8 {
        let blueprint = EnemyInit {
            sprite_idx_base: 1,
            program: vec![],
            boss: false,
            difficulty: 0,
            shot_with_rank: bits & 1 != 0,
            accel_shot_with_rank: bits & 2 != 0,
            homing_shot_with_rank: bits & 4 != 0,
            extra_act_with_rank: bits & 8 != 0,
            accel_with_rank: bits & 16 != 0,
            rank: 0,
            x: 0,
            y: 0,
        };
        let interp = blueprint.init(0).interp;
        assert_eq!(interp.shot_with_rank, bits & 1 != 0);
        assert_eq!(interp.accel_shot_with_rank, bits & 2 != 0);
        assert_eq!(interp.homing_shot_with_rank, bits & 4 != 0);
        assert_eq!(interp.extra_act_with_rank, bits & 8 != 0);
        assert_eq!(interp.accel_with_rank, bits & 16 != 0);
    }
}

#[test]
fn init_leaves_the_blueprint_as_it_is() {
    let blueprint = blueprint();
    let first = blueprint.init(1);
    let second = blueprint.init(2);
    assert_eq!(blueprint, self::blueprint());
    assert_eq!(first.interp.pc, 1);
    assert_eq!(second.interp.pc, 2);
    assert_eq!(first.interp.program, second.interp.program);
}

#[test]
fn sprite_index_wraps_at_256() {
    let enemy = Enemy::new(250, report(EnemyState::Alive, 0, 0, 10));
    assert_eq!(enemy.sprite_index(), 4);
}

#[test]
fn sprite_index_without_wrap_is_the_sum() {
    let enemy = Enemy::new(0x40, report(EnemyState::Alive, 0, 0, 3));
    assert_eq!(enemy.sprite_index(), 0x43);
    let enemy = Enemy::new(255, report(EnemyState::Alive, 0, 0, 0));
    assert_eq!(enemy.sprite_index(), 255);
    let enemy = Enemy::new(255, report(EnemyState::Alive, 0, 0, 1));
    assert_eq!(enemy.sprite_index(), 0);
    let enemy = Enemy::new(255, report(EnemyState::Alive, 0, 0, 255));
    assert_eq!(enemy.sprite_index(), 254);
}

#[test]
fn sprite_index_is_the_sum_modulo_256_for_every_pair() {
    for base in 0..=255u8 {
        for relative in 0..=255u8 {
            let enemy = Enemy::new(base, report(EnemyState::Alive, 0, 0, relative));
            let expected = ((u16::from(base) + u16::from(relative)) % 256) as u8;
            assert_eq!(enemy.sprite_index(), expected);
        }
    }
}

#[test]
fn a_new_enemy_shows_the_first_report() {
    let enemy = Enemy::new(9, report(EnemyState::Alive, 120, 16, 2));
    assert_eq!(enemy.state(), EnemyState::Alive);
    assert_eq!(enemy.x(), 120);
    assert_eq!(enemy.y(), 16);
    assert_eq!(enemy.sprite_index(), 11);
}

#[test]
fn step_keeps_the_report_and_hands_the_outcome_on() {
    let mut enemy = Enemy::new(9, report(EnemyState::Alive, 120, 16, 2));
    let outcome: Result<(), String> = Ok(());
    assert_eq!(enemy.step(report(EnemyState::Alive, 121, 18, 3), outcome), Ok(()));
    assert_eq!(enemy.state(), EnemyState::Alive);
    assert_eq!(enemy.x(), 121);
    assert_eq!(enemy.y(), 18);
    assert_eq!(enemy.sprite_index(), 12);
}

#[test]
fn step_hands_an_error_on_unchanged() {
    let mut enemy = Enemy::new(9, report(EnemyState::Alive, 120, 16, 2));
    let outcome: Result<(), String> = Err("bad opcode at 0x10".to_string());
    assert_eq!(
        enemy.step(report(EnemyState::Alive, 1, 2, 3), outcome),
        Err("bad opcode at 0x10".to_string())
    );
    assert_eq!(enemy.x(), 1);
    assert_eq!(enemy.y(), 2);
}

#[test]
fn step_can_end_the_life_of_an_enemy() {
    let mut enemy = Enemy::new(0, report(EnemyState::Alive, 0, 0, 0));
    let outcome: Result<(), ()> = Ok(());
    enemy.step(report(EnemyState::NotAlive, 0, 239, 0), outcome).unwrap();
    assert_eq!(enemy.state(), EnemyState::NotAlive);
    assert_ne!(enemy.state(), EnemyState::Alive);
}

#[test]
fn damage_keeps_the_report() {
    let mut enemy = Enemy::new(200, report(EnemyState::Alive, 50, 60, 1));
    enemy.damage(report(EnemyState::NotAlive, 50, 60, 100));
    assert_eq!(enemy.state(), EnemyState::NotAlive);
    assert_eq!(enemy.x(), 50);
    assert_eq!(enemy.y(), 60);
    assert_eq!(enemy.sprite_index(), 44);
}

#[test]
fn removing_enemies_that_are_not_alive_keeps_the_order_of_the_rest() {
    let mut enemies: Vec<Enemy> = (0..6u8)
        .map(|k| {
            let state = if k % 2 == 0 { EnemyState::Alive } else { EnemyState::NotAlive };
            Enemy::new(k, report(state, k, k, 0))
        })
        .collect();
    enemies.retain(|enemy| enemy.state() == EnemyState::Alive);
    let left: Vec<u8> = enemies.iter().map(Enemy::x).collect();
    assert_eq!(left, vec![0, 2, 4]);
}
