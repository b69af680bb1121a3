use starsoldier_bytecode_playground::{ConfigError, EnemyInit, EnemySpawner, SpawnOrder};

fn blueprint() -> EnemyInit {
    EnemyInit {
        sprite_idx_base: 0x40,
        program: vec![1, 2, 3, 4],
        boss: false,
        difficulty: 5,
        shot_with_rank: true,
        accel_shot_with_rank: false,
        homing_shot_with_rank: true,
        extra_act_with_rank: false,
        accel_with_rank: true,
        rank: 3,
        x: 120,
        y: 16,
    }
}

fn released_pcs(spawner: &mut EnemySpawner, calls: usize) -> Vec<Option<usize>> {
    (0..calls).map(|_| spawner.step().map(|order| order.interp.pc)).collect()
}

#[test]
fn interval_three_gives_three_empty_calls_before_each_release() {
    let mut spawner = EnemySpawner::new(3, 2, &[10, 20], blueprint()).unwrap();
    assert_eq!(
        released_pcs(&mut spawner, 12),
        vec![None, None, None, Some(10), None, None, None, Some(20), None, None, None, None]
    );
}

#[test]
fn interval_two_gives_two_empty_calls_before_each_release() {
    let mut spawner = EnemySpawner::new(2, 2, &[10, 20], blueprint()).unwrap();
    assert_eq!(
        released_pcs(&mut spawner, 10),
        vec![None, None, Some(10), None, None, Some(20), None, None, None, None]
    );
}

#[test]
fn interval_zero_releases_one_enemy_per_call() {
    let mut spawner = EnemySpawner::new(0, 3, &[1, 2, 3], blueprint()).unwrap();
    assert_eq!(released_pcs(&mut spawner, 4), vec![Some(1), Some(2), Some(3), None]);
}

#[test]
fn interval_one_alternates() {
    let mut spawner = EnemySpawner::new(1, 3, &[7, 8, 9], blueprint()).unwrap();
    assert_eq!(
        released_pcs(&mut spawner, 8),
        vec![None, Some(7), None, Some(8), None, Some(9), None, None]
    );
}

#[test]
fn too_few_entrypoints_is_an_error() {
    let made = EnemySpawner::new(3, 2, &[10], blueprint());
    assert!(matches!(made, Err(ConfigError::EntrypointCountMismatch)));
}

#[test]
fn too_many_entrypoints_is_an_error() {
    let made = EnemySpawner::new(3, 2, &[10, 20, 30], blueprint());
    assert!(matches!(made, Err(ConfigError::EntrypointCountMismatch)));
}

#[test]
fn entrypoints_without_a_count_is_an_error() {
    let made = EnemySpawner::new(0, 0, &[10], blueprint());
    assert!(matches!(made, Err(ConfigError::EntrypointCountMismatch)));
}

#[test]
fn a_count_without_entrypoints_is_an_error() {
    let made = EnemySpawner::new(0, 1, &[], blueprint());
    assert!(matches!(made, Err(ConfigError::EntrypointCountMismatch)));
}

#[test]
fn matching_count_is_accepted() {
    assert!(EnemySpawner::new(5, 4, &[0, 1, 2, 3], blueprint()).is_ok());
    assert!(EnemySpawner::new(usize::MAX, 1, &[usize::MAX], blueprint()).is_ok());
}

#[test]
fn no_enemies_means_no_release() {
    for interval in 0..4 {
        let mut spawner = EnemySpawner::new(interval, 0, &[], blueprint()).unwrap();
        assert!(released_pcs(&mut spawner, 50).iter().all(Option::is_none));
    }
}

#[test]
fn exhausted_spawner_stays_silent() {
    let mut spawner = EnemySpawner::new(1, 2, &[5, 6], blueprint()).unwrap();
    assert_eq!(released_pcs(&mut spawner, 4), vec![None, Some(5), None, Some(6)]);
    assert!(released_pcs(&mut spawner, 1000).iter().all(Option::is_none));
}

#[test]
fn every_entrypoint_is_released_once_and_in_order() {
    for interval in 0..6usize {
        for count in 0..6usize {
            let entrypoints: Vec<usize> = (0..count).map(|k| 100 + 3 * k).collect();
            let mut spawner =
                EnemySpawner::new(interval, count, &entrypoints, blueprint()).unwrap();
            let calls = count * (interval + 1) + 20;
            let released = released_pcs(&mut spawner, calls);
            for (n, pc) in released.iter().enumerate() {
                let expected = if n % (interval + 1) == interval && n / (interval + 1) < count {
                    Some(entrypoints[n / (interval + 1)])
                } else {
                    None
                };
                assert_eq!(*pc, expected, "interval {interval}, count {count}, call {n}");
            }
            let given: Vec<usize> = released.into_iter().flatten().collect();
            assert_eq!(given, entrypoints);
        }
    }
}

#[test]
fn releases_are_separated_by_the_interval() {
    let interval = 4;
    let mut spawner = EnemySpawner::new(interval, 3, &[1, 2, 3], blueprint()).unwrap();
    let released = released_pcs(&mut spawner, 40);
    let at: Vec<usize> =
        released.iter().enumerate().filter(|(_, pc)| pc.is_some()).map(|(n, _)| n).collect();
    assert_eq!(at, vec![4, 9, 14]);
}

#[test]
fn two_spawners_of_one_configuration_agree() {
    let mut first = EnemySpawner::new(2, 4, &[9, 8, 7, 6], blueprint()).unwrap();
    let mut second = EnemySpawner::new(2, 4, &[9, 8, 7, 6], blueprint()).unwrap();
    for _ in 0..30 {
        assert_eq!(first.step(), second.step());
    }
}

#[test]
fn an_order_carries_the_blueprint_and_the_entrypoint() {
    let mut spawner = EnemySpawner::new(0, 1, &[0x123], blueprint()).unwrap();
    let order: SpawnOrder = spawner.step().unwrap();
    assert_eq!(order, blueprint().init(0x123));
    assert_eq!(order.sprite_idx_base, 0x40);
    assert_eq!(order.interp.pc, 0x123);
    assert_eq!(order.interp.program, vec![1, 2, 3, 4]);
}
