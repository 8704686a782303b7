use axia_kit::weights::{saturating_mul, RuntimeDbWeight, WeightInfo};

fn rocks_db() -> RuntimeDbWeight {
    RuntimeDbWeight { read: 25_000_000, write: 100_000_000 }
}

#[test]
fn db_weight_reads_and_writes() {
    let db = rocks_db();
    assert_eq!(db.reads(3), 75_000_000);
    assert_eq!(db.writes(2), 200_000_000);
    assert_eq!(db.reads(0), 0);
    let huge = RuntimeDbWeight { read: u64::MAX / 2, write: u64::MAX };
    assert_eq!(huge.reads(3), u64::MAX);
    assert_eq!(huge.writes(1), u64::MAX);
}

#[test]
fn saturating_mul_saturates() {
    assert_eq!(saturating_mul(7, 6), 42);
    assert_eq!(saturating_mul(u64::MAX, 2), u64::MAX);
    assert_eq!(saturating_mul(0, u64::MAX), 0);
}

#[test]
fn vesting_weights_exact_values() {
    let w = WeightInfo::new(rocks_db());
    assert_eq!(w.vest_locked(1, 2), 291_520_000);
    assert_eq!(w.vest_unlocked(1, 2), 291_399_000);
    assert_eq!(w.vest_other_locked(1, 2), 417_886_000);
    assert_eq!(w.vest_other_unlocked(1, 2), 417_288_000);
    assert_eq!(w.vested_transfer(1, 2), 447_739_000);
    assert_eq!(w.force_vested_transfer(1, 2), 573_337_000);
    assert_eq!(w.not_unlocking_merge_schedules(1, 2), 419_101_000);
    assert_eq!(w.unlocking_merge_schedules(1, 2), 419_448_000);

    assert_eq!(w.vest_locked(28, 3), 295_485_000);
    assert_eq!(w.vest_unlocked(28, 3), 294_754_000);
    assert_eq!(w.vest_other_locked(28, 3), 421_511_000);
    assert_eq!(w.vest_other_unlocked(28, 3), 420_513_000);
    assert_eq!(w.vested_transfer(28, 3), 450_933_000);
    assert_eq!(w.force_vested_transfer(28, 3), 576_456_000);
    assert_eq!(w.not_unlocking_merge_schedules(28, 3), 422_801_000);
    assert_eq!(w.unlocking_merge_schedules(28, 3), 423_071_000);
}

#[test]
fn vesting_weight_without_database_is_base_weight() {
    let w = WeightInfo::new(RuntimeDbWeight { read: 0, write: 0 });
    assert_eq!(w.vest_locked(0, 0), 40_904_000);
    assert_eq!(w.force_vested_transfer(0, 0), 73_035_000);
}

#[test]
fn vesting_weight_saturates() {
    let w = WeightInfo::new(RuntimeDbWeight { read: u64::MAX / 2, write: 1 });
    assert_eq!(w.vest_locked(0, 0), u64::MAX);
    let w = WeightInfo::new(RuntimeDbWeight { read: 1, write: u64::MAX });
    assert_eq!(w.vested_transfer(u32::MAX, u32::MAX), u64::MAX);
    // the largest counts do not overflow the linear terms themselves
    let w = WeightInfo::new(RuntimeDbWeight { read: 0, write: 0 });
    assert_eq!(
        w.vest_locked(u32::MAX, u32::MAX),
        40_904_000 + 138_000 * (u32::MAX as u64) + 239_000 * (u32::MAX as u64)
    );
}

#[test]
fn vesting_weight_grows_with_locks_and_schedules() {
    let w = WeightInfo::new(rocks_db());
    let mut previous = 0;
    for n in 0..50u32 {
        let now = w.unlocking_merge_schedules(n, n);
        assert!(now >= previous);
        assert!(w.vest_locked(n + 1, n) >= w.vest_locked(n, n));
        assert!(w.vest_locked(n, n + 1) >= w.vest_locked(n, n));
        previous = now;
    }
}
