use dragonfly_client_metrics::size::{TaskSize, GIB, MAX_LEVEL, MIB};

const LEVELS: [TaskSize; 21] = [
    TaskSize::Level0,
    TaskSize::Level1,
    TaskSize::Level2,
    TaskSize::Level3,
    TaskSize::Level4,
    TaskSize::Level5,
    TaskSize::Level6,
    TaskSize::Level7,
    TaskSize::Level8,
    TaskSize::Level9,
    TaskSize::Level10,
    TaskSize::Level11,
    TaskSize::Level12,
    TaskSize::Level13,
    TaskSize::Level14,
    TaskSize::Level15,
    TaskSize::Level16,
    TaskSize::Level17,
    TaskSize::Level18,
    TaskSize::Level19,
    TaskSize::Level20,
];

/// The lower bound of each level from 1 on.
fn lower_bounds() -> Vec<u64> {
    vec![
        1,
        MIB,
        4 * MIB,
        8 * MIB,
        16 * MIB,
        32 * MIB,
        64 * MIB,
        128 * MIB,
        256 * MIB,
        512 * MIB,
        GIB,
        4 * GIB,
        8 * GIB,
        16 * GIB,
        32 * GIB,
        64 * GIB,
        128 * GIB,
        256 * GIB,
        512 * GIB,
        1024 * GIB,
    ]
}

#[test]
fn boundary_sizes_fall_into_the_upper_level() {
    assert_eq!(TaskSize::calculate_size_level(0), TaskSize::Level0);
    assert_eq!(TaskSize::calculate_size_level(1048575), TaskSize::Level1);
    assert_eq!(TaskSize::calculate_size_level(1048576), TaskSize::Level2);
    assert_eq!(TaskSize::calculate_size_level(1099511627775), TaskSize::Level19);
    assert_eq!(TaskSize::calculate_size_level(1099511627776), TaskSize::Level20);
}

#[test]
fn every_lower_bound_starts_its_level() {
    let bounds = lower_bounds();
    assert_eq!(bounds.len(), 20);
    for (i, bound) in bounds.iter().enumerate() {
        assert_eq!(TaskSize::calculate_size_level(*bound), LEVELS[i + 1]);
        assert_eq!(TaskSize::calculate_size_level(*bound - 1), LEVELS[i]);
    }
}

#[test]
fn sizes_within_a_band_share_its_level() {
    assert_eq!(TaskSize::calculate_size_level(1), TaskSize::Level1);
    assert_eq!(TaskSize::calculate_size_level(500000), TaskSize::Level1);
    assert_eq!(TaskSize::calculate_size_level(2 * MIB), TaskSize::Level2);
    assert_eq!(TaskSize::calculate_size_level(3 * MIB + 17), TaskSize::Level2);
    assert_eq!(TaskSize::calculate_size_level(2 * GIB), TaskSize::Level11);
    assert_eq!(TaskSize::calculate_size_level(700 * GIB), TaskSize::Level19);
    assert_eq!(TaskSize::calculate_size_level(u64::MAX), TaskSize::Level20);
}

#[test]
fn a_larger_size_never_has_a_lower_level() {
    let mut sizes: Vec<u64> = vec![0, 1, 2, 1000, u64::MAX, u64::MAX - 1];
    for bound in lower_bounds() {
        sizes.push(bound - 1);
        sizes.push(bound);
        sizes.push(bound + 1);
    }
    sizes.sort();
    for pair in sizes.windows(2) {
        let low = TaskSize::calculate_size_level(pair[0]).ordinal();
        let high = TaskSize::calculate_size_level(pair[1]).ordinal();
        assert!(low <= high, "{} and {}", pair[0], pair[1]);
    }
}

#[test]
fn a_level_is_written_as_its_ordinal() {
    for (i, level) in LEVELS.iter().enumerate() {
        assert_eq!(level.ordinal() as usize, i);
        assert_eq!(level.to_string(), format!("{}", i));
    }
    assert_eq!(TaskSize::Level0.to_string(), "0");
    assert_eq!(TaskSize::Level9.to_string(), "9");
    assert_eq!(TaskSize::Level10.to_string(), "10");
    assert_eq!(TaskSize::Level20.to_string(), "20");
    assert_eq!(MAX_LEVEL, 20);
}
