use metal_dot::{group_count, padding, size_1d, Dispatch, Size, THREADS_PER_GROUP};

#[test]
fn one_element_takes_one_group() {
    assert_eq!(group_count(1), 1);
    assert_eq!(Dispatch::covering(1).threadgroups, Size { width: 1, height: 1, depth: 1 });
}

#[test]
fn group_size_is_sixty_four() {
    assert_eq!(THREADS_PER_GROUP, 64);
    assert_eq!(Dispatch::covering(1).threads_per_threadgroup, Size { width: 64, height: 1, depth: 1 });
    assert_eq!(Dispatch::covering(1_000_000).threads_per_threadgroup, Size { width: 64, height: 1, depth: 1 });
}

#[test]
fn group_count_rounds_up() {
    assert_eq!(group_count(0), 0);
    assert_eq!(group_count(63), 1);
    assert_eq!(group_count(64), 1);
    assert_eq!(group_count(65), 2);
    assert_eq!(group_count(127), 2);
    assert_eq!(group_count(128), 2);
    assert_eq!(group_count(129), 3);
    assert_eq!(group_count(1_000_000_000), 15_625_000);
    assert_eq!(group_count(1_000_000_001), 15_625_001);
}

#[test]
fn group_count_at_the_largest_length() {
    let len = usize::MAX;
    let expected = (len as u128 + 63) / 64;
    assert_eq!(group_count(len) as u128, expected);
    assert_eq!(padding(len) as u128, expected * 64 - len as u128);
}

#[test]
fn groups_cover_the_vector_and_no_group_is_spare() {
    for len in 0usize..=4096 {
        let groups = group_count(len) as i128;
        assert!(groups * 64 >= len as i128, "len {}", len);
        assert!((groups - 1) * 64 < len as i128, "len {}", len);
    }
}

#[test]
fn padding_fills_the_last_group() {
    for len in 0usize..=4096 {
        let total = group_count(len) * 64;
        assert_eq!(len as u64 + padding(len), total, "len {}", len);
        assert!(padding(len) < 64, "len {}", len);
    }
}

#[test]
fn multiple_of_group_size_has_no_padding() {
    assert_eq!(padding(0), 0);
    assert_eq!(padding(64), 0);
    assert_eq!(padding(128), 0);
    assert_eq!(padding(6400), 0);
    assert_eq!(padding(1_000_000_000), 0);
    for len in 1usize..=4096 {
        assert_eq!(padding(len) == 0, len % 64 == 0, "len {}", len);
    }
}

#[test]
fn one_past_a_multiple_opens_a_group_with_one_live_invocation() {
    assert_eq!(group_count(64), 1);
    assert_eq!(group_count(65), 2);
    assert_eq!(padding(65), 63);
    assert_eq!(padding(1), 63);
    assert_eq!(padding(129), 63);
}

#[test]
fn one_short_of_a_multiple_leaves_one_invocation_idle() {
    assert_eq!(padding(63), 1);
    assert_eq!(padding(127), 1);
    assert_eq!(group_count(127), 2);
}

#[test]
fn size_1d_extends_in_width_only() {
    assert_eq!(size_1d(0), Size { width: 0, height: 1, depth: 1 });
    assert_eq!(size_1d(5), Size { width: 5, height: 1, depth: 1 });
    assert_eq!(size_1d(u64::MAX), Size { width: u64::MAX, height: 1, depth: 1 });
}

#[test]
fn dispatch_for_a_billion_elements() {
    assert_eq!(
        Dispatch::covering(1_000_000_000),
        Dispatch {
            threadgroups: Size { width: 15_625_000, height: 1, depth: 1 },
            threads_per_threadgroup: Size { width: 64, height: 1, depth: 1 },
        }
    );
}

#[test]
fn dispatch_for_a_ragged_vector() {
    assert_eq!(
        Dispatch::covering(1000),
        Dispatch {
            threadgroups: size_1d(16),
            threads_per_threadgroup: size_1d(64),
        }
    );
}
