use farm_supervisor::partition::{
    downloading_permits, needs_regroup, record_encoding_concurrency, replotting_core_counts,
    should_farm_during_initial_plotting,
};

#[test]
fn farming_during_plotting_needs_more_than_eight_cores() {
    assert!(!should_farm_during_initial_plotting(&vec![4, 4]));
    assert!(should_farm_during_initial_plotting(&vec![4, 5]));
    assert!(should_farm_during_initial_plotting(&vec![16]));
    assert!(!should_farm_during_initial_plotting(&vec![]));
    assert!(should_farm_during_initial_plotting(&vec![usize::MAX, usize::MAX]));
}

#[test]
fn regrouping_only_with_more_groups_than_farms() {
    assert!(needs_regroup(4, 2));
    assert!(!needs_regroup(4, 4));
    assert!(!needs_regroup(1, 1));
    assert!(!needs_regroup(2, 8));
}

#[test]
fn replotting_gets_half_the_cores() {
    assert_eq!(replotting_core_counts(&vec![8, 7, 1]), vec![4, 3, 0]);
}

#[test]
fn downloading_permits_one_more_than_pools() {
    assert_eq!(downloading_permits(4), 5);
}

#[test]
fn record_encoding_concurrency_is_capped() {
    assert_eq!(record_encoding_concurrency(2), 1);
    assert_eq!(record_encoding_concurrency(6), 3);
    assert_eq!(record_encoding_concurrency(64), 8);
}
