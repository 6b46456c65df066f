use std::path::PathBuf;

use farm_supervisor::bootstrap::{
    collect_farms, plot_cache_enabled, validate_disk_farms, DiskFarm, InitialFarmState,
    MAX_SPACE_PLEDGED_FOR_PLOT_CACHE_ON_WINDOWS,
};
use farm_supervisor::error::{FarmSetupError, FarmerError};

fn farms(count: usize, space: u64) -> Vec<DiskFarm> {
    (0..count)
        .map(|i| DiskFarm {
            directory: PathBuf::from(format!("/farms/{i}")),
            allocated_plotting_space: space,
        })
        .collect()
}

#[test]
fn no_disk_farms_is_a_configuration_error() {
    assert_eq!(validate_disk_farms(&Vec::new()), Err(FarmerError::NoDiskFarms));
}

#[test]
fn one_and_256_farms_are_accepted() {
    assert_eq!(validate_disk_farms(&farms(1, 1)), Ok(()));
    assert_eq!(validate_disk_farms(&farms(256, 1)), Ok(()));
}

#[test]
fn more_than_256_farms_are_refused() {
    assert_eq!(
        validate_disk_farms(&farms(257, 1)),
        Err(FarmerError::TooManyFarms { farms_count: 257 })
    );
}

#[test]
fn plot_cache_always_enabled_off_windows() {
    assert!(plot_cache_enabled(&farms(3, u64::MAX), false));
}

#[test]
fn plot_cache_on_windows_depends_on_total_space() {
    let half = MAX_SPACE_PLEDGED_FOR_PLOT_CACHE_ON_WINDOWS / 2;
    assert!(plot_cache_enabled(&farms(2, half), true));
    assert!(!plot_cache_enabled(&farms(3, half), true));
    assert!(!plot_cache_enabled(&farms(2, u64::MAX), true));
    assert!(plot_cache_enabled(&Vec::new(), true));
}

#[test]
fn farms_come_back_in_index_order() {
    let outcomes = vec![(2, Ok("c")), (0, Ok("a")), (3, Ok("d")), (1, Ok("b"))];
    assert_eq!(collect_farms(outcomes), Ok(vec!["a", "b", "c", "d"]));
}

#[test]
fn single_farm_is_collected() {
    assert_eq!(collect_farms(vec![(0, Ok(7u32))]), Ok(vec![7]));
}

#[test]
fn first_failure_to_arrive_is_returned() {
    let outcomes: Vec<(usize, Result<u32, FarmSetupError>)> = vec![
        (1, Ok(1)),
        (
            2,
            Err(FarmSetupError::InsufficientAllocatedSpace {
                min_space: 2048,
                allocated_space: 1536,
            }),
        ),
        (0, Err(FarmSetupError::Other { message: "broken".to_string() })),
    ];
    assert_eq!(
        collect_farms(outcomes),
        Err(FarmerError::FarmSetup {
            farm_index: 2,
            error: FarmSetupError::InsufficientAllocatedSpace {
                min_space: 2048,
                allocated_space: 1536,
            },
        })
    );
}

#[test]
fn initial_farm_state_defaults_to_zero() {
    let state = InitialFarmState::default();
    assert_eq!(state.total_sectors_count, 0);
    assert_eq!(state.plotted_sectors_count, 0);
}

#[test]
fn completion_order_does_not_change_the_result() {
    let first = vec![(0, Ok(10u32)), (2, Ok(30)), (1, Ok(20))];
    let second = vec![(1, Ok(20u32)), (0, Ok(10)), (2, Ok(30))];
    assert_eq!(collect_farms(first), collect_farms(second));
}

#[test]
fn largest_farm_count_is_ordered() {
    let outcomes: Vec<(usize, Result<usize, FarmSetupError>)> =
        (0..256).rev().map(|i| (i, Ok(i * 2))).collect();
    let farms = collect_farms(outcomes).unwrap();
    assert_eq!(farms.len(), 256);
    assert!(farms.iter().enumerate().all(|(i, farm)| *farm == i * 2));
}
