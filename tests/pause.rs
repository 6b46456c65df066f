use farm_supervisor::action::FarmerAction;
use farm_supervisor::pause::{PausePlotting, PauseStep};

#[test]
fn pausing_acquires_every_group_one_at_a_time() {
    let mut pause = PausePlotting::new(3);
    assert_eq!(pause.step(true), PauseStep::AcquireOne);
    assert_eq!(pause.held_count(), 1);
    assert_eq!(pause.step(true), PauseStep::AcquireOne);
    assert_eq!(pause.step(true), PauseStep::AcquireOne);
    assert_eq!(pause.held_count(), 3);
    assert_eq!(pause.step(true), PauseStep::WaitForChange);
    assert_eq!(pause.held_count(), 3);
}

#[test]
fn resuming_early_releases_what_is_held() {
    let mut pause = PausePlotting::new(4);
    assert_eq!(pause.step(true), PauseStep::AcquireOne);
    assert_eq!(pause.step(true), PauseStep::AcquireOne);
    assert_eq!(pause.step(false), PauseStep::ReleaseAll);
    assert_eq!(pause.held_count(), 0);
}

#[test]
fn not_paused_holds_nothing() {
    let mut pause = PausePlotting::new(2);
    assert_eq!(pause.step(false), PauseStep::ReleaseAll);
    assert_eq!(pause.held_count(), 0);
}

#[test]
fn pause_action_carries_the_request() {
    assert!(FarmerAction::PausePlotting(true).requested_pause());
    assert!(!FarmerAction::PausePlotting(false).requested_pause());
}
