use farm_supervisor::error::FarmerError;
use farm_supervisor::supervisor::{run_outcome, FarmSupervisor, SupervisorAction, TaskEnd};

#[test]
fn failure_of_one_farm_leaves_others_running() {
    let mut supervisor = FarmSupervisor::new(3);
    assert_eq!(
        supervisor.on_farm_exit(1, false),
        SupervisorAction::ReportFailure { farm_index: 1 }
    );
    assert!(supervisor.is_running(0));
    assert!(!supervisor.is_running(1));
    assert!(supervisor.is_running(2));
    assert_eq!(supervisor.failed_count(), 1);
    assert!(!supervisor.all_exited());
}

#[test]
fn failure_is_reported_once() {
    let mut supervisor = FarmSupervisor::new(2);
    assert_eq!(
        supervisor.on_farm_exit(0, false),
        SupervisorAction::ReportFailure { farm_index: 0 }
    );
    assert_eq!(supervisor.on_farm_exit(0, false), SupervisorAction::Ignore);
    assert_eq!(supervisor.failed_count(), 1);
}

#[test]
fn clean_exit_is_noted() {
    let mut supervisor = FarmSupervisor::new(1);
    assert_eq!(supervisor.on_farm_exit(0, true), SupervisorAction::NoteExit { farm_index: 0 });
    assert_eq!(supervisor.failed_count(), 0);
    assert!(supervisor.all_exited());
}

#[test]
fn unknown_farm_is_ignored() {
    let mut supervisor = FarmSupervisor::new(2);
    assert_eq!(supervisor.on_farm_exit(5, false), SupervisorAction::Ignore);
    assert!(supervisor.is_running(0));
    assert!(supervisor.is_running(1));
}

#[test]
fn run_outcome_of_background_tasks() {
    assert_eq!(run_outcome(TaskEnd::CacheWorkerEnded), Ok(()));
    assert_eq!(run_outcome(TaskEnd::FarmsEnded(Ok(()))), Ok(()));
    assert_eq!(
        run_outcome(TaskEnd::FarmsEnded(Err(FarmerError::NoDiskFarms))),
        Err(FarmerError::NoDiskFarms)
    );
    assert_eq!(
        run_outcome(TaskEnd::FarmsLost { reason: "canceled".to_string() }),
        Err(FarmerError::Backend { message: "canceled".to_string() })
    );
}
