use farm_supervisor::plotting_delay::PlottingDelays;

#[test]
fn first_sync_progress_releases_every_farm() {
    let (mut delays, mut receivers) = PlottingDelays::new(3);
    assert_eq!(receivers.len(), 3);
    assert!(!delays.is_open());
    for receiver in receivers.iter_mut() {
        assert_eq!(receiver.try_recv(), Ok(None));
    }
    let released = delays.on_sync_progress();
    assert_eq!(released.len(), 3);
    assert!(delays.is_open());
    for (sender, receiver) in released.into_iter().zip(receivers.iter_mut()) {
        assert!(sender.is_connected_to(receiver));
        assert_eq!(sender.send(()), Ok(()));
        assert_eq!(receiver.try_recv(), Ok(Some(())));
    }
}

#[test]
fn later_sync_progress_does_nothing() {
    let (mut delays, _receivers) = PlottingDelays::new(2);
    assert_eq!(delays.on_sync_progress().len(), 2);
    assert!(delays.on_sync_progress().is_empty());
    assert!(delays.on_sync_progress().is_empty());
    assert!(delays.is_open());
}

#[test]
fn farms_stay_held_before_first_sync_progress() {
    let (delays, mut receivers) = PlottingDelays::new(2);
    assert!(!delays.is_open());
    assert_eq!(receivers[0].try_recv(), Ok(None));
    assert_eq!(receivers[1].try_recv(), Ok(None));
}
