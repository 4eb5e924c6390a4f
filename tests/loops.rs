use plc_collector::poller::{next_tick, sleep_duration, DemoCpb16State};
use plc_collector::status::DemoCpb16Status;
use plc_collector::supervisor::{
    check_can_start, check_can_stop, CollectorError, RunnerAction, RunnerEvent, RunnerState,
    Supervisor,
};

#[test]
fn interval_follows_status() {
    let mut s = DemoCpb16State::with_intervals(50, 1000);
    assert_eq!(s.get_status(), DemoCpb16Status::Stopping);
    assert_eq!(s.get_interval(), 1000);
    assert_eq!(s.observe(DemoCpb16Status::Running), 50);
    assert_eq!(s.get_status(), DemoCpb16Status::Running);
    assert_eq!(s.observe(DemoCpb16Status::Running), 50);
    s.set_status(DemoCpb16Status::Stopping);
    assert_eq!(s.get_interval(), 1000);
    let d = DemoCpb16State::new();
    assert_eq!(d.get_interval(), 1000);
}

#[test]
fn tick_schedule() {
    assert_eq!(next_tick(1000, 1000, 1500), 2000);
    assert_eq!(next_tick(1000, 1000, 7300), 7300);
    assert_eq!(sleep_duration(2000, 1500), 500);
    assert_eq!(sleep_duration(2000, 2500), 0);
}

#[test]
fn disconnect_and_reconnect() {
    let (mut s, first) = Supervisor::begin();
    assert_eq!(first, RunnerAction::StartCollection);
    assert_eq!(s.on_event(RunnerEvent::Started), RunnerAction::WaitForDisconnect);
    assert_eq!(s.on_event(RunnerEvent::Disconnected), RunnerAction::Sleep(20));
    assert_eq!(s.on_event(RunnerEvent::SleepDone), RunnerAction::StartCollection);
    assert_eq!(s.on_event(RunnerEvent::StartFailed), RunnerAction::Sleep(20));
    assert_eq!(s.on_event(RunnerEvent::SleepDone), RunnerAction::StartCollection);
    assert_eq!(s.on_event(RunnerEvent::Started), RunnerAction::WaitForDisconnect);
    assert_eq!(s.state, RunnerState::Collecting);
    assert_eq!(s.on_event(RunnerEvent::ChannelClosed), RunnerAction::Exit);
    assert_eq!(s.state, RunnerState::Finished);
}

#[test]
fn first_start_must_succeed() {
    let (mut s, _) = Supervisor::begin();
    assert_eq!(s.on_event(RunnerEvent::StartFailed), RunnerAction::Fail);
    assert_eq!(s.on_event(RunnerEvent::Started), RunnerAction::Ignore);
}

#[test]
fn start_and_stop_guards() {
    assert_eq!(check_can_start(false, true), Ok(()));
    assert_eq!(check_can_start(true, true), Err(CollectorError::AlreadyMonitoring));
    assert_eq!(check_can_start(false, false), Err(CollectorError::EngineStopped));
    assert_eq!(check_can_stop(true), Ok(()));
    assert_eq!(check_can_stop(false), Err(CollectorError::NotMonitoring));
}
