use plc_collector::chunk::DemoCpb16OperationChunkData;
use plc_collector::engine::{DemoCpb16DataHandler, BATCH_SIZE};
use plc_collector::record::{worked_seconds, Record, ResultRecord, WorkingRecord};
use plc_collector::response::{DemoCpb16ReceiveData, DemoCpb16ReceiveState, LastWorkingData, ParseError};
use plc_collector::status::DemoCpb16Status;

const SECOND: i64 = 1_000_000_000;

fn obs(t: i64, status: DemoCpb16Status, production: u32, defect: u32) -> DemoCpb16ReceiveState {
    DemoCpb16ReceiveState {
        receive_time: t,
        status,
        working_id: 1,
        production_count: production,
        defect_count: defect,
        start_time: if status == DemoCpb16Status::Running { Some(0) } else { None },
        last_working_data: None,
    }
}

fn running(i: u32) -> DemoCpb16ReceiveState {
    obs(i as i64 * SECOND, DemoCpb16Status::Running, 3 * i, i)
}

/// An engine that has already seen the machine running, with its window
/// empty and its cursors at zero.
fn running_engine() -> DemoCpb16DataHandler {
    DemoCpb16DataHandler {
        last_machine_status: DemoCpb16Status::Running,
        ..DemoCpb16DataHandler::create()
    }
}

#[test]
fn steady_running_window() {
    let mut e = running_engine();
    for i in 1..=10u32 {
        let out = e.receive_state(running(i));
        assert!(out.is_empty());
    }
    assert_eq!(
        e.operating_send_data,
        vec![Record::Working(WorkingRecord {
            is_working: true,
            working_second: 10,
            production: 30,
            defect: 10,
            timestamp: 10 * SECOND,
        })]
    );
    assert_eq!(e.operating_states_chunk.operating_states_chunk_count, 0);
}

#[test]
fn batch_flush_after_sixty_observations() {
    let mut e = running_engine();
    let mut batches = Vec::new();
    for i in 1..=60u32 {
        batches.extend(e.receive_state(running(i)));
    }
    assert_eq!(batches.len(), 1);
    assert_eq!(batches[0].len(), BATCH_SIZE);
    for (k, r) in batches[0].iter().enumerate() {
        match r {
            Record::Working(w) => {
                assert!(w.is_working);
                assert_eq!(w.working_second, 10);
                assert_eq!(w.production, 30);
                assert_eq!(w.defect, 10);
                assert_eq!(w.timestamp, (10 * (k as i64) + 10) * SECOND);
            }
            Record::Result(_) => panic!("unexpected result record"),
        }
    }
    assert!(e.operating_send_data.is_empty());
}

fn past_job() -> LastWorkingData {
    let t0 = 1_700_000_000 * SECOND;
    LastWorkingData {
        last_production_count: 100,
        last_defect_count: 4,
        last_start_time: t0,
        last_end_time: t0 + 120 * SECOND,
    }
}

#[test]
fn transition_with_past_data() {
    let mut e = DemoCpb16DataHandler::create();
    for i in 1..=5u32 {
        assert!(e.receive_state(obs(i as i64 * SECOND, DemoCpb16Status::Stopping, 0, 0)).is_empty());
    }
    let mut o = obs(6 * SECOND, DemoCpb16Status::Running, 2, 0);
    o.last_working_data = Some(past_job());
    assert!(e.receive_state(o).is_empty());
    let t0 = past_job().last_start_time;
    assert_eq!(
        e.operating_send_data,
        vec![Record::Result(ResultRecord {
            is_working: true,
            start_time: t0,
            end_time: t0 + 120 * SECOND,
            worked_second: 120,
            production_count: 100,
            defect_count: 4,
            timestamp: 6 * SECOND,
        })]
    );
    assert_eq!(e.last_machine_status, DemoCpb16Status::Running);
    // the new run starts a fresh window seeded from this observation
    assert_eq!(e.operating_states_chunk.operating_states_chunk_count, 1);
    assert_eq!(e.operating_states_chunk.chunk_work_second, 1);
    assert_eq!(e.operating_states_chunk.chunk_production, 0);
    assert_eq!(e.operating_states_chunk.chunk_last_production_count, 2);
}

#[test]
fn transition_without_past_data() {
    let mut e = DemoCpb16DataHandler::create();
    for i in 1..=5u32 {
        e.receive_state(obs(i as i64 * SECOND, DemoCpb16Status::Stopping, 0, 0));
    }
    e.receive_state(obs(6 * SECOND, DemoCpb16Status::Running, 2, 1));
    assert!(e.operating_send_data.is_empty());
    assert_eq!(e.last_machine_status, DemoCpb16Status::Running);
    assert_eq!(e.operating_states_chunk.operating_states_chunk_count, 1);
    assert_eq!(e.operating_states_chunk.chunk_work_second, 1);
    assert_eq!(e.operating_states_chunk.chunk_production, 0);
    assert_eq!(e.operating_states_chunk.chunk_defect, 0);
    assert_eq!(e.operating_states_chunk.chunk_last_production_count, 2);
    assert_eq!(e.operating_states_chunk.chunk_last_defect_count, 1);
}

#[test]
fn first_running_observation_seeds_the_window() {
    let mut e = DemoCpb16DataHandler::create();
    for i in 1..=10u32 {
        assert!(e.receive_state(running(i)).is_empty());
    }
    match e.operating_send_data[..] {
        [Record::Working(w)] => {
            assert_eq!(w.working_second, 10);
            assert_eq!(w.production, 27);
            assert_eq!(w.defect, 9);
        }
        _ => panic!("expected one working record"),
    }
}

#[test]
fn partial_batch_is_flushed_at_shutdown() {
    let mut e = running_engine();
    for i in 1..=30u32 {
        assert!(e.receive_state(running(i)).is_empty());
    }
    assert_eq!(e.operating_send_data.len(), 3);
    let rest = e.finish().unwrap();
    assert_eq!(rest.len(), 3);
    assert!(e.operating_send_data.is_empty());
    assert!(e.finish().is_none());
}

#[test]
fn stopping_window_is_not_working() {
    let mut e = DemoCpb16DataHandler::create();
    for i in 1..=10u32 {
        e.receive_state(obs(i as i64 * SECOND, DemoCpb16Status::Stopping, 5, 1));
    }
    assert_eq!(
        e.operating_send_data,
        vec![Record::Working(WorkingRecord {
            is_working: false,
            working_second: 10,
            production: 0,
            defect: 0,
            timestamp: 10 * SECOND,
        })]
    );
}

#[test]
fn running_then_stopping_keeps_the_window() {
    let mut e = running_engine();
    for i in 1..=4u32 {
        e.receive_state(running(i));
    }
    e.receive_state(obs(5 * SECOND, DemoCpb16Status::Stopping, 12, 4));
    assert_eq!(e.last_machine_status, DemoCpb16Status::Stopping);
    assert_eq!(e.operating_states_chunk.operating_states_chunk_count, 5);
    assert_eq!(e.operating_states_chunk.chunk_production, 12);
    assert_eq!(e.operating_states_chunk.chunk_last_production_count, 0);
}

#[test]
fn equal_and_decreasing_counters() {
    let mut c = DemoCpb16OperationChunkData::new();
    let o = obs(0, DemoCpb16Status::Running, 50, 5);
    assert!(c.push_running_data(&o).is_none());
    assert_eq!(c.chunk_production, 50);
    assert!(c.push_running_data(&o).is_none());
    assert_eq!(c.chunk_production, 50);
    assert_eq!(c.chunk_defect, 5);
    // a counter that went down was reset by a new run
    let o = obs(0, DemoCpb16Status::Running, 7, 1);
    assert!(c.push_running_data(&o).is_none());
    assert_eq!(c.chunk_production, 57);
    assert_eq!(c.chunk_defect, 6);
    assert_eq!(c.chunk_work_second, 3);
}

#[test]
fn tenth_observation_closes_the_window() {
    let mut c = DemoCpb16OperationChunkData::new();
    for i in 1..=9u32 {
        assert!(c.push_running_data(&running(i)).is_none());
    }
    let w = c.push_running_data(&running(10)).unwrap();
    assert_eq!(w.working_second, 10);
    assert_eq!(c.operating_states_chunk_count, 0);
    assert_eq!(c.chunk_work_second, 0);
    assert_eq!(c.chunk_last_production_count, 30);
    assert!(c.push_running_data(&running(11)).is_none());
    assert_eq!(c.chunk_production, 3);
}

#[test]
fn smaller_window() {
    let mut c = DemoCpb16OperationChunkData::with_chunk_size(2);
    assert!(c.push_stopping_data(&obs(1, DemoCpb16Status::Stopping, 0, 0)).is_none());
    let w = c.push_stopping_data(&obs(2, DemoCpb16Status::Stopping, 0, 0)).unwrap();
    assert_eq!(w.working_second, 2);
    assert!(!w.is_working);
}

#[test]
fn worked_seconds_round_toward_zero() {
    assert_eq!(worked_seconds(0, 120 * SECOND), 120);
    assert_eq!(worked_seconds(0, 120 * SECOND + 999_999_999), 120);
    assert_eq!(worked_seconds(0, -1_500_000_000), -1);
    assert_eq!(worked_seconds(5, 5), 0);
    assert_eq!(worked_seconds(i64::MIN, i64::MAX), 18_446_744_073);
}

#[test]
fn unparsable_reply_leaves_engine_alone() {
    let mut e = DemoCpb16DataHandler::create();
    e.receive_state(running(1));
    let bytes = vec![b'0'; 149];
    let data = DemoCpb16ReceiveData::create(0, bytes).unwrap();
    assert_eq!(e.receive_response(data).unwrap_err(), ParseError::WrongFieldCount);
    assert_eq!(e.operating_states_chunk.operating_states_chunk_count, 1);
    assert_eq!(e.last_machine_status, DemoCpb16Status::Running);
}

#[test]
fn same_observation_twice_gives_two_windows() {
    let mut e = DemoCpb16DataHandler::create();
    for i in 1..=20u32 {
        let o = obs(i as i64 * SECOND, DemoCpb16Status::Running, 9, 2);
        e.receive_state(o);
    }
    assert_eq!(e.operating_send_data.len(), 2);
    match (e.operating_send_data[0], e.operating_send_data[1]) {
        (Record::Working(a), Record::Working(b)) => {
            assert_eq!(a.timestamp, 10 * SECOND);
            assert_eq!(b.timestamp, 20 * SECOND);
            assert_eq!(a.production, 0);
            assert_eq!(b.production, 0);
        }
        _ => panic!("expected two working records"),
    }
}
