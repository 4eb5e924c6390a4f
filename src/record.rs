use crate::response::DemoCpb16ReceiveState;
use vstd::prelude::*;

verus! {

/// Nanoseconds in one second.
pub const NANOS_PER_SECOND: i64 = 1_000_000_000;

/// A summary of one completed window of observations.
#[derive(Debug, Clone, Copy, PartialEq, Eq, Structural)]
pub struct WorkingRecord {
    pub is_working: bool,
    pub working_second: i64,
    pub production: i64,
    pub defect: i64,
    /// Arrival time of the observation that completed the window, in nanoseconds.
    pub timestamp: i64,
}

/// A summary of the job that ended before the machine started again.
#[derive(Debug, Clone, Copy, PartialEq, Eq, Structural)]
pub struct ResultRecord {
    pub is_working: bool,
    pub start_time: i64,
    pub end_time: i64,
    pub worked_second: i64,
    pub production_count: i64,
    pub defect_count: i64,
    /// Arrival time of the observation that carried the job, in nanoseconds.
    pub timestamp: i64,
}

/// A record for the time-series store.
#[derive(Debug, Clone, Copy, PartialEq, Eq, Structural)]
pub enum Record {
    Working(WorkingRecord),
    Result(ResultRecord),
}

/// `d / 10^9`, rounded toward zero as integer division on `i64` rounds.
pub open spec fn div_seconds_toward_zero(d: int) -> int {
    if d >= 0 {
        d / 1_000_000_000
    } else {
        -((-d) / 1_000_000_000)
    }
}

/// Whole seconds from `start` to `end`, both in nanoseconds.
pub open spec fn worked_seconds_spec(start: i64, end: i64) -> int {
    div_seconds_toward_zero(end - start)
}

/// Whole seconds from `start` to `end`, both in nanoseconds, rounded
/// toward zero.
pub fn worked_seconds(start: i64, end: i64) -> (r: i64)
    ensures
        r == worked_seconds_spec(start, end),
{
    let d: i128 = end as i128 - start as i128;
    let q: i128 = if d >= 0 {
        d / 1_000_000_000i128
    } else {
        -((-d) / 1_000_000_000i128)
    };
    assert(-20_000_000_000 < q < 20_000_000_000) by (nonlinear_arith)
        requires
            q == div_seconds_toward_zero(d as int),
            -0x1_0000_0000_0000_0000 < d < 0x1_0000_0000_0000_0000,
    ;
    q as i64
}

/// The result record that an observation carrying the previous job gives.
pub open spec fn worked_result_of(o: DemoCpb16ReceiveState) -> Option<ResultRecord> {
    match o.last_working_data {
        Some(l) => Some(
            ResultRecord {
                is_working: true,
                start_time: l.last_start_time,
                end_time: l.last_end_time,
                worked_second: worked_seconds_spec(l.last_start_time, l.last_end_time) as i64,
                production_count: l.last_production_count as i64,
                defect_count: l.last_defect_count as i64,
                timestamp: o.receive_time,
            },
        ),
        None => None,
    }
}

impl DemoCpb16ReceiveState {
    /// The record of the previous job, where the observation carries one.
    pub fn make_worked_result(&self) -> (r: Option<ResultRecord>)
        ensures
            r == worked_result_of(*self),
    {
        match self.last_working_data {
            Some(l) => {
                let worked_second = worked_seconds(l.last_start_time, l.last_end_time);
                Some(
                    ResultRecord {
                        is_working: true,
                        start_time: l.last_start_time,
                        end_time: l.last_end_time,
                        worked_second,
                        production_count: l.last_production_count as i64,
                        defect_count: l.last_defect_count as i64,
                        timestamp: self.receive_time,
                    },
                )
            },
            None => None,
        }
    }

}

} // verus!
