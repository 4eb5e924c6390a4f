use crate::config::{INTERVAL_WHEN_MACHINE_STOP, MONITOR_INTERVAL};
use crate::status::DemoCpb16Status;
use vstd::prelude::*;

verus! {

/// The polling loop's own view of the machine: the status it saw last and
/// the two cadences, in milliseconds.
#[derive(Debug, Clone, Copy, PartialEq, Eq, Structural)]
pub struct DemoCpb16State {
    pub status: DemoCpb16Status,
    pub monitor_interval: u64,
    pub interval_when_machine_stop: u64,
}

/// The cadence for a status.
pub open spec fn interval_for(s: DemoCpb16State) -> u64 {
    match s.status {
        DemoCpb16Status::Stopping => s.interval_when_machine_stop,
        DemoCpb16Status::Running => s.monitor_interval,
    }
}

impl DemoCpb16State {
    /// Stopped, with the default cadences.
    pub fn new() -> (r: Self)
        ensures
            r.status == DemoCpb16Status::Stopping,
            r.monitor_interval == MONITOR_INTERVAL,
            r.interval_when_machine_stop == INTERVAL_WHEN_MACHINE_STOP,
    {
        Self::with_intervals(MONITOR_INTERVAL, INTERVAL_WHEN_MACHINE_STOP)
    }

    /// Stopped, with the given cadences.
    pub fn with_intervals(monitor_interval: u64, interval_when_machine_stop: u64) -> (r: Self)
        ensures
            r.status == DemoCpb16Status::Stopping,
            r.monitor_interval == monitor_interval,
            r.interval_when_machine_stop == interval_when_machine_stop,
    {
        DemoCpb16State {
            status: DemoCpb16Status::Stopping,
            monitor_interval,
            interval_when_machine_stop,
        }
    }

    pub fn get_status(&self) -> (r: DemoCpb16Status)
        ensures
            r == self.status,
    {
        self.status
    }

    /// The cadence that the cached status calls for.
    pub fn get_interval(&self) -> (r: u64)
        ensures
            r == interval_for(*self),
    {
        match self.status {
            DemoCpb16Status::Stopping => self.interval_when_machine_stop,
            DemoCpb16Status::Running => self.monitor_interval,
        }
    }

    pub fn set_status(&mut self, status: DemoCpb16Status)
        ensures
            *final(self) == (DemoCpb16State { status, ..*old(self) }),
    {
        self.status = status;
    }

    /// Caches the status of a new observation and gives the cadence for the
    /// next tick.
    pub fn observe(&mut self, status: DemoCpb16Status) -> (r: u64)
        ensures
            *final(self) == (DemoCpb16State { status, ..*old(self) }),
            r == interval_for(*final(self)),
    {
        if self.get_status() != status {
            self.set_status(status);
        }
        self.get_interval()
    }
}

/// The tick after `prev`: one period later, or `now` if that moment has
/// already passed, so that ticks missed under a stall are dropped rather
/// than replayed in a burst. Times are in milliseconds.
pub open spec fn next_tick_spec(prev: u64, interval: u64, now: u64) -> int {
    let t = prev + interval;
    if t < now {
        now as int
    } else {
        t
    }
}

pub fn next_tick(prev: u64, interval: u64, now: u64) -> (r: u64)
    requires
        prev + interval <= u64::MAX,
    ensures
        r == next_tick_spec(prev, interval, now),
{
    let t = prev + interval;
    if t < now {
        now
    } else {
        t
    }
}

/// How long to sleep until `next`, in milliseconds: nothing if it has passed.
pub fn sleep_duration(next: u64, now: u64) -> (r: u64)
    ensures
        r == if next > now {
            next - now
        } else {
            0
        },
{
    if next > now {
        next - now
    } else {
        0
    }
}

} // verus!
