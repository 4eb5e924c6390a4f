use crate::record::WorkingRecord;
use crate::response::DemoCpb16ReceiveState;
use crate::status::DemoCpb16Status;
use vstd::prelude::*;

verus! {

/// The number of observations in a window unless configured otherwise.
pub const DEFAULT_CHUNK_SIZE: u32 = 10;

/// The largest window whose counts cannot overflow an `i64`.
pub const MAX_CHUNK_SIZE: u32 = 0x7fff_ffff;

/// Rolling statistics over a window of observations.
#[derive(Debug, Clone, Copy, PartialEq, Eq, Structural)]
pub struct DemoCpb16OperationChunkData {
    pub operating_states_chunk_size: u32,
    pub operating_states_chunk_count: u32,
    pub chunk_last_production_count: u32,
    pub chunk_last_defect_count: u32,
    pub chunk_production: i64,
    pub chunk_defect: i64,
    pub chunk_work_second: i64,
}

/// How far a cumulative counter moved since `last`. A counter that went
/// down was reset by a new run, so all of its value is new.
pub open spec fn counter_delta(now: u32, last: u32) -> int {
    if now >= last {
        now - last
    } else {
        now as int
    }
}

/// The window with nothing counted and the cursors at `(p, d)`.
pub open spec fn fresh_chunk(size: u32, p: u32, d: u32) -> DemoCpb16OperationChunkData {
    DemoCpb16OperationChunkData {
        operating_states_chunk_size: size,
        operating_states_chunk_count: 0,
        chunk_last_production_count: p,
        chunk_last_defect_count: d,
        chunk_production: 0,
        chunk_defect: 0,
        chunk_work_second: 0,
    }
}

/// The record that closes the window `c` at observation `o`.
pub open spec fn working_record_of(
    c: DemoCpb16OperationChunkData,
    o: DemoCpb16ReceiveState,
) -> WorkingRecord {
    WorkingRecord {
        is_working: o.status == DemoCpb16Status::Running,
        working_second: c.chunk_work_second,
        production: c.chunk_production,
        defect: c.chunk_defect,
        timestamp: o.receive_time,
    }
}

/// Closes the window `c` if it is full: the record and the window that
/// follows, seeded from `o`.
pub open spec fn close_if_full(
    c: DemoCpb16OperationChunkData,
    o: DemoCpb16ReceiveState,
) -> (DemoCpb16OperationChunkData, Option<WorkingRecord>) {
    if c.operating_states_chunk_count == c.operating_states_chunk_size {
        (
            fresh_chunk(c.operating_states_chunk_size, o.production_count, o.defect_count),
            Some(working_record_of(c, o)),
        )
    } else {
        (c, None)
    }
}

/// Counts a running observation: its production and defects since the
/// cursors, which then move to it.
pub open spec fn running_step(c: DemoCpb16OperationChunkData, o: DemoCpb16ReceiveState) -> (
    DemoCpb16OperationChunkData,
    Option<WorkingRecord>,
) {
    close_if_full(
        DemoCpb16OperationChunkData {
            operating_states_chunk_count: (c.operating_states_chunk_count + 1) as u32,
            chunk_production: (c.chunk_production + counter_delta(
                o.production_count,
                c.chunk_last_production_count,
            )) as i64,
            chunk_defect: (c.chunk_defect + counter_delta(
                o.defect_count,
                c.chunk_last_defect_count,
            )) as i64,
            chunk_last_production_count: o.production_count,
            chunk_last_defect_count: o.defect_count,
            chunk_work_second: (c.chunk_work_second + 1) as i64,
            ..c
        },
        o,
    )
}

/// Counts a stopping observation: time only, and the cursors are cleared.
pub open spec fn stopping_step(c: DemoCpb16OperationChunkData, o: DemoCpb16ReceiveState) -> (
    DemoCpb16OperationChunkData,
    Option<WorkingRecord>,
) {
    close_if_full(
        DemoCpb16OperationChunkData {
            operating_states_chunk_count: (c.operating_states_chunk_count + 1) as u32,
            chunk_last_production_count: 0,
            chunk_last_defect_count: 0,
            chunk_work_second: (c.chunk_work_second + 1) as i64,
            ..c
        },
        o,
    )
}

/// The window after counting the running observations `obs` one by one,
/// none of which closes it.
pub open spec fn count_running(c: DemoCpb16OperationChunkData, obs: Seq<DemoCpb16ReceiveState>) -> DemoCpb16OperationChunkData
    decreases obs.len(),
{
    if obs.len() == 0 {
        c
    } else {
        count_running(running_step(c, obs[0]).0, obs.drop_first())
    }
}

/// Counters that never go down are counted by how far they advanced.
pub open spec fn counters_rise(c: DemoCpb16OperationChunkData, obs: Seq<DemoCpb16ReceiveState>) -> bool {
    &&& obs.len() > 0
    &&& obs[0].production_count >= c.chunk_last_production_count
    &&& obs[0].defect_count >= c.chunk_last_defect_count
    &&& forall|i: int|
        0 < i < obs.len() ==> (#[trigger] obs[i]).production_count >= obs[i - 1].production_count
            && obs[i].defect_count >= obs[i - 1].defect_count
}

proof fn lemma_running_step_open(c: DemoCpb16OperationChunkData, o: DemoCpb16ReceiveState)
    requires
        c.wf(),
        c.operating_states_chunk_count + 1 < c.operating_states_chunk_size,
    ensures
        running_step(c, o).1 is None,
        running_step(c, o).0.wf(),
        running_step(c, o).0.operating_states_chunk_size == c.operating_states_chunk_size,
        running_step(c, o).0.operating_states_chunk_count == c.operating_states_chunk_count + 1,
        running_step(c, o).0.chunk_production == c.chunk_production + counter_delta(
            o.production_count,
            c.chunk_last_production_count,
        ),
        running_step(c, o).0.chunk_defect == c.chunk_defect + counter_delta(
            o.defect_count,
            c.chunk_last_defect_count,
        ),
        running_step(c, o).0.chunk_last_production_count == o.production_count,
        running_step(c, o).0.chunk_last_defect_count == o.defect_count,
{
    let n = c.operating_states_chunk_count as int;
    assert(n * 0xffff_ffff + 0xffff_ffff == (n + 1) * 0xffff_ffff) by (nonlinear_arith);
    assert((n + 1) * 0xffff_ffff <= MAX_CHUNK_SIZE * 0xffff_ffff) by (nonlinear_arith)
        requires
            n + 1 <= MAX_CHUNK_SIZE,
    ;
}

/// Within a window that the observations do not close, counters that never
/// go down make the window's production and defects exactly how far the
/// counters advanced past the cursors, and the window counts one second
/// per observation.
pub proof fn lemma_rising_counters(c: DemoCpb16OperationChunkData, obs: Seq<DemoCpb16ReceiveState>)
    requires
        c.wf(),
        c.operating_states_chunk_count + obs.len() < c.operating_states_chunk_size,
        counters_rise(c, obs),
    ensures
        count_running(c, obs).wf(),
        count_running(c, obs).operating_states_chunk_count == c.operating_states_chunk_count
            + obs.len(),
        count_running(c, obs).chunk_work_second == c.chunk_work_second + obs.len(),
        count_running(c, obs).chunk_production == c.chunk_production + obs.last().production_count
            - c.chunk_last_production_count,
        count_running(c, obs).chunk_defect == c.chunk_defect + obs.last().defect_count
            - c.chunk_last_defect_count,
    decreases obs.len(),
{
    lemma_running_step_open(c, obs[0]);
    let c1 = running_step(c, obs[0]).0;
    let rest = obs.drop_first();
    if rest.len() == 0 {
        assert(count_running(c1, rest) == c1);
    } else {
        assert forall|i: int| 0 < i < rest.len() implies (#[trigger] rest[i]).production_count
            >= rest[i - 1].production_count && rest[i].defect_count >= rest[i - 1].defect_count by {
            assert(rest[i] == obs[i + 1] && rest[i - 1] == obs[i]);
        }
        assert(rest[0] == obs[1]);
        assert(obs[1].production_count >= obs[0].production_count);
        assert(obs[1].defect_count >= obs[0].defect_count);
        lemma_rising_counters(c1, rest);
        assert(rest.last() == obs.last());
    }
}

impl DemoCpb16OperationChunkData {
    /// The window is smaller than its size, each observation in it counted
    /// one second, and no counter moved by more than `u32::MAX` per observation.
    pub open spec fn wf(&self) -> bool {
        &&& 0 < self.operating_states_chunk_size <= MAX_CHUNK_SIZE
        &&& self.operating_states_chunk_count < self.operating_states_chunk_size
        &&& self.chunk_work_second == self.operating_states_chunk_count
        &&& 0 <= self.chunk_production <= self.operating_states_chunk_count * 0xffff_ffff
        &&& 0 <= self.chunk_defect <= self.operating_states_chunk_count * 0xffff_ffff
    }

    /// An empty window of the default size.
    pub fn new() -> (r: Self)
        ensures
            r == fresh_chunk(DEFAULT_CHUNK_SIZE, 0, 0),
            r.wf(),
    {
        Self::with_chunk_size(DEFAULT_CHUNK_SIZE)
    }

    /// An empty window of `size` observations.
    pub fn with_chunk_size(size: u32) -> (r: Self)
        requires
            0 < size <= MAX_CHUNK_SIZE,
        ensures
            r == fresh_chunk(size, 0, 0),
            r.wf(),
    {
        DemoCpb16OperationChunkData {
            operating_states_chunk_size: size,
            operating_states_chunk_count: 0,
            chunk_last_production_count: 0,
            chunk_last_defect_count: 0,
            chunk_production: 0,
            chunk_defect: 0,
            chunk_work_second: 0,
        }
    }

    /// Empties the window and seeds the cursors from `data`.
    pub fn reset_chunk_from_data(&mut self, data: &DemoCpb16ReceiveState)
        requires
            0 < old(self).operating_states_chunk_size <= MAX_CHUNK_SIZE,
        ensures
            *final(self) == fresh_chunk(
                old(self).operating_states_chunk_size,
                data.production_count,
                data.defect_count,
            ),
            final(self).wf(),
    {
        self.operating_states_chunk_count = 0;
        self.chunk_work_second = 0;
        self.chunk_defect = 0;
        self.chunk_production = 0;
        self.chunk_last_production_count = data.production_count;
        self.chunk_last_defect_count = data.defect_count;
    }

    /// The record of the full window, after which the window starts again
    /// from `data`.
    fn make_working_data(&mut self, data: &DemoCpb16ReceiveState) -> (r: WorkingRecord)
        requires
            0 < old(self).operating_states_chunk_size <= MAX_CHUNK_SIZE,
        ensures
            r == working_record_of(*old(self), *data),
            *final(self) == fresh_chunk(
                old(self).operating_states_chunk_size,
                data.production_count,
                data.defect_count,
            ),
    {
        let r = WorkingRecord {
            is_working: data.status == DemoCpb16Status::Running,
            working_second: self.chunk_work_second,
            production: self.chunk_production,
            defect: self.chunk_defect,
            timestamp: data.receive_time,
        };
        self.reset_chunk_from_data(data);
        r
    }

    /// Counts a running observation; gives the window's record when the
    /// observation fills it.
    pub fn push_running_data(&mut self, data: &DemoCpb16ReceiveState) -> (r: Option<
        WorkingRecord,
    >)
        requires
            old(self).wf(),
        ensures
            (*final(self), r) == running_step(*old(self), *data),
            final(self).wf(),
            r matches Some(w) ==> w.working_second == old(self).operating_states_chunk_size,
            old(self).operating_states_chunk_count + 1 < old(self).operating_states_chunk_size
                ==> {
                &&& r is None
                &&& final(self).operating_states_chunk_count == old(
                    self,
                ).operating_states_chunk_count + 1
                &&& final(self).chunk_work_second == old(self).chunk_work_second + 1
                &&& final(self).chunk_last_production_count == data.production_count
                &&& final(self).chunk_last_defect_count == data.defect_count
                &&& (data.production_count >= old(self).chunk_last_production_count
                    ==> final(self).chunk_production == old(self).chunk_production
                    + data.production_count - old(self).chunk_last_production_count)
                &&& (data.defect_count >= old(self).chunk_last_defect_count
                    ==> final(self).chunk_defect == old(self).chunk_defect + data.defect_count
                    - old(self).chunk_last_defect_count)
            },
    {
        let last_p = self.chunk_last_production_count;
        let last_d = self.chunk_last_defect_count;
        let dp: u32 = if data.production_count >= last_p {
            data.production_count - last_p
        } else {
            data.production_count
        };
        let dd: u32 = if data.defect_count >= last_d {
            data.defect_count - last_d
        } else {
            data.defect_count
        };
        proof {
            let n = self.operating_states_chunk_count as int;
            assert(n * 0xffff_ffff + 0xffff_ffff == (n + 1) * 0xffff_ffff) by (nonlinear_arith);
            assert((n + 1) * 0xffff_ffff <= MAX_CHUNK_SIZE * 0xffff_ffff) by (nonlinear_arith)
                requires
                    n + 1 <= MAX_CHUNK_SIZE,
            ;
        }
        self.operating_states_chunk_count = self.operating_states_chunk_count + 1;
        self.chunk_production = self.chunk_production + dp as i64;
        self.chunk_defect = self.chunk_defect + dd as i64;
        self.chunk_last_production_count = data.production_count;
        self.chunk_last_defect_count = data.defect_count;
        self.chunk_work_second = self.chunk_work_second + 1;
        if self.operating_states_chunk_count == self.operating_states_chunk_size {
            let rec = self.make_working_data(data);
            Some(rec)
        } else {
            None
        }
    }

    /// Counts a stopping observation; gives the window's record when the
    /// observation fills it.
    pub fn push_stopping_data(&mut self, data: &DemoCpb16ReceiveState) -> (r: Option<
        WorkingRecord,
    >)
        requires
            old(self).wf(),
        ensures
            (*final(self), r) == stopping_step(*old(self), *data),
            final(self).wf(),
            r matches Some(w) ==> w.working_second == old(self).operating_states_chunk_size,
    {
        proof {
            let n = self.operating_states_chunk_count as int;
            assert(n * 0xffff_ffff <= (n + 1) * 0xffff_ffff) by (nonlinear_arith);
        }
        self.operating_states_chunk_count = self.operating_states_chunk_count + 1;
        self.chunk_work_second = self.chunk_work_second + 1;
        self.chunk_last_production_count = 0;
        self.chunk_last_defect_count = 0;
        if self.operating_states_chunk_count == self.operating_states_chunk_size {
            let rec = self.make_working_data(data);
            Some(rec)
        } else {
            None
        }
    }
}

} // verus!
