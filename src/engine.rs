use crate::chunk::{
    fresh_chunk, running_step, stopping_step, DemoCpb16OperationChunkData, DEFAULT_CHUNK_SIZE,
};
use crate::record::{worked_result_of, Record, WorkingRecord};
use crate::fields::fields_of;
use crate::response::{
    numbers_ok, parsed_from, DemoCpb16ReceiveData, DemoCpb16ReceiveState, ParseError, DATA_LENGTH,
    RESPONSE_LENGTH,
};
use crate::status::{is_running_marker, status_of, DemoCpb16Status};
use vstd::prelude::*;

verus! {

/// The number of records handed to the store at once.
pub const BATCH_SIZE: usize = 6;

/// The records of an optional working record.
pub open spec fn working_seq(w: Option<WorkingRecord>) -> Seq<Record> {
    match w {
        Some(r) => seq![Record::Working(r)],
        None => Seq::empty(),
    }
}

/// The result record of `o`, if any, as records.
pub open spec fn result_seq(o: DemoCpb16ReceiveState) -> Seq<Record> {
    match worked_result_of(o) {
        Some(r) => seq![Record::Result(r)],
        None => Seq::empty(),
    }
}

/// One observation through the transition table: the status and window
/// after it, and the records it gives, in order.
#[verifier::opaque]
pub open spec fn engine_step(
    last: DemoCpb16Status,
    c: DemoCpb16OperationChunkData,
    o: DemoCpb16ReceiveState,
) -> (DemoCpb16Status, DemoCpb16OperationChunkData, Seq<Record>) {
    match (last, o.status) {
        (DemoCpb16Status::Running, DemoCpb16Status::Running) => {
            let (c1, w) = running_step(c, o);
            (DemoCpb16Status::Running, c1, working_seq(w))
        },
        (DemoCpb16Status::Running, DemoCpb16Status::Stopping) => {
            let (c1, w) = stopping_step(c, o);
            (DemoCpb16Status::Stopping, c1, working_seq(w))
        },
        (DemoCpb16Status::Stopping, DemoCpb16Status::Running) => {
            let (c1, w) = running_step(
                fresh_chunk(c.operating_states_chunk_size, o.production_count, o.defect_count),
                o,
            );
            (DemoCpb16Status::Running, c1, result_seq(o) + working_seq(w))
        },
        (DemoCpb16Status::Stopping, DemoCpb16Status::Stopping) => {
            let (c1, w) = stopping_step(c, o);
            (DemoCpb16Status::Stopping, c1, working_seq(w))
        },
    }
}

/// Appends `recs` one by one to the open batch `pending`, closing it each
/// time it reaches `size`: the closed batches, in order, and the open one.
pub open spec fn batch_push(pending: Seq<Record>, recs: Seq<Record>, size: nat) -> (
    Seq<Seq<Record>>,
    Seq<Record>,
)
    decreases recs.len(),
{
    if recs.len() == 0 {
        (Seq::empty(), pending)
    } else {
        let p = pending.push(recs[0]);
        if p.len() == size {
            let (bs, q) = batch_push(Seq::empty(), recs.drop_first(), size);
            (seq![p] + bs, q)
        } else {
            batch_push(p, recs.drop_first(), size)
        }
    }
}

/// The records of a sequence of batches, in order.
pub open spec fn flatten(bs: Seq<Seq<Record>>) -> Seq<Record>
    decreases bs.len(),
{
    if bs.len() == 0 {
        Seq::empty()
    } else {
        flatten(bs.drop_last()) + bs.last()
    }
}

pub open spec fn batches_view(v: Seq<Vec<Record>>) -> Seq<Seq<Record>> {
    v.map_values(|b: Vec<Record>| b@)
}

/// Every batch holds exactly `size` records.
pub open spec fn all_full(bs: Seq<Seq<Record>>, size: nat) -> bool {
    forall|i: int| 0 <= i < bs.len() ==> (#[trigger] bs[i]).len() == size
}

/// Every working record among `recs` covers a window of `size` observations.
pub open spec fn windows_complete(recs: Seq<Record>, size: int) -> bool {
    forall|i: int|
        0 <= i < recs.len() ==> (#[trigger] recs[i] matches Record::Working(w)
            ==> w.working_second == size)
}

pub proof fn lemma_flatten_prepend(b: Seq<Record>, bs: Seq<Seq<Record>>)
    ensures
        flatten(seq![b] + bs) == b + flatten(bs),
    decreases bs.len(),
{
    if bs.len() == 0 {
        assert(seq![b] + bs =~= seq![b]);
        assert(seq![b].drop_last() =~= Seq::<Seq<Record>>::empty());
        assert(flatten(seq![b]) == flatten(seq![b].drop_last()) + seq![b].last());
        assert(b + flatten(bs) =~= b);
        assert(Seq::<Record>::empty() + b =~= b);
    } else {
        lemma_flatten_prepend(b, bs.drop_last());
        assert((seq![b] + bs).drop_last() =~= seq![b] + bs.drop_last());
        assert(b + flatten(bs.drop_last()) + bs.last() =~= b + (flatten(bs.drop_last())
            + bs.last()));
    }
}

pub proof fn lemma_flatten_concat(a: Seq<Seq<Record>>, b: Seq<Seq<Record>>)
    ensures
        flatten(a + b) == flatten(a) + flatten(b),
    decreases b.len(),
{
    if b.len() == 0 {
        assert(a + b =~= a);
        assert(flatten(a) + flatten(b) =~= flatten(a));
    } else {
        lemma_flatten_concat(a, b.drop_last());
        assert((a + b).drop_last() =~= a + b.drop_last());
        assert(flatten(a) + flatten(b.drop_last()) + b.last() =~= flatten(a) + (flatten(
            b.drop_last(),
        ) + b.last()));
    }
}

/// Batching keeps every record, in order, and closes only full batches;
/// an open batch shorter than `size` stays shorter than `size`.
pub proof fn lemma_batch_push(pending: Seq<Record>, recs: Seq<Record>, size: nat)
    requires
        pending.len() < size,
    ensures
        ({
            let (bs, q) = batch_push(pending, recs, size);
            &&& flatten(bs) + q == pending + recs
            &&& all_full(bs, size)
            &&& q.len() < size
        }),
    decreases recs.len(),
{
    if recs.len() == 0 {
        assert(pending + recs =~= pending);
        assert(flatten(Seq::<Seq<Record>>::empty()) + pending =~= pending);
    } else {
        let p = pending.push(recs[0]);
        assert(pending + recs =~= p + recs.drop_first());
        if p.len() == size {
            lemma_batch_push(Seq::empty(), recs.drop_first(), size);
            let (bs, q) = batch_push(Seq::empty(), recs.drop_first(), size);
            lemma_flatten_prepend(p, bs);
            assert(Seq::<Record>::empty() + recs.drop_first() =~= recs.drop_first());
            assert(p + flatten(bs) + q =~= p + (flatten(bs) + q));
            assert forall|i: int| 0 <= i < (seq![p] + bs).len() implies (#[trigger] (seq![p]
                + bs)[i]).len() == size by {
                if i > 0 {
                    assert((seq![p] + bs)[i] == bs[i - 1]);
                }
            }
        } else {
            lemma_batch_push(p, recs.drop_first(), size);
        }
    }
}

/// Feeds `obs` in order to an engine in the given state: the batches it
/// closes, in order, then its status, window and open batch at the end.
pub open spec fn run(
    last: DemoCpb16Status,
    c: DemoCpb16OperationChunkData,
    pending: Seq<Record>,
    obs: Seq<DemoCpb16ReceiveState>,
    size: nat,
) -> (Seq<Seq<Record>>, DemoCpb16Status, DemoCpb16OperationChunkData, Seq<Record>)
    decreases obs.len(),
{
    if obs.len() == 0 {
        (Seq::empty(), last, c, pending)
    } else {
        let (s1, c1, recs) = engine_step(last, c, obs[0]);
        let (bs, open1) = batch_push(pending, recs, size);
        let (bs2, s2, c2, open2) = run(s1, c1, open1, obs.drop_first(), size);
        (bs + bs2, s2, c2, open2)
    }
}

/// The records that `obs` give, one observation after another.
pub open spec fn run_records(
    last: DemoCpb16Status,
    c: DemoCpb16OperationChunkData,
    obs: Seq<DemoCpb16ReceiveState>,
) -> Seq<Record>
    decreases obs.len(),
{
    if obs.len() == 0 {
        Seq::empty()
    } else {
        let (s1, c1, recs) = engine_step(last, c, obs[0]);
        recs + run_records(s1, c1, obs.drop_first())
    }
}

/// Order is kept end to end: over any sequence of observations, the
/// batches handed out, read in order and followed by the open batch, are
/// the open batch at the start followed by every record the observations
/// gave, in the order of the observations. Every batch handed out is full,
/// and the open batch stays short of full.
pub proof fn lemma_order_preserved(
    last: DemoCpb16Status,
    c: DemoCpb16OperationChunkData,
    pending: Seq<Record>,
    obs: Seq<DemoCpb16ReceiveState>,
    size: nat,
)
    requires
        pending.len() < size,
    ensures
        ({
            let (bs, s, c2, p) = run(last, c, pending, obs, size);
            &&& flatten(bs) + p == pending + run_records(last, c, obs)
            &&& all_full(bs, size)
            &&& p.len() < size
        }),
    decreases obs.len(),
{
    if obs.len() == 0 {
        assert(flatten(Seq::<Seq<Record>>::empty()) + pending =~= pending);
        assert(pending + run_records(last, c, obs) =~= pending);
    } else {
        let (s1, c1, recs) = engine_step(last, c, obs[0]);
        let (bs, open1) = batch_push(pending, recs, size);
        lemma_batch_push(pending, recs, size);
        lemma_order_preserved(s1, c1, open1, obs.drop_first(), size);
        let (bs2, s2, c2, open2) = run(s1, c1, open1, obs.drop_first(), size);
        lemma_flatten_concat(bs, bs2);
        let rest = run_records(s1, c1, obs.drop_first());
        assert(flatten(bs + bs2) + open2 =~= flatten(bs) + (flatten(bs2) + open2));
        assert(flatten(bs) + (open1 + rest) =~= (flatten(bs) + open1) + rest);
        assert(pending + (recs + rest) =~= (pending + recs) + rest);
        assert forall|i: int| 0 <= i < (bs + bs2).len() implies (#[trigger] (bs + bs2)[i]).len()
            == size by {
            if i >= bs.len() {
                assert((bs + bs2)[i] == bs2[i - bs.len()]);
            } else {
                assert((bs + bs2)[i] == bs[i]);
            }
        }
    }
}

/// The aggregation engine: the status it saw last, the open window, and
/// the batch being filled.
#[derive(Debug)]
pub struct DemoCpb16DataHandler {
    pub last_machine_status: DemoCpb16Status,
    pub operating_states_chunk: DemoCpb16OperationChunkData,
    pub send_data_length: usize,
    pub operating_send_data: Vec<Record>,
}

/// `after` and the closed batches `bs` are what `before` turns into on
/// observation `o`.
pub open spec fn stepped(
    before: DemoCpb16DataHandler,
    after: DemoCpb16DataHandler,
    bs: Seq<Seq<Record>>,
    o: DemoCpb16ReceiveState,
) -> bool {
    let (s, c, recs) = engine_step(before.last_machine_status, before.operating_states_chunk, o);
    let (bs1, q) = batch_push(before.operating_send_data@, recs, BATCH_SIZE as nat);
    &&& after.last_machine_status == s
    &&& after.operating_states_chunk == c
    &&& after.send_data_length == before.send_data_length
    &&& bs == bs1
    &&& after.operating_send_data@ == q
}

impl DemoCpb16DataHandler {
    pub open spec fn wf(&self) -> bool {
        &&& self.operating_states_chunk.wf()
        &&& self.operating_states_chunk.operating_states_chunk_size == DEFAULT_CHUNK_SIZE
        &&& self.send_data_length == BATCH_SIZE
        &&& self.operating_send_data@.len() < self.send_data_length
    }

    /// A new engine: stopped, with an empty window of the default size and
    /// an empty batch.
    pub fn create() -> (r: Self)
        ensures
            r.wf(),
            r.last_machine_status == DemoCpb16Status::Stopping,
            r.operating_states_chunk == fresh_chunk(DEFAULT_CHUNK_SIZE, 0, 0),
            r.operating_send_data@.len() == 0,
    {
        DemoCpb16DataHandler {
            last_machine_status: DemoCpb16Status::Stopping,
            operating_states_chunk: DemoCpb16OperationChunkData::new(),
            send_data_length: BATCH_SIZE,
            operating_send_data: Vec::new(),
        }
    }

    /// Appends a record to the open batch and closes the batch when it is full.
    pub fn push_send_data(&mut self, rec: Record, out: &mut Vec<Vec<Record>>)
        requires
            old(self).wf(),
        ensures
            final(self).wf(),
            final(self).last_machine_status == old(self).last_machine_status,
            final(self).operating_states_chunk == old(self).operating_states_chunk,
            ({
                let (bs, q) = batch_push(
                    old(self).operating_send_data@,
                    seq![rec],
                    BATCH_SIZE as nat,
                );
                &&& batches_view(final(out)@) == batches_view(old(out)@) + bs
                &&& final(self).operating_send_data@ == q
            }),
    {
        self.operating_send_data.push(rec);
        let ghost p = self.operating_send_data@;
        proof {
            let e = Seq::<Record>::empty();
            assert(seq![rec].drop_first() =~= e);
            assert(seq![rec][0] == rec);
            assert(batch_push(e, e, BATCH_SIZE as nat) == (Seq::<Seq<Record>>::empty(), e));
            assert(batch_push(p, e, BATCH_SIZE as nat) == (Seq::<Seq<Record>>::empty(), p));
        }
        if self.operating_send_data.len() == self.send_data_length {
            let mut batch: Vec<Record> = Vec::new();
            std::mem::swap(&mut batch, &mut self.operating_send_data);
            let ghost before = out@;
            out.push(batch);
            proof {
                assert(batches_view(out@) =~= batches_view(before) + seq![p]);
                assert(seq![p] + Seq::<Seq<Record>>::empty() =~= seq![p]);
            }
        } else {
            proof {
                assert(batches_view(out@) =~= batches_view(out@) + Seq::<Seq<Record>>::empty());
            }
        }
    }

    /// Takes one observation through the transition table, and hands back
    /// the batches that it closed.
    pub fn receive_state(&mut self, state: DemoCpb16ReceiveState) -> (r: Vec<Vec<Record>>)
        requires
            old(self).wf(),
        ensures
            final(self).wf(),
            ({
                let (s, c, recs) = engine_step(
                    old(self).last_machine_status,
                    old(self).operating_states_chunk,
                    state,
                );
                let (bs, q) = batch_push(
                    old(self).operating_send_data@,
                    recs,
                    BATCH_SIZE as nat,
                );
                &&& final(self).last_machine_status == s
                &&& final(self).operating_states_chunk == c
                &&& batches_view(r@) == bs
                &&& final(self).operating_send_data@ == q
                &&& windows_complete(recs, DEFAULT_CHUNK_SIZE as int)
            }),
    {
        let ghost old_self = *self;
        proof {
            reveal(engine_step);
        }
        let mut out: Vec<Vec<Record>> = Vec::new();
        proof {
            assert(batches_view(out@) =~= Seq::<Seq<Record>>::empty());
        }
        match (self.last_machine_status, state.status) {
            (DemoCpb16Status::Running, DemoCpb16Status::Running) => {
                self.receive_in_running(&state, &mut out);
            },
            (DemoCpb16Status::Running, DemoCpb16Status::Stopping) => {
                self.last_machine_status = DemoCpb16Status::Stopping;
                self.receive_in_stopping(&state, &mut out);
            },
            (DemoCpb16Status::Stopping, DemoCpb16Status::Running) => {
                self.last_machine_status = DemoCpb16Status::Running;
                let ghost open0 = self.operating_send_data@;
                match state.make_worked_result() {
                    Some(res) => {
                        self.push_send_data(Record::Result(res), &mut out);
                    },
                    None => {},
                }
                // A new run: the window starts over, its cursors seeded from
                // the observation that starts it.
                self.operating_states_chunk.reset_chunk_from_data(&state);
                self.receive_in_running(&state, &mut out);
                proof {
                    let w = running_step(
                        fresh_chunk(
                            old_self.operating_states_chunk.operating_states_chunk_size,
                            state.production_count,
                            state.defect_count,
                        ),
                        state,
                    ).1;
                    lemma_batch_push_split(open0, result_seq(state), working_seq(w));
                }
            },
            (DemoCpb16Status::Stopping, DemoCpb16Status::Stopping) => {
                self.receive_in_stopping(&state, &mut out);
            },
        }
        out
    }

    fn receive_in_running(&mut self, state: &DemoCpb16ReceiveState, out: &mut Vec<Vec<Record>>)
        requires
            old(self).wf(),
        ensures
            final(self).wf(),
            final(self).last_machine_status == old(self).last_machine_status,
            ({
                let (c, w) = running_step(old(self).operating_states_chunk, *state);
                let (bs, q) = batch_push(
                    old(self).operating_send_data@,
                    working_seq(w),
                    BATCH_SIZE as nat,
                );
                &&& final(self).operating_states_chunk == c
                &&& batches_view(final(out)@) == batches_view(old(out)@) + bs
                &&& final(self).operating_send_data@ == q
                &&& (w matches Some(x) ==> x.working_second
                    == old(self).operating_states_chunk.operating_states_chunk_size)
            }),
    {
        match self.operating_states_chunk.push_running_data(state) {
            Some(w) => {
                self.push_send_data(Record::Working(w), out);
            },
            None => {
                proof {
                    assert(batches_view(out@) =~= batches_view(out@) + Seq::<
                        Seq<Record>,
                    >::empty());
                }
            },
        }
    }

    fn receive_in_stopping(&mut self, state: &DemoCpb16ReceiveState, out: &mut Vec<Vec<Record>>)
        requires
            old(self).wf(),
        ensures
            final(self).wf(),
            final(self).last_machine_status == old(self).last_machine_status,
            ({
                let (c, w) = stopping_step(old(self).operating_states_chunk, *state);
                let (bs, q) = batch_push(
                    old(self).operating_send_data@,
                    working_seq(w),
                    BATCH_SIZE as nat,
                );
                &&& final(self).operating_states_chunk == c
                &&& batches_view(final(out)@) == batches_view(old(out)@) + bs
                &&& final(self).operating_send_data@ == q
                &&& (w matches Some(x) ==> x.working_second
                    == old(self).operating_states_chunk.operating_states_chunk_size)
            }),
    {
        match self.operating_states_chunk.push_stopping_data(state) {
            Some(w) => {
                self.push_send_data(Record::Working(w), out);
            },
            None => {
                proof {
                    assert(batches_view(out@) =~= batches_view(out@) + Seq::<
                        Seq<Record>,
                    >::empty());
                }
            },
        }
    }

    /// Parses a reply and takes the observation through the engine. A reply
    /// that does not parse is refused and leaves the engine as it was.
    pub fn receive_response(&mut self, data: DemoCpb16ReceiveData) -> (r: Result<
        Vec<Vec<Record>>,
        ParseError,
    >)
        requires
            old(self).wf(),
        ensures
            final(self).wf(),
            r is Err ==> *final(self) == *old(self),
            data.data@.len() != RESPONSE_LENGTH ==> r == Err::<Vec<Vec<Record>>, ParseError>(
                ParseError::WrongLength,
            ),
            ({
                let f = fields_of(data.data@);
                let len_ok = data.data@.len() == RESPONSE_LENGTH;
                &&& len_ok && f.len() != DATA_LENGTH ==> r == Err::<Vec<Vec<Record>>, ParseError>(
                    ParseError::WrongFieldCount,
                )
                &&& len_ok && f.len() == DATA_LENGTH && !numbers_ok(f) ==> r == Err::<
                    Vec<Vec<Record>>,
                    ParseError,
                >(ParseError::BadNumber)
                &&& r is Err ==> !len_ok || f.len() != DATA_LENGTH || !numbers_ok(f) || r
                    == Err::<Vec<Vec<Record>>, ParseError>(ParseError::InvalidTime)
                &&& len_ok && f.len() == DATA_LENGTH && numbers_ok(f) && status_of(f[0])
                    == DemoCpb16Status::Stopping && !is_running_marker(f[24]) ==> r is Ok
            }),
            r matches Ok(bs) ==> exists|o: DemoCpb16ReceiveState|
                #![trigger parsed_from(data, o)]
                parsed_from(data, o) && stepped(*old(self), *final(self), batches_view(bs@), o),
    {
        match DemoCpb16ReceiveState::new(data) {
            Ok(state) => {
                let out = self.receive_state(state);
                assert(stepped(*old(self), *self, batches_view(out@), state));
                Ok(out)
            },
            Err(e) => Err(e),
        }
    }

    /// Hands back the open batch, if it holds any record, and empties it:
    /// what is left to send when no more observations come.
    pub fn finish(&mut self) -> (r: Option<Vec<Record>>)
        requires
            old(self).wf(),
        ensures
            final(self).wf(),
            final(self).last_machine_status == old(self).last_machine_status,
            final(self).operating_states_chunk == old(self).operating_states_chunk,
            final(self).operating_send_data@.len() == 0,
            old(self).operating_send_data@.len() == 0 ==> r is None,
            old(self).operating_send_data@.len() > 0 ==> (r matches Some(b) && b@
                == old(self).operating_send_data@),
    {
        let mut batch: Vec<Record> = Vec::new();
        std::mem::swap(&mut batch, &mut self.operating_send_data);
        if batch.len() == 0 {
            None
        } else {
            Some(batch)
        }
    }
}

/// Batching two runs of records one after the other is batching them at once.
proof fn lemma_batch_push_split(pending: Seq<Record>, a: Seq<Record>, b: Seq<Record>)
    ensures
        ({
            let (bs1, q1) = batch_push(pending, a, BATCH_SIZE as nat);
            let (bs2, q2) = batch_push(q1, b, BATCH_SIZE as nat);
            batch_push(pending, a + b, BATCH_SIZE as nat) == (bs1 + bs2, q2)
        }),
    decreases a.len(),
{
    let size = BATCH_SIZE as nat;
    if a.len() == 0 {
        assert(a + b =~= b);
        let (bs2, q2) = batch_push(pending, b, size);
        assert(Seq::<Seq<Record>>::empty() + bs2 =~= bs2);
    } else {
        assert((a + b).drop_first() =~= a.drop_first() + b);
        assert((a + b)[0] == a[0]);
        let p = pending.push(a[0]);
        if p.len() == size {
            lemma_batch_push_split(Seq::empty(), a.drop_first(), b);
            let (bs1, q1) = batch_push(Seq::empty(), a.drop_first(), size);
            let (bs2, q2) = batch_push(q1, b, size);
            assert(seq![p] + (bs1 + bs2) =~= (seq![p] + bs1) + bs2);
        } else {
            lemma_batch_push_split(p, a.drop_first(), b);
        }
    }
}

} // verus!
