//! The host-side state of a supervised server: events not yet handed out,
//! whether the supervisor has ended, and its stop reason until it is taken.
use crate::events::{EventModel, MinecraftServerEvent, MinecraftServerStopReason, StopModel};
use vstd::prelude::*;

verus! {

/// Why the stop reason cannot be handed out.
#[derive(Clone, Copy, PartialEq, Eq, Structural, Debug)]
pub enum StopReasonError {
    /// The supervisor has not ended yet.
    NotFinished,
    /// The stop reason was handed out before.
    AlreadyTaken,
}

/// What the handle state looks like in contracts.
pub struct HandleModel {
    pub events: Seq<EventModel>,
    pub finished: bool,
    pub reason: Option<StopModel>,
}

/// A fresh handle: nothing buffered, not finished.
pub open spec fn fresh_model() -> HandleModel {
    HandleModel { events: Seq::empty(), finished: false, reason: None }
}

/// The models of a sequence of events.
pub open spec fn events_model(e: Seq<MinecraftServerEvent>) -> Seq<EventModel> {
    e.map_values(|x: MinecraftServerEvent| x@)
}

/// What `update` does: buffer what arrived; take the end of the supervisor,
/// the first time it is seen.
pub open spec fn update_spec(m: HandleModel, arrived: Seq<EventModel>, ended: Option<StopModel>) -> HandleModel {
    if m.finished || ended is None {
        HandleModel { events: m.events + arrived, ..m }
    } else {
        HandleModel { events: m.events + arrived, finished: true, reason: ended }
    }
}

/// What `get_stop_reason` does: the new state and the outcome.
pub open spec fn take_spec(m: HandleModel) -> (HandleModel, Result<StopModel, StopReasonError>) {
    if !m.finished {
        (m, Err(StopReasonError::NotFinished))
    } else if m.reason is None {
        (m, Err(StopReasonError::AlreadyTaken))
    } else {
        (HandleModel { reason: None, ..m }, Ok(m.reason->0))
    }
}

/// The state after a sequence of updates that bring no events, each with
/// what the join of the supervisor gave at that point.
pub open spec fn updates_spec(m: HandleModel, ends: Seq<Option<StopModel>>) -> HandleModel
    decreases ends.len(),
{
    if ends.len() == 0 {
        m
    } else {
        update_spec(updates_spec(m, ends.drop_last()), Seq::empty(), ends.last())
    }
}

/// Buffered events, whether the supervisor has ended, and its stop reason.
#[derive(Debug, PartialEq, Eq)]
pub struct HandleState {
    pub buffer: Vec<MinecraftServerEvent>,
    pub finished: bool,
    pub stop_reason: Option<MinecraftServerStopReason>,
}

impl View for HandleState {
    type V = HandleModel;

    open spec fn view(&self) -> HandleModel {
        HandleModel {
            events: events_model(self.buffer@),
            finished: self.finished,
            reason: match self.stop_reason {
                Some(r) => Some(r@),
                None => None,
            },
        }
    }
}

impl HandleState {
    /// A stop reason is held only once the supervisor has ended.
    pub open spec fn wf(&self) -> bool {
        !self.finished ==> self.stop_reason is None
    }

    /// A handle with nothing buffered whose supervisor runs.
    pub fn new() -> (r: HandleState)
        ensures
            r@ == fresh_model(),
            r.wf(),
    {
        let r = HandleState { buffer: Vec::new(), finished: false, stop_reason: None };
        assert(r@.events =~= Seq::empty());
        r
    }

    /// Buffers the events that arrived since the last call, and records the
    /// end of the supervisor where `ended` holds what its join gave.
    pub fn update(&mut self, arrived: Vec<MinecraftServerEvent>, ended: Option<MinecraftServerStopReason>)
        requires
            old(self).wf(),
        ensures
            final(self).wf(),
            final(self)@ == update_spec(
                old(self)@,
                events_model(arrived@),
                match ended {
                    Some(r) => Some(r@),
                    None => None,
                },
            ),
    {
        let mut arrived = arrived;
        let ghost before = self.buffer@;
        let ghost incoming = arrived@;
        self.buffer.append(&mut arrived);
        assert(events_model(self.buffer@) =~= events_model(before) + events_model(incoming));
        if !self.finished {
            if let Some(r) = ended {
                self.finished = true;
                self.stop_reason = Some(r);
            }
        }
    }

    /// Hands out the events buffered since the last call, and clears the buffer.
    pub fn handle_new_events(&mut self) -> (r: Vec<MinecraftServerEvent>)
        requires
            old(self).wf(),
        ensures
            final(self).wf(),
            events_model(r@) == old(self)@.events,
            final(self)@ == (HandleModel { events: Seq::empty(), ..old(self)@ }),
    {
        let mut r = Vec::new();
        r.append(&mut self.buffer);
        assert(events_model(self.buffer@) =~= Seq::empty());
        assert(r@ =~= old(self).buffer@);
        r
    }

    /// Whether the supervisor has ended.
    pub fn is_finished(&self) -> (r: bool)
        ensures
            r == self@.finished,
    {
        self.finished
    }

    /// Hands out the stop reason: only once the supervisor has ended, and only once.
    pub fn get_stop_reason(&mut self) -> (r: Result<MinecraftServerStopReason, StopReasonError>)
        requires
            old(self).wf(),
        ensures
            final(self).wf(),
            final(self)@ == take_spec(old(self)@).0,
            match r {
                Ok(reason) => take_spec(old(self)@).1 == Ok::<StopModel, StopReasonError>(reason@),
                Err(e) => take_spec(old(self)@).1 == Err::<StopModel, StopReasonError>(e),
            },
    {
        if !self.finished {
            return Err(StopReasonError::NotFinished);
        }
        match self.stop_reason.take() {
            Some(reason) => Ok(reason),
            None => Err(StopReasonError::AlreadyTaken),
        }
    }
}

/// Over any sequence of updates of a fresh handle, it is finished exactly
/// when some update saw the supervisor's end: never while every join came
/// back empty, and from the first end on, for good.
pub proof fn lemma_finished_exactly_after_end(ends: Seq<Option<StopModel>>)
    ensures
        updates_spec(fresh_model(), ends).finished == exists|i: int|
            0 <= i < ends.len() && (#[trigger] ends[i]) is Some,
    decreases ends.len(),
{
    if ends.len() > 0 {
        let prev = ends.drop_last();
        lemma_finished_exactly_after_end(prev);
        if exists|i: int| 0 <= i < prev.len() && (#[trigger] prev[i]) is Some {
            let i = choose|i: int| 0 <= i < prev.len() && (#[trigger] prev[i]) is Some;
            assert(ends[i] is Some);
        }
        if exists|i: int| 0 <= i < ends.len() && (#[trigger] ends[i]) is Some {
            let i = choose|i: int| 0 <= i < ends.len() && (#[trigger] ends[i]) is Some;
            if i < prev.len() {
                assert(prev[i] is Some);
            }
        }
    }
}

/// The stop reason cannot be had before the end; after the end it is had
/// exactly once: the first request gives the reason, the next one fails.
pub proof fn lemma_stop_reason_once(m: HandleModel, reason: StopModel)
    requires
        !m.finished,
        m.reason is None,
    ensures
        take_spec(m).1 == Err::<StopModel, StopReasonError>(StopReasonError::NotFinished),
        ({
            let ended = update_spec(m, Seq::empty(), Some(reason));
            let (after, first) = take_spec(ended);
            first == Ok::<StopModel, StopReasonError>(reason) && take_spec(after).1 == Err::<
                StopModel,
                StopReasonError,
            >(StopReasonError::AlreadyTaken)
        }),
{
}

} // verus!
