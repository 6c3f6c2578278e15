//! The life of the engine, as far as the binding is told of it. The engine is
//! one per process, and so is this record of it: it belongs to whoever makes
//! the calls, not to a marker.

use vstd::prelude::*;

verus! {

/// Something that happened to the engine.
#[derive(Debug, Clone, Copy, PartialEq, Eq, Structural)]
pub enum EngineEvent {
    /// An initialize call returned this status.
    Initialize(i32),
    /// A finalize call returned.
    Finalize,
}

/// Where the engine stands.
#[derive(Debug, Clone, Copy, PartialEq, Eq, Structural)]
pub enum EngineState {
    /// No initialize call has succeeded, and none was finalized.
    Uninitialized,
    /// An initialize call has succeeded, and no finalize call came after it.
    Ready,
    /// A finalize call came last, but for initialize calls that failed.
    Finalized,
}

/// Whether position `i` holds an initialize call that succeeded and that no
/// finalize call came after.
pub open spec fn last_start(events: Seq<EngineEvent>, i: int) -> bool {
    &&& 0 <= i < events.len()
    &&& events[i] == EngineEvent::Initialize(0)
    &&& forall|j: int| i < j < events.len() ==> events[j] != EngineEvent::Finalize
}

/// Whether model, query and synthesis calls are in order after these events:
/// an initialize call has succeeded, and no finalize call came after it.
pub open spec fn live(events: Seq<EngineEvent>) -> bool {
    exists|i: int| last_start(events, i)
}

impl EngineState {
    /// The state that an event leads to. An initialize call that failed
    /// changes nothing.
    pub open spec fn step(self, event: EngineEvent) -> EngineState {
        match event {
            EngineEvent::Initialize(status) => if status == 0 {
                EngineState::Ready
            } else {
                self
            },
            EngineEvent::Finalize => EngineState::Finalized,
        }
    }

    /// The state that a fresh engine is in after these events, oldest first.
    pub open spec fn after(events: Seq<EngineEvent>) -> EngineState
        decreases events.len(),
    {
        if events.len() == 0 {
            EngineState::Uninitialized
        } else {
            EngineState::after(events.drop_last()).step(events.last())
        }
    }

    /// The state of an engine that nothing has happened to.
    pub fn new() -> (state: EngineState)
        ensures
            state == EngineState::after(Seq::empty()),
    {
        EngineState::Uninitialized
    }

    /// The state after an initialize call that returned this status.
    pub fn after_initialize(self, status: i32) -> (next: EngineState)
        ensures
            next == self.step(EngineEvent::Initialize(status)),
    {
        if status == 0 {
            EngineState::Ready
        } else {
            self
        }
    }

    /// The state after a finalize call, which every state allows.
    pub fn after_finalize(self) -> (next: EngineState)
        ensures
            next == self.step(EngineEvent::Finalize),
    {
        EngineState::Finalized
    }

    /// Whether model, query and synthesis calls are in order.
    pub fn is_ready(self) -> (ready: bool)
        ensures
            ready == (self == EngineState::Ready),
    {
        match self {
            EngineState::Ready => true,
            _ => false,
        }
    }
}

/// The state is `Ready` exactly while the events leave the engine live.
pub proof fn lemma_ready_iff_live(events: Seq<EngineEvent>)
    ensures
        EngineState::after(events) == EngineState::Ready <==> live(events),
    decreases events.len(),
{
    if events.len() > 0 {
        let earlier = events.drop_last();
        let n = earlier.len() as int;
        lemma_ready_iff_live(earlier);
        match events.last() {
            EngineEvent::Initialize(status) => {
                if status == 0 {
                    assert(last_start(events, n));
                } else if live(earlier) {
                    let i = choose|i: int| last_start(earlier, i);
                    assert(last_start(events, i)) by {
                        assert forall|j: int| i < j < events.len() implies events[j]
                            != EngineEvent::Finalize by {
                            if j < n {
                                assert(events[j] == earlier[j]);
                            }
                        }
                    }
                } else if live(events) {
                    let i = choose|i: int| last_start(events, i);
                    assert(last_start(earlier, i));
                }
            },
            EngineEvent::Finalize => {
                if live(events) {
                    let i = choose|i: int| last_start(events, i);
                    assert(events[n] == EngineEvent::Finalize);
                }
            },
        }
    }
}

} // verus!
