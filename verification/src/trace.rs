//! Whole sessions: the run of the session's rule over a sequence of events,
//! and what holds of every such run.

use vstd::prelude::*;
use crate::session::{step_spec, ActionView, EventView, SessionState, BUFFER_SIZE};

verus! {

/// What a run comes to: the state reached and the actions taken, in order.
pub struct Run {
    pub state: SessionState,
    pub actions: Seq<ActionView>,
}

/// The run of a session from `state` over `events`, one step for each event.
pub open spec fn run(state: SessionState, events: Seq<EventView>) -> Run
    decreases events.len(),
{
    if events.len() == 0 {
        Run { state, actions: Seq::empty() }
    } else {
        let before = run(state, events.drop_last());
        let (next, action) = step_spec(before.state, events.last());
        Run { state: next, actions: before.actions.push(action) }
    }
}

/// Whether `event` ends an active session: an empty read or any failure.
pub open spec fn ends_session(event: EventView) -> bool {
    match event {
        EventView::Received(data) => data.len() == 0,
        EventView::ReadFailed(_) => true,
        EventView::Written => false,
        EventView::WriteFailed(_) => true,
    }
}

/// The events that an active session lives through: those before the first
/// one that ends it.
pub open spec fn live(events: Seq<EventView>) -> Seq<EventView>
    decreases events.len(),
{
    if events.len() == 0 {
        events
    } else {
        let before = live(events.drop_last());
        if before.len() == events.len() - 1 && !ends_session(events.last()) {
            events
        } else {
            before
        }
    }
}

/// The chunks that reads delivered, in order; an empty read delivers none.
pub open spec fn received_chunks(events: Seq<EventView>) -> Seq<Seq<u8>>
    decreases events.len(),
{
    if events.len() == 0 {
        Seq::empty()
    } else {
        let before = received_chunks(events.drop_last());
        match events.last() {
            EventView::Received(data) => if data.len() == 0 {
                before
            } else {
                before.push(data)
            },
            _ => before,
        }
    }
}

/// The chunks handed out for writing, in order.
pub open spec fn written_chunks(actions: Seq<ActionView>) -> Seq<Seq<u8>>
    decreases actions.len(),
{
    if actions.len() == 0 {
        Seq::empty()
    } else {
        let before = written_chunks(actions.drop_last());
        match actions.last() {
            ActionView::Write(data) => before.push(data),
            _ => before,
        }
    }
}

/// All bytes that reads delivered, in order.
pub open spec fn received_bytes(events: Seq<EventView>) -> Seq<u8> {
    received_chunks(events).flatten()
}

/// All bytes handed out for writing, in order.
pub open spec fn echoed_bytes(actions: Seq<ActionView>) -> Seq<u8> {
    written_chunks(actions).flatten()
}

/// Whether `events` are a session that the peer closes in good order: no
/// failure, and one empty read, which comes last.
pub open spec fn closes_gracefully(events: Seq<EventView>) -> bool {
    &&& events.len() > 0
    &&& events.last() == EventView::Received(Seq::<u8>::empty())
    &&& forall|i: int| 0 <= i < events.len() - 1 ==> !ends_session(#[trigger] events[i])
}

/// Whether every read in `events` kept to the buffer's size.
pub open spec fn reads_within_buffer(events: Seq<EventView>) -> bool {
    forall|i: int|
        0 <= i < events.len() ==> (#[trigger] events[i] matches EventView::Received(data)
            ==> data.len() <= BUFFER_SIZE)
}

/// The events that `live` keeps are a prefix of `events`, none of which ends
/// the session; they are all of `events` just when no event does.
pub proof fn lemma_live_prefix(events: Seq<EventView>)
    ensures
        live(events).len() <= events.len(),
        live(events) == events.subrange(0, live(events).len() as int),
        forall|i: int| 0 <= i < live(events).len() ==> !ends_session(#[trigger] events[i]),
        live(events).len() < events.len() ==> ends_session(events[live(events).len() as int]),
    decreases events.len(),
{
    if events.len() > 0 {
        let front = events.drop_last();
        lemma_live_prefix(front);
        let before = live(front);
        assert(before == events.subrange(0, before.len() as int));
        assert(events == events.subrange(0, events.len() as int));
    }
}

/// An active session echoes chunk for chunk, whatever the events: the chunks
/// handed out for writing are the chunks that reads delivered while the
/// session lived, each as it came and in the order of the reads. The session
/// is still active at the end just when no event ended it.
pub proof fn law_echo_chunk_for_chunk(events: Seq<EventView>)
    ensures
        written_chunks(run(SessionState::Active, events).actions) == received_chunks(
            live(events),
        ),
        run(SessionState::Active, events).state == SessionState::Active <==> live(events)
            == events,
        run(SessionState::Active, events).actions.len() == events.len(),
    decreases events.len(),
{
    if events.len() > 0 {
        let front = events.drop_last();
        law_echo_chunk_for_chunk(front);
        lemma_live_prefix(front);
        let before = run(SessionState::Active, front);
        let (next, action) = step_spec(before.state, events.last());
        let actions = before.actions.push(action);
        assert(actions.drop_last() == before.actions);
        if live(front).len() == front.len() {
            assert(live(front) == front);
            if !ends_session(events.last()) {
                assert(live(events) == events);
                assert(events.drop_last() == front);
            } else {
                assert(live(events) == front);
                assert(live(events) != events);
            }
        } else {
            assert(live(front) != front);
            assert(live(events) == live(front));
            assert(live(events) != events);
        }
    }
}

/// The state in which `events` leave a session that was active: active still
/// where none of them ends it; else closed where the first that does is an
/// empty read, and errored where it is a failure.
pub open spec fn outcome(events: Seq<EventView>) -> SessionState {
    let lived = live(events).len() as int;
    if lived == events.len() {
        SessionState::Active
    } else if events[lived] is Received {
        SessionState::Closed
    } else {
        SessionState::Errored
    }
}

/// A session ends once and for good. Up to and with the first event that
/// ends it, an active session answers each event as an active session does;
/// to every later event it answers with release alone, and its state is the
/// one in which that first event left it.
pub proof fn law_session_ends_once(events: Seq<EventView>)
    ensures
        run(SessionState::Active, events).state == outcome(events),
        run(SessionState::Active, events).actions.len() == events.len(),
        forall|i: int|
            0 <= i < events.len() ==> #[trigger] run(SessionState::Active, events).actions[i] == (
            if i <= live(events).len() {
                step_spec(SessionState::Active, events[i]).1
            } else {
                ActionView::Release
            }),
    decreases events.len(),
{
    if events.len() > 0 {
        let front = events.drop_last();
        law_session_ends_once(front);
        lemma_live_prefix(front);
        lemma_live_prefix(events);
        let before = run(SessionState::Active, front);
        let after = run(SessionState::Active, events);
        assert(after.actions.drop_last() == before.actions);
        if live(front).len() == front.len() {
            assert(live(front) == front);
            assert(before.state == SessionState::Active);
        } else {
            assert(live(events) == live(front));
            assert(events[live(front).len() as int] == front[live(front).len() as int]);
        }
        assert forall|i: int| 0 <= i < events.len() implies #[trigger] after.actions[i] == (if i
            <= live(events).len() {
            step_spec(SessionState::Active, events[i]).1
        } else {
            ActionView::Release
        }) by {
            if i < front.len() {
                assert(after.actions[i] == before.actions[i]);
                assert(events[i] == front[i]);
            }
        }
    }
}

/// Reads and writes take turns. In a session that was active, a write is
/// asked for only in answer to a read that delivered bytes, and it is of those
/// bytes; a read is asked for only in answer to a write that was completed.
pub proof fn law_reads_and_writes_take_turns(events: Seq<EventView>, i: int)
    requires
        0 <= i < events.len(),
    ensures
        run(SessionState::Active, events).actions[i] matches ActionView::Write(data)
            ==> events[i] == EventView::Received(data) && data.len() > 0,
        run(SessionState::Active, events).actions[i] is Read ==> events[i] == EventView::Written,
{
    law_session_ends_once(events);
}

/// Byte-exact echo. Of a session that the peer closes in good order, the bytes
/// written back are the bytes received, all of them and in order, and the
/// session ends `Closed`.
pub proof fn law_echo_is_exact(events: Seq<EventView>)
    requires
        closes_gracefully(events),
    ensures
        run(SessionState::Active, events).state == SessionState::Closed,
        written_chunks(run(SessionState::Active, events).actions) == received_chunks(events),
        echoed_bytes(run(SessionState::Active, events).actions) == received_bytes(events),
{
    let front = events.drop_last();
    law_echo_chunk_for_chunk(front);
    law_echo_chunk_for_chunk(events);
    lemma_live_prefix(front);
    lemma_live_prefix(events);
    assert(live(front) == front) by {
        if live(front).len() < front.len() {
            assert(front[live(front).len() as int] == events[live(front).len() as int]);
        }
        assert(front == front.subrange(0, front.len() as int));
    }
    assert(live(events) == front);
    assert(received_chunks(events) == received_chunks(front));
}

/// Chunk boundaries do not show in what is echoed. However the bytes `sent`
/// by the peer, write by write, were cut into reads, a session that closes in
/// good order echoes their concatenation; and where every read kept to the
/// buffer's size, every chunk written back is one read's chunk, not empty and
/// no longer than the buffer.
pub proof fn law_echo_ignores_boundaries(sent: Seq<Seq<u8>>, events: Seq<EventView>)
    requires
        closes_gracefully(events),
        received_bytes(events) == sent.flatten(),
        reads_within_buffer(events),
    ensures
        echoed_bytes(run(SessionState::Active, events).actions) == sent.flatten(),
        forall|k: int|
            0 <= k < written_chunks(run(SessionState::Active, events).actions).len() ==> 0 < (
            #[trigger] written_chunks(run(SessionState::Active, events).actions)[k]).len()
                <= BUFFER_SIZE,
{
    law_echo_is_exact(events);
    lemma_received_chunks_bounded(events);
}

/// Every chunk that reads delivered is not empty, and no longer than the
/// buffer where every read kept to its size.
pub proof fn lemma_received_chunks_bounded(events: Seq<EventView>)
    requires
        reads_within_buffer(events),
    ensures
        forall|k: int|
            0 <= k < received_chunks(events).len() ==> 0 < (#[trigger] received_chunks(
                events,
            )[k]).len() <= BUFFER_SIZE,
    decreases events.len(),
{
    if events.len() > 0 {
        let front = events.drop_last();
        assert(reads_within_buffer(front)) by {
            assert forall|i: int| 0 <= i < front.len() implies (#[trigger] front[i] matches EventView::Received(
                data,
            ) ==> data.len() <= BUFFER_SIZE) by {
                assert(front[i] == events[i]);
            }
        }
        lemma_received_chunks_bounded(front);
        let last = events[events.len() - 1];
        assert forall|k: int| 0 <= k < received_chunks(events).len() implies 0 < (
        #[trigger] received_chunks(events)[k]).len() <= BUFFER_SIZE by {
            if k < received_chunks(front).len() {
                assert(received_chunks(events)[k] == received_chunks(front)[k]);
            } else {
                assert(last matches EventView::Received(data) && received_chunks(events)[k]
                    == data);
            }
        }
    }
}

/// What a server's run comes to: each connection's state, and the actions
/// taken, each with the number of its connection, in order.
pub struct Served {
    pub states: Map<nat, SessionState>,
    pub actions: Seq<(nat, ActionView)>,
}

/// The state of connection `id` among `states`; one not met yet is as it is
/// when accepted, active.
pub open spec fn state_of(states: Map<nat, SessionState>, id: nat) -> SessionState {
    if states.dom().contains(id) {
        states[id]
    } else {
        SessionState::Active
    }
}

/// A server's run over the events of many connections, in whatever order they
/// fell: each event, given with the number of its connection, moves that
/// connection's session by one step.
pub open spec fn serve(trace: Seq<(nat, EventView)>) -> Served
    decreases trace.len(),
{
    if trace.len() == 0 {
        Served { states: Map::empty(), actions: Seq::empty() }
    } else {
        let before = serve(trace.drop_last());
        let (id, event) = trace.last();
        let (next, action) = step_spec(state_of(before.states, id), event);
        Served {
            states: before.states.insert(id, next),
            actions: before.actions.push((id, action)),
        }
    }
}

/// The events of connection `id` in `trace`, in order.
pub open spec fn events_of(trace: Seq<(nat, EventView)>, id: nat) -> Seq<EventView>
    decreases trace.len(),
{
    if trace.len() == 0 {
        Seq::empty()
    } else if trace.last().0 == id {
        events_of(trace.drop_last(), id).push(trace.last().1)
    } else {
        events_of(trace.drop_last(), id)
    }
}

/// The actions taken for connection `id` among `actions`, in order.
pub open spec fn actions_of(actions: Seq<(nat, ActionView)>, id: nat) -> Seq<ActionView>
    decreases actions.len(),
{
    if actions.len() == 0 {
        Seq::empty()
    } else if actions.last().0 == id {
        actions_of(actions.drop_last(), id).push(actions.last().1)
    } else {
        actions_of(actions.drop_last(), id)
    }
}

/// Sessions do not touch each other. However the events of many connections
/// fall among each other, each connection's state and the actions taken for
/// it are those of a session that met its own events alone.
pub proof fn law_sessions_are_independent(trace: Seq<(nat, EventView)>, id: nat)
    ensures
        state_of(serve(trace).states, id) == run(
            SessionState::Active,
            events_of(trace, id),
        ).state,
        actions_of(serve(trace).actions, id) == run(
            SessionState::Active,
            events_of(trace, id),
        ).actions,
    decreases trace.len(),
{
    if trace.len() > 0 {
        let front = trace.drop_last();
        law_sessions_are_independent(front, id);
        let before = serve(front);
        let (other, event) = trace.last();
        let (next, action) = step_spec(state_of(before.states, other), event);
        assert(serve(trace).actions.drop_last() == before.actions);
        if other == id {
            assert(events_of(trace, id).drop_last() == events_of(front, id));
        }
    }
}

/// No client sees another's bytes. Whatever else the server is doing, a
/// client whose own session closes in good order is echoed its own bytes, all
/// of them and in order.
pub proof fn law_each_client_hears_itself(trace: Seq<(nat, EventView)>, id: nat)
    requires
        closes_gracefully(events_of(trace, id)),
    ensures
        state_of(serve(trace).states, id) == SessionState::Closed,
        echoed_bytes(actions_of(serve(trace).actions, id)) == received_bytes(
            events_of(trace, id),
        ),
{
    law_sessions_are_independent(trace, id);
    law_echo_is_exact(events_of(trace, id));
}

} // verus!
