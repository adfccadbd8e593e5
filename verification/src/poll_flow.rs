//! What becomes of every event, message and answer in a message loop on sockets, from
//! the call that brings it to the call that ends the work on it.

use crate::clients::{ClientConn, Table, Wanted};
use crate::error::{IoError, LoopAction, ServerError};
use crate::platform::Platform;
use crate::poll_laws::{is_run, law_every_run_is_well_formed, run};
use crate::poll_server::{Call, Phase, PollState, Reply};
use crate::wire::{ByteOrder, Header};
use vstd::prelude::*;

verus! {

/// Whether a connection is registered under `key`.
pub open spec fn is_there(table: Table, key: usize) -> bool {
    exists|p: int| 0 <= p < table.list.len() && (#[trigger] table.list[p]).key == key
}

/// Whether the event `i` of the round has to be looked at: it is one of the listener, or
/// of a connection that is there.
pub open spec fn is_due(state: PollState, i: int) -> bool {
    state.events[i] == 0 || is_there(state.table, state.events[i])
}

/// Whether nothing but the phase and the place in the round differs.
pub open spec fn same_round(before: PollState, after: PollState) -> bool {
    &&& after.platform == before.platform
    &&& after.stale_timeout == before.stale_timeout
    &&& after.table == before.table
    &&& after.events == before.events
    &&& after.stale == before.stale
}

/// Whether the loop, after the first `from` events of the round that `before` is in, has
/// turned to the next event that is due: it accepts a connection, or receives from the
/// connection of the event. Only without such an event does it leave the round, to look
/// for silent clients if there is a limit for them, and to begin another one if not.
pub open spec fn turns_on(before: PollState, from: int, after: PollState, call: Call) -> bool {
    let count = before.events.len() as int;
    &&& same_round(before, after)
    &&& match call {
        Call::Accept => {
            &&& from < after.cursor <= count
            &&& before.events[after.cursor - 1] == 0
            &&& after.phase is Accepting
            &&& forall|i: int| from <= i < after.cursor - 1 ==> !#[trigger] is_due(before, i)
        },
        Call::Receive { key } => {
            &&& from < after.cursor <= count
            &&& key != 0
            &&& before.events[after.cursor - 1] == key
            &&& after.phase matches Phase::Receiving { position, key: other } && other == key
                && position < before.table.list.len() && before.table.list[position as int].key
                == key
            &&& forall|i: int| from <= i < after.cursor - 1 ==> !#[trigger] is_due(before, i)
        },
        Call::ReadClocks => {
            &&& after.cursor == count
            &&& before.stale_timeout is Some
            &&& after.phase is Sweeping
            &&& forall|i: int| from <= i < count ==> !#[trigger] is_due(before, i)
        },
        Call::CheckShutdown => {
            &&& after.cursor == count
            &&& before.stale_timeout is None
            &&& after.phase is Idle
            &&& forall|i: int| from <= i < count ==> !#[trigger] is_due(before, i)
        },
        _ => false,
    }
}

/// Turning to the next event does that.
proof fn lemma_turns_on(state: PollState)
    requires
        state.table.wf(),
        0 <= state.cursor <= state.events.len(),
    ensures
        turns_on(state, state.cursor, state.next_event().0, state.next_event().1),
    decreases state.events.len() - state.cursor,
{
    if state.cursor < state.events.len() {
        let key = state.events[state.cursor];
        crate::clients::law_position_is_first(state.table.list, Wanted::Key(key));
        crate::poll_server::lemma_length_fits(state.table);
        match crate::clients::first_position(state.table.list, Wanted::Key(key)) {
            Some(p) => {
                assert(state.table.list[p].key == key);
            },
            None => {
                assert(!is_there(state.table, key)) by {
                    if is_there(state.table, key) {
                        let p = choose|p: int|
                            0 <= p < state.table.list.len() && (#[trigger] state.table.list[p]).key
                                == key;
                        assert(Wanted::Key(key).is(state.table.list[p]));
                    }
                }
                if key != 0 {
                    let rest = PollState { cursor: state.cursor + 1, ..state };
                    lemma_turns_on(rest);
                    let (after, call) = state.next_event();
                    assert forall|i: int|
                        state.cursor <= i < state.events.len() && (i < after.cursor - 1 || !(
                        call is Accept || call is Receive)) implies !#[trigger] is_due(
                        state,
                        i,
                    ) by {
                        if i > state.cursor {
                            assert(!is_due(rest, i));
                        }
                    }
                }
            },
        }
    }
}

/// Whatever ends the work on one event without ending the loop, the loop turns to the
/// next event of the round that is due: when the poller has been asked for the next
/// event of a connection or of the listener, when a connection has been reported gone,
/// and when the Mach port has been looked at or its crash has been dealt with.
pub proof fn law_work_on_an_event_leads_to_the_next(state: PollState, reply: Reply)
    requires
        state.wf(),
        ({
            ||| state.phase is Rearming && reply == Reply::Rearmed(Ok(()))
            ||| state.phase is Parting && reply == Reply::Handler(LoopAction::Continue)
            ||| state.phase is CheckingPort && reply == Reply::Port(Ok(None))
            ||| state.phase == (Phase::PortLeaving { action: LoopAction::Continue }) && reply
                == Reply::Done
        }),
    ensures
        turns_on(state, state.cursor, state.next(reply).0, state.next(reply).1),
{
    lemma_turns_on(state);
}

/// The events that the poller reports begin a round, of which none has been looked at:
/// the loop turns to the first one that is due. On macOS it looks at the Mach port for a
/// millisecond before that. A wait that is interrupted after its deadline is over, with
/// no events.
pub proof fn law_events_begin_a_round(state: PollState, events: Vec<usize>, now: u128)
    requires
        state.wf(),
        state.phase is Polling,
    ensures
        ({
            let round = PollState { events: events@, cursor: 0, ..state };
            let (after, call) = state.next(Reply::Events(events));
            if state.platform == Platform::MacOs {
                &&& same_round(round, after)
                &&& after.cursor == 0
                &&& after.phase is CheckingPort
                &&& call == Call::CheckPort { timeout: 1_000_000 }
            } else {
                turns_on(round, 0, after, call)
            }
        }),
        ({
            let deadline = state.phase->Polling_deadline;
            let round = PollState { events: Seq::empty(), cursor: 0, ..state };
            let (after, call) = state.next(Reply::Interrupted { now });
            if now <= deadline {
                &&& after == state
                &&& call == Call::Wait { timeout: (deadline - now) as u128 }
            } else if state.platform == Platform::MacOs {
                &&& same_round(round, after)
                &&& after.cursor == 0
                &&& call == Call::CheckPort { timeout: 1_000_000 }
            } else {
                turns_on(round, 0, after, call)
            }
        }),
{
    lemma_turns_on(state.seeing(events@));
    lemma_turns_on(state.seeing(Seq::empty()));
}

/// A round begins with a look at the shutdown flag; if it is not up, the loop waits for
/// events for a fifth of a second. A wait that fails ends the loop with its error.
pub proof fn law_round_waits_for_events(state: PollState, now: u128, error: IoError)
    requires
        state.phase is Idle,
        now + 200_000_000 <= u128::MAX,
    ensures
        state.next(Reply::Shutdown { stop: true, now }).1 == Call::Finish(Ok(())),
        state.next(Reply::Shutdown { stop: false, now }) == (
            PollState {
                phase: Phase::Polling { deadline: (now + 200_000_000) as u128 },
                ..state
            },
            Call::Wait { timeout: 200_000_000 },
        ),
        state.next(Reply::Shutdown { stop: false, now }).0.next(Reply::PollFailed(error)).1
            == Call::Finish(Err(ServerError::Io(error))),
{
}

/// Whether the loop is at work on the events of a round.
pub open spec fn in_round(phase: Phase) -> bool {
    !(phase is Idle || phase is Polling || phase is Sweeping || phase is Dropping
        || phase is PartingStale || phase is Finished)
}

/// Within a round nothing but turning to the next event moves on in it, and nothing
/// changes the events of the round.
pub proof fn law_round_moves_by_turns(state: PollState, reply: Reply)
    requires
        state.wf(),
        state.fits(reply),
        in_round(state.phase),
    ensures
        ({
            let (after, call) = state.next(reply);
            &&& after.events == state.events
            &&& call is Accept || call is Receive || call is ReadClocks || call is CheckShutdown
                ==> turns_on(state, state.cursor, after, call)
            &&& !(call is Accept || call is Receive || call is ReadClocks || call is CheckShutdown)
                ==> after.cursor == state.cursor && (in_round(after.phase) || after.phase
                is Finished)
        }),
{
    lemma_turns_on(state);
}

/// Whether `replies`, from the report of `events` on, are all within one round.
pub open spec fn is_round(state: PollState, events: Vec<usize>, replies: Seq<Reply>) -> bool {
    &&& replies.len() > 0
    &&& replies[0] == Reply::Events(events)
    &&& state.phase is Polling
    &&& is_run(state, replies)
    &&& forall|n: int|
        0 < n < replies.len() ==> in_round((#[trigger] run(state, replies.take(n))).phase)
}

/// The call that the reply `n` of a run leads to.
pub open spec fn call_at(state: PollState, replies: Seq<Reply>, n: int) -> Call {
    run(state, replies.take(n)).next(replies[n]).1
}

/// How many events of the round have been looked at before the reply `n`.
pub open spec fn looked_at(state: PollState, replies: Seq<Reply>, n: int) -> int {
    if n == 0 {
        0
    } else {
        run(state, replies.take(n)).cursor
    }
}

/// A run goes on by one reply at a time.
proof fn lemma_run_step(state: PollState, replies: Seq<Reply>, n: int)
    requires
        is_run(state, replies),
        0 <= n < replies.len(),
    ensures
        is_run(state, replies.take(n)),
        run(state, replies.take(n)).fits(replies[n]),
        run(state, replies.take(n + 1)) == run(state, replies.take(n)).next(replies[n]).0,
    decreases replies.len(),
{
    let upto = replies.take(n + 1);
    assert(upto.drop_last() =~= replies.take(n));
    assert(upto.last() == replies[n]);
    if n + 1 < replies.len() {
        let before = replies.drop_last();
        lemma_run_step(state, before, n);
        assert(before.take(n) =~= replies.take(n));
    } else {
        assert(upto =~= replies);
    }
}

/// What one reply within a round does.
proof fn lemma_round_step(state: PollState, events: Vec<usize>, replies: Seq<Reply>, n: int)
    requires
        state.wf(),
        is_round(state, events, replies),
        0 <= n < replies.len(),
    ensures
        ({
            let after = run(state, replies.take(n + 1));
            let call = call_at(state, replies, n);
            let from = looked_at(state, replies, n);
            let turn = call is Accept || call is Receive || call is ReadClocks
                || call is CheckShutdown;
            &&& after.events == events@
            &&& after.wf()
            &&& turn ==> turns_on(after, from, after, call)
            &&& !turn ==> after.cursor == from && !(after.phase is Idle || after.phase
                is Sweeping)
        }),
    decreases n,
{
    lemma_run_step(state, replies, n);
    law_every_run_is_well_formed(state, replies.take(n));
    let before = run(state, replies.take(n));
    crate::poll_server::law_step_keeps_well_formed(before, replies[n]);
    let after = run(state, replies.take(n + 1));
    let call = call_at(state, replies, n);
    if n == 0 {
        assert(replies.take(0) =~= Seq::<Reply>::empty());
        law_events_begin_a_round(state, events, 0);
    } else {
        lemma_round_step(state, events, replies, n - 1);
        assert(before.events == events@);
        law_round_moves_by_turns(before, replies[n]);
    }
    if call is Accept || call is Receive || call is ReadClocks || call is CheckShutdown {
        let from = looked_at(state, replies, n);
        let round = if n == 0 {
            PollState { events: events@, cursor: 0, ..state }
        } else {
            before
        };
        assert(turns_on(round, from, after, call));
        assert forall|i: int| !#[trigger] is_due(after, i) == !is_due(round, i) by {}
    }
}

/// Every event of a round is served in that round: when the round is over, there was a
/// moment at which the loop turned to the event, to accept a connection or to receive
/// from the one that the event is of, or passed over it because that connection was not
/// there.
pub proof fn law_every_event_is_served(
    state: PollState,
    events: Vec<usize>,
    replies: Seq<Reply>,
    i: int,
)
    requires
        state.wf(),
        is_round(state, events, replies),
        run(state, replies).phase is Idle || run(state, replies).phase is Sweeping,
        0 <= i < events@.len(),
    ensures
        exists|n: int|
            0 <= n < replies.len() && looked_at(state, replies, n) <= i < run(
                state,
                replies.take(n + 1),
            ).cursor && match #[trigger] call_at(state, replies, n) {
                Call::Accept => events@[i] == 0 || !is_there(
                    run(state, replies.take(n + 1)).table,
                    events@[i],
                ),
                Call::Receive { key } => (key == events@[i] && run(
                    state,
                    replies.take(n + 1),
                ).cursor == i + 1) || (events@[i] != 0 && !is_there(
                    run(state, replies.take(n + 1)).table,
                    events@[i],
                )),
                _ => events@[i] != 0 && !is_there(
                    run(state, replies.take(n + 1)).table,
                    events@[i],
                ),
            },
{
    let last = replies.len() - 1;
    assert(replies.take(last + 1) =~= replies);
    lemma_round_step(state, events, replies, last);
    let n = lemma_passed_at(state, events, replies, last, i);
    lemma_round_step(state, events, replies, n);
    let after = run(state, replies.take(n + 1));
    let call = call_at(state, replies, n);
    let from = looked_at(state, replies, n);
    assert(turns_on(after, from, after, call));
    if !((call is Accept || call is Receive) && i == after.cursor - 1) {
        assert(!is_due(after, i));
    }
}

/// The reply by which the loop has come past the event `i`.
proof fn lemma_passed_at(
    state: PollState,
    events: Vec<usize>,
    replies: Seq<Reply>,
    last: int,
    i: int,
) -> (n: int)
    requires
        state.wf(),
        is_round(state, events, replies),
        0 <= last < replies.len(),
        0 <= i < run(state, replies.take(last + 1)).cursor,
    ensures
        0 <= n <= last,
        looked_at(state, replies, n) <= i < run(state, replies.take(n + 1)).cursor,
    decreases last,
{
    lemma_round_step(state, events, replies, last);
    if looked_at(state, replies, last) <= i {
        last
    } else {
        lemma_passed_at(state, events, replies, last - 1, i)
    }
}

/// No event of a round is served twice: of two calls to accept or to receive, the later
/// one is for a later event.
pub proof fn law_no_event_is_served_twice(
    state: PollState,
    events: Vec<usize>,
    replies: Seq<Reply>,
    earlier: int,
    later: int,
)
    requires
        state.wf(),
        is_round(state, events, replies),
        0 <= earlier < later < replies.len(),
        call_at(state, replies, later) is Accept || call_at(state, replies, later) is Receive,
    ensures
        run(state, replies.take(earlier + 1)).cursor < run(state, replies.take(later + 1)).cursor,
        call_at(state, replies, later) matches Call::Receive { key } ==> key == events@[run(
            state,
            replies.take(later + 1),
        ).cursor - 1],
{
    lemma_round_step(state, events, replies, later);
    lemma_cursor_grows(state, events, replies, earlier, later);
}

/// In a round in which no connection is reported twice, every connection that is reported,
/// and is still there when its turn comes, is received from exactly once.
pub proof fn law_each_connection_is_received_from_once(
    state: PollState,
    events: Vec<usize>,
    replies: Seq<Reply>,
    i: int,
)
    requires
        state.wf(),
        is_round(state, events, replies),
        run(state, replies).phase is Idle || run(state, replies).phase is Sweeping,
        events@.no_duplicates(),
        0 <= i < events@.len(),
        events@[i] != 0,
        forall|n: int|
            0 <= n < replies.len() && #[trigger] looked_at(state, replies, n) <= i ==> is_there(
                run(state, replies.take(n + 1)).table,
                events@[i],
            ),
    ensures
        exists|n: int|
            0 <= n < replies.len() && #[trigger] call_at(state, replies, n) == (Call::Receive {
                key: events@[i],
            }) && forall|m: int|
                0 <= m < replies.len() && #[trigger] call_at(state, replies, m) == (Call::Receive {
                    key: events@[i],
                }) ==> m == n,
{
    let key = events@[i];
    law_every_event_is_served(state, events, replies, i);
    let n = choose|n: int|
        0 <= n < replies.len() && looked_at(state, replies, n) <= i < run(
            state,
            replies.take(n + 1),
        ).cursor && match #[trigger] call_at(state, replies, n) {
            Call::Accept => events@[i] == 0 || !is_there(
                run(state, replies.take(n + 1)).table,
                events@[i],
            ),
            Call::Receive { key } => (key == events@[i] && run(
                state,
                replies.take(n + 1),
            ).cursor == i + 1) || (events@[i] != 0 && !is_there(
                run(state, replies.take(n + 1)).table,
                events@[i],
            )),
            _ => events@[i] != 0 && !is_there(run(state, replies.take(n + 1)).table, events@[i]),
        };
    assert(call_at(state, replies, n) == Call::Receive { key });
    assert forall|m: int|
        0 <= m < replies.len() && #[trigger] call_at(state, replies, m) == (Call::Receive {
            key,
        }) implies m == n by {
        lemma_round_step(state, events, replies, m);
        lemma_round_step(state, events, replies, n);
        if m < n {
            law_no_event_is_served_twice(state, events, replies, m, n);
        } else if n < m {
            law_no_event_is_served_twice(state, events, replies, n, m);
        }
    }
}

/// The place in the round never goes back.
proof fn lemma_cursor_grows(
    state: PollState,
    events: Vec<usize>,
    replies: Seq<Reply>,
    earlier: int,
    later: int,
)
    requires
        state.wf(),
        is_round(state, events, replies),
        0 <= earlier < later < replies.len(),
    ensures
        run(state, replies.take(earlier + 1)).cursor <= looked_at(state, replies, later),
    decreases later - earlier,
{
    if later > earlier + 1 {
        lemma_cursor_grows(state, events, replies, earlier, later - 1);
        lemma_round_step(state, events, replies, later - 1);
    }
}

/// Whether `after` is `before` with the connection at `position` heard of at `now`, and
/// nothing else changed.
pub open spec fn heard_at(before: Table, after: Table, position: int, now: u128) -> bool {
    &&& after.next_key == before.next_key
    &&& after.list.len() == before.list.len()
    &&& after.list[position] == ClientConn {
        key: before.list[position].key,
        last_update: now,
        pid: before.list[position].pid,
    }
    &&& forall|i: int|
        0 <= i < before.list.len() && i != position ==> #[trigger] after.list[i] == before.list[i]
}

/// Whether `after` is `before` without the connection at `position`, whose place the last
/// one has taken.
pub open spec fn taken_out(before: Table, after: Table, position: int) -> bool {
    let last = before.list.len() - 1;
    &&& after.next_key == before.next_key
    &&& after.list.len() == last
    &&& forall|i: int|
        0 <= i < last ==> #[trigger] after.list[i] == if i == position {
            before.list[last]
        } else {
            before.list[i]
        }
}

/// Whether the loop is at the connection at `position`, under `key`.
pub open spec fn receiving(state: PollState, position: int, key: usize) -> bool {
    state.phase matches Phase::Receiving { position: p, key: k } && p == position && k == key
}

/// A client that connects gets the next key, is put at the end of the table with the time
/// of its coming, and is reported with the number of clients that there are now; after
/// that the listener is asked for its next event.
pub proof fn law_client_is_taken_in(state: PollState, now: u128, error: IoError)
    requires
        state.wf(),
        state.phase is Accepting,
        state.table.next_key < usize::MAX,
    ensures
        ({
            let key = state.table.next_key as usize;
            let (reserved, first) = state.next(Reply::Accepted(true));
            let (added, second) = reserved.next(Reply::Registered { outcome: Ok(()), now });
            let (rearming, third) = added.next(Reply::Handler(LoopAction::Continue));
            &&& first == Call::Register { key }
            &&& second == Call::NotifyConnected { clients: (state.table.list.len() + 1) as usize }
            &&& added.table.next_key == key + 1
            &&& added.table.list == state.table.list.push(
                ClientConn { key, last_update: now, pid: None },
            )
            &&& third == Call::RearmListener
            &&& rearming.phase is Rearming
            &&& rearming.table == added.table
            &&& rearming.cursor == state.cursor && rearming.events == state.events
            &&& added.next(Reply::Handler(LoopAction::Exit)).1 == Call::Finish(Ok(()))
            &&& reserved.next(Reply::Registered { outcome: Err(error), now }).1 == Call::Finish(
                Err(ServerError::Io(error)),
            )
        }),
{
    crate::poll_server::lemma_length_fits(state.table);
}

/// The poller is asked for the next event of a connection that has been served. If that
/// fails, the loop ends with the error.
pub proof fn law_rearming_fails(state: PollState, error: IoError)
    requires
        state.phase is Rearming,
    ensures
        state.next(Reply::Rearmed(Err(error))).1 == Call::Finish(Err(ServerError::Io(error))),
{
}

/// A message is heard of at the time that it comes, whatever it is. A pong is forgotten, a
/// message of a user is delivered under its code, and a ping is answered with a pong; the
/// connection is listened to again after that. Where the pong cannot be sent, the
/// connection is taken out, and so it is where it is closed or broken.
pub proof fn law_message_is_answered(
    state: PollState,
    position: int,
    key: usize,
    now: u128,
    kind: u32,
    pid: Result<u32, ServerError>,
)
    requires
        state.wf(),
        receiving(state, position, key),
        kind >= 2,
    ensures
        ({
            let (heard, call) = state.next(Reply::Received { now, message: Some((kind, pid)) });
            let (done, rearm) = if kind == 2 {
                heard.next(Reply::Sent(true))
            } else if kind == 3 {
                (heard, call)
            } else {
                heard.next(Reply::Done)
            };
            &&& heard_at(state.table, heard.table, position, now)
            &&& kind == 2 ==> call == Call::SendPong { key, header: Header { kind: 3, size: 0 } }
            &&& kind >= 4 ==> call == Call::Deliver { code: (kind - 4) as u32 }
            &&& rearm == Call::Rearm { key }
            &&& done.phase is Rearming
            &&& done.table == heard.table
            &&& done.events == state.events && done.cursor == state.cursor
            &&& kind == 2 ==> {
                let (gone, drop) = heard.next(Reply::Sent(false));
                &&& drop == Call::Deregister { key }
                &&& gone.phase is Leaving
                &&& taken_out(heard.table, gone.table, position)
            }
        }),
{
    let heard = state.table.touch(position, now);
    assert(heard.remove(position).list.len() == heard.list.len() - 1);
}

/// A connection that is closed or broken is taken out of the table and the poller, its
/// going is reported with the number of clients that are left, and the loop turns to the
/// next event or ends, as the handler says.
pub proof fn law_closed_connection_leaves(state: PollState, position: int, key: usize, now: u128)
    requires
        state.wf(),
        receiving(state, position, key),
    ensures
        ({
            let (gone, first) = state.next(Reply::Received { now, message: None });
            let (told, second) = gone.next(Reply::Done);
            let last = told.next(Reply::Handler(LoopAction::Continue));
            &&& first == Call::Deregister { key }
            &&& gone.phase is Leaving
            &&& gone.table.list.len() == state.table.list.len() - 1
            &&& !is_there(gone.table, key)
            &&& forall|c: ClientConn| #[trigger]
                gone.table.list.contains(c) <==> state.table.list.contains(c) && c.key != key
            &&& second == Call::NotifyDisconnected {
                clients: (state.table.list.len() - 1) as usize,
            }
            &&& told.table == gone.table
            &&& turns_on(told, state.cursor, last.0, last.1)
            &&& told.next(Reply::Handler(LoopAction::Exit)).1 == Call::Finish(Ok(()))
        }),
{
    let (gone, _) = state.next(Reply::Received { now, message: None });
    lemma_client_is_out(state, position, key, now);
    crate::poll_server::law_step_keeps_well_formed(
        state,
        Reply::Received { now, message: None },
    );
    lemma_turns_on(gone.next(Reply::Done).0);
    crate::poll_server::lemma_length_fits(state.table);
}

/// Taking out the connection that was just heard of takes out that one, and leaves all
/// others as they were.
proof fn lemma_client_is_out(state: PollState, position: int, key: usize, now: u128)
    requires
        state.wf(),
        receiving(state, position, key),
    ensures
        ({
            let rest = state.table.touch(position, now).remove(position);
            &&& rest.list.len() == state.table.list.len() - 1
            &&& rest.next_key == state.table.next_key
            &&& !is_there(rest, key)
            &&& forall|c: ClientConn| #[trigger]
                rest.list.contains(c) <==> state.table.list.contains(c) && c.key != key
        }),
{
    let list = state.table.list;
    let heard = state.table.touch(position, now);
    let rest = heard.remove(position);
    crate::clients::law_table_stays_well_formed(state.table);
    crate::clients::law_remove_takes_one(heard, position);
    crate::poll_server::lemma_removed_is_lacking(heard, position);
    assert(heard.list[position].key == key);
    assert forall|c: ClientConn| #[trigger]
        rest.list.contains(c) <==> list.contains(c) && c.key != key by {
        if rest.list.contains(c) {
            let k = choose|k: int| 0 <= k < rest.list.len() && rest.list[k] == c;
            assert(rest.list[k].key != key);
            let i = choose|i: int| 0 <= i < heard.list.len() && heard.list[i] == c;
            assert(list[i] == c);
        }
        if list.contains(c) && c.key != key {
            let i = choose|i: int| 0 <= i < list.len() && list[i] == c;
            assert(heard.list[i] == c);
            assert(heard.list.contains(c));
        }
    }
}

/// On Linux a crash request is served, wherever in the table the client stands: it is
/// taken out of the table, the others stay, and the socket is asked who is at its other
/// end. Where that is the process that the request speaks of, a minidump is made for the
/// client. Where the socket cannot say, or says otherwise, or the request has the wrong
/// size, the loop ends with the reason.
pub proof fn law_crash_request_is_served(
    state: PollState,
    position: int,
    key: usize,
    now: u128,
    pid: Result<u32, ServerError>,
    claimed: i32,
    error: IoError,
    other: u32,
)
    requires
        state.wf(),
        state.platform is Linux,
        receiving(state, position, key),
        other != claimed as u32,
    ensures
        ({
            let (asked, first) = state.next(Reply::Received { now, message: Some((0, pid)) });
            let vouched = Reply::Peer {
                credentials: Ok(Some(claimed as u32)),
                claimed: Some(claimed),
            };
            &&& first == Call::PeerCredentials { key }
            &&& asked.phase == Phase::Vouching { key }
            &&& asked.events == state.events && asked.cursor == state.cursor
            &&& asked.table.list.len() == state.table.list.len() - 1
            &&& !is_there(asked.table, key)
            &&& forall|c: ClientConn| #[trigger]
                asked.table.list.contains(c) <==> state.table.list.contains(c) && c.key != key
            &&& asked.next(vouched) == (
                PollState { phase: Phase::Dumping { key }, ..asked },
                Call::Dump { key },
            )
            &&& asked.next(
                Reply::Peer { credentials: Ok(Some(other)), claimed: Some(claimed) },
            ).1 == Call::Finish(Err(ServerError::UnknownClientPid))
            &&& forall|claim: Option<i32>| #[trigger]
                asked.next(Reply::Peer { credentials: Ok(None), claimed: claim }).1 == Call::Finish(
                    Err(ServerError::UnknownClientPid),
                )
            &&& asked.next(Reply::Peer { credentials: Ok(Some(other)), claimed: None }).1
                == Call::Finish(Err(ServerError::Io(IoError::IncorrectBufferSize)))
            &&& forall|claim: Option<i32>| #[trigger]
                asked.next(Reply::Peer { credentials: Err(error), claimed: claim }).1
                    == Call::Finish(Err(ServerError::Io(error)))
        }),
{
    lemma_client_is_out(state, position, key, now);
}

/// On Linux the handler's answer to a minidump is obeyed, whether it was to a minidump or
/// to there being none: the client is sent its acknowledgement, and after that, sent or
/// not, the loop ends without an error exactly if the answer was to leave. Otherwise the
/// connection is closed, its going is reported with the number of clients that are left,
/// and the loop turns to the next event.
pub proof fn law_answer_to_a_minidump_is_obeyed(
    state: PollState,
    key: usize,
    failure: Option<ServerError>,
    action: LoopAction,
    sent: bool,
)
    requires
        state.wf(),
        state.phase == (Phase::Dumping { key }),
    ensures
        ({
            let (acking, ack) = match failure {
                None => state.next(Reply::Crash(Ok(action))),
                Some(error) => state.next(Reply::Crash(Err(error))).0.next(Reply::Handler(action)),
            };
            let (after, call) = acking.next(Reply::Sent(sent));
            let (told, report) = after.next(Reply::Done);
            let last = told.next(Reply::Handler(LoopAction::Continue));
            &&& failure matches Some(error) ==> state.next(Reply::Crash(Err(error))).1
                == Call::NotifyFailure { error }
            &&& ack == Call::SendAck { key, header: Header { kind: 1, size: 0 } }
            &&& action is Exit ==> call == Call::Finish(Ok(())) && after.phase is Finished
            &&& action is Continue ==> {
                &&& call == Call::Deregister { key }
                &&& report == Call::NotifyDisconnected { clients: state.table.list.len() as usize }
                &&& told.table == state.table
                &&& turns_on(told, state.cursor, last.0, last.1)
                &&& told.next(Reply::Handler(LoopAction::Exit)).1 == Call::Finish(Ok(()))
            }
        }),
{
    lemma_turns_on(PollState { phase: Phase::Parting, ..state });
}

/// On macOS a client that announces a crash is noted with the process that it is, is sent
/// a byte, and stays; nobody else changes. An announcement without a process id ends the
/// loop with the reason.
pub proof fn law_announcement_is_noted(
    state: PollState,
    position: int,
    key: usize,
    now: u128,
    pid: u32,
    error: ServerError,
    sent: bool,
)
    requires
        state.wf(),
        state.platform is MacOs,
        receiving(state, position, key),
    ensures
        ({
            let (noted, first) = state.next(Reply::Received { now, message: Some((0, Ok(pid))) });
            let (after, second) = noted.next(Reply::Sent(sent));
            &&& first == Call::SendNote { key, byte: 1 }
            &&& noted.table.next_key == state.table.next_key
            &&& noted.table.list.len() == state.table.list.len()
            &&& noted.table.list[position] == ClientConn { key, last_update: now, pid: Some(pid) }
            &&& forall|i: int|
                0 <= i < state.table.list.len() && i != position ==> #[trigger] noted.table.list[i]
                    == state.table.list[i]
            &&& second == Call::Rearm { key }
            &&& after == PollState { phase: Phase::Rearming, ..noted }
            &&& noted.events == state.events && noted.cursor == state.cursor
            &&& state.next(Reply::Received { now, message: Some((0, Err(error))) }).1
                == Call::Finish(Err(error))
        }),
{
}

/// On macOS a crash at the Mach port is dealt with for the first client that has announced
/// itself as that process: it is taken out of the table, a minidump is made, the crash is
/// acknowledged with the value one within two seconds, and the connection is closed. The
/// loop ends without an error exactly if the handler answered the minidump so; otherwise
/// it turns to the next event, also where no minidump could be made.
pub proof fn law_crash_at_the_port_is_served(
    state: PollState,
    pid: u32,
    position: int,
    outcome: Result<LoopAction, ServerError>,
)
    requires
        state.wf(),
        state.phase is CheckingPort,
        0 <= position < state.table.list.len(),
        state.table.list[position].pid == Some(pid),
        forall|i: int| 0 <= i < position ==> (#[trigger] state.table.list[i]).pid != Some(pid),
    ensures
        ({
            let key = state.table.list[position].key;
            let (found, first) = state.next(Reply::Port(Ok(Some(pid))));
            let (dumped, second) = found.next(Reply::Crash(outcome));
            let (acked, third) = dumped.next(Reply::Done);
            let last = acked.next(Reply::Done);
            &&& first == Call::Dump { key }
            &&& taken_out(state.table, found.table, position)
            &&& second == Call::AckPort { value: 1, timeout: 2_000_000_000 }
            &&& third == Call::Deregister { key }
            &&& acked.table == found.table
            &&& outcome == Ok::<LoopAction, ServerError>(LoopAction::Exit) ==> last.1
                == Call::Finish(Ok(()))
            &&& outcome != Ok::<LoopAction, ServerError>(LoopAction::Exit) ==> turns_on(
                acked,
                state.cursor,
                last.0,
                last.1,
            )
        }),
{
    crate::clients::law_position_is_first(state.table.list, Wanted::Pid(pid));
    let p = crate::clients::first_position(state.table.list, Wanted::Pid(pid));
    assert(Wanted::Pid(pid).is(state.table.list[position]));
    assert(p == Some(position)) by {
        if p->0 < position {
            assert(state.table.list[p->0].pid != Some(pid));
        }
    }
    crate::clients::law_table_stays_well_formed(state.table);
    let found = state.next(Reply::Port(Ok(Some(pid)))).0;
    let acked = found.next(Reply::Crash(outcome)).0.next(Reply::Done).0;
    lemma_turns_on(acked);
}

/// When a round is over, the clients that have been silent for the time limit, or longer,
/// are taken out, and the others stay as they are. If there are any, their connections are
/// closed, the number of clients that are left is reported, and the loop begins another
/// round or ends, as the handler says; if there are none, it begins another round at once.
pub proof fn law_silent_clients_leave(
    state: PollState,
    timeout: u128,
    clock: Vec<u128>,
    position: int,
)
    requires
        state.wf(),
        state.phase is Sweeping,
        state.stale_timeout == Some(timeout),
        clock@.len() == state.table.list.len(),
        0 <= position < state.table.list.len(),
    ensures
        ({
            let client = state.table.list[position];
            let recent = timeout > 0 && clock@[position] < client.last_update + timeout;
            let (swept, first) = state.next(Reply::Clocks(clock));
            let (told, second) = swept.next(Reply::Done);
            &&& swept.table.next_key == state.table.next_key
            &&& recent <==> swept.table.list.contains(client)
            &&& recent <==> is_there(swept.table, client.key)
            &&& recent <==> !swept.stale.contains(client.key)
            &&& swept.table.list.len() + swept.stale.len() == state.table.list.len()
            &&& !recent ==> first == Call::DropStale
            &&& first == Call::DropStale || first == Call::CheckShutdown
            &&& first == Call::CheckShutdown <==> swept.table == state.table
            &&& first == Call::CheckShutdown ==> swept.phase is Idle
            &&& first == Call::DropStale ==> {
                &&& second == Call::NotifyDisconnected { clients: swept.table.list.len() as usize }
                &&& told.table == swept.table
                &&& told.next(Reply::Handler(LoopAction::Exit)).1 == Call::Finish(Ok(()))
                &&& told.next(Reply::Handler(LoopAction::Continue)).1 == Call::CheckShutdown
                &&& told.next(Reply::Handler(LoopAction::Continue)).0.phase is Idle
            }
        }),
{
    let list = state.table.list;
    let client = list[position];
    let kept = state.table.reap(clock@, timeout);
    crate::clients::law_recent_clients_stay(state.table, clock@, timeout, position);
    crate::clients::law_reap_keeps_the_fresh(list, clock@, timeout);
    crate::poll_server::lemma_none_stale(state.table, clock@, timeout);
    let keys = crate::clients::stale_keys(list, clock@, timeout);
    assert(is_there(kept, client.key) == kept.list.contains(client)) by {
        if is_there(kept, client.key) {
            let p = choose|p: int|
                0 <= p < kept.list.len() && (#[trigger] kept.list[p]).key == client.key;
            assert(kept.list.contains(kept.list[p]));
            let i = choose|i: int|
                0 <= i < list.len() && list[i] == kept.list[p] && !crate::clients::is_stale(
                    list[i],
                    #[trigger] clock@[i],
                    timeout,
                );
            assert(i == position) by {
                if i < position {
                    assert(list[i].key != list[position].key);
                } else if position < i {
                    assert(list[position].key != list[i].key);
                }
            }
        }
        if kept.list.contains(client) {
            let p = choose|p: int| 0 <= p < kept.list.len() && kept.list[p] == client;
            assert(kept.list[p].key == client.key);
        }
    }
    if keys.len() > 0 {
        assert(kept.list.len() < list.len());
    }
    if keys.contains(client.key) {
        let k = choose|k: int| 0 <= k < keys.len() && keys[k] == client.key;
    }
}

/// The process that a message body starts with is the number in its first four bytes; a
/// shorter body has none.
pub proof fn law_announced_process(body: Seq<u8>)
    requires
        body.len() <= usize::MAX,
    ensures
        body.len() < 4 ==> forall|order: ByteOrder| #[trigger]
            crate::poll_server::announced_pid(body, order) == Err::<u32, ServerError>(
                ServerError::Scroll { size: 4, len: body.len() as usize },
            ),
        body.len() >= 4 ==> crate::poll_server::announced_pid(body, ByteOrder::Little) == Ok::<
            u32,
            ServerError,
        >((body[0] + 256 * body[1] + 65536 * body[2] + 16777216 * body[3]) as u32),
        body.len() >= 4 ==> crate::poll_server::announced_pid(body, ByteOrder::Big) == Ok::<
            u32,
            ServerError,
        >((body[3] + 256 * body[2] + 65536 * body[1] + 16777216 * body[0]) as u32),
{
    if body.len() >= 4 {
        let start = body.subrange(0, 4);
        crate::wire::law_four_bytes_are_a_number(start);
        assert(start[0] == body[0] && start[1] == body[1] && start[2] == body[2] && start[3]
            == body[3]);
    }
}

/// On macOS a crash at the Mach port of a process that no client has announced itself as
/// ends the loop.
pub proof fn law_crash_of_nobody_ends_the_loop(state: PollState, pid: u32)
    requires
        state.phase is CheckingPort,
        forall|i: int|
            0 <= i < state.table.list.len() ==> (#[trigger] state.table.list[i]).pid != Some(pid),
    ensures
        state.next(Reply::Port(Ok(Some(pid)))).1 == Call::Finish(
            Err(ServerError::UnknownClientPid),
        ),
        state.next(Reply::Port(Ok(Some(pid)))).0.table == state.table,
{
    crate::clients::law_lookup_finds_the_first(state.table.list, 0, pid);
}

/// What the loop runs on, and how long a client may be silent, never change. A loop starts
/// without a client, with the key one for the first, and in no round.
pub proof fn law_settings_stay(
    state: PollState,
    reply: Reply,
    platform: Platform,
    stale_timeout: Option<u128>,
)
    requires
        state.wf(),
        state.fits(reply),
    ensures
        state.next(reply).0.platform == state.platform,
        state.next(reply).0.stale_timeout == state.stale_timeout,
        PollState::start(platform, stale_timeout).platform == platform,
        PollState::start(platform, stale_timeout).stale_timeout == stale_timeout,
        PollState::start(platform, stale_timeout).table.list.len() == 0,
        PollState::start(platform, stale_timeout).table.next_key == 1,
        PollState::start(platform, stale_timeout).phase is Idle,
{
    lemma_turns_on(state);
    if let Reply::Events(events) = reply {
        lemma_turns_on(state.seeing(events@));
    }
    lemma_turns_on(state.seeing(Seq::empty()));
}

/// Whatever comes of a call, the loop goes on from it or ends: it takes every outcome that
/// the call can have, unless the clock or the keys have run out, or a message is of the one
/// kind that clients never send.
pub proof fn law_every_outcome_is_taken(state: PollState, reply: Reply)
    requires
        !(state.phase is Finished),
        match reply {
            Reply::Shutdown { stop, now } => state.phase is Idle && now + 200_000_000 <= u128::MAX,
            Reply::Events(_) => state.phase is Polling,
            Reply::Interrupted { .. } => state.phase is Polling,
            Reply::PollFailed(_) => state.phase is Polling,
            Reply::Port(_) => state.phase is CheckingPort,
            Reply::Crash(_) => state.phase is Dumping || state.phase is PortDumping,
            Reply::Accepted(accepted) => state.phase is Accepting && (accepted
                ==> state.table.next_key < usize::MAX),
            Reply::Registered { .. } => state.phase is Registering,
            Reply::Handler(_) => state.phase is Welcoming || state.phase is Excusing
                || state.phase is Parting || state.phase is PartingStale,
            Reply::Rearmed(_) => state.phase is Rearming,
            Reply::Received { now, message } => state.phase is Receiving && (
            message matches Some((kind, pid)) ==> kind != 1),
            Reply::Sent(_) => state.phase is Ponging || state.phase is Noting
                || state.phase is Acking,
            Reply::Peer { .. } => state.phase is Vouching,
            Reply::Clocks(clock) => state.phase is Sweeping && clock@.len()
                == state.table.list.len(),
            Reply::Done => state.phase is PortAcking || state.phase is PortLeaving
                || state.phase is Delivering || state.phase is Leaving || state.phase is Dropping,
        },
    ensures
        state.fits(reply),
{
}

/// A connection that cannot be accepted is passed over: the listener is asked for its next
/// event. A Mach port that fails ends the loop with its error.
pub proof fn law_failed_arrivals(state: PollState, error: ServerError)
    ensures
        state.phase is Accepting ==> state.next(Reply::Accepted(false)) == (
            PollState { phase: Phase::Rearming, ..state },
            Call::RearmListener,
        ),
        state.phase is CheckingPort ==> state.next(Reply::Port(Err(error))).1 == Call::Finish(
            Err(error),
        ),
{
}

/// Where there are no clients, none has been silent, and the loop begins another round.
pub proof fn law_nobody_is_silent(state: PollState, clock: Vec<u128>)
    requires
        state.phase is Sweeping,
        state.table.list.len() == 0,
        clock@.len() == 0,
    ensures
        ({
            let (after, call) = state.next(Reply::Clocks(clock));
            &&& call == Call::CheckShutdown
            &&& after.phase is Idle
            &&& after.table == state.table
            &&& after.stale.len() == 0
        }),
{
}

} // verus!
