//! What holds of every message loop on sockets, whatever clients, handlers and
//! the operating system do.

use crate::clients::{ClientConn, Wanted};
use crate::error::{IoError, LoopAction, ServerError};
use crate::poll_server::{
    Call, Phase, PollState, Reply, POLL_TIMEOUT, PORT_ACK, PORT_ACK_TIMEOUT,
};
use crate::wire::{Header, CRASH_ACK, PING, PONG, USER};
use vstd::prelude::*;

verus! {

/// A minidump is only ever made for the process that asks for it. On Linux, the
/// socket vouches that the process which sent the request is the one that the
/// request speaks of; on macOS, the crash came from the process that a connected
/// client has announced itself as, and that connection is the one given up.
pub proof fn law_dump_only_for_the_asker(state: PollState, reply: Reply)
    requires
        state.wf(),
        state.fits(reply),
        state.next(reply).1 is Dump,
    ensures
        state.platform is Linux ==> (reply matches Reply::Peer {
            credentials: Ok(Some(pid)),
            claimed: Some(claim),
        } && pid == claim as u32),
        state.platform is MacOs ==> (reply matches Reply::Port(Ok(Some(pid))) && exists|i: int|
            0 <= i < state.table.list.len() && (#[trigger] state.table.list[i]).pid == Some(pid)
                && state.next(reply).1 == (Call::Dump { key: state.table.list[i].key })),
{
    lemma_next_event_calls(state);
    lemma_step_events(state, reply);
    match (state.phase, reply) {
        (Phase::CheckingPort, Reply::Port(Ok(Some(pid)))) => {
            crate::clients::law_position_is_first(state.table.list, Wanted::Pid(pid));
            let p = crate::clients::first_position(state.table.list, Wanted::Pid(pid))->0;
            assert(state.table.list[p].pid == Some(pid));
        },
        _ => {},
    }
}

/// Which calls turning to the next event leads to.
proof fn lemma_next_event_calls(state: PollState)
    ensures
        ({
            let (after, call) = state.next_event();
            &&& call is Accept || call is Receive || call is ReadClocks || call is CheckShutdown
            &&& after.table == state.table
            &&& after.stale == state.stale
            &&& after.phase is Accepting || after.phase is Receiving || after.phase is Sweeping
                || after.phase is Idle
        }),
    decreases state.events.len() - state.cursor,
{
    if 0 <= state.cursor < state.events.len() {
        lemma_next_event_calls(PollState { cursor: state.cursor + 1, ..state });
    }
}

/// What a step does with what the poller reports: it keeps the connections, and does
/// no more than to wait on, to look at the port, to turn to an event or to end.
proof fn lemma_step_events(state: PollState, reply: Reply)
    requires
        state.fits(reply),
    ensures
        state.phase is Polling ==> {
            let (after, call) = state.next(reply);
            &&& after.table == state.table
            &&& after.stale == state.stale
            &&& match call {
                Call::Wait { timeout } => after == state && reply is Interrupted,
                Call::CheckPort { .. } => after.phase is CheckingPort,
                Call::Finish(outcome) => outcome is Err && after.phase is Finished,
                _ => {
                    &&& call is Accept || call is Receive || call is ReadClocks
                        || call is CheckShutdown
                    &&& after.phase is Accepting || after.phase is Receiving
                        || after.phase is Sweeping || after.phase is Idle
                },
            }
        },
{
    match (state.phase, reply) {
        (Phase::Polling { .. }, Reply::Events(events)) => {
            lemma_next_event_calls(state.seeing(events@));
        },
        (Phase::Polling { .. }, Reply::Interrupted { now }) => {
            lemma_next_event_calls(state.seeing(Seq::empty()));
        },
        _ => {},
    }
}

/// The loop ends without an error only when it is told to: by the shutdown flag,
/// by what the handler has just answered, or by what it answered to a minidump.
pub proof fn law_ends_only_when_told(state: PollState, reply: Reply)
    requires
        state.wf(),
        state.fits(reply),
        state.next(reply).1 == Call::Finish(Ok(())),
    ensures
        (reply matches Reply::Shutdown { stop, now } && stop) || reply == Reply::Handler(
            LoopAction::Exit,
        ) || (state.phase matches Phase::Acking { key, action } && action is Exit) || (
        state.phase matches Phase::PortLeaving { action } && action is Exit),
{
    lemma_next_event_calls(state);
    lemma_step_events(state, reply);
}

/// A loop that holds an answer to leave has it from the handler: it is what the
/// handler said to the minidump, or to there being none.
pub proof fn law_exit_comes_from_the_handler(state: PollState, reply: Reply)
    requires
        state.wf(),
        state.fits(reply),
        match state.next(reply).0.phase {
            Phase::Acking { key, action } => action is Exit,
            Phase::PortAcking { key, action } => action is Exit,
            _ => false,
        },
    ensures
        reply == Reply::Crash(Ok(LoopAction::Exit)) || reply == Reply::Handler(LoopAction::Exit),
{
    lemma_next_event_calls(state);
    lemma_step_events(state, reply);
}

/// When the shutdown flag is up or the handler asks to leave, the loop ends, and
/// ends without an error. An answer to a minidump counts once the client has
/// been sent its acknowledgement.
pub proof fn law_ends_when_told(state: PollState, reply: Reply)
    requires
        state.wf(),
        state.fits(reply),
        (reply matches Reply::Shutdown { stop, now } && stop) || (reply == Reply::Handler(
            LoopAction::Exit,
        ) && !(state.phase is Excusing)) || (state.phase matches Phase::Acking { key, action }
            && action is Exit) || (state.phase matches Phase::PortLeaving { action }
            && action is Exit),
    ensures
        state.next(reply).1 == Call::Finish(Ok(())),
        state.next(reply).0.phase is Finished,
{
}

/// The handler is told how many connections there are, never anything else.
pub proof fn law_counts_are_true(state: PollState, reply: Reply)
    requires
        state.wf(),
        state.fits(reply),
    ensures
        state.next(reply).1 matches Call::NotifyConnected { clients } ==> clients == state.next(
            reply,
        ).0.table.list.len() && clients == state.table.list.len() + 1,
        state.next(reply).1 matches Call::NotifyDisconnected { clients } ==> clients == state.next(
            reply,
        ).0.table.list.len() && clients == state.table.list.len(),
{
    lemma_next_event_calls(state);
    lemma_step_events(state, reply);
    crate::poll_server::law_step_keeps_well_formed(state, reply);
    crate::poll_server::lemma_length_fits(state.table);
    crate::poll_server::lemma_length_fits(state.next(reply).0.table);
}

/// How many connections have left the table without the handler having been
/// told.
pub open spec fn unreported(state: PollState) -> nat {
    match state.phase {
        Phase::Vouching { .. } => 1,
        Phase::Dumping { .. } => 1,
        Phase::Excusing { .. } => 1,
        Phase::Acking { .. } => 1,
        Phase::Leaving => 1,
        Phase::Dropping => state.stale.len(),
        _ => 0,
    }
}

/// Every connection is accounted for while the loop runs: it comes in with a
/// report to the handler, and none leaves the table without being owed a report,
/// which ends the debt. Connections whose crash arrived at a Mach port are left
/// out: the handler is not told when they go.
pub proof fn law_connections_are_accounted_for(state: PollState, reply: Reply)
    requires
        state.wf(),
        state.fits(reply),
        !(state.next(reply).0.phase is Finished),
        !(state.next(reply).0.phase is PortDumping),
    ensures
        ({
            let (after, call) = state.next(reply);
            let held = state.table.list.len() + unreported(state);
            let held_after = after.table.list.len() + unreported(after);
            match call {
                Call::NotifyConnected { .. } => held_after == held + 1 && unreported(after) == 0,
                Call::NotifyDisconnected { .. } => unreported(state) >= 1,
                _ => held_after == held,
            }
        }),
        state.next(reply).1 is NotifyDisconnected ==> unreported(state.next(reply).0) == 0
            && state.next(reply).0.table == state.table,
{
    lemma_next_event_calls(state);
    lemma_step_events(state, reply);
    match (state.phase, reply) {
        (Phase::Sweeping, Reply::Clocks(clock)) => {
            crate::clients::law_reap_keeps_the_fresh(
                state.table.list,
                clock@,
                state.stale_timeout->0,
            );
        },
        _ => {},
    }
}

/// The connection that the loop is busy with, if there is one.
pub open spec fn busy_with(state: PollState) -> Option<usize> {
    match state.phase {
        Phase::Receiving { key, .. } => Some(key),
        Phase::Ponging { key, .. } => Some(key),
        _ => None,
    }
}

/// What one client does is nothing to the others: a step leaves every connection
/// as it is but for the one that the loop is busy with. Reaping is left out, for
/// it is about all of them, and so is a crash at a Mach port.
pub proof fn law_others_are_untouched(state: PollState, reply: Reply, client: ClientConn)
    requires
        state.wf(),
        state.fits(reply),
        !(reply is Clocks),
        !(reply is Port),
        state.table.list.contains(client),
        Some(client.key) != busy_with(state),
    ensures
        state.next(reply).0.table.list.contains(client),
{
    lemma_next_event_calls(state);
    lemma_step_events(state, reply);
    let i = choose|i: int| 0 <= i < state.table.list.len() && state.table.list[i] == client;
    match (state.phase, reply) {
        (Phase::Registering { key }, Reply::Registered { outcome, now }) => {
            let after = state.table.push(key, now);
            assert(after.list[i] == client);
        },
        (Phase::Receiving { position, key }, Reply::Received { now, message }) => {
            let heard = state.table.touch(position as int, now);
            assert(heard.list[i] == client);
            assert(heard.list.contains(client));
            crate::clients::law_table_stays_well_formed(state.table);
            crate::clients::law_remove_takes_one(heard, position as int);
            assert(heard.list[position as int].key == key);
            if let Some((kind, Ok(pid))) = message {
                let said = heard.announce(position as int, pid);
                assert(said.list[i] == client);
            }
        },
        (Phase::Ponging { position, key }, Reply::Sent(sent)) => {
            crate::clients::law_remove_takes_one(state.table, position as int);
        },
        _ => {},
    }
}

/// A ping is answered with a pong on the same connection, which stays in the
/// table unless the pong cannot be sent.
pub proof fn law_ping_is_answered(
    state: PollState,
    now: u128,
    pid: Result<u32, ServerError>,
    sent: bool,
)
    requires
        state.wf(),
        state.phase is Receiving,
    ensures
        ({
            let key = state.phase->Receiving_key;
            let position = state.phase->Receiving_position;
            let (pinged, call) = state.next(
                Reply::Received { now, message: Some((PING, pid)) },
            );
            let (ponged, followed_by) = pinged.next(Reply::Sent(sent));
            &&& call == Call::SendPong { key, header: Header { kind: PONG, size: 0 } }
            &&& pinged.table == state.table.touch(position as int, now)
            &&& sent ==> followed_by == Call::Rearm { key } && ponged.table == pinged.table
            &&& !sent ==> followed_by == Call::Deregister { key }
        }),
{
}

/// A crash that the loop decides to handle is acknowledged to the client that
/// sent it, whether or not a minidump came of it; where none did, the handler is
/// told the error first.
pub proof fn law_crash_is_acknowledged(
    state: PollState,
    outcome: Result<LoopAction, ServerError>,
    answer: LoopAction,
)
    requires
        state.wf(),
        state.phase is Dumping,
    ensures
        ({
            let key = state.phase->Dumping_key;
            let (dumped, call) = state.next(Reply::Crash(outcome));
            let (told, followed_by) = dumped.next(Reply::Handler(answer));
            let ack = Call::SendAck { key, header: Header { kind: CRASH_ACK, size: 0 } };
            match outcome {
                Ok(action) => call == ack,
                Err(error) => call == (Call::NotifyFailure { error }) && followed_by == ack,
            }
        }),
{
}

/// A crash request that the socket does not vouch for is refused: no minidump is
/// made, and the loop ends with the reason.
pub proof fn law_unvouched_crash_is_refused(
    state: PollState,
    credentials: Result<Option<u32>, IoError>,
    claimed: Option<i32>,
)
    requires
        state.wf(),
        state.phase is Vouching,
        crate::crash::verdict(credentials, claimed) is Err,
    ensures
        state.next(Reply::Peer { credentials, claimed }) == state.finish(
            crate::crash::verdict(credentials, claimed),
        ),
{
}

/// A crash at the Mach port that no connected client has announced is refused: no
/// minidump is made, and the loop ends with the reason.
pub proof fn law_crash_of_a_stranger_is_refused(state: PollState, pid: u32)
    requires
        state.wf(),
        state.phase is CheckingPort,
        forall|i: int|
            0 <= i < state.table.list.len() ==> (#[trigger] state.table.list[i]).pid != Some(pid),
    ensures
        state.next(Reply::Port(Ok(Some(pid)))) == state.finish(Err(ServerError::UnknownClientPid)),
{
    crate::clients::law_position_is_first(state.table.list, Wanted::Pid(pid));
}

/// A crash at the Mach port of an announced client takes the first client of that
/// process out of the table, is acknowledged once, whether or not a minidump came of
/// it, and is not reported as a disconnection: the loop ends if the handler asked for
/// it, or goes on with the events.
pub proof fn law_port_crash_is_acknowledged(
    state: PollState,
    pid: u32,
    position: int,
    outcome: Result<LoopAction, ServerError>,
)
    requires
        state.wf(),
        state.phase is CheckingPort,
        crate::clients::first_position(state.table.list, Wanted::Pid(pid)) == Some(position),
    ensures
        ({
            let key = state.table.list[position].key;
            let (found, first) = state.next(Reply::Port(Ok(Some(pid))));
            let (dumped, second) = found.next(Reply::Crash(outcome));
            let (acked, third) = dumped.next(Reply::Done);
            let last = acked.next(Reply::Done);
            &&& first == Call::Dump { key }
            &&& second == Call::AckPort { value: PORT_ACK, timeout: PORT_ACK_TIMEOUT }
            &&& third == Call::Deregister { key }
            &&& acked.table == state.table.remove(position)
            &&& last == if outcome == Ok::<LoopAction, ServerError>(LoopAction::Exit) {
                acked.finish(Ok(()))
            } else {
                acked.next_event()
            }
            &&& !(last.1 is NotifyDisconnected)
        }),
{
    let found = state.next(Reply::Port(Ok(Some(pid)))).0;
    let dumped = found.next(Reply::Crash(outcome)).0;
    lemma_next_event_calls(dumped.next(Reply::Done).0);
}

/// The events of a round are taken in turn, each once: the next one to be looked at
/// is the first that is of the listener or of a connection that is still there, and
/// the round is over when there is none.
pub proof fn law_events_are_taken_in_turn(state: PollState)
    requires
        0 <= state.cursor <= state.events.len(),
    ensures
        ({
            let (after, call) = state.next_event();
            let taken = call is Accept || call is Receive;
            let skipped = if taken {
                after.cursor - 1
            } else {
                after.cursor
            };
            &&& after.events == state.events
            &&& state.cursor <= skipped
            &&& match call {
                Call::Accept => after.cursor <= state.events.len() && state.events[skipped] == 0,
                Call::Receive { key } => after.cursor <= state.events.len() && key != 0
                    && state.events[skipped] == key && !state.lacks(key),
                _ => after.cursor == state.events.len(),
            }
            &&& forall|i: int|
                state.cursor <= i < skipped ==> #[trigger] state.events[i] != 0 && state.lacks(
                    state.events[i],
                )
        }),
    decreases state.events.len() - state.cursor,
{
    if state.cursor < state.events.len() {
        let key = state.events[state.cursor];
        crate::clients::law_position_is_first(state.table.list, Wanted::Key(key));
        match crate::clients::first_position(state.table.list, Wanted::Key(key)) {
            Some(p) => {
                assert(state.table.list[p].key == key);
            },
            None => {
                assert(state.lacks(key)) by {
                    assert forall|i: int| 0 <= i < state.table.list.len() implies (
                    #[trigger] state.table.list[i]).key != key by {
                        assert(!Wanted::Key(key).is(state.table.list[i]));
                    }
                }
                if key != 0 {
                    law_events_are_taken_in_turn(PollState { cursor: state.cursor + 1, ..state });
                }
            },
        }
    }
}

/// A message of a user is delivered once, under the code that it was sent with, and
/// the connection is listened to again.
pub proof fn law_user_message_is_delivered(
    state: PollState,
    now: u128,
    code: u32,
    pid: Result<u32, ServerError>,
)
    requires
        state.wf(),
        state.phase is Receiving,
        USER + code <= u32::MAX,
    ensures
        ({
            let key = state.phase->Receiving_key;
            let position = state.phase->Receiving_position;
            let kind = (USER + code) as u32;
            let (heard, call) = state.next(Reply::Received { now, message: Some((kind, pid)) });
            let (delivered, followed_by) = heard.next(Reply::Done);
            &&& call == Call::Deliver { code }
            &&& followed_by == Call::Rearm { key }
            &&& delivered.table == state.table.touch(position as int, now)
        }),
{
}

/// A connection that is closed or broken is taken out of the table and out of the
/// poller, and the handler is told how many are left.
pub proof fn law_closed_connection_is_given_up(state: PollState, now: u128)
    requires
        state.wf(),
        state.phase is Receiving,
    ensures
        ({
            let key = state.phase->Receiving_key;
            let (gone, call) = state.next(Reply::Received { now, message: None });
            let (_, followed_by) = gone.next(Reply::Done);
            &&& call == Call::Deregister { key }
            &&& gone.lacks(key)
            &&& gone.table.list.len() == state.table.list.len() - 1
            &&& followed_by == Call::NotifyDisconnected {
                clients: (state.table.list.len() - 1) as usize,
            }
        }),
{
    let position = state.phase->Receiving_position;
    let heard = state.table.touch(position as int, now);
    crate::clients::law_table_stays_well_formed(state.table);
    crate::clients::law_remove_takes_one(heard, position as int);
    crate::poll_server::lemma_removed_is_lacking(heard, position as int);
}

/// Within a round, the loop does not wait beyond the time limit of the round,
/// however often the wait is interrupted: it looks at the shutdown flag again
/// after that time at the latest.
pub proof fn law_wait_is_bounded(state: PollState, reply: Reply)
    requires
        state.wf(),
        state.fits(reply),
        state.next(reply).1 is Wait,
    ensures
        match reply {
            Reply::Shutdown { stop, now } => state.next(reply).1 == (Call::Wait {
                timeout: POLL_TIMEOUT,
            }) && state.next(reply).0.phase == (Phase::Polling {
                deadline: (now + POLL_TIMEOUT) as u128,
            }),
            Reply::Interrupted { now } => state.next(reply).0.phase == state.phase
                && state.phase is Polling && now + state.next(reply).1->Wait_timeout
                == state.phase->Polling_deadline,
            _ => false,
        },
{
    lemma_next_event_calls(state);
    lemma_step_events(state, reply);
}

/// Reaping takes out the connections that have been silent for as long as is
/// allowed, or longer, and no others; without a limit nobody is looked at.
pub proof fn law_silent_clients_are_dropped(state: PollState, clock: Vec<u128>, client: ClientConn)
    requires
        state.wf(),
        state.phase is Sweeping,
        clock@.len() == state.table.list.len(),
    ensures
        state.next(Reply::Clocks(clock)).0.table.list.contains(client) <==> exists|i: int|
            0 <= i < state.table.list.len() && state.table.list[i] == client
                && crate::clients::silence(client, #[trigger] clock@[i]) < state.stale_timeout->0,
{
    let timeout = state.stale_timeout->0;
    let list = state.table.list;
    crate::clients::law_reap_keeps_the_fresh(list, clock@, timeout);
    crate::poll_server::lemma_none_stale(state.table, clock@, timeout);
    let kept = crate::clients::fresh(list, clock@, timeout);
    assert(state.next(Reply::Clocks(clock)).0.table.list == kept);
    if kept.contains(client) {
        let i = choose|i: int|
            0 <= i < list.len() && list[i] == client && !crate::clients::is_stale(
                list[i],
                #[trigger] clock@[i],
                timeout,
            );
        assert(crate::clients::silence(client, clock@[i]) < timeout);
    }
    if exists|i: int|
        0 <= i < list.len() && list[i] == client && crate::clients::silence(
            client,
            #[trigger] clock@[i],
        ) < timeout {
        let i = choose|i: int|
            0 <= i < list.len() && list[i] == client && crate::clients::silence(
                client,
                #[trigger] clock@[i],
            ) < timeout;
        assert(!crate::clients::is_stale(list[i], clock@[i], timeout));
    }
}

/// The state that a loop reaches by the replies `replies`, one after the other.
pub open spec fn run(state: PollState, replies: Seq<Reply>) -> PollState
    decreases replies.len(),
{
    if replies.len() == 0 {
        state
    } else {
        run(state, replies.drop_last()).next(replies.last()).0
    }
}

/// Whether every reply of `replies` fits the state it comes in.
pub open spec fn is_run(state: PollState, replies: Seq<Reply>) -> bool
    decreases replies.len(),
{
    replies.len() == 0 || (is_run(state, replies.drop_last()) && run(
        state,
        replies.drop_last(),
    ).fits(replies.last()))
}

/// However long a loop has run, it is well-formed.
pub proof fn law_every_run_is_well_formed(state: PollState, replies: Seq<Reply>)
    requires
        state.wf(),
        is_run(state, replies),
    ensures
        run(state, replies).wf(),
    decreases replies.len(),
{
    if replies.len() > 0 {
        law_every_run_is_well_formed(state, replies.drop_last());
        crate::poll_server::law_step_keeps_well_formed(
            run(state, replies.drop_last()),
            replies.last(),
        );
    }
}

/// A key that a step gives out is one that has not been given out before.
proof fn lemma_keys_grow(state: PollState, reply: Reply)
    requires
        state.wf(),
        state.fits(reply),
    ensures
        state.next(reply).0.table.next_key >= state.table.next_key,
        state.next(reply).1 matches Call::Register { key } ==> key == state.table.next_key
            && state.next(reply).0.table.next_key == key + 1,
{
    lemma_next_event_calls(state);
    lemma_step_events(state, reply);
}

/// The keys that a run has given out are all below the next one.
proof fn lemma_run_keys_grow(state: PollState, replies: Seq<Reply>, n: int)
    requires
        state.wf(),
        is_run(state, replies),
        0 <= n <= replies.len(),
    ensures
        is_run(state, replies.take(n)),
        run(state, replies.take(n)).table.next_key <= run(state, replies).table.next_key,
    decreases replies.len(),
{
    if n < replies.len() {
        let before = replies.drop_last();
        lemma_run_keys_grow(state, before, n);
        assert(before.take(n) =~= replies.take(n));
        law_every_run_is_well_formed(state, before);
        lemma_keys_grow(run(state, before), replies.last());
    } else {
        assert(replies.take(n) =~= replies);
    }
}

/// A key is never given out twice in the life of a loop: of two connections that
/// it registers, the later one has the greater key.
pub proof fn law_keys_are_never_used_again(
    state: PollState,
    replies: Seq<Reply>,
    earlier: int,
    later: int,
)
    requires
        state.wf(),
        is_run(state, replies),
        0 <= earlier < later < replies.len(),
        run(state, replies.take(earlier)).next(replies[earlier]).1 is Register,
        run(state, replies.take(later)).next(replies[later]).1 is Register,
    ensures
        run(state, replies.take(earlier)).next(replies[earlier]).1->Register_key < run(
            state,
            replies.take(later),
        ).next(replies[later]).1->Register_key,
{
    lemma_run_keys_grow(state, replies, earlier + 1);
    lemma_run_keys_grow(state, replies, later + 1);
    let upto = replies.take(later + 1);
    assert(upto.drop_last() =~= replies.take(later));
    assert(upto.last() == replies[later]);
    let first = replies.take(earlier + 1);
    assert(first.drop_last() =~= replies.take(earlier));
    assert(first.last() == replies[earlier]);
    law_every_run_is_well_formed(state, replies.take(earlier));
    law_every_run_is_well_formed(state, replies.take(later));
    lemma_keys_grow(run(state, replies.take(earlier)), replies[earlier]);
    lemma_keys_grow(run(state, replies.take(later)), replies[later]);
    lemma_run_keys_grow(state, replies.take(later), earlier + 1);
    assert(replies.take(later).take(earlier + 1) =~= first);
}

} // verus!
