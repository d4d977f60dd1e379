//! What holds of a session over a run of many steps.
//!
//! A run is a session's state at its start and the replies that it takes in
//! turn: [`told`] gives the actions that it names, [`after`] the state that
//! it ends in.

use crate::identity::{Keypair, PeerIdentity, PublicKey};
use crate::negotiation::{ConnectionInfoResult, Event};
use crate::session::{
    at, error_of, initiator_of, lemma_session_advances, listener_of, rank, transition, ActionView,
    Phase, Reply, SessionView, User, CHANNEL, CONNECTION_INFO_TOKEN,
};
use vstd::prelude::*;

verus! {

/// The state of a session that was in state `s` and has taken `replies` in
/// turn.
pub open spec fn after<I, E>(s: SessionView, replies: Seq<Reply<I, E>>) -> SessionView
    decreases replies.len(),
{
    if replies.len() == 0 {
        s
    } else {
        after(at(s, transition(s, replies[0]).phase), replies.drop_first())
    }
}

/// The actions that a session in state `s` names as it takes `replies` in
/// turn, one for each reply.
pub open spec fn told<I, E>(s: SessionView, replies: Seq<Reply<I, E>>) -> Seq<ActionView<I, E>>
    decreases replies.len(),
{
    if replies.len() == 0 {
        Seq::empty()
    } else {
        seq![transition(s, replies[0]).action] + told(
            at(s, transition(s, replies[0]).phase),
            replies.drop_first(),
        )
    }
}

/// The events `events` as replies, each one a look at the event stream.
pub open spec fn arrivals<I, E>(events: Seq<Event<I, E>>) -> Seq<Reply<I, E>> {
    Seq::new(events.len(), |i: int| Reply::Event(Some(events[i])))
}

/// `n` times the action to wait for the next event.
pub open spec fn waits<I, E>(n: nat) -> Seq<ActionView<I, E>> {
    Seq::new(n, |i: int| ActionView::NextEvent)
}

/// A run names one action for each reply.
pub proof fn lemma_told_one_for_each<I, E>(s: SessionView, replies: Seq<Reply<I, E>>)
    ensures
        told(s, replies).len() == replies.len(),
    decreases replies.len(),
{
    if replies.len() > 0 {
        lemma_told_one_for_each(at(s, transition(s, replies[0]).phase), replies.drop_first());
    }
}

/// Each step of a run is the step of the state that the replies before it
/// led to. A run changes nothing of a session but its phase.
pub proof fn lemma_told_step_by_step<I, E>(s: SessionView, replies: Seq<Reply<I, E>>, k: int)
    requires
        0 <= k < replies.len(),
    ensures
        told(s, replies).len() == replies.len(),
        told(s, replies)[k] == transition(after(s, replies.take(k)), replies[k]).action,
        after(s, replies.take(k + 1)) == at(
            after(s, replies.take(k)),
            transition(after(s, replies.take(k)), replies[k]).phase,
        ),
        after(s, replies.take(k)) == at(s, after(s, replies.take(k)).phase),
    decreases replies.len(),
{
    let next = at(s, transition(s, replies[0]).phase);
    let rest = replies.drop_first();
    lemma_told_one_for_each(s, replies);
    lemma_told_one_for_each(next, rest);
    if k == 0 {
        assert(after(next, replies.take(1).drop_first()) == next);
    } else {
        lemma_told_step_by_step(next, rest, k - 1);
        assert(replies.take(k).drop_first() =~= rest.take(k - 1));
        assert(replies.take(k + 1).drop_first() =~= rest.take(k));
    }
}

/// Replies taken in two runs, one after the other, are replies taken in
/// one.
pub proof fn lemma_told_in_parts<I, E>(
    s: SessionView,
    first: Seq<Reply<I, E>>,
    then: Seq<Reply<I, E>>,
)
    ensures
        told(s, first + then) == told(s, first) + told(after(s, first), then),
        after(s, first + then) == after(after(s, first), then),
    decreases first.len(),
{
    if first.len() > 0 {
        let next = at(s, transition(s, first[0]).phase);
        assert((first + then).drop_first() =~= first.drop_first() + then);
        lemma_told_in_parts(next, first.drop_first(), then);
    }
}

/// In the course of a run a session never falls back to an earlier phase.
pub proof fn lemma_phases_in_order<I, E>(
    s: SessionView,
    replies: Seq<Reply<I, E>>,
    i: int,
    j: int,
)
    requires
        0 <= i <= j <= replies.len(),
    ensures
        rank(after(s, replies.take(i)).phase) <= rank(after(s, replies.take(j)).phase),
    decreases j - i,
{
    if i < j {
        lemma_phases_in_order(s, replies, i, j - 1);
        lemma_told_step_by_step(s, replies, j - 1);
        lemma_session_advances(after(s, replies.take(j - 1)), replies[j - 1]);
    }
}

/// Whatever the replies, a session is told at most once to start listening,
/// at most once to start the bootstrap, at most once to ask for connection
/// info, at most once to connect and at most once to send; and it reports
/// at most one failure.
pub proof fn lemma_each_call_once<I, E>(s: SessionView, replies: Seq<Reply<I, E>>, i: int, j: int)
    requires
        0 <= i < j < replies.len(),
    ensures
        ({
            let earlier = told(s, replies)[i];
            let later = told(s, replies)[j];
            &&& !(earlier is StartListening && later is StartListening)
            &&& !(earlier is StartBootstrap && later is StartBootstrap)
            &&& !(earlier is PrepareConnectionInfo && later is PrepareConnectionInfo)
            &&& !(earlier is Connect && later is Connect)
            &&& !(earlier is Send && later is Send)
            &&& !(earlier is Fail && later is Fail)
        }),
{
    lemma_told_step_by_step(s, replies, i);
    lemma_told_step_by_step(s, replies, j);
    lemma_phases_in_order(s, replies, i + 1, j);
    lemma_session_advances(after(s, replies.take(i)), replies[i]);
}

/// While events arrive that are no completion, a session that waits goes
/// on waiting: a listener after its bootstrap on whatever arrives, an
/// initiator that has asked for connection info on all but a completion.
pub proof fn lemma_waiting<I, E>(s: SessionView, events: Seq<Event<I, E>>)
    requires
        (s.role is Listener && s.phase is Bootstrapping) || (s.role is Initiator
            && s.phase is ConnectionInfoRequested && forall|i: int|
            0 <= i < events.len() ==> events[i] is Other),
    ensures
        told(s, arrivals(events)) == waits::<I, E>(events.len()),
        after(s, arrivals(events)) == s,
    decreases events.len(),
{
    if events.len() > 0 {
        let rest = events.drop_first();
        assert(arrivals(events).drop_first() =~= arrivals(rest));
        lemma_waiting(s, rest);
    }
}

/// The whole course of a listener whose bind succeeds: it is told to start
/// listening, to start the bootstrap as a node and without hints, and then
/// to wait, once for each event that arrives; when the event stream ends it
/// is told to stop, and is over.
pub proof fn lemma_listener_course<I, E>(
    local: Keypair,
    bound: Reply<I, E>,
    listening: Reply<I, E>,
    bootstrapped: Reply<I, E>,
    events: Seq<Event<I, E>>,
)
    requires
        error_of(bound) is None,
    ensures
        ({
            let replies = seq![bound, listening, bootstrapped] + arrivals(events) + seq![
                Reply::Event(None),
            ];
            &&& told(listener_of(local), replies) == seq![
                ActionView::StartListening,
                ActionView::StartBootstrap { hints: Seq::empty(), user: User::Node },
                ActionView::NextEvent,
            ] + waits::<I, E>(events.len()) + seq![ActionView::Stop]
            &&& after(listener_of(local), replies).phase is Closed
        }),
{
    let s = listener_of(local);
    let opening = seq![bound, listening, bootstrapped];
    let waiting = at(s, Phase::Bootstrapping);
    let ending = seq![Reply::<I, E>::Event(None)];
    lemma_three_steps(s, opening);
    lemma_waiting(waiting, events);
    lemma_told_in_parts(s, opening, arrivals(events));
    lemma_told_in_parts(s, opening + arrivals(events), ending);
    lemma_one_step(waiting, ending);
}

/// The whole course of an initiator for which every call succeeds: it is
/// told to start the bootstrap as a client and without hints, to ask for
/// connection info once, and to wait, once more for each event that arrives
/// before the completion; with the connection info `info` of the completion
/// it is told to connect to its remote peer, then to send its payload to
/// that peer, then to stop, and is over.
pub proof fn lemma_initiator_course<I, E>(
    remote_pk: PublicKey,
    local: Keypair,
    payload: Seq<u8>,
    bound: Reply<I, E>,
    bootstrapped: Reply<I, E>,
    asked: Reply<I, E>,
    events: Seq<Event<I, E>>,
    token: u32,
    info: I,
    connected: Reply<I, E>,
    sent: Reply<I, E>,
)
    requires
        error_of(bound) is None,
        error_of(connected) is None,
        error_of(sent) is None,
        forall|i: int| 0 <= i < events.len() ==> events[i] is Other,
    ensures
        ({
            let completion = Event::ConnectionInfoPrepared(
                ConnectionInfoResult { result_token: token, result: Ok(info) },
            );
            let replies = seq![bound, bootstrapped, asked] + arrivals(events) + seq![
                Reply::Event(Some(completion)),
                connected,
                sent,
            ];
            let remote = PeerIdentity::of(remote_pk);
            &&& told(initiator_of(remote_pk, local, payload), replies) == seq![
                ActionView::StartBootstrap { hints: Seq::empty(), user: User::Client },
                ActionView::PrepareConnectionInfo { token: CONNECTION_INFO_TOKEN },
                ActionView::NextEvent,
            ] + waits::<I, E>(events.len()) + seq![
                ActionView::Connect { peer: remote, info },
                ActionView::Send { peer: remote, payload, channel: CHANNEL },
                ActionView::Stop,
            ]
            &&& after(initiator_of(remote_pk, local, payload), replies).phase is Closed
        }),
{
    let s = initiator_of(remote_pk, local, payload);
    let opening = seq![bound, bootstrapped, asked];
    let waiting = at(s, Phase::ConnectionInfoRequested);
    let completion = Event::<I, E>::ConnectionInfoPrepared(
        ConnectionInfoResult { result_token: token, result: Ok(info) },
    );
    let ending = seq![Reply::Event(Some(completion)), connected, sent];
    lemma_three_steps(s, opening);
    lemma_waiting(waiting, events);
    lemma_told_in_parts(s, opening, arrivals(events));
    lemma_told_in_parts(s, opening + arrivals(events), ending);
    lemma_three_steps(waiting, ending);
}

/// A run of one step, written out.
proof fn lemma_one_step<I, E>(s: SessionView, replies: Seq<Reply<I, E>>)
    requires
        replies.len() == 1,
    ensures
        told(s, replies) == seq![transition(s, replies[0]).action],
        after(s, replies) == at(s, transition(s, replies[0]).phase),
{
    let first = transition(s, replies[0]);
    let none = replies.drop_first();
    assert(told(at(s, first.phase), none) =~= Seq::<ActionView<I, E>>::empty());
    assert(after(at(s, first.phase), none) == at(s, first.phase));
}

/// A run of three steps, written out.
proof fn lemma_three_steps<I, E>(s: SessionView, replies: Seq<Reply<I, E>>)
    requires
        replies.len() == 3,
    ensures
        ({
            let first = transition(s, replies[0]);
            let second = transition(at(s, first.phase), replies[1]);
            let third = transition(at(s, second.phase), replies[2]);
            &&& told(s, replies) == seq![first.action, second.action, third.action]
            &&& after(s, replies) == at(s, third.phase)
        }),
{
    let first = transition(s, replies[0]);
    let second = transition(at(s, first.phase), replies[1]);
    let head = seq![replies[0]];
    let tail = seq![replies[1]];
    let last = seq![replies[2]];
    assert(replies =~= head + tail + last);
    lemma_one_step(s, head);
    lemma_one_step(at(s, first.phase), tail);
    lemma_one_step(at(s, second.phase), last);
    lemma_told_in_parts(s, head, tail);
    lemma_told_in_parts(s, head + tail, last);
    assert(told(s, replies) =~= seq![
        first.action,
        second.action,
        transition(at(s, second.phase), replies[2]).action,
    ]);
}

} // verus!
