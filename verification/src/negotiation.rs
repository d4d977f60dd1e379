//! Waiting for the transport layer's connection info.
//!
//! Connection info is asked for without blocking and arrives later, as one
//! event among others. The wait takes the events in the order of their
//! arrival, passes over all that are not the completion, and ends with the
//! first completion or with the end of the stream.
//!
//! Only one request is outstanding in a session, so a completion is
//! recognised by its kind alone: its correlation token is carried but not
//! compared.
//!
//! `I` is the transport layer's connection info and `E` its error. Both are
//! carried through untouched.

use vstd::prelude::*;

verus! {

/// The completion of a request for connection info.
#[derive(Debug, PartialEq, Eq)]
pub struct ConnectionInfoResult<I, E> {
    /// The correlation token that the request was made with.
    pub result_token: u32,
    /// The connection info, or why the transport layer could not prepare it.
    pub result: Result<I, E>,
}

/// What the transport layer reports.
#[derive(Debug, PartialEq, Eq)]
pub enum Event<I, E> {
    /// Connection info was prepared, or could not be.
    ConnectionInfoPrepared(ConnectionInfoResult<I, E>),
    /// Any other event. None of them ends a wait.
    Other,
}

/// Why a wait for connection info failed.
#[derive(Debug, PartialEq, Eq)]
pub enum NegotiationError<E> {
    /// The event stream ended before the completion arrived: the transport
    /// layer is gone. Nothing can be retried in this session.
    ChannelClosed,
    /// The completion arrived, and it holds the transport layer's error.
    Transport(E),
}

/// Where a wait stands after one more look at the event stream.
#[derive(Debug, PartialEq, Eq)]
pub enum Wait<I, E> {
    /// The completion has not arrived yet.
    Pending,
    /// The wait is over, with this result.
    Done(Result<I, NegotiationError<E>>),
}

/// What a completion means for the wait: its connection info, or its error.
pub open spec fn outcome<I, E>(completion: ConnectionInfoResult<I, E>) -> Result<
    I,
    NegotiationError<E>,
> {
    match completion.result {
        Ok(info) => Ok(info),
        Err(e) => Err(NegotiationError::Transport(e)),
    }
}

/// The decision on one look at the event stream: `None` is its end.
pub open spec fn wait_step<I, E>(received: Option<Event<I, E>>) -> Wait<I, E> {
    match received {
        None => Wait::Done(Err(NegotiationError::ChannelClosed)),
        Some(Event::ConnectionInfoPrepared(completion)) => Wait::Done(outcome(completion)),
        Some(Event::Other) => Wait::Pending,
    }
}

/// The result of a wait on a stream that delivers `events` and then ends.
pub open spec fn awaited<I, E>(events: Seq<Event<I, E>>) -> Result<I, NegotiationError<E>>
    decreases events.len(),
{
    if events.len() == 0 {
        Err(NegotiationError::ChannelClosed)
    } else {
        match events[0] {
            Event::ConnectionInfoPrepared(completion) => outcome(completion),
            Event::Other => awaited(events.drop_first()),
        }
    }
}

/// Decides on one look at the event stream, where `None` is its end: the
/// wait goes on after any event but a completion, ends with the result of a
/// completion, and fails with `ChannelClosed` at the end of the stream.
pub fn on_event<I, E>(received: Option<Event<I, E>>) -> (step: Wait<I, E>)
    ensures
        step == wait_step(received),
{
    match received {
        None => Wait::Done(Err(NegotiationError::ChannelClosed)),
        Some(Event::ConnectionInfoPrepared(completion)) => match completion.result {
            Ok(info) => Wait::Done(Ok(info)),
            Err(e) => Wait::Done(Err(NegotiationError::Transport(e))),
        },
        Some(Event::Other) => Wait::Pending,
    }
}

/// Waits for connection info on a stream that delivers `events` and then
/// ends: the result of the first completion among them, or `ChannelClosed`
/// where there is none.
pub fn get_connection_info<I, E>(events: Vec<Event<I, E>>) -> (r: Result<I, NegotiationError<E>>)
    ensures
        r == awaited(events@),
{
    let ghost all = events@;
    assert(all.skip(0) =~= all);
    for event in it: events
        invariant
            it.seq() == all,
            awaited(all) == awaited(all.skip(it.index() as int)),
    {
        proof {
            assert(all.skip(it.index() as int).drop_first() =~= all.skip(it.index() + 1));
        }
        match on_event(Some(event)) {
            Wait::Done(r) => {
                return r;
            },
            Wait::Pending => {},
        }
    }
    Err(NegotiationError::ChannelClosed)
}

/// A wait is decided one look at a time: at the end of the stream it fails
/// as a look at the end does, and before that it ends with what the look at
/// the first event decides, or goes on with the events after it.
pub proof fn lemma_awaited_by_steps<I, E>(events: Seq<Event<I, E>>)
    ensures
        events.len() == 0 ==> wait_step::<I, E>(None) == Wait::Done(awaited(events)),
        events.len() > 0 ==> awaited(events) == match wait_step(Some(events[0])) {
            Wait::Done(r) => r,
            Wait::Pending => awaited(events.drop_first()),
        },
{
}

/// Events that are no completion do not end the wait and do not change its
/// result: the wait returns what the first completion holds, whatever
/// arrived before it and whatever arrives after it.
pub proof fn lemma_first_completion_decides<I, E>(events: Seq<Event<I, E>>, at: int)
    requires
        0 <= at < events.len(),
        events[at] is ConnectionInfoPrepared,
        forall|j: int| 0 <= j < at ==> events[j] is Other,
    ensures
        awaited(events) == outcome(events[at]->ConnectionInfoPrepared_0),
    decreases at,
{
    if at > 0 {
        lemma_first_completion_decides(events.drop_first(), at - 1);
    }
}

/// A stream that ends without a completion fails the wait with
/// `ChannelClosed`; and only such a stream does.
pub proof fn lemma_closed_without_completion<I, E>(events: Seq<Event<I, E>>)
    ensures
        (forall|j: int| 0 <= j < events.len() ==> events[j] is Other) <==> awaited(events)
            == Err::<I, NegotiationError<E>>(NegotiationError::ChannelClosed),
    decreases events.len(),
{
    if events.len() > 0 {
        let rest = events.drop_first();
        lemma_closed_without_completion(rest);
        if events[0] is Other && forall|j: int| 0 <= j < rest.len() ==> rest[j] is Other {
            assert forall|j: int| 0 <= j < events.len() implies events[j] is Other by {
                if j > 0 {
                    assert(events[j] == rest[j - 1]);
                }
            }
        }
    }
}

} // verus!
