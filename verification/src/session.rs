//! A session: one endpoint's part in one connection, as a state machine.
//!
//! A session makes no transport call itself. It names the next call as an
//! [`Action`], the caller performs it and hands the outcome back as a
//! [`Reply`], and [`Session::step`] decides what follows:
//!
//! * a listener binds a transport service to its identity, starts listening,
//!   starts the bootstrap as a node and then waits on the event stream until
//!   it ends;
//! * an initiator binds, starts the bootstrap as a client, asks for
//!   connection info and waits for it, connects to the remote peer with it
//!   and sends its payload.
//!
//! A failed bind, connect or send ends the session, and so does a wait for
//! connection info that fails. Nothing is retried.
//!
//! [`transition`] is the whole of the machine. What holds of runs of many
//! steps is stated in [`crate::course`].

use crate::identity::{Keypair, PeerIdentity, PublicKey, SecretKey};
use crate::negotiation::{on_event, wait_step, Event, NegotiationError, Wait};
use crate::run::make_service;
use vstd::prelude::*;

verus! {

/// The correlation token of the one request for connection info that a
/// session makes.
pub const CONNECTION_INFO_TOKEN: u32 = 1;

/// The channel number that a payload is sent under.
pub const CHANNEL: u8 = 0;

/// Which side of a connection a session is.
#[derive(Clone, Copy, Debug, PartialEq, Eq)]
pub enum Role {
    /// Waits to be connected to.
    Listener,
    /// Connects to `remote` and sends to it.
    Initiator { remote: PeerIdentity },
}

/// How an endpoint takes part in the bootstrap.
#[derive(Clone, Copy, Debug, PartialEq, Eq)]
pub enum User {
    /// It can be reached, and says so.
    Node,
    /// It only reaches out.
    Client,
}

/// An address handed to the bootstrap: sixteen address bytes and a port.
#[derive(Clone, Copy, Debug, PartialEq, Eq)]
pub struct Hint {
    pub ip: [u8; 16],
    pub port: u16,
}

/// How far a session has come. A phase names what has been achieved; the
/// call that leads on from it is outstanding.
#[derive(Clone, Copy, Debug, PartialEq, Eq)]
pub enum Phase {
    /// Nothing has happened yet; the bind is outstanding.
    Created,
    /// The transport service is bound to the local identity.
    ServiceBound,
    /// The listener accepts connections.
    Listening,
    /// The bootstrap has been started.
    Bootstrapping,
    /// Connection info has been asked for and is awaited.
    ConnectionInfoRequested,
    /// Connection info has arrived.
    ConnectionInfoReady,
    /// The connection to the remote peer stands.
    Connected,
    /// The payload is on its way. A session holds one payload, so that its
    /// input is exhausted as soon as that is sent: it passes through this
    /// phase to `Closed` within one step.
    Streaming,
    /// The session is over.
    Closed,
}

/// Why a session ended early. `E` is the transport layer's error.
#[derive(Debug, PartialEq, Eq)]
pub enum SessionError<E> {
    /// No transport service could be bound to the local identity.
    Bind(E),
    /// The wait for connection info failed.
    Negotiation(NegotiationError<E>),
    /// The connection could not be made.
    Connect(E),
    /// The payload could not be sent.
    Send(E),
}

/// A failure and the session that it ended: its role, and with the role of
/// an initiator the remote peer.
#[derive(Debug, PartialEq, Eq)]
pub struct Failure<E> {
    pub role: Role,
    pub error: SessionError<E>,
}

/// What the caller is to do next. `I` is the transport layer's connection
/// info and `E` its error.
#[derive(Debug, PartialEq, Eq)]
pub enum Action<I, E> {
    /// Bind a transport service to `our_id`, authenticated by `secret`.
    Bind { our_id: PeerIdentity, secret: SecretKey },
    /// Start listening on the transport's standard port.
    StartListening,
    /// Start the bootstrap with `hints`, as `user`.
    StartBootstrap { hints: Vec<Hint>, user: User },
    /// Ask for connection info under `token`, without waiting for it.
    PrepareConnectionInfo { token: u32 },
    /// Wait for the next event.
    NextEvent,
    /// Connect to `peer` with the connection info `info`.
    Connect { peer: PeerIdentity, info: I },
    /// Send `payload` to `peer` under `channel`.
    Send { peer: PeerIdentity, payload: Vec<u8>, channel: u8 },
    /// The session is over; there is nothing left to do.
    Stop,
    /// The session is over; report the failure.
    Fail(Failure<E>),
}

/// An [`Action`] as contracts see it.
pub ghost enum ActionView<I, E> {
    Bind { our_id: PeerIdentity, secret: SecretKey },
    StartListening,
    StartBootstrap { hints: Seq<Hint>, user: User },
    PrepareConnectionInfo { token: u32 },
    NextEvent,
    Connect { peer: PeerIdentity, info: I },
    Send { peer: PeerIdentity, payload: Seq<u8>, channel: u8 },
    Stop,
    Fail(Failure<E>),
}

impl<I, E> View for Action<I, E> {
    type V = ActionView<I, E>;

    open spec fn view(&self) -> ActionView<I, E> {
        match *self {
            Action::Bind { our_id, secret } => ActionView::Bind { our_id, secret },
            Action::StartListening => ActionView::StartListening,
            Action::StartBootstrap { hints, user } => ActionView::StartBootstrap {
                hints: hints@,
                user,
            },
            Action::PrepareConnectionInfo { token } => ActionView::PrepareConnectionInfo { token },
            Action::NextEvent => ActionView::NextEvent,
            Action::Connect { peer, info } => ActionView::Connect { peer, info },
            Action::Send { peer, payload, channel } => ActionView::Send {
                peer,
                payload: payload@,
                channel,
            },
            Action::Stop => ActionView::Stop,
            Action::Fail(failure) => ActionView::Fail(failure),
        }
    }
}

/// What came of the last [`Action`].
#[derive(Debug, PartialEq, Eq)]
pub enum Reply<I, E> {
    /// The call returned, with success or with the transport layer's error.
    Returned(Result<(), E>),
    /// An event arrived, or, with `None`, the event stream ended.
    Event(Option<Event<I, E>>),
}

/// One endpoint's part in one connection.
#[derive(Debug, PartialEq, Eq)]
pub struct Session {
    role: Role,
    local: Keypair,
    payload: Vec<u8>,
    phase: Phase,
}

/// A [`Session`] as contracts see it.
pub ghost struct SessionView {
    pub role: Role,
    pub local: Keypair,
    pub payload: Seq<u8>,
    pub phase: Phase,
}

impl View for Session {
    type V = SessionView;

    closed spec fn view(&self) -> SessionView {
        SessionView {
            role: self.role,
            local: self.local,
            payload: self.payload@,
            phase: self.phase,
        }
    }
}

/// The state of a listener under the key pair `local` with nothing done
/// yet.
pub open spec fn listener_of(local: Keypair) -> SessionView {
    SessionView { role: Role::Listener, local, payload: Seq::empty(), phase: Phase::Created }
}

/// The state of an initiator under the key pair `local`, which is to send
/// `payload` to the peer whose public key is `remote_pk`, with nothing done
/// yet.
pub open spec fn initiator_of(remote_pk: PublicKey, local: Keypair, payload: Seq<u8>) -> SessionView {
    SessionView {
        role: Role::Initiator { remote: PeerIdentity::of(remote_pk) },
        local,
        payload,
        phase: Phase::Created,
    }
}

/// The phases that a session of `role` passes through.
pub open spec fn fits(role: Role, phase: Phase) -> bool {
    match role {
        Role::Listener => phase is Created || phase is ServiceBound || phase is Listening
            || phase is Bootstrapping || phase is Closed,
        Role::Initiator { .. } => phase is Created || phase is ServiceBound
            || phase is Bootstrapping || phase is ConnectionInfoRequested
            || phase is ConnectionInfoReady || phase is Connected || phase is Closed,
    }
}

/// The place of a phase in the order in which sessions pass through them.
pub open spec fn rank(phase: Phase) -> nat {
    match phase {
        Phase::Created => 0,
        Phase::ServiceBound => 1,
        Phase::Listening => 2,
        Phase::Bootstrapping => 3,
        Phase::ConnectionInfoRequested => 4,
        Phase::ConnectionInfoReady => 5,
        Phase::Connected => 6,
        Phase::Streaming => 7,
        Phase::Closed => 8,
    }
}

/// The state `s` moved to `phase`.
pub open spec fn at(s: SessionView, phase: Phase) -> SessionView {
    SessionView { phase, ..s }
}

/// A step: the phase that the session is in after it, and what its caller
/// is to do next.
pub ghost struct Transition<I, E> {
    pub phase: Phase,
    pub action: ActionView<I, E>,
}

/// The bind that every session begins with: to the identity that the local
/// public key names, authenticated by the local secret key.
pub open spec fn bind_of<I, E>(local: Keypair) -> ActionView<I, E> {
    ActionView::Bind { our_id: PeerIdentity::of(local.public), secret: local.secret }
}

/// The end of a session by `error`.
pub open spec fn failure<I, E>(s: SessionView, error: SessionError<E>) -> Transition<I, E> {
    Transition { phase: Phase::Closed, action: ActionView::Fail(Failure { role: s.role, error }) }
}

/// The end of a session with nothing left to do.
pub open spec fn stop<I, E>() -> Transition<I, E> {
    Transition { phase: Phase::Closed, action: ActionView::Stop }
}

/// The error that a call returned with, if it did.
pub open spec fn error_of<I, E>(reply: Reply<I, E>) -> Option<E> {
    match reply {
        Reply::Returned(Err(e)) => Some(e),
        _ => None,
    }
}

/// What a reply means to a wait for connection info. A reply that is no
/// look at the event stream leaves the wait where it is.
pub open spec fn wait_of<I, E>(reply: Reply<I, E>) -> Wait<I, E> {
    match reply {
        Reply::Event(received) => wait_step(received),
        Reply::Returned(_) => Wait::Pending,
    }
}

/// The step that a session in state `s` takes on `reply`.
///
/// Only what a phase waits for decides: the error of a call whose failure is
/// fatal (bind, connect, send), or the event of a wait. To start listening,
/// to start the bootstrap and to ask for connection info are calls whose
/// outcome shows in later events, so that the session goes on whatever they
/// returned. A session of one role in a phase that only the other passes
/// through stops.
pub open spec fn transition<I, E>(s: SessionView, reply: Reply<I, E>) -> Transition<I, E> {
    match s.phase {
        Phase::Created => match error_of(reply) {
            Some(e) => failure(s, SessionError::Bind(e)),
            None => match s.role {
                Role::Listener => Transition {
                    phase: Phase::ServiceBound,
                    action: ActionView::StartListening,
                },
                Role::Initiator { .. } => Transition {
                    phase: Phase::ServiceBound,
                    action: ActionView::StartBootstrap { hints: Seq::empty(), user: User::Client },
                },
            },
        },
        Phase::ServiceBound => match s.role {
            Role::Listener => Transition {
                phase: Phase::Listening,
                action: ActionView::StartBootstrap { hints: Seq::empty(), user: User::Node },
            },
            Role::Initiator { .. } => Transition {
                phase: Phase::Bootstrapping,
                action: ActionView::PrepareConnectionInfo { token: CONNECTION_INFO_TOKEN },
            },
        },
        Phase::Listening => match s.role {
            Role::Listener => Transition {
                phase: Phase::Bootstrapping,
                action: ActionView::NextEvent,
            },
            Role::Initiator { .. } => stop(),
        },
        Phase::Bootstrapping => match s.role {
            Role::Listener => match reply {
                Reply::Event(None) => stop(),
                _ => Transition { phase: Phase::Bootstrapping, action: ActionView::NextEvent },
            },
            Role::Initiator { .. } => Transition {
                phase: Phase::ConnectionInfoRequested,
                action: ActionView::NextEvent,
            },
        },
        Phase::ConnectionInfoRequested => match s.role {
            Role::Listener => stop(),
            Role::Initiator { remote } => match wait_of(reply) {
                Wait::Pending => Transition {
                    phase: Phase::ConnectionInfoRequested,
                    action: ActionView::NextEvent,
                },
                Wait::Done(Ok(info)) => Transition {
                    phase: Phase::ConnectionInfoReady,
                    action: ActionView::Connect { peer: remote, info },
                },
                Wait::Done(Err(e)) => failure(s, SessionError::Negotiation(e)),
            },
        },
        Phase::ConnectionInfoReady => match s.role {
            Role::Listener => stop(),
            Role::Initiator { remote } => match error_of(reply) {
                Some(e) => failure(s, SessionError::Connect(e)),
                None => Transition {
                    phase: Phase::Connected,
                    action: ActionView::Send { peer: remote, payload: s.payload, channel: CHANNEL },
                },
            },
        },
        Phase::Connected => match s.role {
            Role::Listener => stop(),
            Role::Initiator { .. } => match error_of(reply) {
                Some(e) => failure(s, SessionError::Send(e)),
                None => stop(),
            },
        },
        Phase::Streaming => stop(),
        Phase::Closed => stop(),
    }
}

impl Session {
    /// A session is only ever in a phase of its role.
    #[verifier::type_invariant]
    spec fn in_a_phase_of_its_role(self) -> bool {
        fits(self.role, self.phase)
    }

    /// A listener under the key pair `local`, with nothing done yet.
    pub fn listener(local: Keypair) -> (session: Session)
        ensures
            session@ == listener_of(local),
    {
        Session { role: Role::Listener, local, payload: Vec::new(), phase: Phase::Created }
    }

    /// An initiator under the key pair `local` that is to send `payload` to
    /// the peer whose public key is `remote_pk`, with nothing done yet.
    pub fn initiator(remote_pk: PublicKey, local: Keypair, payload: Vec<u8>) -> (session: Session)
        ensures
            session@ == initiator_of(remote_pk, local, payload@),
    {
        Session {
            role: Role::Initiator { remote: PeerIdentity::new(remote_pk) },
            local,
            payload,
            phase: Phase::Created,
        }
    }

    /// The role of the session.
    pub fn role(&self) -> (role: Role)
        ensures
            role == self@.role,
    {
        self.role
    }

    /// The phase that the session is in: one of those that its role passes
    /// through.
    pub fn phase(&self) -> (phase: Phase)
        ensures
            phase == self@.phase,
            fits(self@.role, phase),
    {
        proof {
            use_type_invariant(self);
        }
        self.phase
    }

    /// The key pair that the session runs under.
    pub fn local(&self) -> (local: Keypair)
        ensures
            local == self@.local,
    {
        self.local
    }

    /// The first action of the session: the bind to its local identity.
    pub fn start<I, E>(&self) -> (action: Action<I, E>)
        ensures
            action@ == bind_of::<I, E>(self@.local),
    {
        make_service(self.local)
    }

    /// Ends the session by `error`.
    fn fail<I, E>(&mut self, error: SessionError<E>) -> (action: Action<I, E>)
        ensures
            final(self)@ == (SessionView { phase: Phase::Closed, ..old(self)@ }),
            action@ == failure::<I, E>(old(self)@, error).action,
    {
        self.phase = Phase::Closed;
        Action::Fail(Failure { role: self.role, error })
    }

    /// Ends the session with nothing left to do.
    fn stop<I, E>(&mut self) -> (action: Action<I, E>)
        ensures
            final(self)@ == (SessionView { phase: Phase::Closed, ..old(self)@ }),
            action@ == ActionView::<I, E>::Stop,
    {
        self.phase = Phase::Closed;
        Action::Stop
    }

    /// Takes the outcome of the last action and names the next one.
    ///
    /// The session moves to the phase that [`transition`] gives and is
    /// otherwise unchanged; the action is the one that [`transition`] gives.
    pub fn step<I, E>(&mut self, reply: Reply<I, E>) -> (action: Action<I, E>)
        ensures
            final(self)@ == (SessionView {
                phase: transition(old(self)@, reply).phase,
                ..old(self)@
            }),
            action@ == transition(old(self)@, reply).action,
    {
        proof {
            use_type_invariant(&*self);
        }
        match self.phase {
            Phase::Created => match reply {
                Reply::Returned(Err(e)) => self.fail(SessionError::Bind(e)),
                _ => {
                    self.phase = Phase::ServiceBound;
                    match self.role {
                        Role::Listener => Action::StartListening,
                        Role::Initiator { .. } => Action::StartBootstrap {
                            hints: Vec::new(),
                            user: User::Client,
                        },
                    }
                },
            },
            Phase::ServiceBound => match self.role {
                Role::Listener => {
                    self.phase = Phase::Listening;
                    Action::StartBootstrap { hints: Vec::new(), user: User::Node }
                },
                Role::Initiator { .. } => {
                    self.phase = Phase::Bootstrapping;
                    Action::PrepareConnectionInfo { token: CONNECTION_INFO_TOKEN }
                },
            },
            Phase::Listening => match self.role {
                Role::Listener => {
                    self.phase = Phase::Bootstrapping;
                    Action::NextEvent
                },
                Role::Initiator { .. } => self.stop(),
            },
            Phase::Bootstrapping => match self.role {
                Role::Listener => match reply {
                    Reply::Event(None) => self.stop(),
                    _ => Action::NextEvent,
                },
                Role::Initiator { .. } => {
                    self.phase = Phase::ConnectionInfoRequested;
                    Action::NextEvent
                },
            },
            Phase::ConnectionInfoRequested => match self.role {
                Role::Listener => self.stop(),
                Role::Initiator { remote } => match reply {
                    Reply::Event(received) => match on_event(received) {
                        Wait::Pending => Action::NextEvent,
                        Wait::Done(Ok(info)) => {
                            self.phase = Phase::ConnectionInfoReady;
                            Action::Connect { peer: remote, info }
                        },
                        Wait::Done(Err(e)) => self.fail(SessionError::Negotiation(e)),
                    },
                    Reply::Returned(_) => Action::NextEvent,
                },
            },
            Phase::ConnectionInfoReady => match self.role {
                Role::Listener => self.stop(),
                Role::Initiator { remote } => match reply {
                    Reply::Returned(Err(e)) => self.fail(SessionError::Connect(e)),
                    _ => {
                        self.phase = Phase::Connected;
                        Action::Send { peer: remote, payload: self.payload.clone(), channel: CHANNEL }
                    },
                },
            },
            Phase::Connected => match self.role {
                Role::Listener => self.stop(),
                Role::Initiator { .. } => match reply {
                    Reply::Returned(Err(e)) => self.fail(SessionError::Send(e)),
                    _ => self.stop(),
                },
            },
            Phase::Streaming => self.stop(),
            Phase::Closed => self.stop(),
        }
    }
}

/// A session stays within the phases of its role, and is told only what
/// its role does: a listener never to ask for connection info, to connect or
/// to send, an initiator never to listen. Every bootstrap is started without
/// hints, by a listener as a node and by an initiator as a client. What an
/// initiator connects and sends to is its remote peer, and what it sends is
/// its payload.
pub proof fn lemma_session_keeps_to_its_role<I, E>(s: SessionView, reply: Reply<I, E>)
    requires
        fits(s.role, s.phase),
    ensures
        fits(s.role, transition(s, reply).phase),
        s.role is Listener ==> match transition(s, reply).action {
            ActionView::StartListening => true,
            ActionView::StartBootstrap { hints, user } => hints.len() == 0 && user is Node,
            ActionView::NextEvent => true,
            ActionView::Stop => true,
            ActionView::Fail(failure) => failure.role == s.role,
            _ => false,
        },
        s.role is Initiator ==> match transition(s, reply).action {
            ActionView::StartBootstrap { hints, user } => hints.len() == 0 && user is Client,
            ActionView::PrepareConnectionInfo { token } => token == CONNECTION_INFO_TOKEN,
            ActionView::NextEvent => true,
            ActionView::Connect { peer, .. } => peer == s.role->remote,
            ActionView::Send { peer, payload, channel } => peer == s.role->remote && payload
                == s.payload && channel == CHANNEL,
            ActionView::Stop => true,
            ActionView::Fail(failure) => failure.role == s.role,
            _ => false,
        },
{
}

/// A session only moves forward, and each step but a wait for an event
/// moves it on: so it is told each transport call at most once, whatever
/// the replies. It is over exactly when it is told to stop or to report a
/// failure, and it stays over.
pub proof fn lemma_session_advances<I, E>(s: SessionView, reply: Reply<I, E>)
    ensures
        rank(transition(s, reply).phase) >= rank(s.phase),
        !(transition(s, reply).action is NextEvent) && !(s.phase is Closed) ==> rank(
            transition(s, reply).phase,
        ) > rank(s.phase),
        transition(s, reply).phase is Closed <==> transition(s, reply).action is Stop
            || transition(s, reply).action is Fail,
        s.phase is Closed ==> transition(s, reply) == stop::<I, E>(),
{
}

/// The reply ends a wait for connection info with a failure.
pub open spec fn wait_failed<I, E>(reply: Reply<I, E>) -> bool {
    wait_of(reply) is Done && wait_of(reply)->Done_0 is Err
}

/// A failed bind, connect or send ends the session and is reported with
/// its error; so is a wait for connection info that fails. No other reply
/// makes a session of either role fail.
pub proof fn lemma_session_failures<I, E>(s: SessionView, reply: Reply<I, E>)
    requires
        fits(s.role, s.phase),
    ensures
        transition(s, reply).action is Fail <==> {
            ||| (s.phase is Created && error_of(reply) is Some)
            ||| (s.phase is ConnectionInfoRequested && wait_failed(reply))
            ||| (s.phase is ConnectionInfoReady && error_of(reply) is Some)
            ||| (s.phase is Connected && error_of(reply) is Some)
        },
        s.phase is Created && error_of(reply) is Some ==> transition(s, reply) == failure::<I, E>(
            s,
            SessionError::Bind(error_of(reply)->Some_0),
        ),
        s.phase is ConnectionInfoRequested && wait_failed(reply) ==> transition(s, reply)
            == failure::<I, E>(s, SessionError::Negotiation(wait_of(reply)->Done_0->Err_0)),
        s.phase is ConnectionInfoReady && error_of(reply) is Some ==> transition(s, reply)
            == failure::<I, E>(s, SessionError::Connect(error_of(reply)->Some_0)),
        s.phase is Connected && error_of(reply) is Some ==> transition(s, reply) == failure::<I, E>(
            s,
            SessionError::Send(error_of(reply)->Some_0),
        ),
{
}

} // verus!
