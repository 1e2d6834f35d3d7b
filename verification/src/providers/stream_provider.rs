use crate::config::StreamConfigWrapper;
use crate::constants::SdkAction;
use vstd::prelude::*;
use vstd::std_specs::cmp::PartialEqSpecImpl;

verus! {

/// The unit that goes onto a stream: what the message does, a free-form
/// word for the shape of its payload, and the payload.
#[derive(Debug)]
pub struct MessageWrapper<'a> {
    pub action: SdkAction,
    pub message_type: &'a str,
    pub content: &'a str,
}

/// A [`MessageWrapper`] with its strings as sequences of characters.
pub struct MessageView {
    pub action: Seq<char>,
    pub message_type: Seq<char>,
    pub content: Seq<char>,
}

impl<'a> View for MessageWrapper<'a> {
    type V = MessageView;

    open spec fn view(&self) -> MessageView {
        MessageView {
            action: self.action@,
            message_type: self.message_type@,
            content: self.content@,
        }
    }
}

impl<'a> Clone for MessageWrapper<'a> {
    fn clone(&self) -> (r: Self)
        ensures
            r == *self,
    {
        MessageWrapper {
            action: self.action.clone(),
            message_type: self.message_type,
            content: self.content,
        }
    }
}

impl<'a> PartialEq for MessageWrapper<'a> {
    fn eq(&self, other: &Self) -> (r: bool) {
        self.action == other.action && self.message_type.to_owned()
            == other.message_type.to_owned() && self.content.to_owned()
            == other.content.to_owned()
    }
}

impl<'a> PartialEqSpecImpl for MessageWrapper<'a> {
    open spec fn obeys_eq_spec() -> bool {
        true
    }

    open spec fn eq_spec(&self, other: &Self) -> bool {
        self@ == other@
    }
}

/// Whether a publisher holds a session with its stream.
#[derive(Clone, Copy, Debug, PartialEq, Eq, Structural)]
pub enum ConnectionState {
    /// No live session. Every publisher starts here.
    Disconnected,
    /// A session is established. Only here can a message be published.
    Connected,
}

/// What a caller can ask of a publisher.
#[derive(Clone, Copy, Debug, PartialEq, Eq, Structural)]
pub enum Request {
    Connect,
    Reconnect,
    Publish,
    Close,
}

/// What becomes of a request before the transport hears of it.
#[derive(Clone, Copy, Debug, PartialEq, Eq, Structural)]
pub enum Decision {
    /// The request is not valid in this state. It fails, and the transport is
    /// left alone.
    Refuse,
    /// There is nothing to do. The request succeeds, and the transport is
    /// left alone.
    Nothing,
    /// The request goes to the transport, whose answer decides.
    Forward,
}

/// What becomes of `request` in `state`. A message is forwarded only over an
/// established session; `connect` is for a publisher without a session, while
/// `reconnect` is forwarded in either state; closing twice does nothing.
pub open spec fn decision(state: ConnectionState, request: Request) -> Decision {
    match (state, request) {
        (ConnectionState::Disconnected, Request::Connect) => Decision::Forward,
        (ConnectionState::Connected, Request::Connect) => Decision::Refuse,
        (_, Request::Reconnect) => Decision::Forward,
        (ConnectionState::Disconnected, Request::Publish) => Decision::Refuse,
        (ConnectionState::Connected, Request::Publish) => Decision::Forward,
        (ConnectionState::Disconnected, Request::Close) => Decision::Nothing,
        (ConnectionState::Connected, Request::Close) => Decision::Forward,
    }
}

/// The state after `request` was made in `state`, where `succeeded` is the
/// transport's answer to a request that was forwarded to it. A request that
/// was not forwarded leaves the state as it was. Publishing never changes the
/// state: a session that has dropped is not re-established behind the
/// caller's back. Closing releases the session whatever the transport says.
pub open spec fn after(state: ConnectionState, request: Request, succeeded: bool)
    -> ConnectionState {
    if decision(state, request) is Forward {
        match request {
            Request::Connect | Request::Reconnect => if succeeded {
                ConnectionState::Connected
            } else {
                ConnectionState::Disconnected
            },
            Request::Publish => state,
            Request::Close => ConnectionState::Disconnected,
        }
    } else {
        state
    }
}

/// Decides what becomes of `request` in `state`.
pub fn decide(state: ConnectionState, request: Request) -> (r: Decision)
    ensures
        r == decision(state, request),
{
    match request {
        Request::Connect => match state {
            ConnectionState::Disconnected => Decision::Forward,
            ConnectionState::Connected => Decision::Refuse,
        },
        Request::Reconnect => Decision::Forward,
        Request::Publish => match state {
            ConnectionState::Disconnected => Decision::Refuse,
            ConnectionState::Connected => Decision::Forward,
        },
        Request::Close => match state {
            ConnectionState::Disconnected => Decision::Nothing,
            ConnectionState::Connected => Decision::Forward,
        },
    }
}

/// Gives the state after `request` was made in `state` and, where it was
/// forwarded, the transport answered with `succeeded`.
pub fn advance(state: ConnectionState, request: Request, succeeded: bool) -> (r: ConnectionState)
    ensures
        r == after(state, request, succeeded),
{
    match decide(state, request) {
        Decision::Forward => match request {
            Request::Connect | Request::Reconnect => if succeeded {
                ConnectionState::Connected
            } else {
                ConnectionState::Disconnected
            },
            Request::Publish => state,
            Request::Close => ConnectionState::Disconnected,
        },
        _ => state,
    }
}

/// The state of a new publisher after the requests of `trace`, each with the
/// transport's answer, were made in turn.
pub open spec fn run(trace: Seq<(Request, bool)>) -> ConnectionState
    decreases trace.len(),
{
    if trace.len() == 0 {
        ConnectionState::Disconnected
    } else {
        after(run(trace.drop_last()), trace.last().0, trace.last().1)
    }
}

/// Whether the event establishes a session: a `connect` or `reconnect` that
/// the transport answered with success.
pub open spec fn opens(event: (Request, bool)) -> bool {
    (event.0 is Connect || event.0 is Reconnect) && event.1
}

/// Whether the event ends a session: a `close`, or a `reconnect` that the
/// transport could not complete.
pub open spec fn shuts(event: (Request, bool)) -> bool {
    event.0 is Close || (event.0 is Reconnect && !event.1)
}

/// Whether some event of `trace` established a session and no later one
/// ended it.
pub open spec fn session_open(trace: Seq<(Request, bool)>) -> bool {
    exists|i: int|
        0 <= i < trace.len() && opens(#[trigger] trace[i]) && forall|j: int|
            i < j < trace.len() ==> !shuts(#[trigger] trace[j])
}

/// A publisher is connected exactly when some event of its past established a
/// session and none since has ended it.
pub proof fn connected_iff_session_open(trace: Seq<(Request, bool)>)
    ensures
        run(trace) is Connected <==> session_open(trace),
    decreases trace.len(),
{
    if trace.len() > 0 {
        let earlier = trace.drop_last();
        let last = trace.len() - 1;
        connected_iff_session_open(earlier);
        if run(trace) is Connected && !opens(trace[last]) {
            let i = choose|i: int|
                0 <= i < earlier.len() && opens(#[trigger] earlier[i]) && forall|j: int|
                    i < j < earlier.len() ==> !shuts(#[trigger] earlier[j]);
            assert(opens(trace[i]));
            assert forall|j: int| i < j < trace.len() implies !shuts(#[trigger] trace[j]) by {
                if j < last {
                    assert(earlier[j] == trace[j]);
                }
            }
        }
        if session_open(trace) {
            let i = choose|i: int|
                0 <= i < trace.len() && opens(#[trigger] trace[i]) && forall|j: int|
                    i < j < trace.len() ==> !shuts(#[trigger] trace[j]);
            if i < last {
                assert(!shuts(trace[last]));
                assert(opens(earlier[i]));
                assert forall|j: int| i < j < earlier.len() implies !shuts(
                    #[trigger] earlier[j],
                ) by {
                    assert(earlier[j] == trace[j]);
                }
            }
        }
    }
}

/// A message reaches the transport exactly when some event of the past
/// established a session and none since has ended it; otherwise it is
/// refused. So: before the first successful `connect` or `reconnect` a
/// `publish` fails; right after one it goes through to the transport; and
/// after a `close` it fails again until the next successful `connect` or
/// `reconnect`.
pub proof fn publish_forwarded_iff_session_open(trace: Seq<(Request, bool)>)
    ensures
        session_open(trace) ==> decision(run(trace), Request::Publish) is Forward,
        !session_open(trace) ==> decision(run(trace), Request::Publish) is Refuse,
{
    connected_iff_session_open(trace);
}

/// Owns a connection to a message stream and puts messages onto it, one at a
/// time. A publisher has one connection and serves one caller at a time.
pub trait Publisher: Send + Sized {
    type StreamConfig: StreamConfigWrapper;

    type Error;

    /// Whether a transport that stands at `before` may answer `request` with
    /// `outcome` and stand at `next` afterwards. A transport that says
    /// nothing of its answers leaves this as it is.
    open spec fn answers(
        before: Self,
        request: Request,
        next: Self,
        outcome: Result<(), Self::Error>,
    ) -> bool {
        true
    }

    /// Whether a transport that stands at `before` may answer the request to
    /// publish `msg` with `outcome` and stand at `next` afterwards.
    open spec fn carries(
        before: Self,
        msg: MessageView,
        next: Self,
        outcome: Result<(), Self::Error>,
    ) -> bool {
        true
    }

    /// Whether `outcome` is an answer that setting a publisher up for `cfg`
    /// may give.
    open spec fn sets_up(cfg: &Self::StreamConfig, outcome: Result<Self, Self::Error>) -> bool {
        true
    }

    /// Sets the publisher up for the stream that `cfg` names. No connection
    /// is attempted yet.
    fn new(cfg: &Self::StreamConfig) -> (outcome: Result<Self, Self::Error>)
        ensures
            Self::sets_up(cfg, outcome),
    ;

    /// Releases the session.
    fn close(&mut self) -> (outcome: Result<(), Self::Error>)
        ensures
            Self::answers(*old(self), Request::Close, *final(self), outcome),
    ;

    /// Establishes a session.
    fn connect(&mut self) -> (outcome: Result<(), Self::Error>)
        ensures
            Self::answers(*old(self), Request::Connect, *final(self), outcome),
    ;

    /// Tears down whatever session there is and establishes a new one.
    fn reconnect(&mut self) -> (outcome: Result<(), Self::Error>)
        ensures
            Self::answers(*old(self), Request::Reconnect, *final(self), outcome),
    ;

    /// Transmits one message.
    fn publish(&mut self, msg: MessageWrapper<'_>) -> (outcome: Result<(), Self::Error>)
        ensures
            Self::carries(*old(self), msg@, *final(self), outcome),
    ;
}

/// Why a request to a [`Session`] failed.
#[derive(Debug)]
pub enum SessionError<E> {
    /// The request is not valid in the session's state; the transport was
    /// not asked.
    Refused,
    /// The transport was asked and failed.
    Transport(E),
}

/// The transport's answer behind the outcome of a request that was forwarded.
pub open spec fn transport_answer<E>(outcome: Result<(), SessionError<E>>) -> Result<(), E> {
    match outcome {
        Ok(done) => Ok(done),
        Err(SessionError::Transport(cause)) => Err(cause),
        Err(SessionError::Refused) => arbitrary(),
    }
}

/// A publisher together with the state of its connection. It lets a request
/// through to the publisher only where the state allows it, and keeps the
/// state by the publisher's answers.
pub struct Session<P: Publisher> {
    publisher: P,
    state: ConnectionState,
}

impl<P: Publisher> Session<P> {
    /// The state of the connection.
    pub closed spec fn state(&self) -> ConnectionState {
        self.state
    }

    /// The publisher behind the session.
    pub closed spec fn publisher(&self) -> P {
        self.publisher
    }

    /// What a request to connect, reconnect or close returns and leaves
    /// behind. A request that the state does not allow fails and changes
    /// nothing; closing a session that is not connected succeeds and changes
    /// nothing. Every other request goes to the publisher, whose answer is
    /// passed on and moves the state.
    pub open spec fn settled(
        before: Self,
        request: Request,
        next: Self,
        outcome: Result<(), SessionError<P::Error>>,
    ) -> bool {
        match decision(before.state(), request) {
            Decision::Refuse => {
                &&& outcome == Err::<(), SessionError<P::Error>>(SessionError::Refused)
                &&& next == before
            },
            Decision::Nothing => {
                &&& outcome == Ok::<(), SessionError<P::Error>>(())
                &&& next == before
            },
            Decision::Forward => {
                &&& outcome != Err::<(), SessionError<P::Error>>(SessionError::Refused)
                &&& P::answers(
                    before.publisher(),
                    request,
                    next.publisher(),
                    transport_answer(outcome),
                )
                &&& next.state() == after(before.state(), request, outcome is Ok)
            },
        }
    }

    /// Wraps a new publisher for the stream that `cfg` names. The session
    /// starts disconnected; where the publisher cannot be set up, its error
    /// is passed on.
    pub fn new(cfg: &P::StreamConfig) -> (r: Result<Self, P::Error>)
        ensures
            (match r {
                Ok(session) => {
                    &&& session.state() is Disconnected
                    &&& P::sets_up(cfg, Ok(session.publisher()))
                },
                Err(cause) => P::sets_up(cfg, Err(cause)),
            }),
    {
        match P::new(cfg) {
            Ok(publisher) => Ok(Session { publisher, state: ConnectionState::Disconnected }),
            Err(cause) => Err(cause),
        }
    }

    /// The state of the connection.
    pub fn connection_state(&self) -> (r: ConnectionState)
        ensures
            r == self.state(),
    {
        self.state
    }

    /// Establishes a session. On a session that is already connected it is
    /// refused.
    pub fn connect(&mut self) -> (outcome: Result<(), SessionError<P::Error>>)
        ensures
            Self::settled(*old(self), Request::Connect, *final(self), outcome),
    {
        match decide(self.state, Request::Connect) {
            Decision::Refuse => Err(SessionError::Refused),
            Decision::Nothing => Ok(()),
            Decision::Forward => {
                let answer = self.publisher.connect();
                self.state = advance(self.state, Request::Connect, answer.is_ok());
                let ghost told = answer;
                let outcome = match answer {
                    Ok(done) => Ok(done),
                    Err(cause) => Err(SessionError::Transport(cause)),
                };
                assert(transport_answer(outcome) == told);
                outcome
            },
        }
    }

    /// Tears down whatever session there is and establishes a new one. It is
    /// forwarded in either state.
    pub fn reconnect(&mut self) -> (outcome: Result<(), SessionError<P::Error>>)
        ensures
            Self::settled(*old(self), Request::Reconnect, *final(self), outcome),
    {
        match decide(self.state, Request::Reconnect) {
            Decision::Refuse => Err(SessionError::Refused),
            Decision::Nothing => Ok(()),
            Decision::Forward => {
                let answer = self.publisher.reconnect();
                self.state = advance(self.state, Request::Reconnect, answer.is_ok());
                let ghost told = answer;
                let outcome = match answer {
                    Ok(done) => Ok(done),
                    Err(cause) => Err(SessionError::Transport(cause)),
                };
                assert(transport_answer(outcome) == told);
                outcome
            },
        }
    }

    /// Releases the session. Afterwards the session is disconnected whatever
    /// the publisher answered; closing a session that is not connected does
    /// nothing and succeeds.
    pub fn close(&mut self) -> (outcome: Result<(), SessionError<P::Error>>)
        ensures
            Self::settled(*old(self), Request::Close, *final(self), outcome),
    {
        match decide(self.state, Request::Close) {
            Decision::Refuse => Err(SessionError::Refused),
            Decision::Nothing => Ok(()),
            Decision::Forward => {
                let answer = self.publisher.close();
                self.state = advance(self.state, Request::Close, answer.is_ok());
                let ghost told = answer;
                let outcome = match answer {
                    Ok(done) => Ok(done),
                    Err(cause) => Err(SessionError::Transport(cause)),
                };
                assert(transport_answer(outcome) == told);
                outcome
            },
        }
    }

    /// Transmits one message. Without a connection it is refused and the
    /// publisher is not asked; with one, the publisher is handed `msg` and
    /// its answer is passed on. The state stays as it was either way.
    pub fn publish(&mut self, msg: MessageWrapper<'_>) -> (outcome: Result<
        (),
        SessionError<P::Error>,
    >)
        ensures
            final(self).state() == old(self).state(),
            old(self).state() is Disconnected ==> ({
                &&& outcome == Err::<(), SessionError<P::Error>>(SessionError::Refused)
                &&& *final(self) == *old(self)
            }),
            old(self).state() is Connected ==> ({
                &&& outcome != Err::<(), SessionError<P::Error>>(SessionError::Refused)
                &&& P::carries(
                    old(self).publisher(),
                    msg@,
                    final(self).publisher(),
                    transport_answer(outcome),
                )
            }),
    {
        match decide(self.state, Request::Publish) {
            Decision::Forward => {
                let answer = self.publisher.publish(msg);
                let ghost told = answer;
                let outcome = match answer {
                    Ok(done) => Ok(done),
                    Err(cause) => Err(SessionError::Transport(cause)),
                };
                assert(transport_answer(outcome) == told);
                outcome
            },
            _ => Err(SessionError::Refused),
        }
    }
}

} // verus!
