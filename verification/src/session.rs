//! The session: one state machine from waiting for a port to giving it up.
//!
//! The session decides and the caller acts. The caller performs the action
//! that the session asks for (open a port, read, write, log, drop the port),
//! tells the session how it went, and gets the next action. Nothing here
//! touches a port.
//!
//! A session waits for a port; once it has one it pushes the configuration
//! without being asked, because the display sends no greeting; then it serves
//! requests until the transport fails; then it gives the port up and waits
//! for the next.

use crate::codec::{decode, decoded};
use crate::dispatch::{answers, handle_message};
use crate::dto::{InMessage, OutMessage};
use crate::error::{SessionError, SessionErrorView};
use crate::framing::{next_frame, resync, Framer};
use vstd::prelude::*;

verus! {

/// The speed of the serial link, in baud.
pub const BAUD_RATE: u32 = 115_200;

/// How long one read waits for bytes before it returns none, in
/// milliseconds.
pub const READ_TIMEOUT_MILLIS: u64 = 1000;

/// How long the caller waits before it looks for a port again, unless the
/// session was made with another interval, in milliseconds.
pub const RETRY_INTERVAL_MILLIS: u64 = 1000;

/// Where a session stands.
#[derive(Clone, Copy, Debug, PartialEq, Eq, Structural)]
pub enum State {
    /// No port is open.
    AwaitingPort,
    /// A port is open and the configuration is on its way out.
    Handshaking,
    /// Requests are read and answered.
    Serving,
    /// The transport has failed and the port is being given up.
    Faulted,
}

/// What the caller tells the session.
#[derive(Clone, Debug, PartialEq)]
pub enum Event {
    /// A port was found and opened.
    Opened,
    /// No port was found, or none could be opened.
    Unavailable,
    /// A read returned these bytes. A read that timed out returned none, which
    /// is no end of the stream.
    Received(Vec<u8>),
    /// The write, the report or the giving up that was asked for is done.
    Completed,
    /// The transport failed while the action was performed.
    Failed,
}

/// The value of an `Event`.
pub enum EventView {
    Opened,
    Unavailable,
    Received(Seq<u8>),
    Completed,
    Failed,
}

impl View for Event {
    type V = EventView;

    open spec fn view(&self) -> EventView {
        match self {
            Event::Opened => EventView::Opened,
            Event::Unavailable => EventView::Unavailable,
            Event::Received(bytes) => EventView::Received(bytes@),
            Event::Completed => EventView::Completed,
            Event::Failed => EventView::Failed,
        }
    }
}

/// What the session asks of the caller.
#[derive(Debug)]
pub enum Action {
    /// Wait this long, then look for a port and open the first one found;
    /// answer `Opened` or `Unavailable`.
    Acquire { delay_millis: u64 },
    /// Read from the port; answer `Received` or `Failed`.
    Read,
    /// Encode the message, frame it and write it; answer `Completed` or
    /// `Failed`.
    Write(OutMessage),
    /// One message was dropped for this reason: log it; answer `Completed`.
    Report(SessionError),
    /// Drop the port; answer `Completed`.
    Abandon,
}

/// What the session asks of the caller, as a value: a response is named by
/// the request that it answers.
pub enum Reply {
    Acquire { delay_millis: u64 },
    Read,
    Respond { request: InMessage },
    Report { error: SessionErrorView },
    Abandon,
}

/// Where a step leads: the next state, the stream that the session then
/// holds, and what it asks for.
pub struct Outcome {
    pub state: State,
    pub buffered: Seq<u8>,
    pub reply: Reply,
}

/// Whether an action is what a reply calls for.
pub open spec fn performs(action: Action, reply: Reply) -> bool {
    match reply {
        Reply::Acquire { delay_millis } => action matches Action::Acquire { delay_millis: d } && d
            == delay_millis,
        Reply::Read => action is Read,
        Reply::Respond { request } => action matches Action::Write(out) && answers(request, out@),
        Reply::Report { error } => action matches Action::Report(e) && e@ == error,
        Reply::Abandon => action is Abandon,
    }
}

/// Serving, with `buffered` in hand: the first complete frame is taken out
/// and answered, or reported if it cannot be understood; where there is none,
/// more bytes are asked for. The session stays in `Serving` whatever the
/// frame holds.
pub open spec fn serve(buffered: Seq<u8>) -> Outcome {
    match next_frame(buffered) {
        None => Outcome { state: State::Serving, buffered: resync(buffered), reply: Reply::Read },
        Some((payload, rest)) => Outcome {
            state: State::Serving,
            buffered: rest,
            reply: match decoded(payload) {
                Ok(request) => Reply::Respond { request },
                Err(error) => Reply::Report { error },
            },
        },
    }
}

/// The port is given up: nothing of its stream is kept.
pub open spec fn fault() -> Outcome {
    Outcome { state: State::Faulted, buffered: Seq::empty(), reply: Reply::Abandon }
}

/// The state machine. `retry_interval` is how long the caller is to wait
/// between two looks for a port.
///
/// While a port is open, an event that cannot follow the action that was
/// asked for is taken as a failure of the transport.
pub open spec fn transition(
    state: State,
    buffered: Seq<u8>,
    retry_interval: u64,
    event: EventView,
) -> Outcome {
    match state {
        State::AwaitingPort => match event {
            EventView::Opened => Outcome {
                state: State::Handshaking,
                buffered: Seq::empty(),
                reply: Reply::Respond { request: InMessage::NeedGaugeConfig {  } },
            },
            _ => Outcome {
                state: State::AwaitingPort,
                buffered: Seq::empty(),
                reply: Reply::Acquire { delay_millis: retry_interval },
            },
        },
        State::Handshaking => match event {
            EventView::Completed => serve(buffered),
            _ => fault(),
        },
        State::Serving => match event {
            EventView::Received(bytes) => serve(buffered + bytes),
            EventView::Completed => serve(buffered),
            _ => fault(),
        },
        State::Faulted => match event {
            EventView::Completed => Outcome {
                state: State::AwaitingPort,
                buffered: Seq::empty(),
                reply: Reply::Acquire { delay_millis: 0 },
            },
            _ => fault(),
        },
    }
}

/// Fault isolation. With a port open, a failure of the transport leads to
/// `Faulted` and to giving the port up, whatever the session holds. Bytes
/// that arrive while serving leave the session in `Serving`, whatever they
/// are; and a frame that cannot be understood is reported, with an error that
/// is not fatal, and costs no more than itself.
pub proof fn lemma_fault_isolation(state: State, buffered: Seq<u8>, retry: u64, bytes: Seq<u8>)
    ensures
        state is Handshaking || state is Serving ==> transition(
            state,
            buffered,
            retry,
            EventView::Failed,
        ) == fault(),
        transition(State::Serving, buffered, retry, EventView::Received(bytes)).state is Serving,
        !(transition(State::Serving, buffered, retry, EventView::Received(bytes)).reply is Abandon),
        match next_frame(buffered + bytes) {
            Some((payload, rest)) => match decoded(payload) {
                Err(error) => !error.fatal() && transition(
                    State::Serving,
                    buffered,
                    retry,
                    EventView::Received(bytes),
                ) == (Outcome {
                    state: State::Serving,
                    buffered: rest,
                    reply: Reply::Report { error },
                }),
                Ok(_) => true,
            },
            None => true,
        },
{
}

/// A session.
pub struct Session {
    state: State,
    framer: Framer,
    retry_interval_millis: u64,
}

impl Session {
    /// The session's own consistency: every constructor gives it and every
    /// method keeps it.
    pub closed spec fn wf(&self) -> bool {
        self.framer.wf()
    }

    /// Where the session stands.
    pub closed spec fn state(&self) -> State {
        self.state
    }

    /// The bytes that the session has received and not yet made a message of.
    pub closed spec fn buffered(&self) -> Seq<u8> {
        self.framer@
    }

    /// How long the session has its caller wait between two looks for a
    /// port, in milliseconds.
    pub closed spec fn retry_interval(&self) -> u64 {
        self.retry_interval_millis
    }

    /// A session without a port, which has its caller look for one every
    /// `RETRY_INTERVAL_MILLIS`. The caller begins by performing
    /// `first_action()`.
    pub fn new() -> (session: Session)
        ensures
            session.wf(),
            session.state() is AwaitingPort,
            session.buffered() == Seq::<u8>::empty(),
            session.retry_interval() == RETRY_INTERVAL_MILLIS,
    {
        Session::with_retry_interval(RETRY_INTERVAL_MILLIS)
    }

    /// A session without a port, which has its caller look for one every
    /// `millis` milliseconds.
    pub fn with_retry_interval(millis: u64) -> (session: Session)
        ensures
            session.wf(),
            session.state() is AwaitingPort,
            session.buffered() == Seq::<u8>::empty(),
            session.retry_interval() == millis,
    {
        Session { state: State::AwaitingPort, framer: Framer::new(), retry_interval_millis: millis }
    }

    /// What a new session asks for: a port, at once.
    pub fn first_action() -> (action: Action)
        ensures
            performs(action, Reply::Acquire { delay_millis: 0 }),
    {
        Action::Acquire { delay_millis: 0 }
    }

    /// Where the session stands.
    pub fn current_state(&self) -> (state: State)
        ensures
            state == self.state(),
    {
        self.state
    }

    /// Classifies an error. A fatal one moves the session to `Faulted` and has
    /// the port given up; any other leaves the session as it is and is handed
    /// back to be logged.
    pub fn handle_error(&mut self, error: SessionError) -> (action: Action)
        requires
            old(self).wf(),
        ensures
            final(self).wf(),
            final(self).retry_interval() == old(self).retry_interval(),
            error@.fatal() ==> final(self).state() is Faulted && final(self).buffered()
                == Seq::<u8>::empty() && action is Abandon,
            !error@.fatal() ==> final(self).state() == old(self).state() && final(self).buffered()
                == old(self).buffered() && performs(action, Reply::Report { error: error@ }),
    {
        if error.is_fatal() {
            self.state = State::Faulted;
            self.framer = Framer::new();
            Action::Abandon
        } else {
            Action::Report(error)
        }
    }

    /// Takes the first complete frame out of what the session holds and
    /// answers it. A request that calls for no reply is passed over.
    fn serve_next(&mut self) -> (action: Action)
        requires
            old(self).wf(),
        ensures
            final(self).wf(),
            final(self).retry_interval() == old(self).retry_interval(),
            final(self).state() is Serving,
            final(self).buffered() == serve(old(self).buffered()).buffered,
            performs(action, serve(old(self).buffered()).reply),
    {
        self.state = State::Serving;
        loop
            invariant
                self.wf(),
                self.retry_interval() == old(self).retry_interval(),
                self.state() is Serving,
                serve(self.buffered()) == serve(old(self).buffered()),
            decreases self.buffered().len(),
        {
            match self.framer.next_message() {
                None => {
                    return Action::Read;
                },
                Some(payload) => match decode(payload) {
                    Err(error) => {
                        return self.handle_error(error);
                    },
                    Ok(request) => match handle_message(&request) {
                        Some(out) => {
                            return Action::Write(out);
                        },
                        None => {},
                    },
                },
            }
        }
    }

    /// Takes in what the caller reports and says what to do next.
    pub fn step(&mut self, event: Event) -> (action: Action)
        requires
            old(self).wf(),
        ensures
            final(self).wf(),
            final(self).retry_interval() == old(self).retry_interval(),
            ({
                let outcome = transition(
                    old(self).state(),
                    old(self).buffered(),
                    old(self).retry_interval(),
                    event@,
                );
                &&& final(self).state() == outcome.state
                &&& final(self).buffered() == outcome.buffered
                &&& performs(action, outcome.reply)
            }),
    {
        match self.state {
            State::AwaitingPort => {
                self.framer = Framer::new();
                match event {
                    Event::Opened => {
                        self.state = State::Handshaking;
                        match handle_message(&InMessage::NeedGaugeConfig {  }) {
                            Some(out) => Action::Write(out),
                            None => self.serve_next(),
                        }
                    },
                    _ => Action::Acquire { delay_millis: self.retry_interval_millis },
                }
            },
            State::Handshaking => match event {
                Event::Completed => self.serve_next(),
                _ => self.handle_error(SessionError::Transport),
            },
            State::Serving => match event {
                Event::Received(bytes) => {
                    self.framer.feed(bytes.as_slice());
                    self.serve_next()
                },
                Event::Completed => self.serve_next(),
                _ => self.handle_error(SessionError::Transport),
            },
            State::Faulted => match event {
                Event::Completed => {
                    self.state = State::AwaitingPort;
                    self.framer = Framer::new();
                    Action::Acquire { delay_millis: 0 }
                },
                _ => self.handle_error(SessionError::Transport),
            },
        }
    }
}

/// Which of the ports that were found is opened: the first, if there is one.
pub fn select_port(found: usize) -> (choice: Option<usize>)
    ensures
        choice == if found == 0 {
            None::<usize>
        } else {
            Some(0usize)
        },
{
    if found == 0 {
        None
    } else {
        Some(0)
    }
}

} // verus!
