//! One consumer session as a state machine: events in, replies out.

use vstd::prelude::*;

verus! {

/// What a peer sent over its connection. Only a ping's payload matters.
#[derive(Debug)]
pub enum Frame {
    Text,
    Binary,
    Ping(Vec<u8>),
    Pong,
    Close,
}

/// What happens to a session.
#[derive(Debug)]
pub enum Event {
    /// The connection is established.
    Opened,
    /// The peer sent a frame.
    Received(Frame),
    /// Reading from the peer failed.
    ReceiveFailed,
    /// The state broadcast holds a snapshot that this session has not sent.
    StateChanged,
    /// The state broadcast has no writer any more.
    SourceClosed,
    /// The reply that was asked for has been sent, or could not be.
    Sent { delivered: bool },
}

/// Why a connection is closed from this side.
#[derive(Debug)]
pub struct CloseNotice {
    pub code: u16,
    pub reason: String,
}

/// What the session asks for in answer to an event.
#[derive(Debug)]
pub enum Reply {
    /// Send the current snapshot.
    State,
    /// Send a pong with this payload.
    Pong(Vec<u8>),
    /// Send a close frame, with or without a notice.
    Close(Option<CloseNotice>),
    /// Wait for the next event.
    Wait,
    /// End the session.
    End,
}

/// Where a session stands.
#[derive(Clone, Copy, Debug, PartialEq, Eq, Structural)]
pub enum Phase {
    /// Connected, nothing sent yet.
    Fresh,
    /// Waiting for the peer or for a new snapshot.
    Listening,
    /// A reply is being sent.
    Sending,
    /// Over.
    Ended,
}

/// The close code that answers a peer that sends data.
pub const REFUSAL_CODE: u16 = 400;

/// The words of the close notice that answers a peer that sends data.
pub open spec fn refusal_reason() -> Seq<char> {
    "no"@
}

/// A reply with its payloads as sequences.
pub enum ReplyView {
    State,
    Pong(Seq<u8>),
    /// A close frame, with the code and reason of its notice where it has one.
    Close(Option<(u16, Seq<char>)>),
    Wait,
    End,
}

impl Reply {
    /// The reply with its payloads as sequences.
    pub open spec fn view(&self) -> ReplyView {
        match *self {
            Reply::State => ReplyView::State,
            Reply::Pong(payload) => ReplyView::Pong(payload@),
            Reply::Close(Some(notice)) => ReplyView::Close(Some((notice.code, notice.reason@))),
            Reply::Close(None) => ReplyView::Close(None),
            Reply::Wait => ReplyView::Wait,
            Reply::End => ReplyView::End,
        }
    }
}

/// The phase that follows `phase` on `event`.
pub open spec fn next_phase(phase: Phase, event: Event) -> Phase {
    match (phase, event) {
        (Phase::Fresh, Event::Opened) => Phase::Sending,
        (Phase::Listening, Event::Received(Frame::Pong)) => Phase::Listening,
        (Phase::Listening, Event::Received(_)) => Phase::Sending,
        (Phase::Listening, Event::StateChanged) => Phase::Sending,
        (Phase::Sending, Event::Sent { delivered: true }) => Phase::Listening,
        _ => Phase::Ended,
    }
}

/// The reply to `event` in `phase`.
pub open spec fn reply_to(phase: Phase, event: Event) -> ReplyView {
    match (phase, event) {
        (Phase::Fresh, Event::Opened) => ReplyView::State,
        (Phase::Listening, Event::Received(Frame::Text)) => ReplyView::Close(
            Some((REFUSAL_CODE, refusal_reason())),
        ),
        (Phase::Listening, Event::Received(Frame::Binary)) => ReplyView::Close(
            Some((REFUSAL_CODE, refusal_reason())),
        ),
        (Phase::Listening, Event::Received(Frame::Ping(payload))) => ReplyView::Pong(payload@),
        (Phase::Listening, Event::Received(Frame::Pong)) => ReplyView::Wait,
        (Phase::Listening, Event::Received(Frame::Close)) => ReplyView::Close(None),
        (Phase::Listening, Event::StateChanged) => ReplyView::State,
        (Phase::Sending, Event::Sent { delivered: true }) => ReplyView::Wait,
        _ => ReplyView::End,
    }
}

/// One consumer session: it sends the current snapshot when it opens and
/// each later one when it appears, answers the peer's control frames,
/// refuses data, and ends when reading or sending fails or the broadcast
/// closes.
pub struct Session {
    phase: Phase,
}

impl Session {
    /// Where the session stands.
    pub closed spec fn spec_phase(&self) -> Phase {
        self.phase
    }

    /// A session that has not sent anything yet.
    pub fn new() -> (session: Self)
        ensures
            session.spec_phase() == Phase::Fresh,
    {
        Session { phase: Phase::Fresh }
    }

    /// Where the session stands.
    #[verifier::when_used_as_spec(spec_phase)]
    pub fn phase(&self) -> (phase: Phase)
        ensures
            phase == self.spec_phase(),
    {
        self.phase
    }

    /// Whether the session is over.
    pub fn is_over(&self) -> (over: bool)
        ensures
            over == (self.spec_phase() == Phase::Ended),
    {
        match self.phase {
            Phase::Ended => true,
            _ => false,
        }
    }

    /// Takes an event and says what to do next. After a reply that sends
    /// something, the next event says whether it was sent. An event that the
    /// phase does not expect ends the session.
    pub fn handle(&mut self, event: Event) -> (reply: Reply)
        ensures
            final(self).spec_phase() == next_phase(old(self).spec_phase(), event),
            reply@ == reply_to(old(self).spec_phase(), event),
    {
        match (self.phase, event) {
            (Phase::Fresh, Event::Opened) => {
                self.phase = Phase::Sending;
                Reply::State
            },
            (Phase::Listening, Event::Received(frame)) => {
                match frame {
                    Frame::Text | Frame::Binary => {
                        self.phase = Phase::Sending;
                        Reply::Close(
                            Some(CloseNotice { code: REFUSAL_CODE, reason: "no".to_owned() }),
                        )
                    },
                    Frame::Ping(payload) => {
                        self.phase = Phase::Sending;
                        Reply::Pong(payload)
                    },
                    Frame::Pong => Reply::Wait,
                    Frame::Close => {
                        self.phase = Phase::Sending;
                        Reply::Close(None)
                    },
                }
            },
            (Phase::Listening, Event::StateChanged) => {
                self.phase = Phase::Sending;
                Reply::State
            },
            (Phase::Sending, Event::Sent { delivered }) => {
                if delivered {
                    self.phase = Phase::Listening;
                    Reply::Wait
                } else {
                    self.phase = Phase::Ended;
                    Reply::End
                }
            },
            _ => {
                self.phase = Phase::Ended;
                Reply::End
            },
        }
    }
}

} // verus!
