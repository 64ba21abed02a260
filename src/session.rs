use vstd::prelude::*;

use crate::dispatch::{answers, dispatch, is_rejected_body, lemma_answer_keeps_phase};
use crate::message::{payload_phase, response_phase, ProcessingRequest, ProcessingResponse};

verus! {

/// The gRPC status code (`Unknown`) with which a peer's clean close of the
/// inbound stream is reported.
pub const CLIENT_CLOSED_CODE: i32 = 2;

/// How many outbound items may wait for the transport before the session
/// stops reading inbound messages.
pub const OUTBOUND_CAPACITY: usize = 32;

/// The class of a failed inbound read.
#[derive(Debug, Clone, Copy, PartialEq, Eq, Structural)]
pub enum ReadFault {
    /// The peer ended the stream: a normal end, not an error.
    ClientClosed,
    /// Any other transport failure.
    Transport,
}

/// What the inbound side of a stream delivers next.
#[derive(Debug, Clone)]
pub enum InboundEvent {
    Message(ProcessingRequest),
    ReadFailed(ReadFault),
    /// The inbound sequence is over.
    Exhausted,
}

/// One item of the outbound stream.
#[derive(Debug, Clone)]
pub enum Outbound {
    Response(ProcessingResponse),
    /// An internal-error status in place of a response.
    InternalError,
}

/// What the owner of a session does after an inbound event.
#[derive(Debug, Clone)]
pub enum SessionAction {
    /// Queue the item and read on.
    Send(Outbound),
    /// Queue the item, then end the session.
    SendAndClose(Outbound),
    /// End the session without sending anything.
    Close,
}

/// Classifies a failed read by its gRPC status code.
pub fn classify_read_error(code: i32) -> (r: ReadFault)
    ensures
        r == (if code == CLIENT_CLOSED_CODE { ReadFault::ClientClosed } else { ReadFault::Transport }),
{
    if code == CLIENT_CLOSED_CODE {
        ReadFault::ClientClosed
    } else {
        ReadFault::Transport
    }
}

/// The event ends the session.
pub open spec fn ends_session(e: InboundEvent) -> bool {
    match e {
        InboundEvent::Message(req) => req.request is None,
        InboundEvent::ReadFailed(_) => true,
        InboundEvent::Exhausted => true,
    }
}

/// The event ends the session with an internal error sent to the peer.
pub open spec fn ends_with_error(e: InboundEvent) -> bool {
    match e {
        InboundEvent::Message(req) => req.request is None,
        InboundEvent::ReadFailed(f) => f == ReadFault::Transport,
        InboundEvent::Exhausted => false,
    }
}

/// `o` is the outbound item owed for a message event.
pub open spec fn replies(e: InboundEvent, o: Outbound) -> bool {
    match e {
        InboundEvent::Message(req) => match req.request {
            Some(p) => match o {
                Outbound::Response(r) => answers(p, r),
                Outbound::InternalError => false,
            },
            None => false,
        },
        _ => false,
    }
}

/// The action owed for an event.
pub open spec fn action_fits(e: InboundEvent, a: SessionAction) -> bool {
    if !ends_session(e) {
        match a {
            SessionAction::Send(o) => replies(e, o),
            _ => false,
        }
    } else if ends_with_error(e) {
        a matches SessionAction::SendAndClose(Outbound::InternalError)
    } else {
        a is Close
    }
}

/// `out` is the whole outbound sequence of a session fed with `events`: one
/// reply per message in order, up to the first event that ends the session,
/// which adds an internal error where it is a transport failure or a message
/// without payload. Events after it are never read.
pub open spec fn session_output(events: Seq<InboundEvent>, out: Seq<Outbound>) -> bool
    decreases events.len(),
{
    if events.len() == 0 {
        out.len() == 0
    } else if ends_session(events[0]) {
        if ends_with_error(events[0]) {
            out.len() == 1 && out[0] is InternalError
        } else {
            out.len() == 0
        }
    } else {
        &&& out.len() > 0
        &&& replies(events[0], out[0])
        &&& session_output(events.drop_first(), out.drop_first())
    }
}

/// The per-stream state: whether the session has ended.
pub struct StreamSession {
    ended: bool,
}

impl StreamSession {
    pub closed spec fn is_ended(&self) -> bool {
        self.ended
    }

    /// A session for a newly accepted stream.
    pub fn new() -> (s: Self)
        ensures
            !s.is_ended(),
    {
        StreamSession { ended: false }
    }

    /// Whether the session has ended.
    pub fn ended(&self) -> (r: bool)
        ensures
            r == self.is_ended(),
    {
        self.ended
    }

    /// Decides what to do with one inbound event.
    pub fn on_event(&mut self, e: &InboundEvent) -> (a: SessionAction)
        requires
            !old(self).is_ended(),
        ensures
            action_fits(*e, a),
            final(self).is_ended() == ends_session(*e),
    {
        match e {
            InboundEvent::Message(req) => match dispatch(req) {
                Ok(r) => SessionAction::Send(Outbound::Response(r)),
                Err(_) => {
                    self.ended = true;
                    SessionAction::SendAndClose(Outbound::InternalError)
                },
            },
            InboundEvent::ReadFailed(ReadFault::ClientClosed) => {
                self.ended = true;
                SessionAction::Close
            },
            InboundEvent::ReadFailed(ReadFault::Transport) => {
                self.ended = true;
                SessionAction::SendAndClose(Outbound::InternalError)
            },
            InboundEvent::Exhausted => {
                self.ended = true;
                SessionAction::Close
            },
        }
    }

    /// The outbound side has no consumer any more: the session ends.
    pub fn on_outbound_gone(&mut self)
        ensures
            final(self).is_ended(),
    {
        self.ended = true;
    }
}

/// Feeds the events to a new session in order, until one ends it, and collects
/// what the session sends.
pub fn run_session(events: &Vec<InboundEvent>) -> (out: Vec<Outbound>)
    ensures
        session_output(events@, out@),
{
    let mut session = StreamSession::new();
    let mut out: Vec<Outbound> = Vec::new();
    let mut i: usize = 0;
    proof {
        assert(events@.skip(0) =~= events@);
        assert forall|rest: Seq<Outbound>| #[trigger]
            session_output(events@.skip(0), rest) implies session_output(events@, out@ + rest) by {
            assert(out@ + rest =~= rest);
        }
    }
    while i < events.len() && !session.ended()
        invariant
            0 <= i <= events.len(),
            session.is_ended() ==> session_output(events@, out@),
            !session.is_ended() ==> forall|rest: Seq<Outbound>|
                #[trigger] session_output(events@.skip(i as int), rest) ==> session_output(
                    events@,
                    out@ + rest,
                ),
        decreases events.len() - i,
    {
        let ghost tail = events@.skip(i as int);
        let ghost before = out@;
        let a = session.on_event(&events[i]);
        proof {
            assert(tail[0] == events@[i as int]);
            assert(tail.drop_first() =~= events@.skip(i + 1));
        }
        match a {
            SessionAction::Send(o) => {
                out.push(o);
                assert forall|rest: Seq<Outbound>|
                    #[trigger] session_output(events@.skip(i + 1), rest) implies session_output(
                        events@,
                        out@ + rest,
                    ) by {
                    let whole = seq![o] + rest;
                    assert(whole.drop_first() =~= rest);
                    assert(session_output(tail, whole));
                    assert(before + whole =~= out@ + rest);
                }
            },
            SessionAction::SendAndClose(o) => {
                out.push(o);
                assert(session_output(tail, seq![o]));
                assert(before + seq![o] =~= out@);
            },
            SessionAction::Close => {
                assert(session_output(tail, Seq::<Outbound>::empty()));
                assert(out@ + Seq::<Outbound>::empty() =~= out@);
            },
        }
        i = i + 1;
    }
    proof {
        if !session.is_ended() {
            assert(events@.skip(i as int).len() == 0);
            assert(session_output(events@.skip(i as int), Seq::<Outbound>::empty()));
            assert(out@ + Seq::<Outbound>::empty() =~= out@);
        }
    }
    out
}

/// The outbound items come in the order of the inbound events: the i-th item
/// is the reply to the i-th event, or, last of all, the internal error for the
/// event that ended the session. Nothing is dropped, batched or reordered,
/// however slowly the items are consumed.
pub proof fn lemma_replies_in_order(events: Seq<InboundEvent>, out: Seq<Outbound>)
    requires
        session_output(events, out),
    ensures
        out.len() <= events.len(),
        forall|i: int|
            0 <= i < out.len() ==> replies(events[i], #[trigger] out[i]) || (i == out.len() - 1
                && ends_with_error(events[i]) && out[i] is InternalError),
    decreases events.len(),
{
    if events.len() > 0 && !ends_session(events[0]) {
        lemma_replies_in_order(events.drop_first(), out.drop_first());
        assert forall|i: int|
            0 <= i < out.len() implies replies(events[i], #[trigger] out[i]) || (i == out.len()
                - 1 && ends_with_error(events[i]) && out[i] is InternalError) by {
            if i > 0 {
                assert(events.drop_first()[i - 1] == events[i]);
                assert(out.drop_first()[i - 1] == out[i]);
            }
        }
    }
}

/// Every event is a message with a payload.
pub open spec fn all_well_formed(events: Seq<InboundEvent>) -> bool {
    forall|i: int|
        0 <= i < events.len() ==> match #[trigger] events[i] {
            InboundEvent::Message(req) => req.request is Some,
            _ => false,
        }
}

/// The outbound item carries the phase tag of the inbound message, or is an
/// immediate response to a body that fails inspection.
pub open spec fn tag_paired(e: InboundEvent, o: Outbound) -> bool {
    match e {
        InboundEvent::Message(req) => match req.request {
            Some(p) => match o {
                Outbound::Response(r) => if is_rejected_body(p) {
                    r is ImmediateResponse
                } else {
                    response_phase(r) == Some(payload_phase(p))
                },
                Outbound::InternalError => false,
            },
            None => false,
        },
        _ => false,
    }
}

/// For a finite sequence of well-formed messages, the session sends exactly as
/// many items as it receives, and each carries the phase tag of its message,
/// but for an immediate response to a body that fails inspection.
pub proof fn lemma_pairing(events: Seq<InboundEvent>, out: Seq<Outbound>)
    requires
        all_well_formed(events),
        session_output(events, out),
    ensures
        out.len() == events.len(),
        forall|i: int| 0 <= i < out.len() ==> tag_paired(events[i], #[trigger] out[i]),
    decreases events.len(),
{
    if events.len() > 0 {
        assert(match events[0] {
            InboundEvent::Message(req) => req.request is Some,
            _ => false,
        });
        assert forall|i: int| 0 <= i < events.len() - 1 implies match #[trigger] events.drop_first()[i] {
            InboundEvent::Message(req) => req.request is Some,
            _ => false,
        } by {
            assert(events.drop_first()[i] == events[i + 1]);
        }
        lemma_pairing(events.drop_first(), out.drop_first());
        assert forall|i: int| 0 <= i < out.len() implies tag_paired(events[i], #[trigger] out[i]) by {
            if i > 0 {
                assert(events.drop_first()[i - 1] == events[i]);
                assert(out.drop_first()[i - 1] == out[i]);
            } else {
                match events[0] {
                    InboundEvent::Message(req) => match req.request {
                        Some(p) => match out[0] {
                            Outbound::Response(r) => lemma_answer_keeps_phase(p, r),
                            Outbound::InternalError => {},
                        },
                        None => {},
                    },
                    _ => {},
                }
            }
        }
    }
}

} // verus!
