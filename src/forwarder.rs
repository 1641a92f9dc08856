//! The lifecycle of one chat request: wait for the backend slot, call the
//! backend, read its body, then give the slot back and answer the client.
//!
//! The session decides; its driver performs each action and reports the
//! outcome as the next event.
use vstd::prelude::*;
use crate::config::generate_url;
use crate::json::{compact_json, json_accepts, json_compact_text};
use crate::messages::{
    chat_body_text, backend_body_text, BackendRequest, ChatRequest, ChatResponse, CONTACT_FAILED,
    INVALID_RESPONSE, MODEL,
};

verus! {

/// How far a session has come.
#[derive(Clone, Copy, Debug, PartialEq, Eq, Structural)]
pub enum Phase {
    /// Waiting for the backend slot.
    AwaitingPermit,
    /// Holding the slot; the backend call is under way.
    AwaitingBackend,
    /// Holding the slot; the backend's body is being read.
    AwaitingBody,
    /// The slot is given back and the client answered.
    Finished,
}

/// What the driver reports back to the session.
pub enum Event {
    /// The backend slot was granted.
    PermitGranted,
    /// The backend could not be reached.
    SendFailed,
    /// The backend answered, with any status.
    SendSucceeded,
    /// The backend's whole body.
    BodyRead(Vec<u8>),
    /// The backend's body could not be read.
    BodyFailed,
}

/// What the session asks its driver to do.
pub enum Action {
    /// POST `body` to `url`, holding the slot.
    Send { url: String, body: String },
    /// Read the backend's body, holding the slot.
    ReadBody,
    /// Give the slot back, then answer the client with status 200 and `body`.
    Respond { body: String },
}

/// What became of the backend call.
pub enum BackendOutcome {
    /// The backend could not be reached.
    TransportFailed,
    /// The backend answered with a body that is not one JSON document.
    Unparsable,
    /// The backend answered with a JSON document, here in compact text.
    Json(String),
}

/// The state of one chat request.
pub struct ChatSession {
    /// The backend's generate endpoint.
    pub url: String,
    /// The JSON body to send there.
    pub body: String,
    pub phase: Phase,
}

/// Whether a session in phase `p` holds the backend slot.
pub open spec fn holds_permit(p: Phase) -> bool {
    p is AwaitingBackend || p is AwaitingBody
}

/// Whether a session in phase `p` expects event `e`.
pub open spec fn accepts(p: Phase, e: Event) -> bool {
    match p {
        Phase::AwaitingPermit => e is PermitGranted,
        Phase::AwaitingBackend => e is SendFailed || e is SendSucceeded,
        Phase::AwaitingBody => e is BodyRead || e is BodyFailed,
        Phase::Finished => false,
    }
}

/// The phase after event `e`.
pub open spec fn next_phase(p: Phase, e: Event) -> Phase {
    match e {
        Event::PermitGranted => Phase::AwaitingBackend,
        Event::SendSucceeded => Phase::AwaitingBody,
        _ => Phase::Finished,
    }
}

/// How many events a session in phase `p` has still to see.
pub open spec fn remaining_steps(p: Phase) -> nat {
    match p {
        Phase::AwaitingPermit => 3,
        Phase::AwaitingBackend => 2,
        Phase::AwaitingBody => 1,
        Phase::Finished => 0,
    }
}

/// The response text for what became of the backend call.
pub open spec fn outcome_text(o: BackendOutcome) -> Seq<char> {
    match o {
        BackendOutcome::TransportFailed => CONTACT_FAILED@,
        BackendOutcome::Unparsable => INVALID_RESPONSE@,
        BackendOutcome::Json(t) => t@,
    }
}

/// The response text for a backend body: its compact JSON text, or the
/// sentinel where it is not one JSON document.
pub open spec fn body_reply_text(body: Seq<u8>) -> Seq<char> {
    if json_accepts(body) {
        json_compact_text(body)
    } else {
        INVALID_RESPONSE@
    }
}

/// The response text after a finishing event.
pub open spec fn final_text(e: Event) -> Seq<char> {
    match e {
        Event::SendFailed => CONTACT_FAILED@,
        Event::BodyRead(b) => body_reply_text(b@),
        _ => INVALID_RESPONSE@,
    }
}

/// The answer to the client for what became of the backend call.
pub fn response_for(outcome: BackendOutcome) -> (r: ChatResponse)
    ensures
        r.response@ == outcome_text(outcome),
{
    match outcome {
        BackendOutcome::TransportFailed => ChatResponse { response: String::from_str(CONTACT_FAILED) },
        BackendOutcome::Unparsable => ChatResponse { response: String::from_str(INVALID_RESPONSE) },
        BackendOutcome::Json(t) => ChatResponse { response: t },
    }
}

/// What became of the backend call, given that it answered with `body`.
pub fn outcome_of_body(body: &[u8]) -> (r: BackendOutcome)
    ensures
        outcome_text(r) == body_reply_text(body@),
        r is Json <==> json_accepts(body@),
        r is Unparsable <==> !json_accepts(body@),
{
    match compact_json(body) {
        Some(t) => BackendOutcome::Json(t),
        None => BackendOutcome::Unparsable,
    }
}

impl ChatSession {
    /// A session for `req` against the backend at `host`, waiting for the slot.
    pub fn new(host: &str, req: &ChatRequest) -> (r: ChatSession)
        ensures
            r.url@ == host@ + "/api/generate"@,
            r.body@ == backend_body_text(MODEL@, req.prompt@, false),
            r.phase == Phase::AwaitingPermit,
    {
        let backend = BackendRequest::from_chat(req);
        ChatSession { url: generate_url(host), body: backend.to_json(), phase: Phase::AwaitingPermit }
    }

    /// Whether the session expects `e` now.
    pub fn expects(&self, e: &Event) -> (r: bool)
        ensures
            r == accepts(self.phase, *e),
    {
        match self.phase {
            Phase::AwaitingPermit => matches!(e, Event::PermitGranted),
            Phase::AwaitingBackend => matches!(e, Event::SendFailed | Event::SendSucceeded),
            Phase::AwaitingBody => matches!(e, Event::BodyRead(_) | Event::BodyFailed),
            Phase::Finished => false,
        }
    }

    /// Takes in what the driver reports and says what to do next.
    pub fn on_event(&mut self, e: Event) -> (a: Action)
        requires
            accepts(old(self).phase, e),
        ensures
            final(self).url@ == old(self).url@,
            final(self).body@ == old(self).body@,
            final(self).phase == next_phase(old(self).phase, e),
            a is Send <==> e is PermitGranted,
            a matches Action::Send { url, body } ==> url@ == old(self).url@ && body@ == old(
                self,
            ).body@,
            a is ReadBody <==> e is SendSucceeded,
            a is Respond <==> final(self).phase is Finished,
            a matches Action::Respond { body } ==> body@ == chat_body_text(final_text(e)),
    {
        match e {
            Event::PermitGranted => {
                self.phase = Phase::AwaitingBackend;
                Action::Send { url: self.url.clone(), body: self.body.clone() }
            },
            Event::SendSucceeded => {
                self.phase = Phase::AwaitingBody;
                Action::ReadBody
            },
            Event::SendFailed => self.finish(BackendOutcome::TransportFailed),
            Event::BodyRead(b) => {
                let outcome = outcome_of_body(b.as_slice());
                self.finish(outcome)
            },
            Event::BodyFailed => self.finish(BackendOutcome::Unparsable),
        }
    }

    fn finish(&mut self, outcome: BackendOutcome) -> (a: Action)
        ensures
            final(self).url@ == old(self).url@,
            final(self).body@ == old(self).body@,
            final(self).phase == Phase::Finished,
            a matches Action::Respond { body } && body@ == chat_body_text(outcome_text(outcome)),
    {
        self.phase = Phase::Finished;
        let response = response_for(outcome);
        Action::Respond { body: response.to_json() }
    }
}

/// The body that a session in phase `p` answers with, where `events` bring it
/// to its end; `None` where they do not, or where one comes out of turn.
pub open spec fn run_response(p: Phase, events: Seq<Event>) -> Option<Seq<char>>
    decreases events.len(),
{
    if events.len() == 0 || !accepts(p, events[0]) {
        None
    } else if next_phase(p, events[0]) is Finished {
        Some(chat_body_text(final_text(events[0])))
    } else {
        run_response(next_phase(p, events[0]), events.drop_first())
    }
}

/// A prompt asked twice of a backend that gives the same bytes both times gets
/// the same answer both times: the answer of a new session is fixed by what
/// the backend did alone, whatever the prompt.
pub proof fn lemma_same_backend_same_response(b1: Vec<u8>, b2: Vec<u8>)
    requires
        b1@ == b2@,
    ensures
        run_response(
            Phase::AwaitingPermit,
            seq![Event::PermitGranted, Event::SendSucceeded, Event::BodyRead(b1)],
        ) == run_response(
            Phase::AwaitingPermit,
            seq![Event::PermitGranted, Event::SendSucceeded, Event::BodyRead(b2)],
        ),
        run_response(
            Phase::AwaitingPermit,
            seq![Event::PermitGranted, Event::SendSucceeded, Event::BodyRead(b1)],
        ) == Some(chat_body_text(body_reply_text(b1@))),
        run_response(Phase::AwaitingPermit, seq![Event::PermitGranted, Event::SendFailed]) == Some(
            chat_body_text(CONTACT_FAILED@),
        ),
{
    reveal_with_fuel(run_response, 4);
    let r1 = seq![Event::PermitGranted, Event::SendSucceeded, Event::BodyRead(b1)];
    let r2 = seq![Event::PermitGranted, Event::SendSucceeded, Event::BodyRead(b2)];
    assert(r1.drop_first() =~= seq![Event::SendSucceeded, Event::BodyRead(b1)]);
    assert(r1.drop_first().drop_first() =~= seq![Event::BodyRead(b1)]);
    assert(r2.drop_first() =~= seq![Event::SendSucceeded, Event::BodyRead(b2)]);
    assert(r2.drop_first().drop_first() =~= seq![Event::BodyRead(b2)]);
    let f = seq![Event::PermitGranted, Event::SendFailed];
    assert(f.drop_first() =~= seq![Event::SendFailed]);
}

} // verus!
