//! The command router: the two operations (`chat`, `clear`) both entry
//! protocols converge on. A chat turn has two halves around the backend
//! round trip: `chat_request` gates the model and assembles the windowed
//! context, `chat_complete` decodes the outcome, records the exchange on
//! success, and leaves the transcript untouched on any failure.

use crate::codec::{choice_text, completion_body, completion_body_spec, decode_choice_text};
use crate::parse::{allowed_model, enabled_model, validate_model, validation_message, ValidationError};
use crate::session::{ensure_present, entry_or_empty, store_append, store_clear, SessionStore};
use crate::window::{assembled_context, build_prompt_window, windowed};
use vstd::prelude::*;
use vstd::string::*;
use vstd::utf8::*;

verus! {

/// One exchange as the transcript records it.
pub open spec fn exchange_record(
    name: Seq<char>,
    model: Seq<char>,
    prompt: Seq<char>,
    reply: Seq<char>,
) -> Seq<char> {
    "\n\n"@ + name + ": "@ + prompt + "\n"@ + model + ": "@ + reply
}

/// How one handler failed. Only validation carries words of its own; every
/// other failure is shown as the generic fallback.
#[derive(Debug)]
pub enum HandlerError {
    Validation(ValidationError),
    /// The transport failed before a response body was obtained.
    Transport,
    /// The body decoded as JSON but did not hold `choices[0].text`.
    Protocol,
}

/// The reply delivered on failure.
pub open spec fn failure_message_spec(e: HandlerError) -> Seq<char> {
    match e {
        HandlerError::Validation(v) => validation_message(v),
        HandlerError::Transport => "An error occurred"@,
        HandlerError::Protocol => "An error occurred"@,
    }
}

impl HandlerError {
    /// The reply sent on failure: the validation explanation where there
    /// is one, else the generic fallback.
    pub fn user_message(&self) -> (m: String)
        ensures
            m@ == failure_message_spec(*self),
    {
        match self {
            HandlerError::Validation(v) => v.message(),
            HandlerError::Transport => String::from_str("An error occurred"),
            HandlerError::Protocol => String::from_str("An error occurred"),
        }
    }
}

/// What the outbound round trip came back with: a transport failure before
/// any body, or the raw response body.
#[derive(Debug)]
pub enum TransportOutcome {
    Failed,
    Body(Vec<u8>),
}

/// First half of a chat turn: gate the model, make sure the user has a
/// session, and build the exact context text to send. Rejection touches no
/// session and precedes any backend call.
pub fn chat_request(
    store: &mut SessionStore,
    user: u64,
    name: &str,
    model: &str,
    prompt: &str,
) -> (r: Result<String, ValidationError>)
    ensures
        !allowed_model(model@) ==> (r matches Err(e) && e matches ValidationError::UnknownModel(f)
            && f@ == model@ && final(store)@ == old(store)@),
        allowed_model(model@) && !enabled_model(model@) ==> (r matches Err(e)
            && e matches ValidationError::DisabledModel(f) && f@ == model@ && final(store)@ == old(
            store,
        )@),
        enabled_model(model@) ==> (r matches Ok(text) && final(store)@ == ensure_present(
            old(store)@,
            user,
        ) && encode_utf8(text@) == windowed(
            encode_utf8(assembled_context(entry_or_empty(old(store)@, user), name@, prompt@)),
        )),
{
    match validate_model(model) {
        Some(e) => Err(e),
        None => {
            let transcript = store.snapshot(user);
            Ok(build_prompt_window(transcript.as_str(), name, prompt))
        },
    }
}

/// The backend-side name under which every accepted request is sent: the
/// one enabled identifier maps to this fixed model name.
pub fn backend_model_name() -> (r: &'static str)
    ensures
        r@ == "text-davinci-003"@,
{
    "text-davinci-003"
}

/// The exact outbound request body for an accepted chat turn.
pub fn completion_request_body(text: &str) -> (r: String)
    ensures
        r@ == completion_body_spec("text-davinci-003"@, text@),
{
    completion_body(backend_model_name(), text)
}

/// Second half of a chat turn. Whatever the transport produced: a failure
/// or an ill-shaped body leaves the store byte for byte as it was and
/// yields the matching error; a well-shaped body appends the exchange
/// record to the user's transcript and yields the reply, the prompt
/// followed by the decoded text.
pub fn chat_complete(
    store: &mut SessionStore,
    user: u64,
    name: &str,
    model: &str,
    prompt: &str,
    outcome: &TransportOutcome,
) -> (r: Result<String, HandlerError>)
    ensures
        outcome is Failed ==> (r matches Err(e) && e is Transport && final(store)@ == old(
            store,
        )@),
        outcome matches TransportOutcome::Body(b) ==> match choice_text(b@) {
            None => r matches Err(e) && e is Protocol && final(store)@ == old(store)@,
            Some(t) => r matches Ok(reply) && reply@ == prompt@ + t && final(store)@
                == store_append(
                old(store)@,
                user,
                exchange_record(name@, model@, prompt@, t),
            ),
        },
{
    match outcome {
        TransportOutcome::Failed => Err(HandlerError::Transport),
        TransportOutcome::Body(b) => match decode_choice_text(b.as_slice()) {
            None => Err(HandlerError::Protocol),
            Some(t) => {
                let mut rec = String::from_str("\n\n");
                rec.append(name);
                rec.append(": ");
                rec.append(prompt);
                rec.append("\n");
                rec.append(model);
                rec.append(": ");
                rec.append(t.as_str());
                proof {
                    assert(rec@ =~= exchange_record(name@, model@, prompt@, t@));
                }
                store.append(user, rec.as_str());
                let mut reply = String::from_str(prompt);
                reply.append(t.as_str());
                Ok(reply)
            },
        },
    }
}

/// The `clear` operation: remove the user's session and hand back the
/// confirmation reply.
pub fn clear_session(store: &mut SessionStore, user: u64) -> (confirmation: &'static str)
    ensures
        final(store)@ == store_clear(old(store)@, user),
        confirmation@ == "Chat history cleared."@,
{
    store.clear(user);
    "Chat history cleared."
}

} // verus!
