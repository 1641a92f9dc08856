//! The payloads of the gateway: what a client sends, what goes to the backend,
//! and what the client gets back.
use vstd::prelude::*;
use crate::json::{json_string, json_string_literal};

verus! {

/// The model that every backend request names.
pub const MODEL: &'static str = "tinyllama";

/// The response text when the backend cannot be reached.
pub const CONTACT_FAILED: &'static str = "Failed to contact Ollama";

/// The response text when the backend's body is not one JSON document.
pub const INVALID_RESPONSE: &'static str = "Invalid response from Ollama";

/// An inbound chat request.
pub struct ChatRequest {
    pub prompt: String,
}

/// The request made of a chat request for the backend's generate endpoint.
pub struct BackendRequest {
    pub model: String,
    pub prompt: String,
    pub stream: bool,
}

/// The answer to a client: a generation, or a sentinel text.
pub struct ChatResponse {
    pub response: String,
}

/// The JSON text of a boolean.
pub open spec fn json_bool(b: bool) -> Seq<char> {
    if b { "true"@ } else { "false"@ }
}

/// The JSON object `{"model":..,"prompt":..,"stream":..}`, keys in that order.
pub open spec fn backend_body_text(model: Seq<char>, prompt: Seq<char>, stream: bool) -> Seq<char> {
    "{\"model\":"@ + json_string_literal(model) + ",\"prompt\":"@ + json_string_literal(prompt)
        + ",\"stream\":"@ + json_bool(stream) + "}"@
}

/// The JSON object `{"response":..}`.
pub open spec fn chat_body_text(response: Seq<char>) -> Seq<char> {
    "{\"response\":"@ + json_string_literal(response) + "}"@
}

impl BackendRequest {
    /// The backend request for `req`: the fixed model, the prompt as given,
    /// streaming off.
    pub fn from_chat(req: &ChatRequest) -> (r: BackendRequest)
        ensures
            r.model@ == MODEL@,
            r.prompt@ == req.prompt@,
            !r.stream,
    {
        BackendRequest {
            model: String::from_str(MODEL),
            prompt: req.prompt.clone(),
            stream: false,
        }
    }

    /// The JSON body sent to the backend.
    pub fn to_json(&self) -> (r: String)
        ensures
            r@ == backend_body_text(self.model@, self.prompt@, self.stream),
    {
        let mut body = String::from_str("{\"model\":");
        let model = json_string(self.model.as_str());
        body.append(model.as_str());
        body.append(",\"prompt\":");
        let prompt = json_string(self.prompt.as_str());
        body.append(prompt.as_str());
        body.append(",\"stream\":");
        if self.stream {
            body.append("true");
        } else {
            body.append("false");
        }
        body.append("}");
        body
    }
}

impl ChatResponse {
    /// The JSON body sent to the client.
    pub fn to_json(&self) -> (r: String)
        ensures
            r@ == chat_body_text(self.response@),
    {
        let mut body = String::from_str("{\"response\":");
        let text = json_string(self.response.as_str());
        body.append(text.as_str());
        body.append("}");
        body
    }
}

} // verus!
