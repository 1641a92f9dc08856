use ollama_gateway::config::{backend_host, generate_url, tags_url, DEFAULT_HOST, LIMITER_CAPACITY};
use ollama_gateway::forwarder::{
    outcome_of_body, response_for, Action, BackendOutcome, ChatSession, Event, Phase,
};
use ollama_gateway::json::{compact_json, json_string};
use ollama_gateway::messages::{BackendRequest, ChatRequest, ChatResponse};
use ollama_gateway::readiness::{decide_after_poll, is_success, StartupAction, Poll, RETRY_DELAY_MS};

fn request(prompt: &str) -> ChatRequest {
    ChatRequest { prompt: prompt.to_string() }
}

fn respond_body(a: Action) -> String {
    match a {
        Action::Respond { body } => body,
        _ => panic!("expected a response"),
    }
}

fn run_to_body(prompt: &str, backend_body: &[u8]) -> String {
    let mut s = ChatSession::new("http://localhost:11434", &request(prompt));
    match s.on_event(Event::PermitGranted) {
        Action::Send { .. } => {}
        _ => panic!("expected a send"),
    }
    match s.on_event(Event::SendSucceeded) {
        Action::ReadBody => {}
        _ => panic!("expected a body read"),
    }
    let body = respond_body(s.on_event(Event::BodyRead(backend_body.to_vec())));
    assert_eq!(s.phase, Phase::Finished);
    body
}

#[test]
fn valid_json_is_forwarded_as_text() {
    let body = run_to_body("hello", b"{\"text\":\"hi\"}");
    assert_eq!(body, "{\"response\":\"{\\\"text\\\":\\\"hi\\\"}\"}");
}

#[test]
fn connection_refused_gives_contact_sentinel() {
    let mut s = ChatSession::new("http://localhost:1", &request("hello"));
    s.on_event(Event::PermitGranted);
    let body = respond_body(s.on_event(Event::SendFailed));
    assert_eq!(body, "{\"response\":\"Failed to contact Ollama\"}");
    assert_eq!(s.phase, Phase::Finished);
}

#[test]
fn non_json_body_gives_invalid_sentinel() {
    let body = run_to_body("hello", b"oops");
    assert_eq!(body, "{\"response\":\"Invalid response from Ollama\"}");
}

#[test]
fn unreadable_body_gives_invalid_sentinel() {
    let mut s = ChatSession::new("http://localhost:11434", &request("hello"));
    s.on_event(Event::PermitGranted);
    s.on_event(Event::SendSucceeded);
    let body = respond_body(s.on_event(Event::BodyFailed));
    assert_eq!(body, "{\"response\":\"Invalid response from Ollama\"}");
}

#[test]
fn error_status_with_json_body_is_forwarded() {
    let body = run_to_body("hello", b"{\"error\":\"model not found\"}");
    assert_eq!(body, "{\"response\":\"{\\\"error\\\":\\\"model not found\\\"}\"}");
}

#[test]
fn same_prompt_twice_gives_same_response() {
    let first = run_to_body("why is the sky blue", b"{\"response\":\"scattering\",\"done\":true}");
    let second = run_to_body("why is the sky blue", b"{\"response\":\"scattering\",\"done\":true}");
    assert_eq!(first, second);
}

#[test]
fn session_sends_request_to_generate_endpoint() {
    let mut s = ChatSession::new("http://ollama:11434", &request("say \"hi\""));
    assert_eq!(s.phase, Phase::AwaitingPermit);
    assert!(s.expects(&Event::PermitGranted));
    assert!(!s.expects(&Event::SendFailed));
    match s.on_event(Event::PermitGranted) {
        Action::Send { url, body } => {
            assert_eq!(url, "http://ollama:11434/api/generate");
            assert_eq!(body, "{\"model\":\"tinyllama\",\"prompt\":\"say \\\"hi\\\"\",\"stream\":false}");
        }
        _ => panic!("expected a send"),
    }
    assert_eq!(s.phase, Phase::AwaitingBackend);
    assert!(!s.expects(&Event::PermitGranted));
}

#[test]
fn finished_session_expects_nothing() {
    let mut s = ChatSession::new("h", &request("p"));
    s.on_event(Event::PermitGranted);
    s.on_event(Event::SendFailed);
    assert!(!s.expects(&Event::PermitGranted));
    assert!(!s.expects(&Event::BodyFailed));
    assert!(!s.expects(&Event::BodyRead(vec![])));
}

#[test]
fn limiter_admits_one_call_at_a_time() {
    let slot = tokio::sync::Semaphore::new(LIMITER_CAPACITY);
    let mut a = ChatSession::new("h", &request("a"));
    let mut b = ChatSession::new("h", &request("b"));
    let permit_a = slot.try_acquire().expect("slot is free");
    a.on_event(Event::PermitGranted);
    assert!(slot.try_acquire().is_err());
    assert_eq!(b.phase, Phase::AwaitingPermit);
    let done = a.on_event(Event::SendFailed);
    assert!(matches!(done, Action::Respond { .. }));
    drop(permit_a);
    let permit_b = slot.try_acquire().expect("slot was given back");
    assert!(matches!(b.on_event(Event::PermitGranted), Action::Send { .. }));
    drop(permit_b);
    assert_eq!(slot.available_permits(), 1);
}

#[test]
fn readiness_check_waits_for_first_success() {
    let polls = [Poll::Unreachable, Poll::Status(503), Poll::Status(404), Poll::Status(200), Poll::Unreachable];
    let mut count = 0;
    let mut waited_ms = 0;
    for p in polls.iter() {
        count += 1;
        match decide_after_poll(*p) {
            StartupAction::Proceed => break,
            StartupAction::Retry { delay_ms } => waited_ms += delay_ms,
        }
    }
    assert_eq!(count, 4);
    assert_eq!(waited_ms, 3000);
}

#[test]
fn readiness_check_retries_with_one_second_pause() {
    assert_eq!(decide_after_poll(Poll::Unreachable), StartupAction::Retry { delay_ms: 1000 });
    assert_eq!(decide_after_poll(Poll::Status(500)), StartupAction::Retry { delay_ms: RETRY_DELAY_MS });
    assert_eq!(decide_after_poll(Poll::Status(204)), StartupAction::Proceed);
}

#[test]
fn success_range_edges() {
    assert!(!is_success(199));
    assert!(is_success(200));
    assert!(is_success(299));
    assert!(!is_success(300));
    assert!(!is_success(0));
    assert!(!is_success(u16::MAX));
}

#[test]
fn host_defaults_when_unset() {
    assert_eq!(backend_host(None), DEFAULT_HOST);
    assert_eq!(backend_host(None), "http://ollama:11434");
    assert_eq!(backend_host(Some("http://10.0.0.2:9000".to_string())), "http://10.0.0.2:9000");
}

#[test]
fn endpoint_urls() {
    assert_eq!(generate_url("http://ollama:11434"), "http://ollama:11434/api/generate");
    assert_eq!(tags_url("http://ollama:11434"), "http://ollama:11434/api/tags");
    assert_eq!(generate_url(""), "/api/generate");
}

#[test]
fn backend_request_fixes_model_and_stream() {
    let b = BackendRequest::from_chat(&request("tell me a joke"));
    assert_eq!(b.model, "tinyllama");
    assert_eq!(b.prompt, "tell me a joke");
    assert!(!b.stream);
    assert_eq!(b.to_json(), "{\"model\":\"tinyllama\",\"prompt\":\"tell me a joke\",\"stream\":false}");
    let s = BackendRequest { model: "m".to_string(), prompt: "".to_string(), stream: true };
    assert_eq!(s.to_json(), "{\"model\":\"m\",\"prompt\":\"\",\"stream\":true}");
}

#[test]
fn empty_prompt_is_forwarded() {
    let b = BackendRequest::from_chat(&request(""));
    assert_eq!(b.to_json(), "{\"model\":\"tinyllama\",\"prompt\":\"\",\"stream\":false}");
}

#[test]
fn chat_response_escapes_text() {
    let r = ChatResponse { response: "line\nwith \"quotes\"".to_string() };
    assert_eq!(r.to_json(), "{\"response\":\"line\\nwith \\\"quotes\\\"\"}");
    let e = ChatResponse { response: String::new() };
    assert_eq!(e.to_json(), "{\"response\":\"\"}");
}

#[test]
fn json_string_quotes_and_escapes() {
    assert_eq!(json_string("hi"), "\"hi\"");
    assert_eq!(json_string("a\\b"), "\"a\\\\b\"");
    assert_eq!(json_string(""), "\"\"");
}

#[test]
fn compact_json_rewrites_spacing() {
    assert_eq!(compact_json(b"{ \"text\" : \"hi\" }"), Some("{\"text\":\"hi\"}".to_string()));
    assert_eq!(compact_json(b"[1, 2,\n 3]"), Some("[1,2,3]".to_string()));
    assert_eq!(compact_json(b"oops"), None);
    assert_eq!(compact_json(b""), None);
    assert_eq!(compact_json(b"{\"a\":1} trailing"), None);
}

#[test]
fn outcome_of_body_tells_json_from_other() {
    assert!(matches!(outcome_of_body(b"{\"text\":\"hi\"}"), BackendOutcome::Json(t) if t == "{\"text\":\"hi\"}"));
    assert!(matches!(outcome_of_body(b"<html>"), BackendOutcome::Unparsable));
}

#[test]
fn response_for_each_outcome() {
    assert_eq!(response_for(BackendOutcome::TransportFailed).response, "Failed to contact Ollama");
    assert_eq!(response_for(BackendOutcome::Unparsable).response, "Invalid response from Ollama");
    assert_eq!(response_for(BackendOutcome::Json("42".to_string())).response, "42");
}
