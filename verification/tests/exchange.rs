use chat_client::error::RequestError;
use chat_client::exchange::{evaluate_outcome, prepare_from_line, prepare_request, TransportEvent};
use chat_client::Credential;

fn test_credential() -> Credential {
    Credential::from_env_value(Some(String::from("sk-test"))).expect("non-empty token is accepted")
}

#[test]
fn absent_credential_is_a_configuration_error() {
    let r = Credential::from_env_value(None);
    assert!(matches!(r, Err(RequestError::Configuration)));
}

#[test]
fn empty_credential_is_a_configuration_error() {
    let r = Credential::from_env_value(Some(String::new()));
    assert!(matches!(r, Err(RequestError::Configuration)));
}

#[test]
fn nonempty_credential_is_accepted() {
    let c = Credential::from_env_value(Some(String::from("sk-live-123"))).expect(
        "non-empty token is accepted",
    );
    assert_eq!(c.token().as_str(), "sk-live-123");
}

#[test]
fn prepared_request_has_endpoint_header_and_payload() {
    let cred = test_credential();
    let p = prepare_from_line("Hello\n", &cred);
    assert_eq!(p.url, "https://api.openai.com/v1/chat/completions");
    assert_eq!(p.auth_header, "Bearer sk-test");
    assert_eq!(
        p.body_text,
        "{\"model\":\"gpt-3.5-turbo\",\"messages\":[{\"role\":\"user\",\"content\":\"Hello\"}]}"
    );
}

#[test]
fn line_terminator_variants_are_trimmed() {
    let cred = test_credential();
    let crlf = prepare_from_line("q\r\n", &cred);
    let bare = prepare_from_line("q", &cred);
    assert_eq!(crlf.body_text, bare.body_text);
    let spaced = prepare_from_line("q \n", &cred);
    assert_eq!(
        spaced.body_text,
        "{\"model\":\"gpt-3.5-turbo\",\"messages\":[{\"role\":\"user\",\"content\":\"q \"}]}"
    );
}

#[test]
fn empty_line_is_still_a_question() {
    let cred = test_credential();
    let p = prepare_request(String::new(), &cred);
    assert_eq!(
        p.body_text,
        "{\"model\":\"gpt-3.5-turbo\",\"messages\":[{\"role\":\"user\",\"content\":\"\"}]}"
    );
}

#[test]
fn only_the_configuration_error_is_fatal() {
    assert!(!RequestError::Configuration.is_recoverable());
    assert!(RequestError::Transport { detail: String::from("timeout") }.is_recoverable());
    assert!(RequestError::Protocol { status: 429 }.is_recoverable());
    assert!(RequestError::Decoding.is_recoverable());
}

#[test]
fn transport_failure_becomes_a_transport_error() {
    let ev = TransportEvent::Failed { detail: String::from("connection refused") };
    match evaluate_outcome(ev) {
        Err(RequestError::Transport { detail }) => assert_eq!(detail, "connection refused"),
        other => panic!("expected a transport error, got {:?}", other),
    }
}

#[test]
fn unauthorized_status_becomes_a_protocol_error() {
    let ev = TransportEvent::Responded { status: 401, body: String::from("{}") };
    assert!(matches!(evaluate_outcome(ev), Err(RequestError::Protocol { status: 401 })));
}

#[test]
fn server_error_status_becomes_a_protocol_error() {
    let ev = TransportEvent::Responded { status: 500, body: String::new() };
    assert!(matches!(evaluate_outcome(ev), Err(RequestError::Protocol { status: 500 })));
}

#[test]
fn success_with_wellformed_body_yields_the_choice() {
    let body = String::from("{\"id\":\"chatcmpl-1\",\"object\":\"chat.completion\",\"model\":\"gpt-3.5-turbo\",\"usage\":{\"prompt_tokens\":1,\"completion_tokens\":2,\"total_tokens\":3},\"choices\":[{\"message\":{\"role\":\"assistant\",\"content\":\"An empty question\"},\"finish_reason\":\"stop\",\"index\":0}]}");
    let ev = TransportEvent::Responded { status: 200, body };
    let r = evaluate_outcome(ev).expect("a well-formed success response is accepted");
    assert_eq!(r.first_choice_content(), Some(&String::from("An empty question")));
}

#[test]
fn success_with_whitespace_in_the_body_is_still_a_success() {
    let body = String::from("{ \"id\": \"chatcmpl-1\", \"object\": \"chat.completion\", \"model\": \"gpt-3.5-turbo\", \"usage\": { \"prompt_tokens\": 1, \"completion_tokens\": 2, \"total_tokens\": 3 }, \"choices\": [ { \"message\": { \"role\": \"assistant\", \"content\": \"Hi\" }, \"finish_reason\": \"stop\", \"index\": 0 } ] }");
    let ev = TransportEvent::Responded { status: 200, body };
    let r = evaluate_outcome(ev).expect("whitespace between tokens is insignificant");
    assert_eq!(r.first_choice_content(), Some(&String::from("Hi")));
}

#[test]
fn success_with_body_missing_choices_is_a_decoding_error() {
    let body = String::from("{\"id\":\"chatcmpl-1\",\"object\":\"chat.completion\",\"model\":\"gpt-3.5-turbo\",\"usage\":{\"prompt_tokens\":1,\"completion_tokens\":2,\"total_tokens\":3}}");
    let ev = TransportEvent::Responded { status: 200, body };
    assert!(matches!(evaluate_outcome(ev), Err(RequestError::Decoding)));
}

#[test]
fn success_with_inconsistent_usage_is_a_decoding_error() {
    let body = String::from("{\"id\":\"chatcmpl-1\",\"object\":\"chat.completion\",\"model\":\"gpt-3.5-turbo\",\"usage\":{\"prompt_tokens\":1,\"completion_tokens\":2,\"total_tokens\":4},\"choices\":[]}");
    let ev = TransportEvent::Responded { status: 200, body };
    assert!(matches!(evaluate_outcome(ev), Err(RequestError::Decoding)));
}
