use chat_client::model::{ChatMessage, RequestBody};
use chat_client::request::{build_request_body, decode_request_body, render_request_body};

#[test]
fn render_simple_body() {
    let body = build_request_body(String::from("Hello"));
    let text = render_request_body(&body);
    assert_eq!(
        text,
        "{\"model\":\"gpt-3.5-turbo\",\"messages\":[{\"role\":\"user\",\"content\":\"Hello\"}]}"
    );
}

#[test]
fn render_empty_question() {
    let body = build_request_body(String::new());
    let text = render_request_body(&body);
    assert_eq!(
        text,
        "{\"model\":\"gpt-3.5-turbo\",\"messages\":[{\"role\":\"user\",\"content\":\"\"}]}"
    );
}

#[test]
fn render_escapes_quotes_backslashes_and_controls() {
    let body = build_request_body(String::from("a\"b\\c\nd"));
    let text = render_request_body(&body);
    assert_eq!(
        text,
        "{\"model\":\"gpt-3.5-turbo\",\"messages\":[{\"role\":\"user\",\"content\":\"a\\\"b\\\\c\\u000ad\"}]}"
    );
}

#[test]
fn roundtrip_single_message() {
    let body = build_request_body(String::from("What is a monad?"));
    let text = render_request_body(&body);
    let back = decode_request_body(&text).expect("serialized body must parse");
    assert_eq!(back, body);
}

#[test]
fn roundtrip_several_messages_with_special_characters() {
    let body = RequestBody {
        model: String::from("gpt-3.5-turbo"),
        messages: vec![
            ChatMessage {
                role: String::from("system"),
                content: String::from("You are \"helpful\".\n\tIndeed."),
            },
            ChatMessage { role: String::from("user"), content: String::from("caf\u{e9} \u{1f600}") },
            ChatMessage { role: String::from("assistant"), content: String::from("") },
        ],
    };
    let text = render_request_body(&body);
    let back = decode_request_body(&text).expect("serialized body must parse");
    assert_eq!(back, body);
}

#[test]
fn roundtrip_empty_message_list() {
    let body = RequestBody { model: String::from("gpt-3.5-turbo"), messages: Vec::new() };
    let text = render_request_body(&body);
    assert_eq!(text, "{\"model\":\"gpt-3.5-turbo\",\"messages\":[]}");
    let back = decode_request_body(&text).expect("serialized body must parse");
    assert_eq!(back, body);
}

#[test]
fn decode_rejects_trailing_garbage() {
    let text = "{\"model\":\"m\",\"messages\":[]} ";
    assert!(decode_request_body(text).is_none());
}

#[test]
fn decode_rejects_missing_messages_field() {
    let text = "{\"model\":\"m\"}";
    assert!(decode_request_body(text).is_none());
}
