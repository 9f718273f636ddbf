use chat_client::response::decode_response;

fn wellformed() -> String {
    String::from("{\"id\":\"chatcmpl-1\",\"object\":\"chat.completion\",\"model\":\"gpt-3.5-turbo\",\"usage\":{\"prompt_tokens\":5,\"completion_tokens\":7,\"total_tokens\":12},\"choices\":[{\"message\":{\"role\":\"assistant\",\"content\":\"Hi there\"},\"finish_reason\":\"stop\",\"index\":0}]}")
}

#[test]
fn parse_wellformed_response() {
    let r = decode_response(&wellformed()).expect("well-formed response must parse");
    assert_eq!(r.id, "chatcmpl-1");
    assert_eq!(r.object, "chat.completion");
    assert_eq!(r.model, "gpt-3.5-turbo");
    assert_eq!(r.usage.prompt_tokens, 5);
    assert_eq!(r.usage.completion_tokens, 7);
    assert_eq!(r.usage.total_tokens, 12);
    assert_eq!(r.choices.len(), 1);
    assert_eq!(r.choices[0].message.role, "assistant");
    assert_eq!(r.choices[0].message.content, "Hi there");
    assert_eq!(r.choices[0].finish_reason, "stop");
    assert_eq!(r.choices[0].index, 0);
}

#[test]
fn parsing_twice_yields_equal_values() {
    let text = wellformed();
    let first = decode_response(&text).expect("well-formed response must parse");
    let second = decode_response(&text).expect("well-formed response must parse");
    assert_eq!(first, second);
}

#[test]
fn missing_usage_is_rejected() {
    let text = "{\"id\":\"chatcmpl-1\",\"object\":\"chat.completion\",\"model\":\"gpt-3.5-turbo\",\"choices\":[{\"message\":{\"role\":\"assistant\",\"content\":\"Hi\"},\"finish_reason\":\"stop\",\"index\":0}]}";
    assert!(decode_response(text).is_none());
}

#[test]
fn inconsistent_usage_is_rejected() {
    let text = "{\"id\":\"chatcmpl-1\",\"object\":\"chat.completion\",\"model\":\"gpt-3.5-turbo\",\"usage\":{\"prompt_tokens\":5,\"completion_tokens\":7,\"total_tokens\":13},\"choices\":[{\"message\":{\"role\":\"assistant\",\"content\":\"Hi\"},\"finish_reason\":\"stop\",\"index\":0}]}";
    assert!(decode_response(text).is_none());
}

#[test]
fn missing_choices_is_rejected() {
    let text = "{\"id\":\"chatcmpl-1\",\"object\":\"chat.completion\",\"model\":\"gpt-3.5-turbo\",\"usage\":{\"prompt_tokens\":5,\"completion_tokens\":7,\"total_tokens\":12}}";
    assert!(decode_response(text).is_none());
}

#[test]
fn empty_choice_list_parses() {
    let text = "{\"id\":\"x\",\"object\":\"chat.completion\",\"model\":\"m\",\"usage\":{\"prompt_tokens\":0,\"completion_tokens\":0,\"total_tokens\":0},\"choices\":[]}";
    let r = decode_response(text).expect("empty choices are a valid shape");
    assert_eq!(r.choices.len(), 0);
    assert!(r.first_choice_content().is_none());
}

#[test]
fn several_choices_parse_in_order() {
    let text = "{\"id\":\"x\",\"object\":\"chat.completion\",\"model\":\"m\",\"usage\":{\"prompt_tokens\":1,\"completion_tokens\":2,\"total_tokens\":3},\"choices\":[{\"message\":{\"role\":\"assistant\",\"content\":\"first\"},\"finish_reason\":\"stop\",\"index\":0},{\"message\":{\"role\":\"assistant\",\"content\":\"second\"},\"finish_reason\":\"length\",\"index\":1}]}";
    let r = decode_response(text).expect("two choices must parse");
    assert_eq!(r.choices.len(), 2);
    assert_eq!(r.choices[0].message.content, "first");
    assert_eq!(r.choices[1].message.content, "second");
    assert_eq!(r.choices[1].index, 1);
}

#[test]
fn escapes_in_response_strings_are_decoded() {
    let text = "{\"id\":\"x\",\"object\":\"chat.completion\",\"model\":\"m\",\"usage\":{\"prompt_tokens\":0,\"completion_tokens\":0,\"total_tokens\":0},\"choices\":[{\"message\":{\"role\":\"assistant\",\"content\":\"a\\\"b\\\\c\\nd\\u0041e\"},\"finish_reason\":\"stop\",\"index\":0}]}";
    let r = decode_response(text).expect("escaped strings must parse");
    assert_eq!(r.choices[0].message.content, "a\"b\\c\ndAe");
}

#[test]
fn token_count_beyond_32_bits_is_rejected() {
    let text = "{\"id\":\"x\",\"object\":\"chat.completion\",\"model\":\"m\",\"usage\":{\"prompt_tokens\":99999999999,\"completion_tokens\":0,\"total_tokens\":99999999999},\"choices\":[]}";
    assert!(decode_response(text).is_none());
}

#[test]
fn lone_surrogate_escape_is_rejected() {
    let text = "{\"id\":\"\\ud800\",\"object\":\"chat.completion\",\"model\":\"m\",\"usage\":{\"prompt_tokens\":0,\"completion_tokens\":0,\"total_tokens\":0},\"choices\":[]}";
    assert!(decode_response(text).is_none());
}

#[test]
fn whitespace_between_tokens_is_accepted() {
    let pretty = "{\n  \"id\": \"chatcmpl-1\",\n  \"object\": \"chat.completion\",\n  \"model\": \"gpt-3.5-turbo\",\n  \"usage\": {\n    \"prompt_tokens\": 5,\n    \"completion_tokens\": 7,\n    \"total_tokens\": 12\n  },\n  \"choices\": [\r\n    {\n      \"message\": {\n        \"role\": \"assistant\",\n        \"content\": \"Hi there\"\n      },\n      \"finish_reason\": \"stop\",\n      \"index\": 0\n    }\n  ]\n}\n";
    let canonical = decode_response(&wellformed()).expect("well-formed response must parse");
    let spaced = decode_response(pretty).expect("pretty-printed response must parse");
    assert_eq!(spaced, canonical);
}

#[test]
fn a_single_space_after_a_colon_is_accepted() {
    let text = "{\"id\": \"x\",\"object\":\"chat.completion\",\"model\":\"m\",\"usage\":{\"prompt_tokens\":0,\"completion_tokens\":0,\"total_tokens\":0},\"choices\":[]}";
    assert!(decode_response(text).is_some());
}

#[test]
fn whitespace_inside_string_values_is_kept() {
    let text = "{\"id\":\" a b \",\"object\":\"o\",\"model\":\"m\",\"usage\":{\"prompt_tokens\":0,\"completion_tokens\":0,\"total_tokens\":0},\"choices\":[]}";
    let r = decode_response(text).expect("string values keep their spaces");
    assert_eq!(r.id, " a b ");
}

#[test]
fn whitespace_does_not_split_a_member_name() {
    let text = "{\"id \":\"x\",\"object\":\"o\",\"model\":\"m\",\"usage\":{\"prompt_tokens\":0,\"completion_tokens\":0,\"total_tokens\":0},\"choices\":[]}";
    assert!(decode_response(text).is_none());
}

#[test]
fn not_json_is_rejected() {
    assert!(decode_response("").is_none());
    assert!(decode_response("hello").is_none());
    assert!(decode_response("{}").is_none());
}
