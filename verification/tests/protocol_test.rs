use agentic_gateway::protocol::UpstreamApi;

#[test]
fn parses_known_names() {
    assert_eq!("responses".parse::<UpstreamApi>().unwrap(), UpstreamApi::Responses);
    assert_eq!(
        "chat_completions".parse::<UpstreamApi>().unwrap(),
        UpstreamApi::ChatCompletions
    );
    assert_eq!(
        "Chat-Completions".parse::<UpstreamApi>().unwrap(),
        UpstreamApi::ChatCompletions
    );
}

#[test]
fn rejects_unknown_names() {
    assert!("completions".parse::<UpstreamApi>().is_err());
}

#[test]
fn paths_match_protocol() {
    assert_eq!(UpstreamApi::Responses.inference_path(), "/v1/responses");
    assert_eq!(UpstreamApi::ChatCompletions.inference_path(), "/v1/chat/completions");
}

#[test]
fn default_is_responses() {
    assert_eq!(UpstreamApi::default(), UpstreamApi::Responses);
}

#[test]
fn names_are_read_without_regard_to_case_and_spaces() {
    assert_eq!(UpstreamApi::parse(" CHAT\t"), Ok(UpstreamApi::ChatCompletions));
    assert_eq!(UpstreamApi::parse("\u{3000}Responses\n"), Ok(UpstreamApi::Responses));
    assert!(UpstreamApi::parse("chat completions").is_err());
    assert!(UpstreamApi::parse("").is_err());
}

#[test]
fn an_unknown_name_is_quoted_in_its_canonical_form() {
    assert_eq!(
        UpstreamApi::parse(" My-API ").unwrap_err(),
        "unknown upstream API 'my_api' (expected 'responses' or 'chat_completions')"
    );
}

#[test]
fn every_protocol_is_found_by_its_name() {
    for api in [UpstreamApi::Responses, UpstreamApi::ChatCompletions] {
        assert_eq!(UpstreamApi::parse(api.name()), Ok(api));
    }
}

#[test]
fn only_one_protocol_is_chat_completions() {
    assert!(UpstreamApi::ChatCompletions.is_chat_completions());
    assert!(!UpstreamApi::Responses.is_chat_completions());
}
