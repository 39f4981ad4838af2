use std::sync::Arc;

use http::HeaderMap;

use agentic_gateway::chat_completions::{
    chat_completions, fold_under_load, session_id, Fold, Folded, Forwarding, Pending, Step,
    UPSTREAM_PATH,
};
use agentic_gateway::compaction::{address_from_env, compact, request_body, succeeded, Answer};
use agentic_gateway::error::{StorageError, StoreResult};
use agentic_gateway::json::Json;
use agentic_gateway::pool_signals::{PoolSignals, Thresholds};
use agentic_gateway::session_prefix::{found, SessionPrefix, SessionPrefixData, SessionPrefixStore};
use agentic_gateway::wire::{parse, render};

fn json(text: &str) -> Json {
    parse(text.as_bytes()).expect("valid json")
}

fn shown(json: &Json) -> String {
    render(json).expect("rendered")
}

fn message(role: &str, content: &str) -> Json {
    json(&format!(r#"{{"role":"{role}","content":"{content}"}}"#))
}

fn body(messages: &[Json]) -> Vec<u8> {
    let messages: Vec<String> = messages.iter().map(shown).collect();
    format!(r#"{{"model":"test-model","messages":[{}],"seed":7}}"#, messages.join(",")).into_bytes()
}

fn headers(session: Option<&str>) -> HeaderMap {
    let mut headers = HeaderMap::new();
    if let Some(session) = session {
        headers.insert("x-session-id", session.parse().unwrap());
    }
    headers
}

fn pending(step: Step) -> Pending {
    match step {
        Step::LookUp(pending) => pending,
        Step::Forward(_) => panic!("the request names a session"),
    }
}

fn sent(forwarding: &Forwarding) -> Vec<String> {
    let body = parse(&forwarding.body).expect("valid json");
    let messages = body.get("messages").and_then(Json::as_array).expect("messages").clone();
    messages
        .iter()
        .map(|message| message.get("content").and_then(Json::as_str).expect("text").to_owned())
        .collect()
}

/// One turn against a stored prefix: what is forwarded and what is folded afterwards.
fn turn(
    session: &str,
    messages: &[Json],
    lookup: StoreResult<Option<SessionPrefixData>>,
) -> (Vec<String>, Fold) {
    let forwarding = pending(chat_completions(&headers(Some(session)), body(messages))).found(lookup);
    (sent(&forwarding), forwarding.answered(200).expect("served"))
}

fn prefix(replaced_count: usize, replacement: Vec<Json>) -> StoreResult<Option<SessionPrefixData>> {
    Ok(Some(SessionPrefixData { replaced_count, replacement }))
}

/// Writes a folded history and reads it back.
fn stored(folded: &Folded) -> StoreResult<Option<SessionPrefixData>> {
    let store = SessionPrefixStore::new(Arc::new(()));
    let write = store
        .upsert(&folded.session, folded.replaced_count, &folded.replacement)
        .expect("a database");
    found(Ok(Some(write.row)))
}

#[test]
fn disabled_store_reports_not_configured() {
    let store = SessionPrefixStore::<()>::disabled();

    assert!(store.get("s-1").is_err());
    assert!(store.upsert("s-1", 2, &[]).is_err());
    assert!(matches!(store.get("s-1"), Err(StorageError::NotConfigured)));
}

#[test]
fn a_lookup_names_the_database_and_the_session() {
    let pool = Arc::new(42);
    let store = SessionPrefixStore::new(Arc::clone(&pool));
    let lookup = store.get("s-1").expect("a database");
    assert!(Arc::ptr_eq(lookup.pool, &pool));
    assert_eq!(lookup.session_id, "s-1");
}

#[test]
fn a_write_holds_the_replacement_as_json() {
    let store = SessionPrefixStore::new(Arc::new(()));
    let write = store.upsert("s-1", 2, &[message("system", "FOLDED")]).expect("a database");
    assert_eq!(write.row.session_id, "s-1");
    assert_eq!(write.row.replaced_count, 2);
    assert_eq!(write.row.replacement, r#"[{"content":"FOLDED","role":"system"}]"#);
    let write = store.upsert("s-1", usize::MAX, &[]).expect("a database");
    assert_eq!(write.row.replaced_count, i64::MAX);
    assert_eq!(write.row.replacement, "[]");
}

#[test]
fn what_is_written_is_read_back() {
    let folded = Folded {
        session: "s-1".to_owned(),
        replaced_count: 3,
        replacement: vec![message("system", "FOLDED"), json(r#"[1, null, {"a": -2}]"#)],
    };
    let data = stored(&folded).expect("readable").expect("an entry");
    assert_eq!(data.replaced_count, 3);
    assert_eq!(data.replacement.len(), 2);
    assert_eq!(shown(&data.replacement[0]), shown(&folded.replacement[0]));
    assert_eq!(shown(&data.replacement[1]), r#"[1,null,{"a":-2}]"#);
}

fn row(replaced_count: i64, replacement: &str) -> Result<Option<SessionPrefix>, String> {
    Ok(Some(SessionPrefix {
        session_id: "s-1".to_owned(),
        replaced_count,
        replacement: replacement.to_owned(),
    }))
}

#[test]
fn a_corrupted_count_replaces_nothing() {
    for (count, read) in [(-1, 0), (i64::MIN, 0), (0, 0), (5, 5)] {
        let data = found(row(count, "[]")).expect("readable").expect("an entry");
        assert_eq!(data.replaced_count, read);
    }
}

#[test]
fn each_failure_of_a_lookup_is_told_apart() {
    assert!(matches!(found(Ok(None)), Ok(None)));
    assert!(matches!(found(Err("down".to_owned())), Err(StorageError::Database(text)) if text == "down"));
    assert!(matches!(found(row(1, "[")), Err(StorageError::Json(_))));
    assert!(matches!(found(row(1, "{}")), Err(StorageError::Json(_))));
    assert!(matches!(found(row(1, "null")), Err(StorageError::Json(_))));
    assert!(matches!(found(row(1, " \t\r\n[]")), Ok(Some(_))));
    let disguised = r#"{"$serde_json::private::RawValue":"[]"}"#;
    assert!(matches!(found(row(1, disguised)), Err(StorageError::Json(_))));
    assert!(matches!(found(row(1, &format!("[{disguised}]"))), Ok(Some(_))));
}

#[test]
fn without_a_session_header_the_request_is_forwarded_untouched() {
    let sent = body(&[message("user", "hello")]);
    match chat_completions(&headers(None), sent.clone()) {
        Step::Forward(forwarding) => {
            assert_eq!(forwarding.body, sent);
            assert!(forwarding.answered(200).is_none());
        }
        Step::LookUp(_) => panic!("no session is named"),
    }
}

#[test]
fn a_first_turn_is_forwarded_whole_and_folded() {
    let sent = body(&[message("user", "hello")]);
    let pending = pending(chat_completions(&headers(Some("s-1")), sent.clone()));
    assert_eq!(pending.turn.session, "s-1");
    let forwarding = pending.found(Ok(None));
    assert_eq!(forwarding.body, sent);

    let folded = forwarding.answered(200).expect("served").finish(None);
    assert_eq!(folded.session, "s-1");
    assert_eq!(folded.replaced_count, 1);
    assert_eq!(folded.replacement.len(), 1);
}

#[test]
fn a_stored_prefix_replaces_the_leading_messages() {
    let history = [message("user", "one"), message("assistant", "two"), message("user", "three")];
    let (sent, _) = turn("s-2", &history, prefix(2, vec![message("system", "FOLDED")]));
    assert_eq!(sent.len(), 2, "expected replacement + tail");
    assert_eq!(sent[0], "FOLDED");
    assert_eq!(sent[1], "three");
}

#[test]
fn a_shorter_history_than_stored_is_forwarded_untouched() {
    let history = [message("user", "one"), message("user", "two")];
    let (sent, _) = turn("s-3", &history, prefix(5, vec![message("system", "FOLDED")]));
    assert_eq!(sent, ["one", "two"]);
    let (sent, _) = turn("s-3", &history, prefix(2, vec![message("system", "FOLDED")]));
    assert_eq!(sent, ["one", "two"]);
}

#[test]
fn a_compactor_shrinks_what_is_stored() {
    let history = [message("user", "one"), message("assistant", "two"), message("user", "three")];
    let (_, fold) = turn("s-5", &history, Ok(None));
    let asked = json(&fold.request().expect("encoded"));
    assert_eq!(asked.get("model").and_then(Json::as_str), Some("test-model"));
    assert_eq!(asked.get("messages").and_then(Json::as_array).map(Vec::len), Some(3));

    let answer = Answer {
        status: 200,
        body: Some(br#"{"model":"m","messages":[{"role":"system","content":"FOLDED BY COMPACTOR"}]}"#.to_vec()),
    };
    let folded = fold.finish(compact(Some(answer)));
    assert_eq!(folded.replaced_count, 3);
    assert_eq!(folded.replacement.len(), 1);
    assert_eq!(
        folded.replacement[0].get("content").and_then(Json::as_str),
        Some("FOLDED BY COMPACTOR")
    );
}

#[test]
fn without_a_compactor_the_history_is_stored_as_it_is() {
    let (_, fold) = turn("s-6", &[message("user", "one")], Ok(None));
    let folded = fold.finish(compact(None));
    assert_eq!(folded.replaced_count, 1);
    assert_eq!(folded.replacement.len(), 1, "expected the unmodified history");
}

#[test]
fn each_turn_is_folded_whole() {
    let (sent, fold) = turn("s-4", &[message("user", "one")], Ok(None));
    assert_eq!(sent, ["one"]);
    let folded = fold.finish(None);
    assert_eq!(folded.replaced_count, 1);

    let history = [message("user", "one"), message("assistant", "mock reply"), message("user", "two")];
    let (sent, fold) = turn("s-4", &history, stored(&folded));
    assert_eq!(sent, ["one", "mock reply", "two"]);
    assert_eq!(fold.finish(None).replaced_count, 3);
}

#[test]
fn a_compacted_fold_is_sent_with_the_next_turn() {
    let (_, fold) = turn("s-7", &[message("user", "one"), message("user", "two")], Ok(None));
    let folded = fold.finish(Some(vec![message("system", "both")]));
    let history = [message("user", "one"), message("user", "two"), message("user", "three")];
    let (sent, _) = turn("s-7", &history, stored(&folded));
    assert_eq!(sent, ["both", "three"]);
}

#[test]
fn only_the_messages_are_rewritten() {
    let forwarding = pending(chat_completions(
        &headers(Some("s-1")),
        body(&[message("user", "one"), message("user", "two")]),
    ))
    .found(prefix(1, vec![]));
    let forwarded = parse(&forwarding.body).expect("valid json");
    assert_eq!(
        shown(&forwarded),
        r#"{"messages":[{"content":"two","role":"user"}],"model":"test-model","seed":7}"#
    );
}

#[test]
fn a_failed_lookup_does_not_fail_the_request() {
    let sent = body(&[message("user", "one")]);
    for failure in [
        StorageError::NotConfigured,
        StorageError::Json(parse(b"[").unwrap_err()),
        StorageError::Database("down".to_owned()),
    ] {
        let forwarding = pending(chat_completions(&headers(Some("s")), sent.clone())).found(Err(failure));
        assert_eq!(forwarding.body, sent);
        assert!(forwarding.answered(200).is_some());
    }
}

#[test]
fn a_failed_call_is_not_folded() {
    for (status, folds) in [(199, false), (200, true), (204, true), (299, true), (300, false), (500, false)] {
        let forwarding =
            pending(chat_completions(&headers(Some("s")), body(&[message("user", "one")]))).found(Ok(None));
        assert_eq!(forwarding.answered(status).is_some(), folds, "{status}");
        assert_eq!(succeeded(status), folds);
    }
}

#[test]
fn requests_without_messages_take_no_part() {
    for text in ["not json", "[]", r#"{"model":"m"}"#, r#"{"messages":"hi"}"#, r#"{"messages":{}}"#] {
        match chat_completions(&headers(Some("s")), text.as_bytes().to_vec()) {
            Step::Forward(forwarding) => assert_eq!(forwarding.body, text.as_bytes()),
            Step::LookUp(_) => panic!("{text} holds no messages"),
        }
    }
}

#[test]
fn an_empty_list_of_messages_takes_part() {
    let (sent, fold) = turn("s", &[], prefix(0, vec![message("system", "FOLDED")]));
    assert!(sent.is_empty());
    assert_eq!(fold.finish(None).replaced_count, 0);
}

#[test]
fn a_model_that_is_not_named_is_empty() {
    let step = chat_completions(&headers(Some("s")), br#"{"messages":[],"model":3}"#.to_vec());
    let fold = pending(step).found(Ok(None)).answered(200).expect("served");
    assert_eq!(fold.model, "");
}

#[test]
fn a_session_is_named_by_visible_text() {
    assert_eq!(session_id(&headers(Some("  s-1\t"))).as_deref(), Some("s-1"));
    assert_eq!(session_id(&headers(Some(" "))), None);
    assert_eq!(session_id(&headers(None)), None);
    let mut strange = HeaderMap::new();
    strange.insert("x-session-id", http::HeaderValue::from_bytes(b"s\xff").unwrap());
    assert_eq!(session_id(&strange), None);
    let mut twice = HeaderMap::new();
    twice.append("X-Session-Id", "first".parse().unwrap());
    twice.append("x-session-id", "second".parse().unwrap());
    assert_eq!(session_id(&twice).as_deref(), Some("first"));
    assert_eq!(UPSTREAM_PATH, "/v1/chat/completions");
}

#[test]
fn the_address_of_the_compactor_may_be_left_out() {
    assert_eq!(address_from_env(None), None);
    assert_eq!(address_from_env(Some(" \n")), None);
    assert_eq!(
        address_from_env(Some(" http://context-guru:4000/compact ")).as_deref(),
        Some("http://context-guru:4000/compact")
    );
}

#[test]
fn a_compaction_request_holds_the_model_and_the_messages() {
    assert_eq!(
        request_body("m", &[message("user", "one")]).as_deref(),
        Some(r#"{"messages":[{"content":"one","role":"user"}],"model":"m"}"#)
    );
}

#[test]
fn an_unusable_answer_of_the_compactor_is_dropped() {
    let answer = |status: u16, body: Option<&str>| {
        compact(Some(Answer { status, body: body.map(|text| text.as_bytes().to_vec()) }))
    };
    let usable = r#"{"messages":["x"]}"#;
    assert_eq!(answer(200, Some(usable)).map(|messages| messages.len()), Some(1));
    assert!(answer(500, Some(usable)).is_none());
    assert!(answer(302, Some(usable)).is_none());
    assert!(answer(200, None).is_none());
    assert!(answer(200, Some("not json")).is_none());
    assert!(answer(200, Some(r#"{"messages":[]}"#)).is_none());
    assert!(answer(200, Some(r#"{"messages":"x"}"#)).is_none());
    assert!(answer(200, Some(r#"["x"]"#)).is_none());
}

#[test]
fn thresholds_limit_folding_to_a_busy_backend() {
    let fold = || Some(turn("s", &[message("user", "one")], Ok(None)).1);
    let load = |queue: u64| PoolSignals { waiting_queue: Some(queue), ..PoolSignals::default() };
    let thresholds = Thresholds { waiting_queue: Some(10), ..Thresholds::default() };
    assert!(fold_under_load(fold(), &thresholds, Some(&load(9))).is_none());
    assert!(fold_under_load(fold(), &thresholds, Some(&load(10))).is_some());
    assert!(fold_under_load(fold(), &thresholds, None).is_some());
    assert!(fold_under_load(fold(), &Thresholds::default(), Some(&load(0))).is_some());
    assert!(fold_under_load(None, &Thresholds::default(), None).is_none());
}

/// The table, as the database keeps it: one row for each session.
fn insert_or_replace(table: &mut Vec<SessionPrefix>, row: SessionPrefix) {
    table.retain(|kept| kept.session_id != row.session_id);
    table.push(row);
}

#[test]
fn a_read_gives_back_the_last_write_to_its_session() {
    let store = SessionPrefixStore::new(Arc::new(()));
    let mut table: Vec<SessionPrefix> = Vec::new();
    for (session, count, text) in [("a", 1, "one"), ("b", 2, "two"), ("a", 3, "three"), ("c", 4, "four")] {
        let write = store.upsert(session, count, &[message("system", text)]).expect("a database");
        insert_or_replace(&mut table, write.row);
    }
    let mut read = |session: &str| {
        let lookup = store.get(session).expect("a database");
        let place = table.iter().position(|row| row.session_id == lookup.session_id);
        found(Ok(place.map(|place| table.remove(place)))).expect("readable")
    };
    let a = read("a").expect("an entry");
    assert_eq!(a.replaced_count, 3);
    assert_eq!(a.replacement[0].get("content").and_then(Json::as_str), Some("three"));
    assert_eq!(read("b").expect("an entry").replaced_count, 2);
    assert!(read("never").is_none());
}

#[test]
fn a_fraction_that_survives_is_read_back() {
    let folded = Folded {
        session: "s-1".to_owned(),
        replaced_count: 1,
        replacement: vec![json(r#"{"score":0.5}"#)],
    };
    let data = stored(&folded).expect("readable").expect("an entry");
    assert_eq!(data.replaced_count, 1);
    assert_eq!(shown(&data.replacement[0]), r#"{"score":0.5}"#);
}
