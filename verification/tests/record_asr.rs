use volc_asr::asr::record::{App, PollOutcome, RecordAsrRequest, RecordAsrResponse, process_submit_response, poll_step};
use volc_asr::error::Error;
use volc_asr::json::JsonValue;
use volc_asr::types::Boolean;

fn obj(members: Vec<(&str, JsonValue)>) -> JsonValue {
    JsonValue::Obj(members.into_iter().map(|(k, v)| (k.to_string(), v)).collect())
}

fn s(v: &str) -> JsonValue {
    JsonValue::Str(v.to_string())
}

fn complete_builder() -> volc_asr::asr::record::RecordAsrRequestBuilder {
    RecordAsrRequest::builder()
        .appid("A".to_string())
        .token("T".to_string())
        .cluster("C".to_string())
        .uid("U".to_string())
        .url("http://x/y.mp3".to_string())
}

#[test]
fn build_fails_without_each_required_field() {
    assert_eq!(
        RecordAsrRequest::builder().build().unwrap_err(),
        Error::RequestBuild
    );
    let missing_url = RecordAsrRequest::builder()
        .appid("A".to_string())
        .token("T".to_string())
        .cluster("C".to_string())
        .uid("U".to_string());
    assert_eq!(missing_url.build().unwrap_err(), Error::RequestBuild);
    let missing_token = RecordAsrRequest::builder()
        .appid("A".to_string())
        .cluster("C".to_string())
        .uid("U".to_string())
        .url("u".to_string());
    assert_eq!(missing_token.build().unwrap_err(), Error::RequestBuild);
}

#[test]
fn build_with_only_required_omits_optional_blocks() {
    let q = complete_builder().build().unwrap();
    assert_eq!(q.app.appid, "A");
    assert_eq!(q.app.token, "T");
    assert_eq!(q.app.cluster, "C");
    assert_eq!(q.user.uid, "U");
    assert_eq!(q.audio.url, "http://x/y.mp3");
    assert!(q.audio.format.is_none());
    assert!(q.request.is_none());
    assert!(q.additions.is_none());
    assert_eq!(
        q.to_body(),
        "{\"app\":{\"appid\":\"A\",\"token\":\"T\",\"cluster\":\"C\"},\
         \"user\":{\"uid\":\"U\"},\
         \"audio\":{\"url\":\"http://x/y.mp3\"}}"
    );
}

#[test]
fn one_field_materializes_its_whole_group() {
    let q = complete_builder()
        .callback("http://cb".to_string())
        .build()
        .unwrap();
    let group = q.request.unwrap();
    assert_eq!(group.callback.as_deref(), Some("http://cb"));
    assert!(group.boosting_table_name.is_none());
    assert!(q.additions.is_none());

    let q2 = complete_builder()
        .use_punc(Boolean::True)
        .build()
        .unwrap();
    assert!(q2.request.is_none());
    let adds = q2.additions.unwrap();
    assert_eq!(adds.use_punc, Some(Boolean::True));
    assert!(adds.language.is_none());
    assert!(adds.use_itn.is_none());
}

#[test]
fn setters_take_last_write() {
    let q = complete_builder().appid("B".to_string()).build().unwrap();
    assert_eq!(q.app.appid, "B");
}

#[test]
fn optional_flags_reach_the_wire_form() {
    let q = complete_builder()
        .format("mp3".to_string())
        .use_punc(Boolean::True)
        .with_speaker_info(Boolean::False)
        .build()
        .unwrap();
    assert_eq!(
        q.to_body(),
        "{\"app\":{\"appid\":\"A\",\"token\":\"T\",\"cluster\":\"C\"},\
         \"user\":{\"uid\":\"U\"},\
         \"audio\":{\"url\":\"http://x/y.mp3\",\"format\":\"mp3\"},\
         \"additions\":{\"use_punc\":\"True\",\"with_speaker_info\":\"False\"}}"
    );
}

fn mock_app() -> App {
    App {
        appid: "A".to_string(),
        token: "T".to_string(),
        cluster: "C".to_string(),
    }
}

#[test]
fn submit_response_enriches_identity() {
    let body = obj(vec![(
        "resp",
        obj(vec![
            ("code", JsonValue::Int(1000)),
            ("message", s("Success")),
            ("id", s("J1")),
        ]),
    )]);
    let ack = process_submit_response(body, &mock_app()).unwrap();
    assert_eq!(ack.code, 1000);
    assert_eq!(ack.id, "J1");
    assert!(!ack.id.is_empty());
    assert_eq!(ack.appid, "A");
    assert_eq!(ack.token, "T");
    assert_eq!(ack.cluster, "C");
}

#[test]
fn submit_response_without_envelope_is_protocol_error() {
    let body = obj(vec![("code", JsonValue::Int(1000))]);
    assert_eq!(
        process_submit_response(body, &mock_app()).unwrap_err(),
        Error::UnexpectedResponseShape
    );
}

#[test]
fn submit_response_bad_shape_is_deserialization_error() {
    let body = obj(vec![("resp", obj(vec![("message", s("no code"))]))]);
    assert_eq!(
        process_submit_response(body, &mock_app()).unwrap_err(),
        Error::Deserialization
    );
}

fn pending_response() -> JsonValue {
    obj(vec![(
        "resp",
        obj(vec![
            ("code", JsonValue::Int(3000)),
            ("message", s("processing")),
            ("id", s("J")),
        ]),
    )])
}

fn ready_response() -> JsonValue {
    obj(vec![(
        "resp",
        obj(vec![
            ("code", JsonValue::Int(1000)),
            ("id", s("J")),
            ("text", s("hi")),
            ("utterances", JsonValue::Arr(vec![])),
        ]),
    )])
}

#[test]
fn poll_loop_retries_twice_then_returns_third_payload() {
    let responses = vec![pending_response(), pending_response(), ready_response()];
    let mut requests_issued = 0;
    let mut sleeps = 0;
    let mut result = None;
    for rep in responses {
        requests_issued += 1;
        match poll_step(rep).unwrap() {
            PollOutcome::NotReady => sleeps += 1,
            PollOutcome::Ready(res) => {
                result = Some(res);
                break;
            }
        }
    }
    assert_eq!(requests_issued, 3);
    assert_eq!(sleeps, 2);
    let res = result.unwrap();
    assert_eq!(res.id, "J");
    assert_eq!(res.text.as_deref(), Some("hi"));
    assert!(res.utterances.is_empty());
}

#[test]
fn poll_step_missing_envelope_fails() {
    let rep = obj(vec![("code", JsonValue::Int(1000))]);
    assert_eq!(poll_step(rep).unwrap_err(), Error::UnexpectedResponseShape);
}

#[test]
fn poll_step_malformed_ready_payload_fails() {
    let rep = obj(vec![(
        "resp",
        obj(vec![("code", JsonValue::Int(1000)), ("id", JsonValue::Int(7))]),
    )]);
    assert_eq!(poll_step(rep).unwrap_err(), Error::Deserialization);
}

#[test]
fn poll_step_non_terminal_code_means_retry() {
    let rep = obj(vec![("resp", obj(vec![("code", JsonValue::Int(2000))]))]);
    assert_eq!(poll_step(rep).unwrap(), PollOutcome::NotReady);
    let no_code = obj(vec![("resp", obj(vec![("message", s("x"))]))]);
    assert_eq!(poll_step(no_code).unwrap(), PollOutcome::NotReady);
}

#[test]
fn ready_result_decodes_utterances_and_words() {
    let word = obj(vec![
        ("start_time", JsonValue::Int(0)),
        ("end_time", JsonValue::Int(40)),
        ("text", s("hi")),
    ]);
    let utt = obj(vec![
        ("start_time", JsonValue::Int(0)),
        ("end_time", JsonValue::Int(40)),
        ("text", s("hi")),
        ("words", JsonValue::Arr(vec![word])),
        ("additions", obj(vec![("speaker", s("1"))])),
    ]);
    let rep = obj(vec![(
        "resp",
        obj(vec![
            ("code", JsonValue::Int(1000)),
            ("id", s("J")),
            ("message", s("Success")),
            ("text", s("hi")),
            ("additions", obj(vec![("use_punc", s("True"))])),
            ("utterances", JsonValue::Arr(vec![utt])),
        ]),
    )]);
    match poll_step(rep).unwrap() {
        PollOutcome::Ready(res) => {
            assert_eq!(res.code, 1000);
            assert_eq!(res.message, "Success");
            assert_eq!(res.additions.use_punc, Some(Boolean::True));
            assert_eq!(res.utterances.len(), 1);
            let u = &res.utterances[0];
            assert_eq!(u.text, "hi");
            assert_eq!(u.start_time, 0);
            assert_eq!(u.end_time, 40);
            assert_eq!(u.words.len(), 1);
            assert_eq!(u.words[0].text, "hi");
            assert_eq!(u.additions.as_ref().unwrap().speaker.as_deref(), Some("1"));
            assert!(u.additions.as_ref().unwrap().event.is_none());
        }
        PollOutcome::NotReady => panic!("expected a terminal result"),
    }
}

#[test]
fn poll_body_carries_identity_and_id() {
    let ack = RecordAsrResponse {
        code: 1000,
        message: "ok".to_string(),
        id: "J9".to_string(),
        appid: "A".to_string(),
        token: "T".to_string(),
        cluster: "C".to_string(),
    };
    assert_eq!(
        ack.poll_body_text(),
        "{\"appid\":\"A\",\"token\":\"T\",\"cluster\":\"C\",\"id\":\"J9\"}"
    );
}
