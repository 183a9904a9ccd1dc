use volc_asr::asr::subtitle::{SubtitleRequest, SubtitleResponse, SubtitleSource, extension_of};
use volc_asr::client::Client;
use volc_asr::error::Error;
use volc_asr::json::{json_to_string, JsonValue};

#[test]
fn binary_source_takes_media_type_from_extension() {
    let src = SubtitleSource::binary_from_path("clip.mp3", vec![1, 2, 3]).unwrap();
    match src {
        SubtitleSource::Binary { typ, data } => {
            assert_eq!(typ, "mp3");
            assert_eq!(data, vec![1, 2, 3]);
        }
        SubtitleSource::Url(_) => panic!("expected a binary source"),
    }
}

#[test]
fn path_without_extension_is_refused() {
    assert_eq!(
        SubtitleSource::binary_from_path("clip", vec![]).unwrap_err(),
        Error::NoExtension
    );
    assert_eq!(
        SubtitleSource::binary_from_path("dir.d/clip", vec![]).unwrap_err(),
        Error::NoExtension
    );
    assert_eq!(
        SubtitleSource::binary_from_path(".hidden", vec![]).unwrap_err(),
        Error::NoExtension
    );
}

#[test]
fn extension_takes_last_dot_of_file_name() {
    assert_eq!(extension_of("a/b/clip.tar.gz").as_deref(), Some("gz"));
    assert_eq!(extension_of("music/track.wav").as_deref(), Some("wav"));
    assert_eq!(extension_of("music/track"), None);
}

#[test]
fn subtitle_build_requires_appid_and_source() {
    let no_source = SubtitleRequest::builder().appid("A".to_string());
    assert_eq!(no_source.build().unwrap_err(), Error::RequestBuild);

    let no_appid = SubtitleRequest::builder()
        .language("zh".to_string())
        .source(SubtitleSource::Url("http://x".to_string()));
    assert_eq!(no_appid.build().unwrap_err(), Error::RequestBuild);

    let ok = SubtitleRequest::builder()
        .appid("A".to_string())
        .source(SubtitleSource::Url("http://x".to_string()))
        .build()
        .unwrap();
    assert_eq!(ok.params.len(), 1);
    assert_eq!(ok.params[0].0, "appid");
    assert_eq!(ok.params[0].1, "A");
}

#[test]
fn subtitle_params_take_last_write() {
    let b = SubtitleRequest::builder()
        .appid("A".to_string())
        .with_speaker_info("True".to_string())
        .appid("B".to_string())
        .source(SubtitleSource::Url("http://x".to_string()));
    let q = b.build().unwrap();
    let appid: Vec<&(String, String)> =
        q.params.iter().filter(|kv| kv.0 == "appid").collect();
    assert_eq!(appid.len(), 1);
    assert_eq!(appid[0].1, "B");
}

#[test]
fn binary_submit_content_type_tags_media() {
    assert_eq!(SubtitleRequest::content_type("mp3"), "audio/mp3");
}

#[test]
fn url_submit_body_is_a_single_url_member() {
    let v = SubtitleRequest::url_body("http://x/y.mp3");
    assert_eq!(json_to_string(&v), "{\"url\":\"http://x/y.mp3\"}");
}

#[test]
fn subtitle_response_decodes_directly() {
    let rep = JsonValue::Obj(vec![
        ("code".to_string(), JsonValue::Int(0)),
        ("message".to_string(), JsonValue::Str("ok".to_string())),
        ("id".to_string(), JsonValue::Str("S1".to_string())),
    ]);
    let ack = SubtitleResponse::decode(&rep).unwrap();
    assert_eq!(ack.code, 0);
    assert_eq!(ack.message, "ok");
    assert_eq!(ack.id, "S1");
}

#[test]
fn subtitle_response_missing_id_fails() {
    let rep = JsonValue::Obj(vec![
        ("code".to_string(), JsonValue::Int(0)),
        ("message".to_string(), JsonValue::Str("ok".to_string())),
    ]);
    assert_eq!(
        SubtitleResponse::decode(&rep).unwrap_err(),
        Error::Deserialization
    );
}

#[test]
fn subtitle_poll_query_asks_for_blocking() {
    let ack = SubtitleResponse {
        code: 0,
        message: "ok".to_string(),
        id: "S1".to_string(),
    };
    let q = ack.poll_query("A");
    assert_eq!(q.len(), 3);
    assert_eq!(q[0], ("appid".to_string(), "A".to_string()));
    assert_eq!(q[1], ("id".to_string(), "S1".to_string()));
    assert_eq!(q[2], ("blocking".to_string(), "1".to_string()));
}

#[test]
fn client_resolves_paths_and_authorizes() {
    let client = Client::new(
        Client::default_base_url(),
        "TOKEN".to_string(),
    );
    assert_eq!(client.authorization_value(), "Bearer; TOKEN");
    assert_eq!(
        client.resolve("/api/v1/auc/submit").unwrap(),
        "https://openspeech.bytedance.com/api/v1/auc/submit"
    );
    let bad = Client::new("not a url".to_string(), "T".to_string());
    assert_eq!(
        bad.resolve("/api/v1/auc/submit").unwrap_err(),
        Error::Configuration
    );
}
