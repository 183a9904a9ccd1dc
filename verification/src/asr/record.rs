use vstd::prelude::*;
use crate::error::Error;
use crate::types::Boolean;
use crate::json::{
    JsonV, JsonValue, obj_get, get_str, get_int, get_i32, get_opt_str, get_str_or_empty,
    get_arr, get_opt_bool3, spec_envelope, unwrap_envelope, obj_lookup, field_str, field_i64,
    field_i32, field_opt_str, field_str_or_empty, field_opt_bool3, model_members, model_seq,
    lemma_model_members, lemma_model_seq, lemma_model_variant, field_arr, push_member,
    json_to_string, ser_json,
};

verus! {

/// Identity block of a transcription request: who submits, with which
/// credential, against which cluster.
#[derive(Debug, Clone, PartialEq)]
pub struct App {
    pub appid: String,
    pub token: String,
    pub cluster: String,
}

/// The submitting user.
#[derive(Debug, Clone, PartialEq)]
pub struct User {
    pub uid: String,
}

/// The audio source: a remote URL plus optional format hints.
#[derive(Debug, Clone, PartialEq)]
pub struct Audio {
    pub url: String,
    pub format: Option<String>,
    pub codec: Option<String>,
    pub rate: Option<i32>,
    pub bits: Option<i32>,
    pub channel: Option<i32>,
}

/// Optional request group: present in the wire form only when at least one
/// of its members was set.
#[derive(Debug, Clone, PartialEq)]
pub struct Request {
    pub callback: Option<String>,
    pub boosting_table_name: Option<String>,
}

/// Optional processing flags: present in the wire form only when at least
/// one of its members was set.
#[derive(Debug, Clone, PartialEq)]
pub struct Addtions {
    pub language: Option<String>,
    pub use_itn: Option<Boolean>,
    pub use_punc: Option<Boolean>,
    pub use_ddc: Option<Boolean>,
    pub with_speaker_info: Option<Boolean>,
    pub enable_query: Option<Boolean>,
    pub channel_split: Option<Boolean>,
}

/// A validated, immutable transcription request. Only `build` constructs
/// one, so every required field is present.
#[derive(Debug, Clone, PartialEq)]
pub struct RecordAsrRequest {
    pub app: App,
    pub user: User,
    pub audio: Audio,
    pub request: Option<Request>,
    pub additions: Option<Addtions>,
}

/// Mutable accumulator for a transcription request; every field stays
/// optional until `build` validates the required set.
#[derive(Debug, Clone, PartialEq)]
pub struct RecordAsrRequestBuilder {
    pub appid: Option<String>,
    pub token: Option<String>,
    pub cluster: Option<String>,
    pub uid: Option<String>,
    pub url: Option<String>,
    pub format: Option<String>,
    pub codec: Option<String>,
    pub rate: Option<i32>,
    pub bits: Option<i32>,
    pub channel: Option<i32>,
    pub callback: Option<String>,
    pub boosting_table_name: Option<String>,
    pub language: Option<String>,
    pub use_itn: Option<Boolean>,
    pub use_punc: Option<Boolean>,
    pub use_ddc: Option<Boolean>,
    pub with_speaker_info: Option<Boolean>,
    pub enable_query: Option<Boolean>,
    pub channel_split: Option<Boolean>,
}

impl RecordAsrRequestBuilder {
    /// The builder with no field set.
    pub open spec fn spec_empty() -> RecordAsrRequestBuilder {
        RecordAsrRequestBuilder {
            appid: None,
            token: None,
            cluster: None,
            uid: None,
            url: None,
            format: None,
            codec: None,
            rate: None,
            bits: None,
            channel: None,
            callback: None,
            boosting_table_name: None,
            language: None,
            use_itn: None,
            use_punc: None,
            use_ddc: None,
            with_speaker_info: None,
            enable_query: None,
            channel_split: None,
        }
    }
}

impl Default for RecordAsrRequestBuilder {
    /// The builder with no field set.
    fn default() -> (r: Self)
        ensures
            r == Self::spec_empty(),
    {
        RecordAsrRequestBuilder {
            appid: None,
            token: None,
            cluster: None,
            uid: None,
            url: None,
            format: None,
            codec: None,
            rate: None,
            bits: None,
            channel: None,
            callback: None,
            boosting_table_name: None,
            language: None,
            use_itn: None,
            use_punc: None,
            use_ddc: None,
            with_speaker_info: None,
            enable_query: None,
            channel_split: None,
        }
    }
}

impl RecordAsrRequest {
    /// A fresh builder with no field set.
    pub fn builder() -> (r: RecordAsrRequestBuilder)
        ensures
            r == RecordAsrRequestBuilder::spec_empty(),
    {
        RecordAsrRequestBuilder::default()
    }
}

impl RecordAsrRequestBuilder {
    /// Whether every required field (app id, token, cluster, user id,
    /// source URL) has been supplied.
    pub open spec fn spec_complete(self) -> bool {
        &&& self.appid is Some
        &&& self.token is Some
        &&& self.cluster is Some
        &&& self.uid is Some
        &&& self.url is Some
    }

    /// Validate the accumulated fields and produce the immutable request.
    /// Fails with `RequestBuild` exactly when a required field is absent.
    /// An optional group (`request`, `additions`) is present in the result
    /// exactly when at least one of its members was set; its unset members
    /// stay absent inside the group.
    pub fn build(self) -> (r: Result<RecordAsrRequest, Error>)
        ensures
            r is Ok <==> self.spec_complete(),
            r matches Err(e) ==> e == Error::RequestBuild,
            r matches Ok(q) ==> {
                &&& Some(q.app.appid) == self.appid
                &&& Some(q.app.token) == self.token
                &&& Some(q.app.cluster) == self.cluster
                &&& Some(q.user.uid) == self.uid
                &&& Some(q.audio.url) == self.url
                &&& q.audio.format == self.format
                &&& q.audio.codec == self.codec
                &&& q.audio.rate == self.rate
                &&& q.audio.bits == self.bits
                &&& q.audio.channel == self.channel
                &&& q.request == (if self.callback is Some || self.boosting_table_name is Some {
                    Some(
                        Request {
                            callback: self.callback,
                            boosting_table_name: self.boosting_table_name,
                        },
                    )
                } else {
                    None
                })
                &&& q.additions == (if self.language is Some || self.use_itn is Some
                    || self.use_punc is Some || self.use_ddc is Some
                    || self.with_speaker_info is Some || self.enable_query is Some
                    || self.channel_split is Some {
                    Some(
                        Addtions {
                            language: self.language,
                            use_itn: self.use_itn,
                            use_punc: self.use_punc,
                            use_ddc: self.use_ddc,
                            with_speaker_info: self.with_speaker_info,
                            enable_query: self.enable_query,
                            channel_split: self.channel_split,
                        },
                    )
                } else {
                    None
                })
            },
    {
        let appid = match self.appid {
            Some(x) => x,
            None => {
                return Err(Error::RequestBuild);
            },
        };
        let token = match self.token {
            Some(x) => x,
            None => {
                return Err(Error::RequestBuild);
            },
        };
        let cluster = match self.cluster {
            Some(x) => x,
            None => {
                return Err(Error::RequestBuild);
            },
        };
        let uid = match self.uid {
            Some(x) => x,
            None => {
                return Err(Error::RequestBuild);
            },
        };
        let url = match self.url {
            Some(x) => x,
            None => {
                return Err(Error::RequestBuild);
            },
        };
        let app = App { appid, token, cluster };
        let user = User { uid };
        let audio = Audio {
            url,
            format: self.format,
            codec: self.codec,
            rate: self.rate,
            bits: self.bits,
            channel: self.channel,
        };
        let request = if self.callback.is_some() || self.boosting_table_name.is_some() {
            Some(
                Request {
                    callback: self.callback,
                    boosting_table_name: self.boosting_table_name,
                },
            )
        } else {
            None
        };
        let additions = if self.language.is_some() || self.use_itn.is_some()
            || self.use_punc.is_some() || self.use_ddc.is_some()
            || self.with_speaker_info.is_some() || self.enable_query.is_some()
            || self.channel_split.is_some() {
            Some(
                Addtions {
                    language: self.language,
                    use_itn: self.use_itn,
                    use_punc: self.use_punc,
                    use_ddc: self.use_ddc,
                    with_speaker_info: self.with_speaker_info,
                    enable_query: self.enable_query,
                    channel_split: self.channel_split,
                },
            )
        } else {
            None
        };
        Ok(RecordAsrRequest { app, user, audio, request, additions })
    }

    /// Set the application id, replacing any earlier value.
    pub fn appid(self, appid: String) -> (r: Self)
        ensures
            r == (Self { appid: Some(appid), ..self }),
    {
        Self { appid: Some(appid), ..self }
    }

    /// Set the access token, replacing any earlier value.
    pub fn token(self, token: String) -> (r: Self)
        ensures
            r == (Self { token: Some(token), ..self }),
    {
        Self { token: Some(token), ..self }
    }

    /// Set the cluster name, replacing any earlier value.
    pub fn cluster(self, cluster: String) -> (r: Self)
        ensures
            r == (Self { cluster: Some(cluster), ..self }),
    {
        Self { cluster: Some(cluster), ..self }
    }

    /// Set the user id, replacing any earlier value.
    pub fn uid(self, uid: String) -> (r: Self)
        ensures
            r == (Self { uid: Some(uid), ..self }),
    {
        Self { uid: Some(uid), ..self }
    }

    /// Set the audio source URL, replacing any earlier value.
    pub fn url(self, url: String) -> (r: Self)
        ensures
            r == (Self { url: Some(url), ..self }),
    {
        Self { url: Some(url), ..self }
    }

    /// Set the audio container format, replacing any earlier value.
    pub fn format(self, format: String) -> (r: Self)
        ensures
            r == (Self { format: Some(format), ..self }),
    {
        Self { format: Some(format), ..self }
    }

    /// Set the audio codec, replacing any earlier value.
    pub fn codec(self, codec: String) -> (r: Self)
        ensures
            r == (Self { codec: Some(codec), ..self }),
    {
        Self { codec: Some(codec), ..self }
    }

    /// Set the sample rate, replacing any earlier value.
    pub fn rate(self, rate: i32) -> (r: Self)
        ensures
            r == (Self { rate: Some(rate), ..self }),
    {
        Self { rate: Some(rate), ..self }
    }

    /// Set the sample width in bits, replacing any earlier value.
    pub fn bits(self, bits: i32) -> (r: Self)
        ensures
            r == (Self { bits: Some(bits), ..self }),
    {
        Self { bits: Some(bits), ..self }
    }

    /// Set the channel count, replacing any earlier value.
    pub fn channel(self, channel: i32) -> (r: Self)
        ensures
            r == (Self { channel: Some(channel), ..self }),
    {
        Self { channel: Some(channel), ..self }
    }

    /// Set the completion callback URL, replacing any earlier value.
    pub fn callback(self, callback: String) -> (r: Self)
        ensures
            r == (Self { callback: Some(callback), ..self }),
    {
        Self { callback: Some(callback), ..self }
    }

    /// Set the boosting table name, replacing any earlier value.
    pub fn boosting_table_name(self, boosting_table_name: String) -> (r: Self)
        ensures
            r == (Self { boosting_table_name: Some(boosting_table_name), ..self }),
    {
        Self { boosting_table_name: Some(boosting_table_name), ..self }
    }

    /// Set the language hint, replacing any earlier value.
    pub fn language(self, language: String) -> (r: Self)
        ensures
            r == (Self { language: Some(language), ..self }),
    {
        Self { language: Some(language), ..self }
    }

    /// Set inverse text normalization, replacing any earlier value.
    pub fn use_itn(self, use_itn: Boolean) -> (r: Self)
        ensures
            r == (Self { use_itn: Some(use_itn), ..self }),
    {
        Self { use_itn: Some(use_itn), ..self }
    }

    /// Set punctuation insertion, replacing any earlier value.
    pub fn use_punc(self, use_punc: Boolean) -> (r: Self)
        ensures
            r == (Self { use_punc: Some(use_punc), ..self }),
    {
        Self { use_punc: Some(use_punc), ..self }
    }

    /// Set semantic disfluency detection, replacing any earlier value.
    pub fn use_ddc(self, use_ddc: Boolean) -> (r: Self)
        ensures
            r == (Self { use_ddc: Some(use_ddc), ..self }),
    {
        Self { use_ddc: Some(use_ddc), ..self }
    }

    /// Set speaker diarization, replacing any earlier value.
    pub fn with_speaker_info(self, with_speaker_info: Boolean) -> (r: Self)
        ensures
            r == (Self { with_speaker_info: Some(with_speaker_info), ..self }),
    {
        Self { with_speaker_info: Some(with_speaker_info), ..self }
    }

    /// Set result querying, replacing any earlier value.
    pub fn enable_query(self, enable_query: Boolean) -> (r: Self)
        ensures
            r == (Self { enable_query: Some(enable_query), ..self }),
    {
        Self { enable_query: Some(enable_query), ..self }
    }

    /// Set channel splitting, replacing any earlier value.
    pub fn channel_split(self, channel_split: Boolean) -> (r: Self)
        ensures
            r == (Self { channel_split: Some(channel_split), ..self }),
    {
        Self { channel_split: Some(channel_split), ..self }
    }
}

/// A time-aligned word of a recognized utterance.
#[derive(Debug, Clone, PartialEq)]
pub struct Word {
    pub start_time: i64,
    pub end_time: i64,
    pub text: String,
}

/// Per-utterance attributes.
#[derive(Debug, Clone, PartialEq)]
pub struct UAddtions {
    pub event: Option<String>,
    pub speaker: Option<String>,
}

/// A timed segment of recognized speech with its word-level breakdown.
#[derive(Debug, Clone, PartialEq)]
pub struct Utterance {
    pub start_time: i64,
    pub end_time: i64,
    pub text: String,
    pub words: Vec<Word>,
    pub additions: Option<UAddtions>,
}

/// The terminal payload of a finished transcription job.
#[derive(Debug, Clone, PartialEq)]
pub struct RecordAsrResult {
    pub id: String,
    pub code: i32,
    pub additions: Addtions,
    pub message: String,
    pub text: Option<String>,
    pub utterances: Vec<Utterance>,
}

/// The acknowledgment of a submitted transcription job, enriched with the
/// identity fields of the original request so that polling can reuse them.
#[derive(Debug, Clone, PartialEq)]
pub struct RecordAsrResponse {
    pub code: i32,
    pub message: String,
    pub id: String,
    pub appid: String,
    pub token: String,
    pub cluster: String,
}

/// An optional exec string agrees with an optional modelled string.
pub open spec fn opt_str_is(o: Option<String>, w: Option<Seq<char>>) -> bool {
    match (o, w) {
        (Option::None, Option::None) => true,
        (Option::Some(s), Option::Some(t)) => s@ == t,
        _ => false,
    }
}

/// A word document is well-shaped.
pub open spec fn word_ok(v: JsonV) -> bool {
    &&& v is Obj
    &&& get_int(v->Obj_0, "start_time"@) is Some
    &&& get_int(v->Obj_0, "end_time"@) is Some
    &&& get_str(v->Obj_0, "text"@) is Some
}

/// `w` is the decoding of the word document `v`.
pub open spec fn word_matches(w: Word, v: JsonV) -> bool {
    &&& word_ok(v)
    &&& Some(w.start_time) == get_int(v->Obj_0, "start_time"@)
    &&& Some(w.end_time) == get_int(v->Obj_0, "end_time"@)
    &&& Some(w.text@) == get_str(v->Obj_0, "text"@)
}

/// An utterance-attribute document is well-shaped.
pub open spec fn uadd_ok(v: JsonV) -> bool {
    &&& v is Obj
    &&& get_opt_str(v->Obj_0, "event"@) is Some
    &&& get_opt_str(v->Obj_0, "speaker"@) is Some
}

/// `u` is the decoding of the utterance-attribute document `v`.
pub open spec fn uadd_matches(u: UAddtions, v: JsonV) -> bool {
    &&& uadd_ok(v)
    &&& match get_opt_str(v->Obj_0, "event"@) {
        Some(w) => opt_str_is(u.event, w),
        None => false,
    }
    &&& match get_opt_str(v->Obj_0, "speaker"@) {
        Some(w) => opt_str_is(u.speaker, w),
        None => false,
    }
}

/// Every word document of a list is well-shaped.
pub open spec fn all_words_ok(a: Seq<JsonV>) -> bool {
    forall|i: int| 0 <= i < a.len() ==> word_ok(a[i])
}

/// `ws` is the elementwise decoding of the word documents `a`.
pub open spec fn words_match_all(ws: Seq<Word>, a: Seq<JsonV>) -> bool {
    ws.len() == a.len() && forall|i: int| 0 <= i < a.len() ==> word_matches(ws[i], a[i])
}

/// Every utterance document of a list is well-shaped.
pub open spec fn all_utterances_ok(a: Seq<JsonV>) -> bool {
    forall|i: int| 0 <= i < a.len() ==> utterance_ok(a[i])
}

/// `us` is the elementwise decoding of the utterance documents `a`.
pub open spec fn utterances_match_all(us: Seq<Utterance>, a: Seq<JsonV>) -> bool {
    us.len() == a.len() && forall|i: int| 0 <= i < a.len() ==> utterance_matches(us[i], a[i])
}

/// An utterance document is well-shaped.
pub open spec fn utterance_ok(v: JsonV) -> bool {
    &&& v is Obj
    &&& get_int(v->Obj_0, "start_time"@) is Some
    &&& get_int(v->Obj_0, "end_time"@) is Some
    &&& get_str(v->Obj_0, "text"@) is Some
    &&& match get_arr(v->Obj_0, "words"@) {
        Some(a) => all_words_ok(a),
        None => false,
    }
    &&& match obj_get(v->Obj_0, "additions"@) {
        None => true,
        Some(JsonV::Null) => true,
        Some(av) => uadd_ok(av),
    }
}

/// `u` is the decoding of the utterance document `v`.
pub open spec fn utterance_matches(u: Utterance, v: JsonV) -> bool {
    &&& utterance_ok(v)
    &&& Some(u.start_time) == get_int(v->Obj_0, "start_time"@)
    &&& Some(u.end_time) == get_int(v->Obj_0, "end_time"@)
    &&& Some(u.text@) == get_str(v->Obj_0, "text"@)
    &&& match get_arr(v->Obj_0, "words"@) {
        Some(a) => words_match_all(u.words@, a),
        None => false,
    }
    &&& match obj_get(v->Obj_0, "additions"@) {
        None => u.additions is None,
        Some(JsonV::Null) => u.additions is None,
        Some(av) => match u.additions {
            Some(ua) => uadd_matches(ua, av),
            None => false,
        },
    }
}

/// A processing-flag document is well-shaped.
pub open spec fn addtions_ok(v: JsonV) -> bool {
    &&& v is Obj
    &&& get_opt_str(v->Obj_0, "language"@) is Some
    &&& get_opt_bool3(v->Obj_0, "use_itn"@) is Some
    &&& get_opt_bool3(v->Obj_0, "use_punc"@) is Some
    &&& get_opt_bool3(v->Obj_0, "use_ddc"@) is Some
    &&& get_opt_bool3(v->Obj_0, "with_speaker_info"@) is Some
    &&& get_opt_bool3(v->Obj_0, "enable_query"@) is Some
    &&& get_opt_bool3(v->Obj_0, "channel_split"@) is Some
}

/// `a` is the decoding of the processing-flag document `v`.
pub open spec fn addtions_matches(a: Addtions, v: JsonV) -> bool {
    &&& addtions_ok(v)
    &&& match get_opt_str(v->Obj_0, "language"@) {
        Some(w) => opt_str_is(a.language, w),
        None => false,
    }
    &&& Some(a.use_itn) == get_opt_bool3(v->Obj_0, "use_itn"@)
    &&& Some(a.use_punc) == get_opt_bool3(v->Obj_0, "use_punc"@)
    &&& Some(a.use_ddc) == get_opt_bool3(v->Obj_0, "use_ddc"@)
    &&& Some(a.with_speaker_info) == get_opt_bool3(v->Obj_0, "with_speaker_info"@)
    &&& Some(a.enable_query) == get_opt_bool3(v->Obj_0, "enable_query"@)
    &&& Some(a.channel_split) == get_opt_bool3(v->Obj_0, "channel_split"@)
}

/// The all-absent processing flags, used when a result carries none.
pub open spec fn spec_no_addtions() -> Addtions {
    Addtions {
        language: None,
        use_itn: None,
        use_punc: None,
        use_ddc: None,
        with_speaker_info: None,
        enable_query: None,
        channel_split: None,
    }
}

/// A submission-acknowledgment document is well-shaped.
pub open spec fn response_ok(v: JsonV) -> bool {
    &&& v is Obj
    &&& get_i32(v->Obj_0, "code"@) is Some
    &&& get_str(v->Obj_0, "message"@) is Some
    &&& get_str(v->Obj_0, "id"@) is Some
    &&& get_str_or_empty(v->Obj_0, "appid"@) is Some
    &&& get_str_or_empty(v->Obj_0, "token"@) is Some
    &&& get_str_or_empty(v->Obj_0, "cluster"@) is Some
}

/// The non-identity fields of `r` are the decoding of the document `v`.
pub open spec fn response_core_matches(r: RecordAsrResponse, v: JsonV) -> bool {
    &&& response_ok(v)
    &&& Some(r.code) == get_i32(v->Obj_0, "code"@)
    &&& Some(r.message@) == get_str(v->Obj_0, "message"@)
    &&& Some(r.id@) == get_str(v->Obj_0, "id"@)
}

/// `r` is the decoding of the acknowledgment document `v`, identity fields
/// included.
pub open spec fn response_matches(r: RecordAsrResponse, v: JsonV) -> bool {
    &&& response_core_matches(r, v)
    &&& Some(r.appid@) == get_str_or_empty(v->Obj_0, "appid"@)
    &&& Some(r.token@) == get_str_or_empty(v->Obj_0, "token"@)
    &&& Some(r.cluster@) == get_str_or_empty(v->Obj_0, "cluster"@)
}

/// A terminal-result document is well-shaped.
pub open spec fn result_ok(v: JsonV) -> bool {
    &&& v is Obj
    &&& get_str(v->Obj_0, "id"@) is Some
    &&& get_i32(v->Obj_0, "code"@) is Some
    &&& get_str_or_empty(v->Obj_0, "message"@) is Some
    &&& get_opt_str(v->Obj_0, "text"@) is Some
    &&& match obj_get(v->Obj_0, "additions"@) {
        None => true,
        Some(av) => addtions_ok(av),
    }
    &&& match obj_get(v->Obj_0, "utterances"@) {
        None => true,
        Some(JsonV::Arr(a)) => all_utterances_ok(a),
        Some(_) => false,
    }
}

/// `r` is the decoding of the terminal-result document `v`.
pub open spec fn result_matches(r: RecordAsrResult, v: JsonV) -> bool {
    &&& result_ok(v)
    &&& Some(r.id@) == get_str(v->Obj_0, "id"@)
    &&& Some(r.code) == get_i32(v->Obj_0, "code"@)
    &&& Some(r.message@) == get_str_or_empty(v->Obj_0, "message"@)
    &&& match get_opt_str(v->Obj_0, "text"@) {
        Some(w) => opt_str_is(r.text, w),
        None => false,
    }
    &&& match obj_get(v->Obj_0, "additions"@) {
        None => r.additions == spec_no_addtions(),
        Some(av) => addtions_matches(r.additions, av),
    }
    &&& match obj_get(v->Obj_0, "utterances"@) {
        None => r.utterances@.len() == 0,
        Some(JsonV::Arr(a)) => utterances_match_all(r.utterances@, a),
        Some(_) => false,
    }
}

/// Decode a word document.
pub fn decode_word(v: &JsonValue) -> (r: Result<Word, Error>)
    ensures
        r is Ok <==> word_ok(v.model()),
        r matches Ok(w) ==> word_matches(w, v.model()),
        r matches Err(e) ==> e == Error::Deserialization,
{
    match v {
        JsonValue::Obj(m) => {
            proof {
                assert(v.model() == JsonV::Obj(model_members(m@)));
            }
            let start_time = match field_i64(m, "start_time") {
                Ok(x) => x,
                Err(e) => {
                    return Err(e);
                },
            };
            let end_time = match field_i64(m, "end_time") {
                Ok(x) => x,
                Err(e) => {
                    return Err(e);
                },
            };
            let text = match field_str(m, "text") {
                Ok(x) => x,
                Err(e) => {
                    return Err(e);
                },
            };
            Ok(Word { start_time, end_time, text })
        },
        _ => {
            proof {
                lemma_model_variant(*v);
            }
            Err(Error::Deserialization)
        },
    }
}

/// Decode an utterance-attribute document.
pub fn decode_uadd(v: &JsonValue) -> (r: Result<UAddtions, Error>)
    ensures
        r is Ok <==> uadd_ok(v.model()),
        r matches Ok(u) ==> uadd_matches(u, v.model()),
        r matches Err(e) ==> e == Error::Deserialization,
{
    match v {
        JsonValue::Obj(m) => {
            proof {
                assert(v.model() == JsonV::Obj(model_members(m@)));
            }
            let event = match field_opt_str(m, "event") {
                Ok(x) => x,
                Err(e) => {
                    return Err(e);
                },
            };
            let speaker = match field_opt_str(m, "speaker") {
                Ok(x) => x,
                Err(e) => {
                    return Err(e);
                },
            };
            Ok(UAddtions { event, speaker })
        },
        _ => {
            proof {
                lemma_model_variant(*v);
            }
            Err(Error::Deserialization)
        },
    }
}

/// Decode a processing-flag document.
pub fn decode_addtions(v: &JsonValue) -> (r: Result<Addtions, Error>)
    ensures
        r is Ok <==> addtions_ok(v.model()),
        r matches Ok(a) ==> addtions_matches(a, v.model()),
        r matches Err(e) ==> e == Error::Deserialization,
{
    match v {
        JsonValue::Obj(m) => {
            proof {
                assert(v.model() == JsonV::Obj(model_members(m@)));
            }
            let language = match field_opt_str(m, "language") {
                Ok(x) => x,
                Err(e) => {
                    return Err(e);
                },
            };
            let use_itn = match field_opt_bool3(m, "use_itn") {
                Ok(x) => x,
                Err(e) => {
                    return Err(e);
                },
            };
            let use_punc = match field_opt_bool3(m, "use_punc") {
                Ok(x) => x,
                Err(e) => {
                    return Err(e);
                },
            };
            let use_ddc = match field_opt_bool3(m, "use_ddc") {
                Ok(x) => x,
                Err(e) => {
                    return Err(e);
                },
            };
            let with_speaker_info = match field_opt_bool3(m, "with_speaker_info") {
                Ok(x) => x,
                Err(e) => {
                    return Err(e);
                },
            };
            let enable_query = match field_opt_bool3(m, "enable_query") {
                Ok(x) => x,
                Err(e) => {
                    return Err(e);
                },
            };
            let channel_split = match field_opt_bool3(m, "channel_split") {
                Ok(x) => x,
                Err(e) => {
                    return Err(e);
                },
            };
            Ok(
                Addtions {
                    language,
                    use_itn,
                    use_punc,
                    use_ddc,
                    with_speaker_info,
                    enable_query,
                    channel_split,
                },
            )
        },
        _ => {
            proof {
                lemma_model_variant(*v);
            }
            Err(Error::Deserialization)
        },
    }
}

/// Decode every word of a word list; one malformed word fails the list.
pub fn decode_words(a: &Vec<JsonValue>) -> (r: Result<Vec<Word>, Error>)
    ensures
        r is Ok <==> all_words_ok(model_seq(a@)),
        r matches Ok(ws) ==> words_match_all(ws@, model_seq(a@)),
        r matches Err(e) ==> e == Error::Deserialization,
{
    let mut out: Vec<Word> = Vec::new();
    let mut i: usize = 0;
    while i < a.len()
        invariant
            i <= a@.len(),
            out@.len() == i,
            forall|j: int| 0 <= j < i ==> word_matches(out@[j], model_seq(a@)[j]),
        decreases a@.len() - i,
    {
        proof {
            lemma_model_seq(a@);
        }
        match decode_word(&a[i]) {
            Ok(w) => out.push(w),
            Err(e) => {
                return Err(e);
            },
        }
        i = i + 1;
    }
    proof {
        lemma_model_seq(a@);
        assert forall|j: int| 0 <= j < model_seq(a@).len() implies word_ok(
            model_seq(a@)[j],
        ) by {
            assert(word_matches(out@[j], model_seq(a@)[j]));
        }
    }
    Ok(out)
}

/// Decode an utterance document.
pub fn decode_utterance(v: &JsonValue) -> (r: Result<Utterance, Error>)
    ensures
        r is Ok <==> utterance_ok(v.model()),
        r matches Ok(u) ==> utterance_matches(u, v.model()),
        r matches Err(e) ==> e == Error::Deserialization,
{
    match v {
        JsonValue::Obj(m) => {
            proof {
                assert(v.model() == JsonV::Obj(model_members(m@)));
            }
            let start_time = match field_i64(m, "start_time") {
                Ok(x) => x,
                Err(e) => {
                    return Err(e);
                },
            };
            let end_time = match field_i64(m, "end_time") {
                Ok(x) => x,
                Err(e) => {
                    return Err(e);
                },
            };
            let text = match field_str(m, "text") {
                Ok(x) => x,
                Err(e) => {
                    return Err(e);
                },
            };
            let words_arr = match field_arr(m, "words") {
                Ok(x) => x,
                Err(e) => {
                    return Err(e);
                },
            };
            let words = match decode_words(words_arr) {
                Ok(x) => x,
                Err(e) => {
                    proof {
                        lemma_model_seq(words_arr@);
                    }
                    return Err(e);
                },
            };
            let additions = match obj_lookup(m, "additions") {
                None => None,
                Some(JsonValue::Null) => None,
                Some(av) => {
                    proof {
                        lemma_model_variant(*av);
                    }
                    match decode_uadd(av) {
                        Ok(u) => Some(u),
                        Err(e) => {
                            return Err(e);
                        },
                    }
                },
            };
            proof {
                lemma_model_seq(words_arr@);
            }
            Ok(Utterance { start_time, end_time, text, words, additions })
        },
        _ => {
            proof {
                lemma_model_variant(*v);
            }
            Err(Error::Deserialization)
        },
    }
}

/// Decode every utterance of a list; one malformed utterance fails the
/// list.
pub fn decode_utterances(a: &Vec<JsonValue>) -> (r: Result<Vec<Utterance>, Error>)
    ensures
        r is Ok <==> all_utterances_ok(model_seq(a@)),
        r matches Ok(us) ==> utterances_match_all(us@, model_seq(a@)),
        r matches Err(e) ==> e == Error::Deserialization,
{
    let mut out: Vec<Utterance> = Vec::new();
    let mut i: usize = 0;
    while i < a.len()
        invariant
            i <= a@.len(),
            out@.len() == i,
            forall|j: int| 0 <= j < i ==> utterance_matches(out@[j], model_seq(a@)[j]),
        decreases a@.len() - i,
    {
        proof {
            lemma_model_seq(a@);
        }
        match decode_utterance(&a[i]) {
            Ok(u) => out.push(u),
            Err(e) => {
                return Err(e);
            },
        }
        i = i + 1;
    }
    proof {
        lemma_model_seq(a@);
        assert forall|j: int| 0 <= j < model_seq(a@).len() implies utterance_ok(
            model_seq(a@)[j],
        ) by {
            assert(utterance_matches(out@[j], model_seq(a@)[j]));
        }
    }
    Ok(out)
}

impl RecordAsrResponse {
    /// Decode an acknowledgment document; identity fields default to empty
    /// when the service does not echo them.
    pub fn decode(v: &JsonValue) -> (r: Result<Self, Error>)
        ensures
            r is Ok <==> response_ok(v.model()),
            r matches Ok(resp) ==> response_matches(resp, v.model()),
            r matches Err(e) ==> e == Error::Deserialization,
    {
        match v {
            JsonValue::Obj(m) => {
                proof {
                    assert(v.model() == JsonV::Obj(model_members(m@)));
                }
                let code = match field_i32(m, "code") {
                    Ok(x) => x,
                    Err(e) => {
                        return Err(e);
                    },
                };
                let message = match field_str(m, "message") {
                    Ok(x) => x,
                    Err(e) => {
                        return Err(e);
                    },
                };
                let id = match field_str(m, "id") {
                    Ok(x) => x,
                    Err(e) => {
                        return Err(e);
                    },
                };
                let appid = match field_str_or_empty(m, "appid") {
                    Ok(x) => x,
                    Err(e) => {
                        return Err(e);
                    },
                };
                let token = match field_str_or_empty(m, "token") {
                    Ok(x) => x,
                    Err(e) => {
                        return Err(e);
                    },
                };
                let cluster = match field_str_or_empty(m, "cluster") {
                    Ok(x) => x,
                    Err(e) => {
                        return Err(e);
                    },
                };
                Ok(RecordAsrResponse { code, message, id, appid, token, cluster })
            },
            _ => {
                proof {
                    lemma_model_variant(*v);
                }
                Err(Error::Deserialization)
            },
        }
    }
}

impl RecordAsrResult {
    /// Decode a terminal-result document. A missing `message` reads as
    /// empty, missing `additions` as the all-absent flags, and missing
    /// `utterances` as the empty list.
    pub fn decode(v: &JsonValue) -> (r: Result<Self, Error>)
        ensures
            r is Ok <==> result_ok(v.model()),
            r matches Ok(res) ==> result_matches(res, v.model()),
            r matches Err(e) ==> e == Error::Deserialization,
    {
        match v {
            JsonValue::Obj(m) => {
                proof {
                    assert(v.model() == JsonV::Obj(model_members(m@)));
                }
                let id = match field_str(m, "id") {
                    Ok(x) => x,
                    Err(e) => {
                        return Err(e);
                    },
                };
                let code = match field_i32(m, "code") {
                    Ok(x) => x,
                    Err(e) => {
                        return Err(e);
                    },
                };
                let message = match field_str_or_empty(m, "message") {
                    Ok(x) => x,
                    Err(e) => {
                        return Err(e);
                    },
                };
                let text = match field_opt_str(m, "text") {
                    Ok(x) => x,
                    Err(e) => {
                        return Err(e);
                    },
                };
                let additions = match obj_lookup(m, "additions") {
                    None => Addtions {
                        language: None,
                        use_itn: None,
                        use_punc: None,
                        use_ddc: None,
                        with_speaker_info: None,
                        enable_query: None,
                        channel_split: None,
                    },
                    Some(av) => match decode_addtions(av) {
                        Ok(a) => a,
                        Err(e) => {
                            return Err(e);
                        },
                    },
                };
                let utterances = match obj_lookup(m, "utterances") {
                    None => Vec::new(),
                    Some(w) => match w {
                        JsonValue::Arr(ua) => {
                            proof {
                                lemma_model_seq(ua@);
                            }
                            match decode_utterances(ua) {
                                Ok(us) => us,
                                Err(e) => {
                                    proof {
                                        assert(w.model() == JsonV::Arr(model_seq(ua@)));
                                    }
                                    return Err(e);
                                },
                            }
                        },
                        _ => {
                            proof {
                                lemma_model_variant(*w);
                            }
                            return Err(Error::Deserialization);
                        },
                    },
                };
                Ok(RecordAsrResult { id, code, additions, message, text, utterances })
            },
            _ => {
                proof {
                    lemma_model_variant(*v);
                }
                Err(Error::Deserialization)
            },
        }
    }
}

/// Turn a submit response document into the acknowledgment: unwrap the
/// `resp` envelope, decode it, then overwrite the identity fields from the
/// original request, since the service does not echo them reliably.
pub fn process_submit_response(v: JsonValue, app: &App) -> (r: Result<RecordAsrResponse, Error>)
    ensures
        ({
            let env = spec_envelope(v.model());
            match r {
                Ok(resp) => {
                    &&& match env {
                        Some(inner) => response_ok(inner) && response_core_matches(resp, inner),
                        None => false,
                    }
                    &&& resp.appid@ == app.appid@
                    &&& resp.token@ == app.token@
                    &&& resp.cluster@ == app.cluster@
                },
                Err(e) => match env {
                    None => e == Error::UnexpectedResponseShape,
                    Some(inner) => !response_ok(inner) && e == Error::Deserialization,
                },
            }
        }),
{
    let inner = match unwrap_envelope(v) {
        Ok(x) => x,
        Err(e) => {
            return Err(e);
        },
    };
    let mut resp = match RecordAsrResponse::decode(&inner) {
        Ok(x) => x,
        Err(e) => {
            return Err(e);
        },
    };
    resp.appid = app.appid.clone();
    resp.token = app.token.clone();
    resp.cluster = app.cluster.clone();
    Ok(resp)
}

/// What one poll iteration decided: retry after the caller-supplied delay,
/// or stop with the decoded terminal payload.
#[derive(Debug, Clone, PartialEq)]
pub enum PollOutcome {
    Ready(RecordAsrResult),
    NotReady,
}

/// The envelope signals completion: its `code` is the terminal sentinel
/// `1000`.
pub open spec fn spec_ready(inner: JsonV) -> bool {
    match inner {
        JsonV::Obj(m) => get_int(m, "code"@) == Some(1000i64),
        _ => false,
    }
}

/// Decide one iteration of the transcription poll loop from the response
/// document. A missing envelope is a protocol error; a non-terminal or
/// malformed status code means "not ready yet"; a terminal code decodes
/// the payload, whose malformation is fatal.
pub fn poll_step(v: JsonValue) -> (r: Result<PollOutcome, Error>)
    ensures
        ({
            let env = spec_envelope(v.model());
            match r {
                Ok(PollOutcome::NotReady) => match env {
                    Some(inner) => !spec_ready(inner),
                    None => false,
                },
                Ok(PollOutcome::Ready(res)) => match env {
                    Some(inner) => spec_ready(inner) && result_ok(inner) && result_matches(
                        res,
                        inner,
                    ),
                    None => false,
                },
                Err(e) => match env {
                    None => e == Error::UnexpectedResponseShape,
                    Some(inner) => spec_ready(inner) && !result_ok(inner) && e
                        == Error::Deserialization,
                },
            }
        }),
{
    let inner = match unwrap_envelope(v) {
        Ok(x) => x,
        Err(e) => {
            return Err(e);
        },
    };
    let ready = match &inner {
        JsonValue::Obj(m) => {
            proof {
                assert(inner.model() == JsonV::Obj(model_members(m@)));
            }
            match obj_lookup(m, "code") {
                Some(w) => match w {
                    JsonValue::Int(c) => *c == 1000i64,
                    _ => {
                        proof {
                            lemma_model_variant(*w);
                        }
                        false
                    },
                },
                None => false,
            }
        },
        _ => {
            proof {
                lemma_model_variant(inner);
            }
            false
        },
    };
    proof {
        assert(ready == spec_ready(inner.model()));
    }
    if !ready {
        return Ok(PollOutcome::NotReady);
    }
    match RecordAsrResult::decode(&inner) {
        Ok(res) => Ok(PollOutcome::Ready(res)),
        Err(e) => Err(e),
    }
}

/// The wire member an optional string contributes: one entry when set,
/// none when absent.
pub open spec fn opt_str_member(k: Seq<char>, o: Option<String>) -> Seq<(Seq<char>, JsonV)> {
    match o {
        Some(s) => seq![(k, JsonV::Str(s@))],
        None => seq![],
    }
}

/// The wire member an optional integer contributes.
pub open spec fn opt_i32_member(k: Seq<char>, o: Option<i32>) -> Seq<(Seq<char>, JsonV)> {
    match o {
        Some(i) => seq![(k, JsonV::Int(i as i64))],
        None => seq![],
    }
}

/// The wire member an optional tri-state boolean contributes, encoded as
/// its literal string.
pub open spec fn opt_bool3_member(k: Seq<char>, o: Option<Boolean>) -> Seq<(Seq<char>, JsonV)> {
    match o {
        Some(b) => seq![(k, JsonV::Str(b.spec_encoded()))],
        None => seq![],
    }
}

/// The wire form of the identity block.
pub open spec fn app_wire(a: App) -> JsonV {
    JsonV::Obj(
        seq![
            ("appid"@, JsonV::Str(a.appid@)),
            ("token"@, JsonV::Str(a.token@)),
            ("cluster"@, JsonV::Str(a.cluster@)),
        ],
    )
}

/// The wire form of the user block.
pub open spec fn user_wire(u: User) -> JsonV {
    JsonV::Obj(seq![("uid"@, JsonV::Str(u.uid@))])
}

/// The wire form of the audio block: unset hints are omitted entirely.
pub open spec fn audio_wire(a: Audio) -> JsonV {
    JsonV::Obj(
        seq![("url"@, JsonV::Str(a.url@))] + opt_str_member("format"@, a.format)
            + opt_str_member("codec"@, a.codec) + opt_i32_member("rate"@, a.rate)
            + opt_i32_member("bits"@, a.bits) + opt_i32_member("channel"@, a.channel),
    )
}

/// The wire form of the optional request group.
pub open spec fn request_wire(q: Request) -> JsonV {
    JsonV::Obj(
        opt_str_member("callback"@, q.callback) + opt_str_member(
            "boosting_table_name"@,
            q.boosting_table_name,
        ),
    )
}

/// The wire form of the optional processing-flag group.
pub open spec fn addtions_wire(a: Addtions) -> JsonV {
    JsonV::Obj(
        opt_str_member("language"@, a.language) + opt_bool3_member("use_itn"@, a.use_itn)
            + opt_bool3_member("use_punc"@, a.use_punc) + opt_bool3_member("use_ddc"@, a.use_ddc)
            + opt_bool3_member("with_speaker_info"@, a.with_speaker_info) + opt_bool3_member(
            "enable_query"@,
            a.enable_query,
        ) + opt_bool3_member("channel_split"@, a.channel_split),
    )
}

/// The full wire form of a transcription request: an absent optional group
/// is omitted, never emitted as null.
pub open spec fn record_request_wire(r: RecordAsrRequest) -> JsonV {
    JsonV::Obj(
        seq![
            ("app"@, app_wire(r.app)),
            ("user"@, user_wire(r.user)),
            ("audio"@, audio_wire(r.audio)),
        ] + (match r.request {
            Some(q) => seq![("request"@, request_wire(q))],
            None => seq![],
        }) + (match r.additions {
            Some(a) => seq![("additions"@, addtions_wire(a))],
            None => seq![],
        }),
    )
}

/// The wire form of a poll query: the identity fields and the job id.
pub open spec fn poll_body_wire(r: RecordAsrResponse) -> JsonV {
    JsonV::Obj(
        seq![
            ("appid"@, JsonV::Str(r.appid@)),
            ("token"@, JsonV::Str(r.token@)),
            ("cluster"@, JsonV::Str(r.cluster@)),
            ("id"@, JsonV::Str(r.id@)),
        ],
    )
}

/// Append the member an optional string contributes.
fn push_opt_str(m: &mut Vec<(String, JsonValue)>, k: &str, o: Option<String>)
    ensures
        model_members(final(m)@) == model_members(old(m)@) + opt_str_member(k@, o),
{
    match o {
        Some(s) => push_member(m, k, JsonValue::Str(s)),
        None => {
            proof {
                assert(model_members(m@) + opt_str_member(k@, None::<String>) =~= model_members(
                    m@,
                ));
            }
        },
    }
}

/// Append the member an optional integer contributes.
fn push_opt_i32(m: &mut Vec<(String, JsonValue)>, k: &str, o: Option<i32>)
    ensures
        model_members(final(m)@) == model_members(old(m)@) + opt_i32_member(k@, o),
{
    match o {
        Some(i) => push_member(m, k, JsonValue::Int(i as i64)),
        None => {
            proof {
                assert(model_members(m@) + opt_i32_member(k@, None::<i32>) =~= model_members(m@));
            }
        },
    }
}

/// Append the member an optional tri-state boolean contributes.
fn push_opt_bool3(m: &mut Vec<(String, JsonValue)>, k: &str, o: Option<Boolean>)
    ensures
        model_members(final(m)@) == model_members(old(m)@) + opt_bool3_member(k@, o),
{
    match o {
        Some(b) => push_member(m, k, JsonValue::Str(b.encode())),
        None => {
            proof {
                assert(model_members(m@) + opt_bool3_member(k@, None::<Boolean>)
                    =~= model_members(m@));
            }
        },
    }
}

impl App {
    /// Encode the identity block.
    pub fn to_json(&self) -> (v: JsonValue)
        ensures
            v.model() == app_wire(*self),
    {
        let mut m: Vec<(String, JsonValue)> = Vec::new();
        push_member(&mut m, "appid", JsonValue::Str(self.appid.clone()));
        push_member(&mut m, "token", JsonValue::Str(self.token.clone()));
        push_member(&mut m, "cluster", JsonValue::Str(self.cluster.clone()));
        let ghost gm = m@;
        let v = JsonValue::Obj(m);
        proof {
            assert(v.model() == JsonV::Obj(model_members(gm)));
            assert(model_members(gm) =~= app_wire(*self)->Obj_0);
        }
        v
    }
}

impl User {
    /// Encode the user block.
    pub fn to_json(&self) -> (v: JsonValue)
        ensures
            v.model() == user_wire(*self),
    {
        let mut m: Vec<(String, JsonValue)> = Vec::new();
        push_member(&mut m, "uid", JsonValue::Str(self.uid.clone()));
        let ghost gm = m@;
        let v = JsonValue::Obj(m);
        proof {
            assert(v.model() == JsonV::Obj(model_members(gm)));
            assert(model_members(gm) =~= user_wire(*self)->Obj_0);
        }
        v
    }
}

impl Audio {
    /// Encode the audio block, omitting unset hints.
    pub fn to_json(&self) -> (v: JsonValue)
        ensures
            v.model() == audio_wire(*self),
    {
        let mut m: Vec<(String, JsonValue)> = Vec::new();
        push_member(&mut m, "url", JsonValue::Str(self.url.clone()));
        push_opt_str(&mut m, "format", self.format.clone());
        push_opt_str(&mut m, "codec", self.codec.clone());
        push_opt_i32(&mut m, "rate", self.rate);
        push_opt_i32(&mut m, "bits", self.bits);
        push_opt_i32(&mut m, "channel", self.channel);
        let ghost gm = m@;
        let v = JsonValue::Obj(m);
        proof {
            assert(v.model() == JsonV::Obj(model_members(gm)));
            assert(model_members(gm) =~= audio_wire(*self)->Obj_0);
        }
        v
    }
}

impl Request {
    /// Encode the optional request group.
    pub fn to_json(&self) -> (v: JsonValue)
        ensures
            v.model() == request_wire(*self),
    {
        let mut m: Vec<(String, JsonValue)> = Vec::new();
        push_opt_str(&mut m, "callback", self.callback.clone());
        push_opt_str(&mut m, "boosting_table_name", self.boosting_table_name.clone());
        let ghost gm = m@;
        let v = JsonValue::Obj(m);
        proof {
            assert(v.model() == JsonV::Obj(model_members(gm)));
            assert(model_members(gm) =~= request_wire(*self)->Obj_0);
        }
        v
    }
}

impl Addtions {
    /// Encode the optional processing-flag group.
    pub fn to_json(&self) -> (v: JsonValue)
        ensures
            v.model() == addtions_wire(*self),
    {
        let mut m: Vec<(String, JsonValue)> = Vec::new();
        push_opt_str(&mut m, "language", self.language.clone());
        push_opt_bool3(&mut m, "use_itn", self.use_itn);
        push_opt_bool3(&mut m, "use_punc", self.use_punc);
        push_opt_bool3(&mut m, "use_ddc", self.use_ddc);
        push_opt_bool3(&mut m, "with_speaker_info", self.with_speaker_info);
        push_opt_bool3(&mut m, "enable_query", self.enable_query);
        push_opt_bool3(&mut m, "channel_split", self.channel_split);
        let ghost gm = m@;
        let v = JsonValue::Obj(m);
        proof {
            assert(v.model() == JsonV::Obj(model_members(gm)));
            assert(model_members(gm) =~= addtions_wire(*self)->Obj_0);
        }
        v
    }
}

impl RecordAsrRequest {
    /// Encode the request body as it travels on the wire: nested blocks,
    /// with each absent optional group omitted entirely.
    pub fn to_json(&self) -> (v: JsonValue)
        ensures
            v.model() == record_request_wire(*self),
    {
        let mut m: Vec<(String, JsonValue)> = Vec::new();
        push_member(&mut m, "app", self.app.to_json());
        push_member(&mut m, "user", self.user.to_json());
        push_member(&mut m, "audio", self.audio.to_json());
        match &self.request {
            Some(q) => push_member(&mut m, "request", q.to_json()),
            None => (),
        }
        match &self.additions {
            Some(a) => push_member(&mut m, "additions", a.to_json()),
            None => (),
        }
        let ghost gm = m@;
        let v = JsonValue::Obj(m);
        proof {
            assert(v.model() == JsonV::Obj(model_members(gm)));
            assert(model_members(gm) =~= record_request_wire(*self)->Obj_0);
        }
        v
    }
}

impl RecordAsrResponse {
    /// Encode the poll-query body carrying the identity fields and job id.
    pub fn poll_body(&self) -> (v: JsonValue)
        ensures
            v.model() == poll_body_wire(*self),
    {
        let mut m: Vec<(String, JsonValue)> = Vec::new();
        push_member(&mut m, "appid", JsonValue::Str(self.appid.clone()));
        push_member(&mut m, "token", JsonValue::Str(self.token.clone()));
        push_member(&mut m, "cluster", JsonValue::Str(self.cluster.clone()));
        push_member(&mut m, "id", JsonValue::Str(self.id.clone()));
        let ghost gm = m@;
        let v = JsonValue::Obj(m);
        proof {
            assert(v.model() == JsonV::Obj(model_members(gm)));
            assert(model_members(gm) =~= poll_body_wire(*self)->Obj_0);
        }
        v
    }
}

impl RecordAsrRequest {
    /// The JSON text of the submit body.
    pub fn to_body(&self) -> (s: String)
        ensures
            s@ == ser_json(record_request_wire(*self)),
    {
        let v = self.to_json();
        json_to_string(&v)
    }
}

impl RecordAsrResponse {
    /// The JSON text of the poll-query body.
    pub fn poll_body_text(&self) -> (s: String)
        ensures
            s@ == ser_json(poll_body_wire(*self)),
    {
        let v = self.poll_body();
        json_to_string(&v)
    }
}

} // verus!
