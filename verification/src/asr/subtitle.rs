use vstd::prelude::*;
use vstd::string::*;
use crate::error::Error;
use crate::types::Boolean;
use crate::json::{
    JsonV, JsonValue, model_members, field_str, field_i64, lemma_model_variant, push_member,
};
use crate::strutil::str_eq;

verus! {

/// The value a query-parameter list associates with key `k`: the last
/// entry with that key, as a later write overrides an earlier one.
pub open spec fn params_get(s: Seq<(String, String)>, k: Seq<char>) -> Option<Seq<char>>
    decreases s.len(),
{
    if s.len() == 0 {
        None
    } else if s.last().0@ == k {
        Some(s.last().1@)
    } else {
        params_get(s.drop_last(), k)
    }
}

/// A key is present exactly when some entry carries it.
pub proof fn lemma_params_get_present(s: Seq<(String, String)>, k: Seq<char>)
    ensures
        params_get(s, k) is Some <==> exists|j: int| 0 <= j < s.len() && s[j].0@ == k,
    decreases s.len(),
{
    if s.len() > 0 {
        lemma_params_get_present(s.drop_last(), k);
        if s.last().0@ == k {
            assert(s[s.len() - 1].0@ == k);
        } else {
            if exists|j: int| 0 <= j < s.len() && s[j].0@ == k {
                let j = choose|j: int| 0 <= j < s.len() && s[j].0@ == k;
                assert(j < s.len() - 1);
                assert(s.drop_last()[j] == s[j]);
            }
            if exists|j: int| 0 <= j < s.drop_last().len() && s.drop_last()[j].0@ == k {
                let j = choose|j: int| 0 <= j < s.drop_last().len() && s.drop_last()[j].0@ == k;
                assert(s[j] == s.drop_last()[j]);
            }
        }
    }
}

/// Removing an entry whose key is not `k2` leaves `k2`'s binding alone.
pub proof fn lemma_params_get_remove(s: Seq<(String, String)>, i: int, k2: Seq<char>)
    requires
        0 <= i < s.len(),
        s[i].0@ != k2,
    ensures
        params_get(s.remove(i), k2) == params_get(s, k2),
    decreases s.len(),
{
    if i == s.len() - 1 {
        assert(s.remove(i) =~= s.drop_last());
    } else {
        assert(s.remove(i).last() == s.last());
        assert(s.remove(i).drop_last() =~= s.drop_last().remove(i));
        lemma_params_get_remove(s.drop_last(), i, k2);
    }
}

/// The index of the first entry with key `k`, if any.
fn find_param(params: &Vec<(String, String)>, k: &str) -> (r: Option<usize>)
    ensures
        match r {
            Some(i) => i < params@.len() && params@[i as int].0@ == k@,
            None => forall|j: int| 0 <= j < params@.len() ==> params@[j].0@ != k@,
        },
{
    let mut i: usize = 0;
    while i < params.len()
        invariant
            i <= params@.len(),
            forall|j: int| 0 <= j < i ==> params@[j].0@ != k@,
        decreases params@.len() - i,
    {
        if str_eq(params[i].0.as_str(), k) {
            return Some(i);
        }
        i = i + 1;
    }
    None
}

/// Bind `k` to `v` in a query-parameter list: the new value replaces any
/// earlier one, and every other key keeps its binding.
fn set_param(params: &mut Vec<(String, String)>, k: &str, v: String)
    ensures
        params_get(final(params)@, k@) == Some(v@),
        forall|k2: Seq<char>|
            k2 != k@ ==> params_get(final(params)@, k2) == params_get(old(params)@, k2),
{
    let ghost s0 = params@;
    let removed = find_param(params, k);
    match removed {
        Some(i) => {
            params.remove(i);
        },
        None => (),
    }
    let ghost mid = params@;
    proof {
        assert forall|k2: Seq<char>| k2 != k@ implies params_get(mid, k2) == params_get(
            s0,
            k2,
        ) by {
            match removed {
                Some(i) => {
                    lemma_params_get_remove(s0, i as int, k2);
                },
                None => {},
            }
        }
    }
    let key = String::from_str(k);
    params.push((key, v));
    proof {
        assert(params@.drop_last() =~= mid);
    }
}

/// One source for a subtitle job: a remote URL, or raw audio bytes tagged
/// with a media type.
#[derive(Debug, Clone, PartialEq)]
pub enum SubtitleSource {
    Binary { typ: String, data: Vec<u8> },
    Url(String),
}

/// The media-type tag a path carries: the characters after the last `.`
/// of its file name, absent when the file name has no `.` past its first
/// character.
pub open spec fn spec_extension(p: Seq<char>) -> Option<Seq<char>>
    decreases p.len(),
{
    if p.len() == 0 {
        None
    } else if p.last() == '/' {
        None
    } else if p.last() == '.' {
        if p.len() >= 2 && p[p.len() - 2] != '/' {
            Some(Seq::empty())
        } else {
            None
        }
    } else {
        match spec_extension(p.drop_last()) {
            Some(e) => Some(e.push(p.last())),
            None => None,
        }
    }
}

impl SubtitleSource {
    /// Tag raw audio bytes with the media type derived from the path they
    /// were read from; a path without an extension is refused.
    pub fn binary_from_path(path: &str, data: Vec<u8>) -> (r: Result<SubtitleSource, Error>)
        ensures
            match r {
                Ok(s) => match s {
                    SubtitleSource::Binary { typ, data: d } => spec_extension(path@) == Some(typ@)
                        && d == data,
                    _ => false,
                },
                Err(e) => spec_extension(path@) is None && e == Error::NoExtension,
            },
    {
        match extension_of(path) {
            Some(typ) => Ok(SubtitleSource::Binary { typ, data }),
            None => Err(Error::NoExtension),
        }
    }
}

/// The extension of a path, as `spec_extension` defines it.
pub fn extension_of(p: &str) -> (r: Option<String>)
    ensures
        match r {
            Some(e) => spec_extension(p@) == Some(e@),
            None => spec_extension(p@) is None,
        },
{
    let n = p.unicode_len();
    let mut i: usize = n;
    proof {
        assert(p@.take(n as int) =~= p@);
    }
    while i > 0
        invariant
            i <= n,
            n == p@.len(),
            spec_extension(p@) is Some <==> spec_extension(p@.take(i as int)) is Some,
            spec_extension(p@) matches Some(e) ==> spec_extension(p@.take(i as int)) matches Some(
                e0,
            ) && e == e0 + p@.subrange(i as int, n as int),
        decreases i,
    {
        let c = p.get_char(i - 1);
        proof {
            assert(p@.take(i as int).last() == p@[i as int - 1]);
            assert(p@.take(i as int).drop_last() =~= p@.take(i as int - 1));
        }
        if c == '/' {
            return None;
        }
        if c == '.' {
            if i >= 2 && p.get_char(i - 2) != '/' {
                let ext = p.substring_char(i, n).to_owned();
                proof {
                    assert(p@.take(i as int)[i as int - 2] == p@[i as int - 2]);
                    assert(Seq::<char>::empty() + p@.subrange(i as int, n as int) =~= p@.subrange(
                        i as int,
                        n as int,
                    ));
                }
                return Some(ext);
            } else {
                return None;
            }
        }
        proof {
            if i >= 2 {
                assert(p@.take(i as int)[i as int - 2] == p@[i as int - 2]);
            }
            match spec_extension(p@.take(i as int - 1)) {
                Some(e0) => {
                    assert(e0.push(p@[i as int - 1]) + p@.subrange(i as int, n as int) =~= e0
                        + p@.subrange(i as int - 1, n as int));
                },
                None => {},
            }
        }
        i = i - 1;
    }
    proof {
        assert(p@.take(0).len() == 0);
    }
    None
}

/// Mutable accumulator for a subtitle request: an open string-keyed
/// parameter set plus the audio source.
#[derive(Debug, Clone, PartialEq)]
pub struct SubtitleRequestBuilder {
    pub params: Vec<(String, String)>,
    pub source: Option<SubtitleSource>,
}

/// A validated, immutable subtitle request.
#[derive(Debug, Clone, PartialEq)]
pub struct SubtitleRequest {
    pub params: Vec<(String, String)>,
    pub source: SubtitleSource,
}

impl Default for SubtitleRequestBuilder {
    /// The builder with no parameter and no source.
    fn default() -> (r: Self)
        ensures
            r.params@ == Seq::<(String, String)>::empty(),
            r.source is None,
    {
        SubtitleRequestBuilder { params: Vec::new(), source: None }
    }
}

impl SubtitleRequest {
    /// A fresh builder with no parameter and no source.
    pub fn builder() -> (r: SubtitleRequestBuilder)
        ensures
            r.params@ == Seq::<(String, String)>::empty(),
            r.source is None,
    {
        SubtitleRequestBuilder::default()
    }
}

impl SubtitleRequestBuilder {
    /// Set the audio source, replacing any earlier one.
    pub fn source(self, source: SubtitleSource) -> (r: Self)
        ensures
            r.source == Some(source),
            r.params == self.params,
    {
        SubtitleRequestBuilder { source: Some(source), ..self }
    }

    /// Validate the accumulated state and produce the immutable request:
    /// an `appid` parameter and a source are required; anything less fails
    /// with `RequestBuild`.
    pub fn build(self) -> (r: Result<SubtitleRequest, Error>)
        ensures
            r is Ok <==> (params_get(self.params@, "appid"@) is Some && self.source is Some),
            r matches Err(e) ==> e == Error::RequestBuild,
            r matches Ok(q) ==> q.params == self.params && Some(q.source) == self.source,
    {
        let SubtitleRequestBuilder { params, source } = self;
        let source = match source {
            Some(s) => s,
            None => {
                return Err(Error::RequestBuild);
            },
        };
        let has_appid = find_param(&params, "appid");
        proof {
            lemma_params_get_present(params@, "appid"@);
        }
        match has_appid {
            Some(_) => Ok(SubtitleRequest { params, source }),
            None => Err(Error::RequestBuild),
        }
    }

    /// Set the `appid` parameter, replacing any earlier value.
    pub fn appid(self, value: String) -> (r: Self)
        ensures
            params_get(r.params@, "appid"@) == Some(value@),
            forall|k2: Seq<char>|
                k2 != "appid"@ ==> params_get(r.params@, k2) == params_get(self.params@, k2),
            r.source == self.source,
    {
        let SubtitleRequestBuilder { mut params, source } = self;
        set_param(&mut params, "appid", value);
        SubtitleRequestBuilder { params, source }
    }
}

impl SubtitleRequestBuilder {
    /// Set the `words_per_line` parameter, replacing any earlier value.
    pub fn words_per_line(self, value: String) -> (r: Self)
        ensures
            params_get(r.params@, "words_per_line"@) == Some(value@),
            forall|k2: Seq<char>|
                k2 != "words_per_line"@ ==> params_get(r.params@, k2) == params_get(self.params@, k2),
            r.source == self.source,
    {
        let SubtitleRequestBuilder { mut params, source } = self;
        set_param(&mut params, "words_per_line", value);
        SubtitleRequestBuilder { params, source }
    }
}

impl SubtitleRequestBuilder {
    /// Set the `max_lines` parameter, replacing any earlier value.
    pub fn max_lines(self, value: String) -> (r: Self)
        ensures
            params_get(r.params@, "max_lines"@) == Some(value@),
            forall|k2: Seq<char>|
                k2 != "max_lines"@ ==> params_get(r.params@, k2) == params_get(self.params@, k2),
            r.source == self.source,
    {
        let SubtitleRequestBuilder { mut params, source } = self;
        set_param(&mut params, "max_lines", value);
        SubtitleRequestBuilder { params, source }
    }
}

impl SubtitleRequestBuilder {
    /// Set the `use_itn` parameter, replacing any earlier value.
    pub fn use_itn(self, value: String) -> (r: Self)
        ensures
            params_get(r.params@, "use_itn"@) == Some(value@),
            forall|k2: Seq<char>|
                k2 != "use_itn"@ ==> params_get(r.params@, k2) == params_get(self.params@, k2),
            r.source == self.source,
    {
        let SubtitleRequestBuilder { mut params, source } = self;
        set_param(&mut params, "use_itn", value);
        SubtitleRequestBuilder { params, source }
    }
}

impl SubtitleRequestBuilder {
    /// Set the `language` parameter, replacing any earlier value.
    pub fn language(self, value: String) -> (r: Self)
        ensures
            params_get(r.params@, "language"@) == Some(value@),
            forall|k2: Seq<char>|
                k2 != "language"@ ==> params_get(r.params@, k2) == params_get(self.params@, k2),
            r.source == self.source,
    {
        let SubtitleRequestBuilder { mut params, source } = self;
        set_param(&mut params, "language", value);
        SubtitleRequestBuilder { params, source }
    }
}

impl SubtitleRequestBuilder {
    /// Set the `caption_type` parameter, replacing any earlier value.
    pub fn caption_type(self, value: String) -> (r: Self)
        ensures
            params_get(r.params@, "caption_type"@) == Some(value@),
            forall|k2: Seq<char>|
                k2 != "caption_type"@ ==> params_get(r.params@, k2) == params_get(self.params@, k2),
            r.source == self.source,
    {
        let SubtitleRequestBuilder { mut params, source } = self;
        set_param(&mut params, "caption_type", value);
        SubtitleRequestBuilder { params, source }
    }
}

impl SubtitleRequestBuilder {
    /// Set the `use_punc` parameter, replacing any earlier value.
    pub fn use_punc(self, value: String) -> (r: Self)
        ensures
            params_get(r.params@, "use_punc"@) == Some(value@),
            forall|k2: Seq<char>|
                k2 != "use_punc"@ ==> params_get(r.params@, k2) == params_get(self.params@, k2),
            r.source == self.source,
    {
        let SubtitleRequestBuilder { mut params, source } = self;
        set_param(&mut params, "use_punc", value);
        SubtitleRequestBuilder { params, source }
    }
}

impl SubtitleRequestBuilder {
    /// Set the `use_ddc` parameter, replacing any earlier value.
    pub fn use_ddc(self, value: String) -> (r: Self)
        ensures
            params_get(r.params@, "use_ddc"@) == Some(value@),
            forall|k2: Seq<char>|
                k2 != "use_ddc"@ ==> params_get(r.params@, k2) == params_get(self.params@, k2),
            r.source == self.source,
    {
        let SubtitleRequestBuilder { mut params, source } = self;
        set_param(&mut params, "use_ddc", value);
        SubtitleRequestBuilder { params, source }
    }
}

impl SubtitleRequestBuilder {
    /// Set the `boosting_table_id` parameter, replacing any earlier value.
    pub fn boosting_table_id(self, value: String) -> (r: Self)
        ensures
            params_get(r.params@, "boosting_table_id"@) == Some(value@),
            forall|k2: Seq<char>|
                k2 != "boosting_table_id"@ ==> params_get(r.params@, k2) == params_get(self.params@, k2),
            r.source == self.source,
    {
        let SubtitleRequestBuilder { mut params, source } = self;
        set_param(&mut params, "boosting_table_id", value);
        SubtitleRequestBuilder { params, source }
    }
}

impl SubtitleRequestBuilder {
    /// Set the `boosting_table_name` parameter, replacing any earlier value.
    pub fn boosting_table_name(self, value: String) -> (r: Self)
        ensures
            params_get(r.params@, "boosting_table_name"@) == Some(value@),
            forall|k2: Seq<char>|
                k2 != "boosting_table_name"@ ==> params_get(r.params@, k2) == params_get(self.params@, k2),
            r.source == self.source,
    {
        let SubtitleRequestBuilder { mut params, source } = self;
        set_param(&mut params, "boosting_table_name", value);
        SubtitleRequestBuilder { params, source }
    }
}

impl SubtitleRequestBuilder {
    /// Set the `asr_appid` parameter, replacing any earlier value.
    pub fn asr_appid(self, value: String) -> (r: Self)
        ensures
            params_get(r.params@, "asr_appid"@) == Some(value@),
            forall|k2: Seq<char>|
                k2 != "asr_appid"@ ==> params_get(r.params@, k2) == params_get(self.params@, k2),
            r.source == self.source,
    {
        let SubtitleRequestBuilder { mut params, source } = self;
        set_param(&mut params, "asr_appid", value);
        SubtitleRequestBuilder { params, source }
    }
}

impl SubtitleRequestBuilder {
    /// Set the `with_speaker_info` parameter, replacing any earlier value.
    pub fn with_speaker_info(self, value: String) -> (r: Self)
        ensures
            params_get(r.params@, "with_speaker_info"@) == Some(value@),
            forall|k2: Seq<char>|
                k2 != "with_speaker_info"@ ==> params_get(r.params@, k2) == params_get(self.params@, k2),
            r.source == self.source,
    {
        let SubtitleRequestBuilder { mut params, source } = self;
        set_param(&mut params, "with_speaker_info", value);
        SubtitleRequestBuilder { params, source }
    }
}

impl SubtitleRequest {
    /// The content-type header value a binary source travels under.
    pub fn content_type(typ: &str) -> (r: String)
        ensures
            r@ == "audio/"@ + typ@,
    {
        String::from_str("audio/").concat(typ)
    }

    /// The JSON body a URL source travels as.
    pub fn url_body(url: &str) -> (v: JsonValue)
        ensures
            v.model() == JsonV::Obj(seq![("url"@, JsonV::Str(url@))]),
    {
        let mut m: Vec<(String, JsonValue)> = Vec::new();
        push_member(&mut m, "url", JsonValue::Str(url.to_owned()));
        let ghost gm = m@;
        let v = JsonValue::Obj(m);
        proof {
            assert(v.model() == JsonV::Obj(model_members(gm)));
            assert(model_members(gm) =~= seq![("url"@, JsonV::Str(url@))]);
        }
        v
    }
}

/// The acknowledgment of a submitted subtitle job.
#[derive(Debug, Clone, PartialEq)]
pub struct SubtitleResponse {
    pub code: i64,
    pub message: String,
    pub id: String,
}

/// A subtitle acknowledgment document is well-shaped: `code`, `message`
/// and `id` are all present. No envelope wraps it.
pub open spec fn subtitle_response_ok(v: JsonV) -> bool {
    &&& v is Obj
    &&& crate::json::get_int(v->Obj_0, "code"@) is Some
    &&& crate::json::get_str(v->Obj_0, "message"@) is Some
    &&& crate::json::get_str(v->Obj_0, "id"@) is Some
}

/// `r` is the decoding of the subtitle acknowledgment document `v`.
pub open spec fn subtitle_response_matches(r: SubtitleResponse, v: JsonV) -> bool {
    &&& subtitle_response_ok(v)
    &&& Some(r.code) == crate::json::get_int(v->Obj_0, "code"@)
    &&& Some(r.message@) == crate::json::get_str(v->Obj_0, "message"@)
    &&& Some(r.id@) == crate::json::get_str(v->Obj_0, "id"@)
}

impl SubtitleResponse {
    /// Decode a subtitle acknowledgment document, read directly with no
    /// envelope unwrapping.
    pub fn decode(v: &JsonValue) -> (r: Result<Self, Error>)
        ensures
            r is Ok <==> subtitle_response_ok(v.model()),
            r matches Ok(resp) ==> subtitle_response_matches(resp, v.model()),
            r matches Err(e) ==> e == Error::Deserialization,
    {
        match v {
            JsonValue::Obj(m) => {
                proof {
                    assert(v.model() == JsonV::Obj(model_members(m@)));
                }
                let code = match field_i64(m, "code") {
                    Ok(x) => x,
                    Err(e) => {
                        return Err(e);
                    },
                };
                let message = match field_str(m, "message") {
                    Ok(x) => x,
                    Err(e) => {
                        return Err(e);
                    },
                };
                let id = match field_str(m, "id") {
                    Ok(x) => x,
                    Err(e) => {
                        return Err(e);
                    },
                };
                Ok(SubtitleResponse { code, message, id })
            },
            _ => {
                proof {
                    lemma_model_variant(*v);
                }
                Err(Error::Deserialization)
            },
        }
    }

    /// The query parameters of the single blocking poll call: the app id,
    /// this acknowledgment's job id, and the blocking flag.
    pub fn poll_query(&self, appid: &str) -> (r: Vec<(String, String)>)
        ensures
            r@.len() == 3,
            r@[0].0@ == "appid"@ && r@[0].1@ == appid@,
            r@[1].0@ == "id"@ && r@[1].1@ == self.id@,
            r@[2].0@ == "blocking"@ && r@[2].1@ == "1"@,
    {
        let mut q: Vec<(String, String)> = Vec::new();
        q.push((String::from_str("appid"), appid.to_owned()));
        q.push((String::from_str("id"), self.id.clone()));
        q.push((String::from_str("blocking"), String::from_str("1")));
        q
    }
}

/// Detection details attached to a subtitle result's attribute block.
#[derive(Debug, Clone, PartialEq)]
pub struct Extra {
    pub asr_service: String,
    pub caption_type: String,
    pub is_mandarin: Boolean,
    pub is_speech: Boolean,
    pub language: String,
}

/// The attribute block of a subtitle result, utterance or word.
#[derive(Debug, Clone, PartialEq)]
pub struct Attribute {
    pub extra: Option<Extra>,
    pub event: Option<String>,
    pub speaker: Option<String>,
}

/// A time-aligned word of a subtitle utterance.
#[derive(Debug, Clone, PartialEq)]
pub struct Word {
    pub attribute: Attribute,
    pub start_time: i64,
    pub end_time: i64,
    pub text: String,
}

/// The attribute block of a subtitle utterance event.
#[derive(Debug, Clone, PartialEq)]
pub struct UtteranceAttribute {
    pub event: String,
}

/// A timed subtitle segment with its word-level breakdown.
#[derive(Debug, Clone, PartialEq)]
pub struct Utterance {
    pub start_time: i64,
    pub end_time: i64,
    pub text: String,
    pub words: Vec<Word>,
    pub attribute: Attribute,
}

} // verus!
