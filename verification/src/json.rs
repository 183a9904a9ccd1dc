use vstd::prelude::*;
use vstd::string::*;
use crate::error::Error;
use crate::types::Boolean;
use crate::strutil::str_eq;

verus! {

/// Mathematical model of a JSON document. Numbers are modelled as signed
/// 64-bit integers, which covers every numeric field this crate decodes:
/// status codes and timestamps are integral.
pub enum JsonV {
    Null,
    Bool(bool),
    Int(i64),
    Str(Seq<char>),
    Arr(Seq<JsonV>),
    Obj(Seq<(Seq<char>, JsonV)>),
}

/// A JSON document as held and produced by the client. Object members keep
/// their order; a duplicated key reads as its last occurrence.
#[derive(Debug, PartialEq)]
pub enum JsonValue {
    Null,
    Bool(bool),
    Int(i64),
    Str(String),
    Arr(Vec<JsonValue>),
    Obj(Vec<(String, JsonValue)>),
}

impl JsonValue {
    /// The mathematical document this value represents.
    pub open spec fn model(self) -> JsonV
        decreases self,
    {
        match self {
            JsonValue::Null => JsonV::Null,
            JsonValue::Bool(b) => JsonV::Bool(b),
            JsonValue::Int(i) => JsonV::Int(i),
            JsonValue::Str(s) => JsonV::Str(s@),
            JsonValue::Arr(a) => JsonV::Arr(model_seq(a@)),
            JsonValue::Obj(m) => JsonV::Obj(model_members(m@)),
        }
    }
}

/// The models of an array's elements, in order.
pub open spec fn model_seq(a: Seq<JsonValue>) -> Seq<JsonV>
    decreases a,
{
    if a.len() == 0 {
        Seq::empty()
    } else {
        model_seq(a.drop_last()).push(a.last().model())
    }
}

/// The models of an object's members, in order.
pub open spec fn model_members(m: Seq<(String, JsonValue)>) -> Seq<(Seq<char>, JsonV)>
    decreases m,
{
    if m.len() == 0 {
        Seq::empty()
    } else {
        model_members(m.drop_last()).push((m.last().0@, m.last().1.model()))
    }
}

/// An array's model has one element per value, the value's own model.
pub proof fn lemma_model_seq(a: Seq<JsonValue>)
    ensures
        model_seq(a).len() == a.len(),
        forall|i: int|
            #![trigger model_seq(a)[i]]
            #![trigger a[i].model()]
            0 <= i < a.len() ==> model_seq(a)[i] == a[i].model(),
    decreases a,
{
    if a.len() > 0 {
        lemma_model_seq(a.drop_last());
        assert forall|i: int| 0 <= i < a.len() implies model_seq(a)[i] == #[trigger] a[i].model()
        by {
            if i < a.len() - 1 {
                assert(a.drop_last()[i] == a[i]);
            } else {
                assert(a.last() == a[i]);
            }
        }
    }
}

/// An object's model has one member per entry: the key's characters and the
/// value's model.
pub proof fn lemma_model_members(m: Seq<(String, JsonValue)>)
    ensures
        model_members(m).len() == m.len(),
        forall|i: int|
            #![trigger model_members(m)[i]]
            #![trigger m[i].0@, m[i].1.model()]
            0 <= i < m.len() ==> model_members(m)[i] == (m[i].0@, m[i].1.model()),
    decreases m,
{
    if m.len() > 0 {
        lemma_model_members(m.drop_last());
        assert forall|i: int|
            0 <= i < m.len() implies model_members(m)[i] == (#[trigger] m[i].0@, m[i].1.model())
        by {
            if i < m.len() - 1 {
                assert(m.drop_last()[i] == m[i]);
            } else {
                assert(m.last() == m[i]);
            }
        }
    }
}

/// The value under key `k` in an object's member list: the last member with
/// that key, as the service's decoder would retain it.
pub open spec fn obj_get(m: Seq<(Seq<char>, JsonV)>, k: Seq<char>) -> Option<JsonV>
    decreases m.len(),
{
    if m.len() == 0 {
        None
    } else if m.last().0 == k {
        Some(m.last().1)
    } else {
        obj_get(m.drop_last(), k)
    }
}

/// The value of the `resp` envelope inside a response document, if the
/// document is an object that carries one.
pub open spec fn spec_envelope(v: JsonV) -> Option<JsonV> {
    match v {
        JsonV::Obj(m) => obj_get(m, "resp"@),
        _ => None,
    }
}

/// Remove and return the vendor's `resp` envelope from a response document.
/// Absence of the envelope is a protocol error, never silently defaulted.
pub fn unwrap_envelope(v: JsonValue) -> (r: Result<JsonValue, Error>)
    ensures
        match r {
            Ok(inner) => spec_envelope(v.model()) == Some(inner.model()),
            Err(e) => spec_envelope(v.model()) is None && e == Error::UnexpectedResponseShape,
        },
{
    match v {
        JsonValue::Obj(mut m) => {
            let ghost kv = model_members(m@);
            proof {
                lemma_model_members(m@);
                assert(v.model() == JsonV::Obj(kv));
            }
            let mut i: usize = m.len();
            assert(kv =~= kv.take(kv.len() as int));
            while i > 0
                invariant
                    i <= kv.len(),
                    model_members(m@) == kv,
                    kv.len() == m@.len(),
                    v.model() == JsonV::Obj(kv),
                    obj_get(kv, "resp"@) == obj_get(kv.take(i as int), "resp"@),
                decreases i,
            {
                i = i - 1;
                proof {
                    lemma_model_members(m@);
                    assert(kv.take(i + 1).last() == kv[i as int]);
                    assert(kv.take(i + 1).drop_last() =~= kv.take(i as int));
                }
                if str_eq(m[i].0.as_str(), "resp") {
                    proof {
                        assert(kv[i as int] == (m@[i as int].0@, m@[i as int].1.model()));
                        assert(obj_get(kv, "resp"@) == Some(kv[i as int].1));
                    }
                    let member = m.remove(i);
                    return Ok(member.1);
                }
            }
            assert(kv.take(0).len() == 0);
            Err(Error::UnexpectedResponseShape)
        },
        _ => Err(Error::UnexpectedResponseShape),
    }
}

/// Borrow the value under key `k` of an object's member list, reading a
/// duplicated key as its last occurrence.
pub fn obj_lookup<'a>(m: &'a Vec<(String, JsonValue)>, k: &str) -> (r: Option<&'a JsonValue>)
    ensures
        match r {
            Some(v) => obj_get(model_members(m@), k@) == Some(v.model()),
            None => obj_get(model_members(m@), k@) is None,
        },
{
    let ghost kv = model_members(m@);
    let mut i: usize = m.len();
    proof {
        lemma_model_members(m@);
    }
    assert(kv =~= kv.take(kv.len() as int));
    while i > 0
        invariant
            i <= kv.len(),
            kv == model_members(m@),
            kv.len() == m@.len(),
            obj_get(kv, k@) == obj_get(kv.take(i as int), k@),
        decreases i,
    {
        i = i - 1;
        proof {
            lemma_model_members(m@);
            assert(kv.take(i + 1).last() == kv[i as int]);
            assert(kv.take(i + 1).drop_last() =~= kv.take(i as int));
        }
        if str_eq(m[i].0.as_str(), k) {
            return Some(&m[i].1);
        }
    }
    assert(kv.take(0).len() == 0);
    None
}

/// The string under key `k`, if the object holds one there.
pub open spec fn get_str(m: Seq<(Seq<char>, JsonV)>, k: Seq<char>) -> Option<Seq<char>> {
    match obj_get(m, k) {
        Some(JsonV::Str(s)) => Some(s),
        _ => None,
    }
}

/// The integer under key `k`, if the object holds one there.
pub open spec fn get_int(m: Seq<(Seq<char>, JsonV)>, k: Seq<char>) -> Option<i64> {
    match obj_get(m, k) {
        Some(JsonV::Int(i)) => Some(i),
        _ => None,
    }
}

/// The integer under key `k` narrowed to 32 bits, if the object holds one
/// there and it fits.
pub open spec fn get_i32(m: Seq<(Seq<char>, JsonV)>, k: Seq<char>) -> Option<i32> {
    match get_int(m, k) {
        Some(i) => if i32::MIN <= i <= i32::MAX {
            Some(i as i32)
        } else {
            None
        },
        None => None,
    }
}

/// An optional string field: `Some(None)` when the key is absent or null,
/// `Some(Some(s))` for a string, `None` for any other shape.
pub open spec fn get_opt_str(m: Seq<(Seq<char>, JsonV)>, k: Seq<char>) -> Option<
    Option<Seq<char>>,
> {
    match obj_get(m, k) {
        None => Some(None),
        Some(JsonV::Null) => Some(None),
        Some(JsonV::Str(s)) => Some(Some(s)),
        Some(_) => None,
    }
}

/// A string field that defaults to empty when absent; any present value
/// must be a string.
pub open spec fn get_str_or_empty(m: Seq<(Seq<char>, JsonV)>, k: Seq<char>) -> Option<Seq<char>> {
    match obj_get(m, k) {
        None => Some(Seq::empty()),
        Some(JsonV::Str(s)) => Some(s),
        Some(_) => None,
    }
}

/// The array under key `k`, if the object holds one there.
pub open spec fn get_arr(m: Seq<(Seq<char>, JsonV)>, k: Seq<char>) -> Option<Seq<JsonV>> {
    match obj_get(m, k) {
        Some(JsonV::Arr(a)) => Some(a),
        _ => None,
    }
}

/// Read a required string field.
pub fn field_str(m: &Vec<(String, JsonValue)>, k: &str) -> (r: Result<String, Error>)
    ensures
        match r {
            Ok(s) => get_str(model_members(m@), k@) == Some(s@),
            Err(e) => get_str(model_members(m@), k@) is None && e == Error::Deserialization,
        },
{
    match obj_lookup(m, k) {
        Some(JsonValue::Str(s)) => Ok(s.clone()),
        _ => Err(Error::Deserialization),
    }
}

/// Read a required signed 64-bit integer field.
pub fn field_i64(m: &Vec<(String, JsonValue)>, k: &str) -> (r: Result<i64, Error>)
    ensures
        match r {
            Ok(i) => get_int(model_members(m@), k@) == Some(i),
            Err(e) => get_int(model_members(m@), k@) is None && e == Error::Deserialization,
        },
{
    match obj_lookup(m, k) {
        Some(JsonValue::Int(i)) => Ok(*i),
        _ => Err(Error::Deserialization),
    }
}

/// Read a required 32-bit integer field; an out-of-range value is a
/// mismatch.
pub fn field_i32(m: &Vec<(String, JsonValue)>, k: &str) -> (r: Result<i32, Error>)
    ensures
        match r {
            Ok(i) => get_i32(model_members(m@), k@) == Some(i),
            Err(e) => get_i32(model_members(m@), k@) is None && e == Error::Deserialization,
        },
{
    match obj_lookup(m, k) {
        Some(JsonValue::Int(i)) => {
            if i32::MIN as i64 <= *i && *i <= i32::MAX as i64 {
                Ok(*i as i32)
            } else {
                Err(Error::Deserialization)
            }
        },
        _ => Err(Error::Deserialization),
    }
}

/// Read an optional string field: absent or null reads as `None`.
pub fn field_opt_str(m: &Vec<(String, JsonValue)>, k: &str) -> (r: Result<Option<String>, Error>)
    ensures
        match r {
            Ok(None) => get_opt_str(model_members(m@), k@) == Some(None::<Seq<char>>),
            Ok(Some(s)) => get_opt_str(model_members(m@), k@) == Some(Some(s@)),
            Err(e) => get_opt_str(model_members(m@), k@) is None && e == Error::Deserialization,
        },
{
    match obj_lookup(m, k) {
        None => Ok(None),
        Some(JsonValue::Null) => Ok(None),
        Some(JsonValue::Str(s)) => Ok(Some(s.clone())),
        Some(_) => Err(Error::Deserialization),
    }
}

/// Read a string field that defaults to empty when absent.
pub fn field_str_or_empty(m: &Vec<(String, JsonValue)>, k: &str) -> (r: Result<String, Error>)
    ensures
        match r {
            Ok(s) => get_str_or_empty(model_members(m@), k@) == Some(s@),
            Err(e) => get_str_or_empty(model_members(m@), k@) is None && e
                == Error::Deserialization,
        },
{
    match obj_lookup(m, k) {
        None => Ok(String::new()),
        Some(JsonValue::Str(s)) => Ok(s.clone()),
        Some(_) => Err(Error::Deserialization),
    }
}

/// An optional tri-state boolean field: stored on the wire as the literal
/// strings `"True"` / `"False"`; absent or null reads as `None`.
pub open spec fn get_opt_bool3(m: Seq<(Seq<char>, JsonV)>, k: Seq<char>) -> Option<
    Option<Boolean>,
> {
    match obj_get(m, k) {
        None => Some(None),
        Some(JsonV::Null) => Some(None),
        Some(JsonV::Str(s)) => match Boolean::spec_decoded(s) {
            Some(b) => Some(Some(b)),
            None => None,
        },
        Some(_) => None,
    }
}

/// Read an optional tri-state boolean field.
pub fn field_opt_bool3(m: &Vec<(String, JsonValue)>, k: &str) -> (r: Result<
    Option<Boolean>,
    Error,
>)
    ensures
        match r {
            Ok(None) => get_opt_bool3(model_members(m@), k@) == Some(None::<Boolean>),
            Ok(Some(b)) => get_opt_bool3(model_members(m@), k@) == Some(Some(b)),
            Err(e) => get_opt_bool3(model_members(m@), k@) is None && e
                == Error::Deserialization,
        },
{
    match obj_lookup(m, k) {
        None => Ok(None),
        Some(JsonValue::Null) => Ok(None),
        Some(JsonValue::Str(s)) => match Boolean::decode(s.as_str()) {
            Ok(b) => Ok(Some(b)),
            Err(e) => Err(e),
        },
        Some(_) => Err(Error::Deserialization),
    }
}

/// A value's model keeps its variant.
pub proof fn lemma_model_variant(v: JsonValue)
    ensures
        v.model() is Null <==> v is Null,
        v.model() is Bool <==> v is Bool,
        v.model() is Int <==> v is Int,
        v.model() is Str <==> v is Str,
        v.model() is Arr <==> v is Arr,
        v.model() is Obj <==> v is Obj,
{
    match v {
        JsonValue::Null => {},
        JsonValue::Bool(_) => {},
        JsonValue::Int(_) => {},
        JsonValue::Str(_) => {},
        JsonValue::Arr(_) => {},
        JsonValue::Obj(_) => {},
    }
}

/// Read a required array field, handing back its element list.
pub fn field_arr<'a>(m: &'a Vec<(String, JsonValue)>, k: &str) -> (r: Result<
    &'a Vec<JsonValue>,
    Error,
>)
    ensures
        match r {
            Ok(a) => get_arr(model_members(m@), k@) == Some(model_seq(a@)),
            Err(e) => get_arr(model_members(m@), k@) is None && e == Error::Deserialization,
        },
{
    match obj_lookup(m, k) {
        Some(w) => match w {
            JsonValue::Arr(a) => Ok(a),
            _ => {
                proof {
                    lemma_model_variant(*w);
                }
                Err(Error::Deserialization)
            },
        },
        None => Err(Error::Deserialization),
    }
}

/// Appending an entry extends an object's model by the entry's model.
pub proof fn lemma_model_members_push(m: Seq<(String, JsonValue)>, x: (String, JsonValue))
    ensures
        model_members(m.push(x)) == model_members(m).push((x.0@, x.1.model())),
{
    assert(m.push(x).drop_last() =~= m);
    assert(m.push(x).last() == x);
}

/// Append one member to an object under construction.
pub fn push_member(m: &mut Vec<(String, JsonValue)>, k: &str, v: JsonValue)
    ensures
        model_members(final(m)@) == model_members(old(m)@) + seq![(k@, v.model())],
{
    let ghost m0 = m@;
    let key = String::from_str(k);
    m.push((key, v));
    proof {
        lemma_model_members_push(m0, (key, v));
        assert(model_members(m0).push((k@, v.model())) =~= model_members(m0) + seq![
            (k@, v.model()),
        ]);
    }
}

/// The decimal digit character for `n` < 10.
pub open spec fn digit_char(n: nat) -> char {
    ((48 + n) as u8) as char
}

/// The decimal rendering of a natural number, most significant digit
/// first.
pub open spec fn dec_nat(n: nat) -> Seq<char>
    decreases n,
{
    if n < 10 {
        seq![digit_char(n)]
    } else {
        dec_nat(n / 10) + seq![digit_char(n % 10)]
    }
}

/// The decimal rendering of an integer.
pub open spec fn dec_int(i: int) -> Seq<char> {
    if i < 0 {
        seq!['-'] + dec_nat((-i) as nat)
    } else {
        dec_nat(i as nat)
    }
}

/// The escaped form of one character inside a JSON string: the quote, the
/// backslash and the three common control characters take their two-byte
/// escapes; every other character stands as itself.
pub open spec fn esc_char(c: char) -> Seq<char> {
    if c == '"' {
        seq!['\\', '"']
    } else if c == '\\' {
        seq!['\\', '\\']
    } else if c == '\n' {
        seq!['\\', 'n']
    } else if c == '\t' {
        seq!['\\', 't']
    } else if c == '\r' {
        seq!['\\', 'r']
    } else {
        seq![c]
    }
}

/// The escaped body of a JSON string.
pub open spec fn esc(s: Seq<char>) -> Seq<char>
    decreases s.len(),
{
    if s.len() == 0 {
        Seq::empty()
    } else {
        esc(s.drop_last()) + esc_char(s.last())
    }
}

/// The JSON text of a document: canonical, with no whitespace, object
/// members in held order, and strings escaped as `esc` says.
pub open spec fn ser_json(v: JsonV) -> Seq<char>
    decreases v,
{
    match v {
        JsonV::Null => "null"@,
        JsonV::Bool(b) => if b {
            "true"@
        } else {
            "false"@
        },
        JsonV::Int(i) => dec_int(i as int),
        JsonV::Str(s) => seq!['"'] + esc(s) + seq!['"'],
        JsonV::Arr(a) => seq!['['] + ser_elems(a) + seq![']'],
        JsonV::Obj(m) => seq!['{'] + ser_members(m) + seq!['}'],
    }
}

/// The comma-separated renderings of an array's elements.
pub open spec fn ser_elems(a: Seq<JsonV>) -> Seq<char>
    decreases a,
{
    if a.len() == 0 {
        Seq::empty()
    } else if a.len() == 1 {
        ser_json(a.last())
    } else {
        ser_elems(a.drop_last()) + seq![','] + ser_json(a.last())
    }
}

/// The comma-separated renderings of an object's members.
pub open spec fn ser_members(m: Seq<(Seq<char>, JsonV)>) -> Seq<char>
    decreases m,
{
    if m.len() == 0 {
        Seq::empty()
    } else if m.len() == 1 {
        seq!['"'] + esc(m.last().0) + seq!['"', ':'] + ser_json(m.last().1)
    } else {
        ser_members(m.drop_last()) + seq![','] + seq!['"'] + esc(m.last().0) + seq!['"', ':']
            + ser_json(m.last().1)
    }
}

/// Render a natural number in decimal.
fn u64_to_dec(n: u64) -> (s: String)
    ensures
        s@ == dec_nat(n as nat),
    decreases n,
{
    let digits = "0123456789";
    proof {
        reveal_strlit("0123456789");
    }
    let d = (n % 10) as usize;
    let ds = digits.substring_ascii(d, d + 1);
    proof {
        assert(ds@ =~= seq![digit_char((n % 10) as nat)]);
    }
    if n < 10 {
        ds.to_owned()
    } else {
        u64_to_dec(n / 10).concat(ds)
    }
}

/// Render a signed integer in decimal.
fn i64_to_dec(i: i64) -> (s: String)
    ensures
        s@ == dec_int(i as int),
{
    if i >= 0 {
        u64_to_dec(i as u64)
    } else {
        let m: u64 = if i == i64::MIN {
            9223372036854775808u64
        } else {
            (-i) as u64
        };
        proof {
            assert(m as nat == (-(i as int)) as nat);
            reveal_strlit("-");
            assert("-"@ =~= seq!['-']);
        }
        let r = String::from_str("-").concat(u64_to_dec(m).as_str());
        proof {
            assert(r@ =~= seq!['-'] + dec_nat(m as nat));
        }
        r
    }
}

/// Escape the body of a JSON string.
fn escape_str(s: &str) -> (r: String)
    ensures
        r@ == esc(s@),
{
    let n = s.unicode_len();
    let mut out = String::new();
    let mut i: usize = 0;
    proof {
        assert(s@.take(0).len() == 0);
    }
    while i < n
        invariant
            i <= n,
            n == s@.len(),
            out@ == esc(s@.take(i as int)),
        decreases n - i,
    {
        let c = s.get_char(i);
        proof {
            assert(s@.take(i as int + 1).drop_last() =~= s@.take(i as int));
            assert(s@.take(i as int + 1).last() == s@[i as int]);
        }
        if c == '"' {
            out.append("\\\"");
            proof {
                reveal_strlit("\\\"");
            }
        } else if c == '\\' {
            out.append("\\\\");
            proof {
                reveal_strlit("\\\\");
            }
        } else if c == '\n' {
            out.append("\\n");
            proof {
                reveal_strlit("\\n");
            }
        } else if c == '\t' {
            out.append("\\t");
            proof {
                reveal_strlit("\\t");
            }
        } else if c == '\r' {
            out.append("\\r");
            proof {
                reveal_strlit("\\r");
            }
        } else {
            let piece = s.substring_char(i, i + 1);
            out.append(piece);
            proof {
                assert(piece@ =~= seq![s@[i as int]]);
            }
        }
        proof {
            assert(out@ =~= esc(s@.take(i as int)) + esc_char(s@[i as int]));
        }
        i = i + 1;
    }
    proof {
        assert(s@.take(n as int) =~= s@);
    }
    out
}

/// Render a document as JSON text, as `ser_json` says.
#[verifier::loop_isolation(false)]
pub fn json_to_string(v: &JsonValue) -> (s: String)
    ensures
        s@ == ser_json(v.model()),
    decreases *v,
{
    match v {
        JsonValue::Null => String::from_str("null"),
        JsonValue::Bool(b) => {
            if *b {
                String::from_str("true")
            } else {
                String::from_str("false")
            }
        },
        JsonValue::Int(i) => i64_to_dec(*i),
        JsonValue::Str(st) => {
            let mut out = String::from_str("\"");
            out.append(escape_str(st.as_str()).as_str());
            out.append("\"");
            proof {
                reveal_strlit("\"");
                assert(out@ =~= seq!['"'] + esc(st@) + seq!['"']);
            }
            out
        },
        JsonValue::Arr(a) => {
            let ghost ms = model_seq(a@);
            let mut out = String::from_str("[");
            let mut i: usize = 0;
            proof {
                lemma_model_seq(a@);
                reveal_strlit("[");
                assert(out@ =~= seq!['['] + ser_elems(ms.take(0)));
            }
            while i < a.len()
                invariant
                    i <= a@.len(),
                    ms == model_seq(a@),
                    ms.len() == a@.len(),
                    out@ == seq!['['] + ser_elems(ms.take(i as int)),
                decreases a@.len() - i,
            {
                if i > 0 {
                    out.append(",");
                    proof {
                        reveal_strlit(",");
                    }
                }
                let piece = json_to_string(&a[i]);
                out.append(piece.as_str());
                proof {
                    lemma_model_seq(a@);
                    assert(ms.take(i as int + 1).drop_last() =~= ms.take(i as int));
                    assert(ms.take(i as int + 1).last() == ms[i as int]);
                    assert(out@ =~= seq!['['] + ser_elems(ms.take(i as int + 1)));
                }
                i = i + 1;
            }
            out.append("]");
            proof {
                reveal_strlit("]");
                assert(ms.take(ms.len() as int) =~= ms);
                assert(out@ =~= seq!['['] + ser_elems(ms) + seq![']']);
            }
            out
        },
        JsonValue::Obj(m) => {
            let ghost mm = model_members(m@);
            let mut out = String::from_str("{");
            let mut i: usize = 0;
            proof {
                lemma_model_members(m@);
                reveal_strlit("{");
                assert(out@ =~= seq!['{'] + ser_members(mm.take(0)));
            }
            while i < m.len()
                invariant
                    i <= m@.len(),
                    mm == model_members(m@),
                    mm.len() == m@.len(),
                    out@ == seq!['{'] + ser_members(mm.take(i as int)),
                decreases m@.len() - i,
            {
                if i > 0 {
                    out.append(",");
                    proof {
                        reveal_strlit(",");
                    }
                }
                out.append("\"");
                out.append(escape_str(m[i].0.as_str()).as_str());
                out.append("\":");
                let piece = json_to_string(&m[i].1);
                out.append(piece.as_str());
                proof {
                    lemma_model_members(m@);
                    reveal_strlit("\"");
                    reveal_strlit("\":");
                    assert(mm.take(i as int + 1).drop_last() =~= mm.take(i as int));
                    assert(mm.take(i as int + 1).last() == mm[i as int]);
                    assert(mm[i as int] == (m@[i as int].0@, m@[i as int].1.model()));
                    assert(out@ =~= seq!['{'] + ser_members(mm.take(i as int + 1)));
                }
                i = i + 1;
            }
            out.append("}");
            proof {
                reveal_strlit("}");
                assert(mm.take(mm.len() as int) =~= mm);
                assert(out@ =~= seq!['{'] + ser_members(mm) + seq!['}']);
            }
            out
        },
    }
}

/// A JSON whitespace character.
pub open spec fn is_ws_char(c: char) -> bool {
    c == ' ' || c == '\t' || c == '\n' || c == '\r'
}

/// A decimal digit character.
pub open spec fn is_digit_char(c: char) -> bool {
    '0' <= c && c <= '9'
}

/// The numeric value of a digit character.
pub open spec fn digit_val(c: char) -> nat {
    (c as nat - 48) as nat
}

/// The first position at or after `i` holding no whitespace.
pub open spec fn sp_ws(s: Seq<char>, i: nat) -> nat
    decreases s.len() - i,
{
    if i < s.len() && is_ws_char(s[i as int]) {
        sp_ws(s, i + 1)
    } else {
        i
    }
}

/// What the character after a backslash stands for, if the escape is
/// recognized.
pub open spec fn sp_unescape(c: char) -> Option<char> {
    if c == '"' {
        Some('"')
    } else if c == '\\' {
        Some('\\')
    } else if c == '/' {
        Some('/')
    } else if c == 'n' {
        Some('\n')
    } else if c == 't' {
        Some('\t')
    } else if c == 'r' {
        Some('\r')
    } else {
        None
    }
}

/// Parse the body of a string literal from `i` (just past the opening
/// quote) to its closing quote: the content and the position after the
/// quote.
pub open spec fn sp_str_body(s: Seq<char>, i: nat) -> Option<(Seq<char>, nat)>
    decreases s.len() - i,
{
    if i >= s.len() {
        None
    } else if s[i as int] == '"' {
        Some((Seq::empty(), i + 1))
    } else if s[i as int] == '\\' {
        if i + 1 < s.len() {
            match sp_unescape(s[i as int + 1]) {
                Some(c) => match sp_str_body(s, i + 2) {
                    Some((t, n)) => Some((seq![c] + t, n)),
                    None => None,
                },
                None => None,
            }
        } else {
            None
        }
    } else {
        match sp_str_body(s, i + 1) {
            Some((t, n)) => Some((seq![s[i as int]] + t, n)),
            None => None,
        }
    }
}

/// Consume digits from `i`, extending the accumulator; the value and the
/// first position past the digits.
pub open spec fn sp_digits(s: Seq<char>, i: nat, acc: nat) -> (nat, nat)
    decreases s.len() - i,
{
    if i < s.len() && is_digit_char(s[i as int]) {
        sp_digits(s, i + 1, acc * 10 + digit_val(s[i as int]))
    } else {
        (acc, i)
    }
}

/// Parse a number starting at `i`: an optional minus and at least one
/// digit, refused when the value leaves the signed 64-bit range.
pub open spec fn sp_number(s: Seq<char>, i: nat) -> Option<(JsonV, nat)> {
    if i < s.len() {
        let neg = s[i as int] == '-';
        let d0 = if neg {
            i + 1
        } else {
            i
        };
        if d0 < s.len() && is_digit_char(s[d0 as int]) {
            let (val, next) = sp_digits(s, d0, 0);
            let iv = if neg {
                -(val as int)
            } else {
                val as int
            };
            if i64::MIN <= iv <= i64::MAX {
                Some((JsonV::Int(iv as i64), next))
            } else {
                None
            }
        } else {
            None
        }
    } else {
        None
    }
}

/// Parse one document starting at `i`, whitespace allowed before it: the
/// document and the position just past it.
pub open spec fn sp_value(s: Seq<char>, i: nat) -> Option<(JsonV, nat)>
    decreases s.len() - i, 2int,
{
    let j = sp_ws(s, i);
    // the `j < i` test never holds; it keeps the recursion measure obvious
    if j >= s.len() || j < i {
        None
    } else if s[j as int] == 'n' {
        if j + 4 <= s.len() && s.subrange(j as int, j as int + 4) == "null"@ {
            Some((JsonV::Null, j + 4))
        } else {
            None
        }
    } else if s[j as int] == 't' {
        if j + 4 <= s.len() && s.subrange(j as int, j as int + 4) == "true"@ {
            Some((JsonV::Bool(true), j + 4))
        } else {
            None
        }
    } else if s[j as int] == 'f' {
        if j + 5 <= s.len() && s.subrange(j as int, j as int + 5) == "false"@ {
            Some((JsonV::Bool(false), j + 5))
        } else {
            None
        }
    } else if s[j as int] == '"' {
        match sp_str_body(s, j + 1) {
            Some((t, n)) => Some((JsonV::Str(t), n)),
            None => None,
        }
    } else if s[j as int] == '[' {
        let k = sp_ws(s, j + 1);
        if k < s.len() && s[k as int] == ']' {
            Some((JsonV::Arr(Seq::empty()), k + 1))
        } else if j + 1 > i {
            match sp_elems(s, j + 1) {
                Some((a, n)) => Some((JsonV::Arr(a), n)),
                None => None,
            }
        } else {
            None
        }
    } else if s[j as int] == '{' {
        let k = sp_ws(s, j + 1);
        if k < s.len() && s[k as int] == '}' {
            Some((JsonV::Obj(Seq::empty()), k + 1))
        } else if j + 1 > i {
            match sp_members(s, j + 1) {
                Some((m, n)) => Some((JsonV::Obj(m), n)),
                None => None,
            }
        } else {
            None
        }
    } else if s[j as int] == '-' || is_digit_char(s[j as int]) {
        sp_number(s, j)
    } else {
        None
    }
}

/// Parse one or more comma-separated documents and the closing bracket.
pub open spec fn sp_elems(s: Seq<char>, i: nat) -> Option<(Seq<JsonV>, nat)>
    decreases s.len() - i, 3int,
{
    match sp_value(s, i) {
        Some((v, n)) => {
            let k = sp_ws(s, n);
            if k < s.len() && k >= i {
                if s[k as int] == ']' {
                    Some((seq![v], k + 1))
                } else if s[k as int] == ',' && k + 1 > i {
                    match sp_elems(s, k + 1) {
                        Some((rest, m)) => Some((seq![v] + rest, m)),
                        None => None,
                    }
                } else {
                    None
                }
            } else {
                None
            }
        },
        None => None,
    }
}

/// Parse one or more comma-separated members and the closing brace.
pub open spec fn sp_members(s: Seq<char>, i: nat) -> Option<(Seq<(Seq<char>, JsonV)>, nat)>
    decreases s.len() - i, 3int,
{
    let j = sp_ws(s, i);
    if j < s.len() && j >= i && s[j as int] == '"' {
        match sp_str_body(s, j + 1) {
            Some((key, n)) => {
                let c = sp_ws(s, n);
                if c < s.len() && c >= i && s[c as int] == ':' && c + 1 > i {
                    match sp_value(s, c + 1) {
                        Some((v, n2)) => {
                            let k = sp_ws(s, n2);
                            if k < s.len() && k >= i {
                                if s[k as int] == '}' {
                                    Some((seq![(key, v)], k + 1))
                                } else if s[k as int] == ',' && k + 1 > i {
                                    match sp_members(s, k + 1) {
                                        Some((rest, m)) => Some((seq![(key, v)] + rest, m)),
                                        None => None,
                                    }
                                } else {
                                    None
                                }
                            } else {
                                None
                            }
                        },
                        None => None,
                    }
                } else {
                    None
                }
            },
            None => None,
        }
    } else {
        None
    }
}

/// Parse a whole text as one JSON document with nothing but whitespace
/// after it.
pub open spec fn sp_parse(s: Seq<char>) -> Option<JsonV> {
    match sp_value(s, 0) {
        Some((v, n)) => if n <= s.len() && sp_ws(s, n) == s.len() {
            Some(v)
        } else {
            None
        },
        None => None,
    }
}

/// Whether the character at `i` is JSON whitespace.
fn is_ws_at(s: &str, i: usize) -> (r: bool)
    requires
        i < s@.len(),
    ensures
        r == is_ws_char(s@[i as int]),
{
    let c = s.get_char(i);
    c == ' ' || c == '\t' || c == '\n' || c == '\r'
}

/// Whether the character at `i` is a decimal digit.
fn is_digit_at(s: &str, i: usize) -> (r: bool)
    requires
        i < s@.len(),
    ensures
        r == is_digit_char(s@[i as int]),
{
    let c = s.get_char(i);
    '0' <= c && c <= '9'
}

/// Skip whitespace from `i`.
fn ws_skip(s: &str, i: usize) -> (j: usize)
    requires
        i <= s@.len(),
    ensures
        j == sp_ws(s@, i as nat),
        i <= j <= s@.len(),
{
    let n = s.unicode_len();
    let mut cur = i;
    while cur < n && is_ws_at(s, cur)
        invariant
            i <= cur <= n,
            n == s@.len(),
            sp_ws(s@, i as nat) == sp_ws(s@, cur as nat),
        decreases n - cur,
    {
        cur = cur + 1;
    }
    cur
}

/// Parse a string literal's body from just past its opening quote.
fn parse_str_body(s: &str, i: usize) -> (r: Option<(String, usize)>)
    requires
        i <= s@.len(),
    ensures
        match r {
            Some((t, n)) => sp_str_body(s@, i as nat) == Some((t@, n as nat)) && i < n <= s@.len(),
            None => sp_str_body(s@, i as nat) is None,
        },
{
    let n = s.unicode_len();
    let mut out = String::new();
    let mut cur = i;
    while cur < n
        invariant
            i <= cur <= n,
            n == s@.len(),
            sp_str_body(s@, i as nat) == (match sp_str_body(s@, cur as nat) {
                Some((t, m)) => Some((out@ + t, m)),
                None => None,
            }),
        decreases n - cur,
    {
        let c = s.get_char(cur);
        if c == '"' {
            proof {
                assert(out@ + Seq::<char>::empty() =~= out@);
            }
            return Some((out, cur + 1));
        }
        if c == '\\' {
            if cur + 1 >= n {
                return None;
            }
            let e = s.get_char(cur + 1);
            let ghost out0 = out@;
            if e == '"' {
                out.append("\"");
                proof {
                    reveal_strlit("\"");
                    assert(out@ =~= out0 + seq!['"']);
                }
            } else if e == '\\' {
                out.append("\\");
                proof {
                    reveal_strlit("\\");
                    assert(out@ =~= out0 + seq!['\\']);
                }
            } else if e == '/' {
                out.append("/");
                proof {
                    reveal_strlit("/");
                    assert(out@ =~= out0 + seq!['/']);
                }
            } else if e == 'n' {
                out.append("\n");
                proof {
                    reveal_strlit("\n");
                    assert(out@ =~= out0 + seq!['\n']);
                }
            } else if e == 't' {
                out.append("\t");
                proof {
                    reveal_strlit("\t");
                    assert(out@ =~= out0 + seq!['\t']);
                }
            } else if e == 'r' {
                out.append("\r");
                proof {
                    reveal_strlit("\r");
                    assert(out@ =~= out0 + seq!['\r']);
                }
            } else {
                return None;
            }
            proof {
                match sp_str_body(s@, cur as nat + 2) {
                    Some((t, m)) => {
                        assert(out0 + (seq![sp_unescape(e).unwrap()] + t) =~= out@ + t);
                    },
                    None => {},
                }
            }
            cur = cur + 2;
        } else {
            let piece = s.substring_char(cur, cur + 1);
            let ghost out0 = out@;
            out.append(piece);
            proof {
                assert(piece@ =~= seq![s@[cur as int]]);
                match sp_str_body(s@, cur as nat + 1) {
                    Some((t, m)) => {
                        assert(out0 + (seq![s@[cur as int]] + t) =~= out@ + t);
                    },
                    None => {},
                }
            }
            cur = cur + 1;
        }
    }
    None
}

/// Parse a number starting at `i`.
fn parse_number(s: &str, i: usize) -> (r: Option<(i64, usize)>)
    requires
        i <= s@.len(),
    ensures
        match r {
            Some((v, n)) => sp_number(s@, i as nat) == Some((JsonV::Int(v), n as nat)) && n
                <= s@.len(),
            None => sp_number(s@, i as nat) is None,
        },
{
    let n = s.unicode_len();
    if i >= n {
        return None;
    }
    let neg = s.get_char(i) == '-';
    let d0 = if neg {
        i + 1
    } else {
        i
    };
    if !(d0 < n && is_digit_at(s, d0)) {
        return None;
    }
    let mut cur = d0;
    let mut acc: u64 = 0;
    let mut over = false;
    let ghost mut true_acc: nat = 0nat;
    while cur < n && is_digit_at(s, cur)
        invariant
            d0 <= cur <= n,
            n == s@.len(),
            sp_digits(s@, d0 as nat, 0) == sp_digits(s@, cur as nat, true_acc),
            !over ==> true_acc == acc as nat,
            over ==> true_acc > i64::MAX as nat + 1,
        decreases n - cur,
    {
        let c = s.get_char(cur);
        let d = (c as u32 - 48) as u64;
        proof {
            assert(d == digit_val(s@[cur as int]));
        }
        if !over {
            if acc > (u64::MAX - 9) / 10 {
                over = true;
            } else {
                acc = acc * 10 + d;
            }
        }
        proof {
            true_acc = true_acc * 10 + digit_val(s@[cur as int]);
        }
        cur = cur + 1;
    }
    proof {
        assert(sp_digits(s@, cur as nat, true_acc) == (true_acc, cur as nat));
    }
    if over {
        return None;
    }
    if neg {
        if acc > 9223372036854775808u64 {
            return None;
        }
        let v: i64 = if acc == 9223372036854775808u64 {
            i64::MIN
        } else {
            -(acc as i64)
        };
        Some((v, cur))
    } else {
        if acc > i64::MAX as u64 {
            return None;
        }
        Some((acc as i64, cur))
    }
}

/// Parse one document starting at `i`, as `sp_value` says.
pub fn parse_value(s: &str, i: usize) -> (r: Option<(JsonValue, usize)>)
    requires
        i <= s@.len(),
    ensures
        match r {
            Some((jv, n)) => sp_value(s@, i as nat) == Some((jv.model(), n as nat)) && n
                <= s@.len(),
            None => sp_value(s@, i as nat) is None,
        },
    decreases s@.len() - i, 2int,
{
    let n = s.unicode_len();
    let j = ws_skip(s, i);
    if j >= n {
        return None;
    }
    let c = s.get_char(j);
    if c == 'n' {
        if n - j >= 4 && str_eq(s.substring_char(j, j + 4), "null") {
            Some((JsonValue::Null, j + 4))
        } else {
            None
        }
    } else if c == 't' {
        if n - j >= 4 && str_eq(s.substring_char(j, j + 4), "true") {
            Some((JsonValue::Bool(true), j + 4))
        } else {
            None
        }
    } else if c == 'f' {
        if n - j >= 5 && str_eq(s.substring_char(j, j + 5), "false") {
            Some((JsonValue::Bool(false), j + 5))
        } else {
            None
        }
    } else if c == '"' {
        match parse_str_body(s, j + 1) {
            Some((t, n2)) => Some((JsonValue::Str(t), n2)),
            None => None,
        }
    } else if c == '[' {
        let k = ws_skip(s, j + 1);
        if k < n && s.get_char(k) == ']' {
            let v = JsonValue::Arr(Vec::new());
            proof {
                assert(v.model() == JsonV::Arr(model_seq(Seq::<JsonValue>::empty())));
                assert(model_seq(Seq::<JsonValue>::empty()) =~= Seq::<JsonV>::empty());
            }
            Some((v, k + 1))
        } else {
            match parse_elems(s, j + 1) {
                Some((a, n2)) => {
                    let ghost ga = a@;
                    let v = JsonValue::Arr(a);
                    proof {
                        assert(v.model() == JsonV::Arr(model_seq(ga)));
                    }
                    Some((v, n2))
                },
                None => None,
            }
        }
    } else if c == '{' {
        let k = ws_skip(s, j + 1);
        if k < n && s.get_char(k) == '}' {
            let v = JsonValue::Obj(Vec::new());
            proof {
                assert(v.model() == JsonV::Obj(model_members(Seq::<(String, JsonValue)>::empty())));
                assert(model_members(Seq::<(String, JsonValue)>::empty()) =~= Seq::<(
                    Seq<char>,
                    JsonV,
                )>::empty());
            }
            Some((v, k + 1))
        } else {
            match parse_members(s, j + 1) {
                Some((m, n2)) => {
                    let ghost gm = m@;
                    let v = JsonValue::Obj(m);
                    proof {
                        assert(v.model() == JsonV::Obj(model_members(gm)));
                    }
                    Some((v, n2))
                },
                None => None,
            }
        }
    } else if c == '-' || ('0' <= c && c <= '9') {
        match parse_number(s, j) {
            Some((v, n2)) => Some((JsonValue::Int(v), n2)),
            None => None,
        }
    } else {
        None
    }
}

/// Parse the elements of a non-empty array and its closing bracket.
fn parse_elems(s: &str, i: usize) -> (r: Option<(Vec<JsonValue>, usize)>)
    requires
        i <= s@.len(),
    ensures
        match r {
            Some((a, n)) => sp_elems(s@, i as nat) == Some((model_seq(a@), n as nat)) && n
                <= s@.len(),
            None => sp_elems(s@, i as nat) is None,
        },
    decreases s@.len() - i, 3int,
{
    let n = s.unicode_len();
    match parse_value(s, i) {
        Some((v, n2)) => {
            let k = ws_skip(s, n2);
            if k >= n || k < i {
                return None;
            }
            let c = s.get_char(k);
            if c == ']' {
                let mut out: Vec<JsonValue> = Vec::new();
                let ghost gv = v.model();
                out.push(v);
                proof {
                    lemma_model_seq(out@);
                    assert(model_seq(out@) =~= seq![gv]);
                }
                Some((out, k + 1))
            } else if c == ',' && k + 1 > i {
                match parse_elems(s, k + 1) {
                    Some((mut rest, m)) => {
                        let ghost grest = rest@;
                        let ghost gv = v.model();
                        let mut out: Vec<JsonValue> = Vec::new();
                        out.push(v);
                        out.append(&mut rest);
                        proof {
                            lemma_model_seq(out@);
                            lemma_model_seq(grest);
                            assert(model_seq(out@) =~= seq![gv] + model_seq(grest));
                        }
                        Some((out, m))
                    },
                    None => None,
                }
            } else {
                None
            }
        },
        None => None,
    }
}

/// Parse the members of a non-empty object and its closing brace.
fn parse_members(s: &str, i: usize) -> (r: Option<(Vec<(String, JsonValue)>, usize)>)
    requires
        i <= s@.len(),
    ensures
        match r {
            Some((m, n)) => sp_members(s@, i as nat) == Some((model_members(m@), n as nat)) && n
                <= s@.len(),
            None => sp_members(s@, i as nat) is None,
        },
    decreases s@.len() - i, 3int,
{
    let n = s.unicode_len();
    let j = ws_skip(s, i);
    if !(j < n && s.get_char(j) == '"') {
        return None;
    }
    match parse_str_body(s, j + 1) {
        Some((key, n1)) => {
            let c = ws_skip(s, n1);
            if !(c < n && c >= i && s.get_char(c) == ':' && c + 1 > i) {
                return None;
            }
            match parse_value(s, c + 1) {
                Some((v, n2)) => {
                    let k = ws_skip(s, n2);
                    if k >= n || k < i {
                        return None;
                    }
                    let cc = s.get_char(k);
                    if cc == '}' {
                        let mut out: Vec<(String, JsonValue)> = Vec::new();
                        let ghost gk = key@;
                        let ghost gv = v.model();
                        out.push((key, v));
                        proof {
                            lemma_model_members(out@);
                            assert(model_members(out@) =~= seq![(gk, gv)]);
                        }
                        Some((out, k + 1))
                    } else if cc == ',' && k + 1 > i {
                        match parse_members(s, k + 1) {
                            Some((mut rest, m)) => {
                                let ghost grest = rest@;
                                let ghost gk = key@;
                                let ghost gv = v.model();
                                let mut out: Vec<(String, JsonValue)> = Vec::new();
                                out.push((key, v));
                                out.append(&mut rest);
                                proof {
                                    lemma_model_members(out@);
                                    lemma_model_members(grest);
                                    assert(model_members(out@) =~= seq![(gk, gv)]
                                        + model_members(grest));
                                }
                                Some((out, m))
                            },
                            None => None,
                        }
                    } else {
                        None
                    }
                },
                None => None,
            }
        },
        None => None,
    }
}

/// Parse a whole text as one JSON document; anything else is a
/// `Deserialization` error.
pub fn parse_json(s: &str) -> (r: Result<JsonValue, Error>)
    ensures
        match r {
            Ok(v) => sp_parse(s@) == Some(v.model()),
            Err(e) => sp_parse(s@) is None && e == Error::Deserialization,
        },
{
    match parse_value(s, 0) {
        Some((v, n)) => {
            let rest = ws_skip(s, n);
            if rest == s.unicode_len() {
                Ok(v)
            } else {
                Err(Error::Deserialization)
            }
        },
        None => Err(Error::Deserialization),
    }
}

} // verus!
