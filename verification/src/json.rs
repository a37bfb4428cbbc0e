use vstd::prelude::*;

verus! {

/// A JSON document held as plain data, so that the translation logic over it
/// can be reasoned about structurally. Numbers that fit in `i64` are kept as
/// integers; any other number keeps its textual form.
#[derive(Debug)]
pub enum Json {
    Null,
    Bool(bool),
    Int(i64),
    Num(String),
    Text(String),
    List(Vec<Json>),
    Obj(Vec<(String, Json)>),
}

/// The mathematical value of a document.
#[verifier::ext_equal]
pub enum JsonV {
    Null,
    Bool(bool),
    Int(int),
    Num(Seq<char>),
    Text(Seq<char>),
    List(Seq<JsonV>),
    Obj(Seq<(Seq<char>, JsonV)>),
}

pub open spec fn jv(v: Json) -> JsonV
    decreases v,
{
    match v {
        Json::Null => JsonV::Null,
        Json::Bool(b) => JsonV::Bool(b),
        Json::Int(i) => JsonV::Int(i as int),
        Json::Num(s) => JsonV::Num(s@),
        Json::Text(s) => JsonV::Text(s@),
        Json::List(xs) => JsonV::List(jv_list(xs@)),
        Json::Obj(m) => JsonV::Obj(jv_obj(m@)),
    }
}

pub open spec fn jv_list(s: Seq<Json>) -> Seq<JsonV>
    decreases s via jv_list_decreases
{
    if s.len() == 0 {
        Seq::empty()
    } else {
        seq![jv(s[0])] + jv_list(s.skip(1))
    }
}

#[via_fn]
proof fn jv_list_decreases(s: Seq<Json>) {
    if s.len() > 0 {
        assert(decreases_to!(s => s[0]));
        assert(s.skip(1) == s.subrange(1, s.len() as int));
        assert(decreases_to!(s => s.subrange(1, s.len() as int)));
    }
}

pub open spec fn jv_obj(s: Seq<(String, Json)>) -> Seq<(Seq<char>, JsonV)>
    decreases s via jv_obj_decreases
{
    if s.len() == 0 {
        Seq::empty()
    } else {
        seq![(s[0].0@, jv(s[0].1))] + jv_obj(s.skip(1))
    }
}

#[via_fn]
proof fn jv_obj_decreases(s: Seq<(String, Json)>) {
    if s.len() > 0 {
        assert(decreases_to!(s => s[0]));
        assert(decreases_to!(s[0] => s[0].1));
        assert(s.skip(1) == s.subrange(1, s.len() as int));
        assert(decreases_to!(s => s.subrange(1, s.len() as int)));
    }
}

pub broadcast proof fn lemma_jv_list(s: Seq<Json>)
    ensures
        #[trigger] jv_list(s).len() == s.len(),
        forall|i: int| 0 <= i < s.len() ==> jv_list(s)[i] == jv(s[i]),
    decreases s.len(),
{
    if s.len() > 0 {
        lemma_jv_list(s.skip(1));
        assert(forall|i: int|
            1 <= i < s.len() ==> jv_list(s)[i] == jv_list(s.skip(1))[i - 1]);
        assert(forall|i: int| 1 <= i < s.len() ==> s.skip(1)[i - 1] == s[i]);
    }
}

pub broadcast proof fn lemma_jv_obj(s: Seq<(String, Json)>)
    ensures
        #[trigger] jv_obj(s).len() == s.len(),
        forall|i: int|
            0 <= i < s.len() ==> jv_obj(s)[i] == (s[i].0@, jv(s[i].1)),
    decreases s.len(),
{
    if s.len() > 0 {
        lemma_jv_obj(s.skip(1));
        assert(forall|i: int|
            1 <= i < s.len() ==> jv_obj(s)[i] == jv_obj(s.skip(1))[i - 1]);
        assert(forall|i: int| 1 <= i < s.len() ==> s.skip(1)[i - 1] == s[i]);
    }
}

impl View for Json {
    type V = JsonV;

    open spec fn view(&self) -> JsonV {
        jv(*self)
    }
}

impl DeepView for Json {
    type V = JsonV;

    open spec fn deep_view(&self) -> JsonV {
        jv(*self)
    }
}

impl Clone for Json {
    fn clone(&self) -> (r: Json)
        ensures
            r@ == self@,
    {
        clone_json(self)
    }
}

/// Deep copy of a document; the copy has the same mathematical value.
#[verifier::loop_isolation(false)]
pub fn clone_json(v: &Json) -> (r: Json)
    ensures
        r@ == v@,
    decreases *v,
{
    match v {
        Json::Null => Json::Null,
        Json::Bool(b) => Json::Bool(*b),
        Json::Int(i) => Json::Int(*i),
        Json::Num(s) => Json::Num(s.clone()),
        Json::Text(s) => Json::Text(s.clone()),
        Json::List(xs) => {
            let mut out: Vec<Json> = Vec::new();
            let mut i: usize = 0;
            while i < xs.len()
                invariant
                    i <= xs@.len(),
                    out@.len() == i as int,
                    forall|j: int| 0 <= j < i ==> out@[j]@ == xs@[j]@,
                decreases xs@.len() - i,
            {
                proof {
                    assert(decreases_to!(*v => v->List_0));
                    assert(decreases_to!(*xs => xs[i as int]));
                }
                out.push(clone_json(&xs[i]));
                i = i + 1;
            }
            proof {
                lemma_jv_list(out@);
                lemma_jv_list(xs@);
                assert(jv_list(out@) =~= jv_list(xs@));
            }
            Json::List(out)
        }
        Json::Obj(m) => {
            let mut out: Vec<(String, Json)> = Vec::new();
            let mut i: usize = 0;
            while i < m.len()
                invariant
                    i <= m@.len(),
                    out@.len() == i as int,
                    forall|j: int|
                        0 <= j < i ==> out@[j].0@ == m@[j].0@ && out@[j].1@ == m@[j].1@,
                decreases m@.len() - i,
            {
                let key = m[i].0.clone();
                proof {
                    assert(decreases_to!(*v => v->Obj_0));
                    assert(decreases_to!(*m => m[i as int]));
                    assert(decreases_to!(m[i as int] => m[i as int].1));
                }
                let val = clone_json(&m[i].1);
                out.push((key, val));
                i = i + 1;
            }
            proof {
                lemma_jv_obj(out@);
                lemma_jv_obj(m@);
                assert(jv_obj(out@) =~= jv_obj(m@));
            }
            Json::Obj(out)
        }
    }
}

/// The first entry with the given key, scanning left to right.
pub open spec fn spec_lookup(entries: Seq<(Seq<char>, JsonV)>, key: Seq<char>) -> Option<JsonV>
    decreases entries.len(),
{
    if entries.len() == 0 {
        None
    } else if entries[0].0 == key {
        Some(entries[0].1)
    } else {
        spec_lookup(entries.skip(1), key)
    }
}

/// The member of an object under a key; `None` on any other document.
pub open spec fn json_get(v: JsonV, key: Seq<char>) -> Option<JsonV> {
    match v {
        JsonV::Obj(m) => spec_lookup(m, key),
        _ => None,
    }
}

/// The text under a key of an object, when it is a string.
pub open spec fn spec_text_at(v: JsonV, key: Seq<char>) -> Option<Seq<char>> {
    match json_get(v, key) {
        Some(JsonV::Text(t)) => Some(t),
        _ => None,
    }
}

/// Compares two string slices by their character sequences.
pub fn str_eq(a: &str, b: &str) -> (r: bool)
    ensures
        r == (a@ == b@),
{
    let sa: String = a.to_owned();
    let sb: String = b.to_owned();
    sa == sb
}

impl Json {
    /// The member of an object under `key`, or `None`.
    #[verifier::loop_isolation(false)]
    pub fn get<'a>(&'a self, key: &str) -> (r: Option<&'a Json>)
        ensures
            r matches Some(x) ==> json_get(self@, key@) == Some(x@),
            r is None ==> json_get(self@, key@) is None,
    {
        match self {
            Json::Obj(m) => {
                proof {
                    lemma_jv_obj(m@);
                    assert(jv_obj(m@).skip(0) =~= jv_obj(m@));
                }
                let mut i: usize = 0;
                while i < m.len()
                    invariant
                        0 <= i <= m@.len(),
                        spec_lookup(jv_obj(m@), key@) == spec_lookup(
                            jv_obj(m@).skip(i as int),
                            key@,
                        ),
                    decreases m@.len() - i,
                {
                    if str_eq(m[i].0.as_str(), key) {
                        proof {
                            assert(jv_obj(m@).skip(i as int)[0] == jv_obj(m@)[i as int]);
                            assert(spec_lookup(jv_obj(m@).skip(i as int), key@) == Some(
                                jv(m@[i as int].1),
                            ));
                        }
                        return Some(&m[i].1);
                    }
                    proof {
                        assert(jv_obj(m@).skip(i as int)[0] == jv_obj(m@)[i as int]);
                        assert(jv_obj(m@).skip(i as int).skip(1) =~= jv_obj(m@).skip(
                            i as int + 1,
                        ));
                    }
                    i = i + 1;
                }
                None
            }
            _ => None,
        }
    }

    /// The text of a string document.
    pub fn as_text<'a>(&'a self) -> (r: Option<&'a String>)
        ensures
            r matches Some(s) ==> self@ == JsonV::Text(s@),
            r is None ==> !(self@ is Text),
    {
        match self {
            Json::Text(s) => Some(s),
            _ => None,
        }
    }

    /// The value of a boolean document.
    pub fn as_bool(&self) -> (r: Option<bool>)
        ensures
            r matches Some(b) ==> self@ == JsonV::Bool(b),
            r is None ==> !(self@ is Bool),
    {
        match self {
            Json::Bool(b) => Some(*b),
            _ => None,
        }
    }

    /// The items of an array document.
    pub fn as_list<'a>(&'a self) -> (r: Option<&'a Vec<Json>>)
        ensures
            r matches Some(xs) ==> self@ == JsonV::List(jv_list(xs@)),
            r is None ==> !(self@ is List),
    {
        match self {
            Json::List(xs) => Some(xs),
            _ => None,
        }
    }

    /// The member under `key` when it is a string, as an owned copy.
    pub fn get_text(&self, key: &str) -> (r: Option<String>)
        ensures
            r matches Some(s) ==> json_get(self@, key@) == Some(JsonV::Text(s@)),
            r is None ==> match json_get(self@, key@) {
                Some(x) => !(x is Text),
                None => true,
            },
    {
        match self.get(key) {
            Some(x) => match x.as_text() {
                Some(s) => Some(s.clone()),
                None => None,
            },
            None => None,
        }
    }
}

/// What `parse_json` returns for a given byte sequence; parsing is a function
/// of the bytes alone.
pub uninterp spec fn json_of(b: Seq<u8>) -> Option<JsonV>;

/// The canonical rendering of a document; it depends on the value alone.
pub uninterp spec fn json_text(v: JsonV) -> Seq<char>;

#[verifier::external_type_specification]
#[verifier::external_body]
pub struct ExJsonValue(serde_json::Value);

/// Relies on serde_json::from_slice to read one JSON document from bytes.
#[verifier::external_body]
fn decode_value(bytes: &[u8]) -> Result<serde_json::Value, String> {
    serde_json::from_slice::<serde_json::Value>(bytes).map_err(|err| err.to_string())
}

/// Relies on the shape of serde_json::Value: each of its six node kinds is
/// carried over one for one.
#[verifier::external_body]
fn value_to_json(v: &serde_json::Value) -> Json {
    match v {
        serde_json::Value::Null => Json::Null,
        serde_json::Value::Bool(b) => Json::Bool(*b),
        serde_json::Value::Number(n) => match n.as_i64() {
            Some(i) => Json::Int(i),
            None => Json::Num(n.to_string()),
        },
        serde_json::Value::String(s) => Json::Text(s.clone()),
        serde_json::Value::Array(xs) => Json::List(xs.iter().map(value_to_json).collect()),
        serde_json::Value::Object(m) => Json::Obj(
            m.iter().map(|(k, x)| (k.clone(), value_to_json(x))).collect(),
        ),
    }
}

/// Relies on serde_json::Value's constructors: each node kind of the plain
/// model is carried back one for one.
#[verifier::external_body]
fn json_to_value(v: &Json) -> serde_json::Value {
    match v {
        Json::Null => serde_json::Value::Null,
        Json::Bool(b) => serde_json::Value::Bool(*b),
        Json::Int(i) => serde_json::Value::Number((*i).into()),
        Json::Num(s) => match s.parse::<serde_json::Number>() {
            Ok(n) => serde_json::Value::Number(n),
            Err(_) => serde_json::Value::Null,
        },
        Json::Text(s) => serde_json::Value::String(s.clone()),
        Json::List(xs) => serde_json::Value::Array(xs.iter().map(json_to_value).collect()),
        Json::Obj(m) => serde_json::Value::Object(
            m.iter().map(|p| (p.0.clone(), json_to_value(&p.1))).collect(),
        ),
    }
}

/// Relies on serde_json::from_slice: whether a byte sequence parses, and to
/// what document, depends on the bytes alone. The error text is serde_json's
/// own and nothing is promised of it.
#[verifier::external_body]
pub fn parse_json(bytes: &[u8]) -> (r: Result<Json, String>)
    ensures
        r is Ok <==> json_of(bytes@) is Some,
        r matches Ok(v) ==> json_of(bytes@) == Some(v@),
{
    decode_value(bytes).map(|v| value_to_json(&v))
}

/// What decoding bytes as text with replacement yields; it depends on the
/// bytes alone.
pub uninterp spec fn lossy_text_of(b: Seq<u8>) -> Seq<char>;

/// Relies on String::from_utf8_lossy: invalid sequences are replaced, and
/// the result depends on the bytes alone.
#[verifier::external_body]
pub fn utf8_lossy(bytes: &[u8]) -> (r: String)
    ensures
        r@ == lossy_text_of(bytes@),
{
    String::from_utf8_lossy(bytes).into_owned()
}

/// Relies on serde_json's Display for Value: the rendering of a document
/// depends on the document alone.
#[verifier::external_body]
pub fn json_render(v: &Json) -> (r: String)
    ensures
        r@ == json_text(v@),
{
    json_to_value(v).to_string()
}

/// The text a document is shown as: a string document stands for its own
/// text, anything else for its rendering.
pub open spec fn spec_value_to_string(v: JsonV) -> Seq<char> {
    match v {
        JsonV::Text(s) => s,
        _ => json_text(v),
    }
}

/// A string document yields its text; any other document its rendering.
pub fn value_to_string(v: &Json) -> (r: String)
    ensures
        r@ == spec_value_to_string(v@),
{
    match v {
        Json::Text(s) => s.clone(),
        _ => json_render(v),
    }
}

} // verus!
