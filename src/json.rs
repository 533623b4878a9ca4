use vstd::prelude::*;

verus! {

/// A JSON document as a tagged tree. Numbers keep their decimal text, so that
/// no value is rounded on its way through the library.
#[derive(Debug, PartialEq)]
pub enum JsonValue {
    Null,
    Bool(bool),
    Number(String),
    Str(String),
    Array(Vec<JsonValue>),
    Object(Vec<(String, JsonValue)>),
}

/// The mathematical model of a JSON tree.
pub enum Json {
    Null,
    Bool(bool),
    Number(Seq<char>),
    Str(Seq<char>),
    Array(Seq<Json>),
    Object(Seq<(Seq<char>, Json)>),
}

/// The value stored under `key` in a list of object entries; the first entry wins.
pub open spec fn lookup(entries: Seq<(Seq<char>, Json)>, key: Seq<char>) -> Option<Json>
    decreases entries.len(),
{
    if entries.len() == 0 {
        None
    } else if entries[0].0 == key {
        Some(entries[0].1)
    } else {
        lookup(entries.drop_first(), key)
    }
}

/// The entry at `i` is the first with its key, so lookup finds its value.
pub proof fn lemma_lookup_first(entries: Seq<(Seq<char>, Json)>, key: Seq<char>, i: int)
    requires
        0 <= i < entries.len(),
        entries[i].0 == key,
        forall|k: int| 0 <= k < i ==> (#[trigger] entries[k]).0 != key,
    ensures
        lookup(entries, key) == Some(entries[i].1),
    decreases i,
{
    if i > 0 {
        assert(entries[0].0 != key);
        lemma_lookup_first(entries.drop_first(), key, i - 1);
    }
}

/// The member `key` of an object; nothing for any other kind of value.
pub open spec fn member(j: Json, key: Seq<char>) -> Option<Json> {
    match j {
        Json::Object(entries) => lookup(entries, key),
        _ => None,
    }
}

/// serde_json's own JSON tree, carried opaquely from the parser to `tree_of`.
#[verifier::external_type_specification]
#[verifier::external_body]
pub struct ExValue(serde_json::Value);

/// The tree that serde_json reads from `text`, or nothing where `text` is not JSON.
pub uninterp spec fn json_of_text(text: Seq<char>) -> Option<Json>;

/// Relies on `serde_json::from_str::<serde_json::Value>`: it reads a JSON
/// document, and fails on any text that is not one.
#[verifier::external_body]
pub fn parse_json(text: &str) -> (r: Option<JsonValue>)
    ensures
        r is None <==> json_of_text(text@) is None,
        r matches Some(j) ==> json_of_text(text@) == Some(j@),
{
    match serde_json::from_str::<serde_json::Value>(text) {
        Ok(v) => Some(tree_of(v)),
        Err(_) => None,
    }
}

/// Moves a `serde_json::Value` into the library's tree, variant for variant;
/// numbers keep the text that serde_json writes for them.
#[verifier::external_body]
fn tree_of(v: serde_json::Value) -> JsonValue {
    match v {
        serde_json::Value::Null => JsonValue::Null,
        serde_json::Value::Bool(b) => JsonValue::Bool(b),
        serde_json::Value::Number(n) => JsonValue::Number(n.to_string()),
        serde_json::Value::String(s) => JsonValue::Str(s),
        serde_json::Value::Array(a) => JsonValue::Array(a.into_iter().map(tree_of).collect()),
        serde_json::Value::Object(m) => JsonValue::Object(
            m.into_iter().map(|(k, x)| (k, tree_of(x))).collect(),
        ),
    }
}

impl JsonValue {
    pub open spec fn view(&self) -> Json
        decreases self,
    {
        match self {
            JsonValue::Null => Json::Null,
            JsonValue::Bool(b) => Json::Bool(*b),
            JsonValue::Number(n) => Json::Number(n@),
            JsonValue::Str(s) => Json::Str(s@),
            JsonValue::Array(v) => Json::Array(
                Seq::new(v.len() as nat, |i: int| if 0 <= i < v.len() { v[i].view() } else { Json::Null }),
            ),
            JsonValue::Object(v) => Json::Object(
                Seq::new(v.len() as nat, |i: int| if 0 <= i < v.len() { (v[i].0@, v[i].1.view()) } else { (Seq::empty(), Json::Null) }),
            ),
        }
    }

    pub fn is_object(&self) -> (r: bool)
        ensures
            r == (self@ is Object),
    {
        match self {
            JsonValue::Object(_) => true,
            _ => false,
        }
    }

    /// The member `key` of an object, as `serde_json::Value::get` finds it.
    pub fn get(&self, key: &str) -> (r: Option<&JsonValue>)
        ensures
            r is None <==> member(self@, key@) is None,
            r matches Some(x) ==> member(self@, key@) == Some(x@),
    {
        match self {
            JsonValue::Object(v) => {
                let k = key.to_owned();
                let ghost entries = self@->Object_0;
                assert(entries.subrange(0, v.len() as int) =~= entries);
                let mut i: usize = 0;
                while i < v.len()
                    invariant
                        *self == JsonValue::Object(*v),
                        entries == self@->Object_0,
                        k@ == key@,
                        i <= v.len(),
                        lookup(entries, key@) == lookup(entries.subrange(i as int, v.len() as int), key@),
                    decreases v.len() - i,
                {
                    let ghost rest = entries.subrange(i as int, v.len() as int);
                    assert(rest[0] == (v[i as int].0@, v[i as int].1@));
                    if v[i].0 == k {
                        return Some(&v[i].1);
                    }
                    assert(rest.drop_first() =~= entries.subrange(i + 1, v.len() as int));
                    i = i + 1;
                }
                None
            },
            _ => None,
        }
    }

    /// A copy of the tree, node for node.
    pub fn deep_clone(&self) -> (r: JsonValue)
        ensures
            r@ == self@,
        decreases self,
    {
        broadcast use vstd::std_specs::vec::axiom_vec_index_decreases;
        match self {
            JsonValue::Null => JsonValue::Null,
            JsonValue::Bool(b) => JsonValue::Bool(*b),
            JsonValue::Number(n) => JsonValue::Number(n.clone()),
            JsonValue::Str(s) => JsonValue::Str(s.clone()),
            JsonValue::Array(v) => {
                let mut out: Vec<JsonValue> = Vec::new();
                let mut i: usize = 0;
                while i < v.len()
                    invariant
                        *self == JsonValue::Array(*v),
                        i <= v.len(),
                        out.len() == i,
                        forall|k: int| 0 <= k < i ==> (#[trigger] out[k])@ == v[k]@,
                    decreases v.len() - i,
                {
                    proof {
                        assert(decreases_to!(*self => self->Array_0));
                        assert(decreases_to!(*v => v[i as int]));
                        assert(decreases_to!(*self => v[i as int]));
                    }
                    let c = v[i].deep_clone();
                    out.push(c);
                    i = i + 1;
                }
                let r = JsonValue::Array(out);
                assert(r@->Array_0 =~= self@->Array_0);
                r
            },
            JsonValue::Object(v) => {
                let mut out: Vec<(String, JsonValue)> = Vec::new();
                let mut i: usize = 0;
                while i < v.len()
                    invariant
                        *self == JsonValue::Object(*v),
                        i <= v.len(),
                        out.len() == i,
                        forall|k: int| 0 <= k < i ==> (#[trigger] out[k]).0@ == v[k].0@ && out[k].1@ == v[k].1@,
                    decreases v.len() - i,
                {
                    proof {
                        assert(decreases_to!(*self => self->Object_0));
                        assert(decreases_to!(*v => v[i as int]));
                        assert(decreases_to!(v[i as int] => v[i as int].1));
                        assert(decreases_to!(*self => v[i as int].1));
                    }
                    let c = v[i].1.deep_clone();
                    out.push((v[i].0.clone(), c));
                    i = i + 1;
                }
                let r = JsonValue::Object(out);
                assert(r@->Object_0 =~= self@->Object_0);
                r
            },
        }
    }
}

} // verus!
