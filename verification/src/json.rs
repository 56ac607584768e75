//! JSON values as the library reads and writes them.

use crate::text::same;
use vstd::prelude::*;

verus! {

/// A JSON value. A number is kept in its notation; no key of an object occurs
/// twice.
#[derive(Debug)]
pub enum Json {
    Null,
    Bool(bool),
    Number(String),
    Str(String),
    Array(Vec<Json>),
    Object(Vec<Member>),
}

/// A key of an object and its value.
#[derive(Debug)]
pub struct Member {
    pub key: String,
    pub value: Json,
}

/// A JSON value, abstractly.
pub enum JsonV {
    Null,
    Bool(bool),
    Number(Seq<char>),
    Str(Seq<char>),
    Array(Seq<JsonV>),
    Object(Seq<(Seq<char>, JsonV)>),
}

/// The value, abstractly.
pub open spec fn json_view(j: Json) -> JsonV
    decreases j,
{
    match j {
        Json::Null => JsonV::Null,
        Json::Bool(b) => JsonV::Bool(b),
        Json::Number(s) => JsonV::Number(s@),
        Json::Str(s) => JsonV::Str(s@),
        Json::Array(v) => JsonV::Array(
            Seq::new(
                v@.len(),
                |i: int|
                    if 0 <= i < v@.len() {
                        json_view(v@[i])
                    } else {
                        JsonV::Null
                    },
            ),
        ),
        Json::Object(v) => JsonV::Object(
            Seq::new(
                v@.len(),
                |i: int|
                    if 0 <= i < v@.len() {
                        (v@[i].key@, json_view(v@[i].value))
                    } else {
                        (Seq::empty(), JsonV::Null)
                    },
            ),
        ),
    }
}

impl View for Json {
    type V = JsonV;

    open spec fn view(&self) -> JsonV {
        json_view(*self)
    }
}

/// The members of an object, abstractly.
pub open spec fn members_view(v: Seq<Member>) -> Seq<(Seq<char>, JsonV)> {
    Seq::new(v.len(), |i: int| (v[i].key@, v[i].value@))
}

/// The values of an array, abstractly.
pub open spec fn values_view(v: Seq<Json>) -> Seq<JsonV> {
    Seq::new(v.len(), |i: int| v[i]@)
}

/// The value of a key among members.
pub open spec fn member(m: Seq<(Seq<char>, JsonV)>, key: Seq<char>) -> Option<JsonV>
    decreases m.len(),
{
    if m.len() == 0 {
        None
    } else if m[0].0 == key {
        Some(m[0].1)
    } else {
        member(m.drop_first(), key)
    }
}

/// The value of a key of an object; nothing where the value is no object.
pub open spec fn field(j: JsonV, key: Seq<char>) -> Option<JsonV> {
    match j {
        JsonV::Object(m) => member(m, key),
        _ => None,
    }
}

/// The text of a string value.
pub open spec fn str_of(j: JsonV) -> Option<Seq<char>> {
    match j {
        JsonV::Str(s) => Some(s),
        _ => None,
    }
}

/// The text of a key that holds a string.
pub open spec fn str_field(j: JsonV, key: Seq<char>) -> Option<Seq<char>> {
    match field(j, key) {
        Some(v) => str_of(v),
        None => None,
    }
}

/// The members with a key set to a value: in its place where it is there, else at
/// the end.
pub open spec fn with_member(m: Seq<(Seq<char>, JsonV)>, key: Seq<char>, value: JsonV) -> Seq<
    (Seq<char>, JsonV),
>
    decreases m.len(),
{
    if m.len() == 0 {
        seq![(key, value)]
    } else if m[0].0 == key {
        seq![(key, value)] + m.drop_first()
    } else {
        seq![m[0]] + with_member(m.drop_first(), key, value)
    }
}

/// A key that has been set reads back as it was set, and no other key changes.
pub proof fn member_reads_back(
    m: Seq<(Seq<char>, JsonV)>,
    key: Seq<char>,
    value: JsonV,
    other: Seq<char>,
)
    ensures
        member(with_member(m, key, value), key) == Some(value),
        other != key ==> member(with_member(m, key, value), other) == member(m, other),
    decreases m.len(),
{
    let w = with_member(m, key, value);
    if m.len() == 0 {
        assert(w.drop_first() =~= m);
    } else if m[0].0 == key {
        assert(w.drop_first() =~= m.drop_first());
    } else {
        member_reads_back(m.drop_first(), key, value, other);
        assert(w.drop_first() =~= with_member(m.drop_first(), key, value));
    }
}

impl Json {
    /// A string value.
    pub fn text(s: &str) -> (j: Json)
        ensures
            j@ == JsonV::Str(s@),
    {
        Json::Str(s.to_owned())
    }

    /// The value of a key; `None` where the value is no object or lacks the key.
    pub fn get(&self, key: &str) -> (r: Option<&Json>)
        ensures
            match r {
                Some(v) => field(self@, key@) == Some(v@),
                None => field(self@, key@) is None,
            },
            match r {
                Some(v) => decreases_to!(self => v),
                None => true,
            },
    {
        match self {
            Json::Object(v) => {
                let ghost all = members_view(v@);
                assert(self@ == JsonV::Object(all)) by {
                    assert(self@->Object_0 =~= all);
                }
                let mut i: usize = 0;
                assert(all.skip(0) =~= all);
                while i < v.len()
                    invariant
                        i <= v@.len(),
                        all == members_view(v@),
                        self@ == JsonV::Object(all),
                        *self == Json::Object(*v),
                        member(all.skip(i as int), key@) == member(all, key@),
                    decreases v.len() - i,
                {
                    assert(all.skip(i as int).drop_first() =~= all.skip(i + 1));
                    assert(all.skip(i as int)[0] == (v@[i as int].key@, v@[i as int].value@));
                    if same(v[i].key.as_str(), key) {
                        assert(decreases_to!(self => v@));
                        assert(decreases_to!(self => v@[i as int]));
                        assert(decreases_to!(self => v@[i as int].value));
                        return Some(&v[i].value);
                    }
                    i = i + 1;
                }
                assert(all.skip(i as int).len() == 0);
                None
            },
            _ => None,
        }
    }

    /// The text of a string value.
    pub fn as_str(&self) -> (r: Option<&str>)
        ensures
            match r {
                Some(s) => str_of(self@) == Some(s@),
                None => str_of(self@) is None,
            },
    {
        match self {
            Json::Str(s) => Some(s.as_str()),
            _ => None,
        }
    }

    /// The text of a key that holds a string.
    pub fn get_str(&self, key: &str) -> (r: Option<&str>)
        ensures
            match r {
                Some(s) => str_field(self@, key@) == Some(s@),
                None => str_field(self@, key@) is None,
            },
    {
        match self.get(key) {
            Some(v) => v.as_str(),
            None => None,
        }
    }

    /// The values of an array.
    pub fn as_array(&self) -> (r: Option<&Vec<Json>>)
        ensures
            match r {
                Some(v) => self@ == JsonV::Array(values_view(v@)),
                None => !(self@ is Array),
            },
    {
        match self {
            Json::Array(v) => {
                assert(self@->Array_0 =~= values_view(v@));
                Some(v)
            },
            _ => None,
        }
    }
}

/// An object under construction.
#[derive(Debug)]
pub struct ObjectBuilder {
    members: Vec<Member>,
}

impl View for ObjectBuilder {
    type V = Seq<(Seq<char>, JsonV)>;

    closed spec fn view(&self) -> Seq<(Seq<char>, JsonV)> {
        members_view(self.members@)
    }
}

impl ObjectBuilder {
    /// No members.
    pub fn new() -> (o: ObjectBuilder)
        ensures
            o@ == Seq::<(Seq<char>, JsonV)>::empty(),
    {
        let o = ObjectBuilder { members: Vec::new() };
        assert(o@ =~= Seq::<(Seq<char>, JsonV)>::empty());
        o
    }

    /// Sets a key to a value.
    pub fn put(&mut self, key: &str, value: Json)
        ensures
            final(self)@ == with_member(old(self)@, key@, value@),
    {
        let ghost before = self@;
        let mut out: Vec<Member> = Vec::new();
        let mut found = false;
        let mut pending: Option<Json> = Some(value);
        let mut rest: Vec<Member> = Vec::new();
        std::mem::swap(&mut rest, &mut self.members);
        let n: usize = rest.len();
        let ghost all = rest@;
        proof {
            assert(members_view(all) =~= before);
            assert(before.skip(0) =~= before);
            assert(members_view(out@) + with_member(before, key@, value@) =~= with_member(
                before,
                key@,
                value@,
            ));
        }
        let mut i: usize = 0;
        for item in it: rest
            invariant
                it.seq() == all,
                i == it.index(),
                n == all.len(),
                members_view(all) == before,
                found == (pending is None),
                !found ==> pending == Some(value),
                members_view(out@) + (if found {
                    before.skip(i as int)
                } else {
                    with_member(before.skip(i as int), key@, value@)
                }) == with_member(before, key@, value@),
        {
            let ghost here = before.skip(i as int);
            let ghost done = members_view(out@);
            let ghost was = found;
            assert(here.drop_first() =~= before.skip(i + 1));
            assert(here[0] == (item.key@, item.value@));
            let mut next = item;
            if !found && same(next.key.as_str(), key) {
                match pending.take() {
                    Some(v) => {
                        next = Member { key: key.to_owned(), value: v };
                    },
                    None => {},
                }
                found = true;
            }
            let ghost added = (next.key@, next.value@);
            out.push(next);
            assert(members_view(out@) =~= done.push(added));
            proof {
                if was {
                    assert(done + here =~= done.push(added) + before.skip(i + 1));
                } else if found {
                    assert(done + (seq![added] + here.drop_first()) =~= done.push(added)
                        + before.skip(i + 1));
                } else {
                    assert(done + (seq![added] + with_member(here.drop_first(), key@, value@))
                        =~= done.push(added) + with_member(before.skip(i + 1), key@, value@));
                }
            }
            i = i + 1;
        }
        assert(before.skip(n as int).len() == 0);
        let ghost done = members_view(out@);
        match pending.take() {
            Some(v) => {
                out.push(Member { key: key.to_owned(), value: v });
                assert(members_view(out@) =~= done + seq![(key@, value@)]);
            },
            None => {
                assert(done + before.skip(n as int) =~= done);
            },
        }
        self.members = out;
    }

    /// Sets a key to a string.
    pub fn put_str(&mut self, key: &str, value: &str)
        ensures
            final(self)@ == with_member(old(self)@, key@, JsonV::Str(value@)),
    {
        self.put(key, Json::text(value));
    }

    /// The object.
    pub fn build(self) -> (j: Json)
        ensures
            j@ == JsonV::Object(self@),
    {
        let j = Json::Object(self.members);
        assert(j@->Object_0 =~= self@);
        j
    }
}

/// An array of values.
pub fn array(values: Vec<Json>) -> (j: Json)
    ensures
        j@ == JsonV::Array(values_view(values@)),
{
    let j = Json::Array(values);
    assert(j@->Array_0 =~= values_view(values@));
    j
}

// ── Reading JSON text ──────────────────────────────────────────────────────

/// `serde_json::Value`, carried from parsing to reading.
#[verifier::external_type_specification]
#[verifier::external_body]
pub struct ExValue(serde_json::Value);

/// What a `serde_json::Value` holds.
pub uninterp spec fn value_holds(v: serde_json::Value) -> JsonV;

/// The value that `serde_json::from_str` reads from a text, or `None` where the
/// text is not JSON.
pub uninterp spec fn parsed(text: Seq<char>) -> Option<JsonV>;

/// `serde_json::from_str::<Value>`: whether a text is JSON, and the value it
/// denotes, depend on the text alone.
#[verifier::external_body]
fn parse_value(text: &str) -> (r: Option<serde_json::Value>)
    ensures
        match r {
            Some(v) => parsed(text@) == Some(value_holds(v)),
            None => parsed(text@) is None,
        },
{
    serde_json::from_str::<serde_json::Value>(text).ok()
}

/// The six variants of `serde_json::Value`, each as the variant of the same name;
/// a number by its notation.
#[verifier::external_body]
fn read_value(v: &serde_json::Value) -> (j: Json)
    ensures
        j@ == value_holds(*v),
{
    match v {
        serde_json::Value::Null => Json::Null,
        serde_json::Value::Bool(b) => Json::Bool(*b),
        serde_json::Value::Number(n) => Json::Number(n.to_string()),
        serde_json::Value::String(s) => Json::Str(s.clone()),
        serde_json::Value::Array(a) => Json::Array(a.iter().map(read_value).collect()),
        serde_json::Value::Object(m) => Json::Object(
            m.iter().map(|(k, x)| Member { key: k.clone(), value: read_value(x) }).collect(),
        ),
    }
}

/// The value that a JSON text denotes; `None` where the text is not JSON.
pub fn parse_json(text: &str) -> (r: Option<Json>)
    ensures
        match r {
            Some(j) => parsed(text@) == Some(j@),
            None => parsed(text@) is None,
        },
{
    match parse_value(text) {
        Some(v) => Some(read_value(&v)),
        None => None,
    }
}

} // verus!
