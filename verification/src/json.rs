//! JSON documents, their mathematical model, and lookups in objects.

use vstd::prelude::*;

verus! {

/// Mathematical model of a JSON document.
///
/// An object is the list of its members in their order; a key is looked up
/// by its first occurrence (see [`lookup`]). An integral number is the
/// integer itself, however it is held.
pub enum JsonView {
    Null,
    Bool(bool),
    /// An integral number.
    Integer(int),
    /// A non-integral number, identified by its IEEE-754 binary64 bit pattern.
    Float(u64),
    String(Seq<char>),
    Array(Seq<JsonView>),
    Object(Seq<(Seq<char>, JsonView)>),
}

/// Model of the member list of a JSON object.
pub type MembersView = Seq<(Seq<char>, JsonView)>;

/// A JSON document.
///
/// Integral numbers are held as `Int` or `UInt`; other numbers are held as
/// the bit pattern of their binary64 value, so that no floating-point
/// arithmetic is ever performed on them.
#[derive(Debug, PartialEq, Eq)]
pub enum Json {
    Null,
    Bool(bool),
    Int(i64),
    UInt(u64),
    Float(u64),
    String(String),
    Array(Vec<Json>),
    Object(Vec<(String, Json)>),
}

impl Json {
    /// The document that this value stands for.
    pub open spec fn model(&self) -> JsonView
        decreases self,
    {
        match self {
            Json::Null => JsonView::Null,
            Json::Bool(b) => JsonView::Bool(*b),
            Json::Int(n) => JsonView::Integer(*n as int),
            Json::UInt(n) => JsonView::Integer(*n as int),
            Json::Float(bits) => JsonView::Float(*bits),
            Json::String(s) => JsonView::String(s@),
            Json::Array(items) => JsonView::Array(
                Seq::new(
                    items@.len(),
                    |i: int|
                        if 0 <= i < items@.len() {
                            items@[i].model()
                        } else {
                            JsonView::Null
                        },
                ),
            ),
            Json::Object(members) => JsonView::Object(
                Seq::new(
                    members@.len(),
                    |i: int|
                        if 0 <= i < members@.len() {
                            (members@[i].0@, members@[i].1.model())
                        } else {
                            (Seq::empty(), JsonView::Null)
                        },
                ),
            ),
        }
    }
}

impl View for Json {
    type V = JsonView;

    open spec fn view(&self) -> JsonView {
        self.model()
    }
}

impl DeepView for Json {
    type V = JsonView;

    open spec fn deep_view(&self) -> JsonView {
        self.model()
    }
}

/// The model of an array is the sequence of its items' models.
pub proof fn lemma_array_view(items: Vec<Json>)
    ensures
        Json::Array(items)@ == JsonView::Array(items.deep_view()),
{
    let a = Json::Array(items)@->Array_0;
    assert(a.len() == items@.len());
    assert forall|i: int| 0 <= i < a.len() implies a[i] == items.deep_view()[i] by {}
    assert(a =~= items.deep_view());
}

/// The model of an object is the sequence of its members' models.
pub proof fn lemma_object_view(members: Vec<(String, Json)>)
    ensures
        Json::Object(members)@ == JsonView::Object(members.deep_view()),
{
    let a = Json::Object(members)@->Object_0;
    assert(a.len() == members@.len());
    assert forall|i: int| 0 <= i < a.len() implies a[i] == members.deep_view()[i] by {}
    assert(a =~= members.deep_view());
}

/// The value bound to `key` in a member list: that of the first member with
/// this key, if there is one.
pub open spec fn lookup(members: MembersView, key: Seq<char>) -> Option<JsonView>
    decreases members.len(),
{
    if members.len() == 0 {
        None
    } else if members[0].0 == key {
        Some(members[0].1)
    } else {
        lookup(members.drop_first(), key)
    }
}

/// A member appended to a list is found under its key unless an earlier
/// member already has that key; every other key is found as before.
pub proof fn lemma_lookup_push(
    members: MembersView,
    name: Seq<char>,
    value: JsonView,
    key: Seq<char>,
)
    ensures
        lookup(members.push((name, value)), key) == match lookup(members, key) {
            Some(found) => Some(found),
            None => if name == key {
                Some(value)
            } else {
                None
            },
        },
    decreases members.len(),
{
    let extended = members.push((name, value));
    if members.len() == 0 {
        assert(extended.drop_first() =~= members);
    } else {
        assert(extended[0] == members[0]);
        assert(extended.drop_first() =~= members.drop_first().push((name, value)));
        lemma_lookup_push(members.drop_first(), name, value, key);
    }
}

/// Whether two string slices hold the same characters.
pub(crate) fn str_eq(a: &str, b: &str) -> (r: bool)
    ensures
        r == (a@ == b@),
{
    let left = a.to_owned();
    let right = b.to_owned();
    left == right
}

impl Clone for Json {
    #[verifier::loop_isolation(false)]
    fn clone(&self) -> (r: Self)
        ensures
            r@ == self@,
        decreases self,
    {
        match self {
            Json::Null => Json::Null,
            Json::Bool(b) => Json::Bool(*b),
            Json::Int(n) => Json::Int(*n),
            Json::UInt(n) => Json::UInt(*n),
            Json::Float(bits) => Json::Float(*bits),
            Json::String(s) => Json::String(s.clone()),
            Json::Array(items) => {
                let mut out: Vec<Json> = Vec::new();
                let mut i: usize = 0;
                while i < items.len()
                    invariant
                        i <= items.len(),
                        out@.len() == i,
                        forall|k: int| 0 <= k < i ==> out@[k]@ == items@[k]@,
                    decreases items.len() - i,
                {
                    out.push(items[i].clone());
                    i += 1;
                }
                proof {
                    lemma_array_view(out);
                    lemma_array_view(*items);
                    assert(out.deep_view() =~= items.deep_view());
                }
                Json::Array(out)
            },
            Json::Object(members) => {
                let out = clone_members(members);
                proof {
                    lemma_object_view(out);
                    lemma_object_view(*members);
                }
                Json::Object(out)
            },
        }
    }
}

/// Copies a member list.
pub fn clone_members(members: &Vec<(String, Json)>) -> (r: Vec<(String, Json)>)
    ensures
        r.deep_view() == members.deep_view(),
    decreases members,
{
    let mut out: Vec<(String, Json)> = Vec::new();
    let mut i: usize = 0;
    while i < members.len()
        invariant
            i <= members.len(),
            out@.len() == i,
            forall|k: int|
                0 <= k < i ==> out@[k].0@ == members@[k].0@ && out@[k].1@ == members@[k].1@,
        decreases members.len() - i,
    {
        let key = members[i].0.clone();
        let value = members[i].1.clone();
        out.push((key, value));
        i += 1;
    }
    assert(out.deep_view() =~= members.deep_view());
    out
}

/// Copies an optional member list.
pub fn clone_opt_members(members: &Option<Vec<(String, Json)>>) -> (r: Option<
    Vec<(String, Json)>,
>)
    ensures
        r.deep_view() == members.deep_view(),
{
    match members {
        Some(list) => Some(clone_members(list)),
        None => None,
    }
}

/// Copies an optional string.
pub fn clone_opt_string(text: &Option<String>) -> (r: Option<String>)
    ensures
        r.deep_view() == text.deep_view(),
{
    match text {
        Some(s) => Some(s.clone()),
        None => None,
    }
}

/// Finds the value bound to `key` in a member list.
pub fn find_member<'a>(members: &'a Vec<(String, Json)>, key: &str) -> (r: Option<&'a Json>)
    ensures
        r.deep_view() == lookup(members.deep_view(), key@),
{
    let ghost all = members.deep_view();
    let mut i: usize = 0;
    assert(all.skip(0) =~= all);
    while i < members.len()
        invariant
            i <= members.len(),
            all == members.deep_view(),
            lookup(all, key@) == lookup(all.skip(i as int), key@),
        decreases members.len() - i,
    {
        proof {
            let rest = all.skip(i as int);
            assert(rest[0] == all[i as int]);
            assert(rest.drop_first() =~= all.skip(i + 1));
        }
        if str_eq(members[i].0.as_str(), key) {
            return Some(&members[i].1);
        }
        i += 1;
    }
    assert(all.skip(i as int).len() == 0);
    None
}

} // verus!
