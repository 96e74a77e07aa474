//! Reading and writing the members of JSON objects.

use crate::json::{
    clone_members, find_member, lemma_array_view, lemma_lookup_push, lemma_object_view, lookup,
    Json, JsonView, MembersView,
};
use vstd::prelude::*;

verus! {

/// The string bound to `key`, which has to be there.
pub open spec fn required_string(members: MembersView, key: Seq<char>) -> Option<Seq<char>> {
    match lookup(members, key) {
        Some(JsonView::String(s)) => Some(s),
        _ => None,
    }
}

/// The member list of the object bound to `key`, which has to be there.
pub open spec fn required_object(members: MembersView, key: Seq<char>) -> Option<MembersView> {
    match lookup(members, key) {
        Some(JsonView::Object(inner)) => Some(inner),
        _ => None,
    }
}

/// The string bound to `key`, if any: a key that is missing or bound to
/// `null` stands for no string, and any other value is malformed (the outer
/// `None`).
pub open spec fn optional_string(members: MembersView, key: Seq<char>) -> Option<
    Option<Seq<char>>,
> {
    match lookup(members, key) {
        None => Some(None),
        Some(JsonView::Null) => Some(None),
        Some(JsonView::String(s)) => Some(Some(s)),
        _ => None,
    }
}

/// The truth value bound to `key`, if any; see [`optional_string`].
pub open spec fn optional_bool(members: MembersView, key: Seq<char>) -> Option<Option<bool>> {
    match lookup(members, key) {
        None => Some(None),
        Some(JsonView::Null) => Some(None),
        Some(JsonView::Bool(b)) => Some(Some(b)),
        _ => None,
    }
}

/// The 32-bit integer bound to `key`, if any; see [`optional_string`]. A
/// number that is not integral or does not fit is malformed.
pub open spec fn optional_i32(members: MembersView, key: Seq<char>) -> Option<Option<i32>> {
    match lookup(members, key) {
        None => Some(None),
        Some(JsonView::Null) => Some(None),
        Some(JsonView::Integer(n)) => if i32::MIN <= n <= i32::MAX {
            Some(Some(n as i32))
        } else {
            None
        },
        _ => None,
    }
}

/// The member list of the object bound to `key`, if any; see
/// [`optional_string`].
pub open spec fn optional_object(members: MembersView, key: Seq<char>) -> Option<
    Option<MembersView>,
> {
    match lookup(members, key) {
        None => Some(None),
        Some(JsonView::Null) => Some(None),
        Some(JsonView::Object(inner)) => Some(Some(inner)),
        _ => None,
    }
}

/// The member list with one more member at its end, if there is a value
/// for it.
pub open spec fn with_optional(
    members: MembersView,
    key: Seq<char>,
    value: Option<JsonView>,
) -> MembersView {
    match value {
        Some(v) => members.push((key, v)),
        None => members,
    }
}

/// A string as a document, if there is one.
pub open spec fn string_json(text: Option<Seq<char>>) -> Option<JsonView> {
    match text {
        Some(s) => Some(JsonView::String(s)),
        None => None,
    }
}

/// A member list as a document, if there is one.
pub open spec fn object_json(members: Option<MembersView>) -> Option<JsonView> {
    match members {
        Some(ms) => Some(JsonView::Object(ms)),
        None => None,
    }
}

/// A truth value as a document, if there is one.
pub open spec fn bool_json(flag: Option<bool>) -> Option<JsonView> {
    match flag {
        Some(b) => Some(JsonView::Bool(b)),
        None => None,
    }
}

/// A 32-bit integer as a document, if there is one.
pub open spec fn i32_json(number: Option<i32>) -> Option<JsonView> {
    match number {
        Some(n) => Some(JsonView::Integer(n as int)),
        None => None,
    }
}

/// Appends a member to a member list.
pub fn put(members: &mut Vec<(String, Json)>, key: &str, value: Json)
    ensures
        final(members).deep_view() == old(members).deep_view().push((key@, value@)),
{
    let ghost before = members.deep_view();
    members.push((String::from_str(key), value));
    assert(members.deep_view() =~= before.push((key@, value@)));
}

/// Appends a member to a member list if there is a value for it.
pub fn put_optional(members: &mut Vec<(String, Json)>, key: &str, value: Option<Json>)
    ensures
        final(members).deep_view() == with_optional(
            old(members).deep_view(),
            key@,
            value.deep_view(),
        ),
{
    match value {
        Some(v) => put(members, key, v),
        None => {},
    }
}

/// A member list without members.
pub fn no_members() -> (members: Vec<(String, Json)>)
    ensures
        members.deep_view() == Seq::<(Seq<char>, JsonView)>::empty(),
{
    let members: Vec<(String, Json)> = Vec::new();
    assert(members.deep_view() =~= Seq::empty());
    members
}

/// The object with the given members.
pub fn object(members: Vec<(String, Json)>) -> (j: Json)
    ensures
        j@ == JsonView::Object(members.deep_view()),
{
    proof {
        lemma_object_view(members);
    }
    Json::Object(members)
}

/// The array with the given items.
pub fn array(items: Vec<Json>) -> (j: Json)
    ensures
        j@ == JsonView::Array(items.deep_view()),
{
    proof {
        lemma_array_view(items);
    }
    Json::Array(items)
}

/// A string as a document.
pub fn string(text: &str) -> (j: Json)
    ensures
        j@ == JsonView::String(text@),
{
    Json::String(String::from_str(text))
}

/// An optional string as an optional document.
pub fn opt_string(text: &Option<String>) -> (j: Option<Json>)
    ensures
        j.deep_view() == string_json(text.deep_view()),
{
    match text {
        Some(s) => Some(Json::String(s.clone())),
        None => None,
    }
}

/// An optional member list as an optional document.
pub fn opt_object(members: &Option<Vec<(String, Json)>>) -> (j: Option<Json>)
    ensures
        j.deep_view() == object_json(members.deep_view()),
{
    match members {
        Some(ms) => Some(object(clone_members(ms))),
        None => None,
    }
}

/// An optional truth value as an optional document.
pub fn opt_bool(flag: Option<bool>) -> (j: Option<Json>)
    ensures
        j.deep_view() == bool_json(flag),
{
    match flag {
        Some(b) => Some(Json::Bool(b)),
        None => None,
    }
}

/// An optional 32-bit integer as an optional document.
pub fn opt_i32(number: Option<i32>) -> (j: Option<Json>)
    ensures
        j.deep_view() == i32_json(number),
{
    match number {
        Some(n) => Some(Json::Int(n as i64)),
        None => None,
    }
}

/// The members of a document that is an object.
pub fn members_of(j: &Json) -> (r: Option<&Vec<(String, Json)>>)
    ensures
        r.deep_view() == match j@ {
            JsonView::Object(members) => Some(members),
            _ => None,
        },
{
    match j {
        Json::Object(members) => {
            proof {
                lemma_object_view(*members);
            }
            Some(members)
        },
        _ => None,
    }
}

/// The items of a document that is an array.
pub fn items_of(j: &Json) -> (r: Option<&Vec<Json>>)
    ensures
        r.deep_view() == match j@ {
            JsonView::Array(items) => Some(items),
            _ => None,
        },
{
    match j {
        Json::Array(items) => {
            proof {
                lemma_array_view(*items);
            }
            Some(items)
        },
        _ => None,
    }
}

/// Reads a string that has to be there.
pub fn get_string(members: &Vec<(String, Json)>, key: &str) -> (r: Option<String>)
    ensures
        r.deep_view() == required_string(members.deep_view(), key@),
{
    match find_member(members, key) {
        Some(Json::String(s)) => Some(s.clone()),
        _ => None,
    }
}

/// Reads the members of an object that has to be there.
pub fn get_object<'a>(members: &'a Vec<(String, Json)>, key: &str) -> (r: Option<
    &'a Vec<(String, Json)>,
>)
    ensures
        r.deep_view() == required_object(members.deep_view(), key@),
{
    match find_member(members, key) {
        Some(found) => members_of(found),
        None => None,
    }
}

/// Reads a string that may be missing.
pub fn get_opt_string(members: &Vec<(String, Json)>, key: &str) -> (r: Option<Option<String>>)
    ensures
        r.deep_view() == optional_string(members.deep_view(), key@),
{
    match find_member(members, key) {
        None => Some(None),
        Some(Json::Null) => Some(None),
        Some(Json::String(s)) => Some(Some(s.clone())),
        _ => None,
    }
}

/// Reads a truth value that may be missing.
pub fn get_opt_bool(members: &Vec<(String, Json)>, key: &str) -> (r: Option<Option<bool>>)
    ensures
        r.deep_view() == optional_bool(members.deep_view(), key@),
{
    match find_member(members, key) {
        None => Some(None),
        Some(Json::Null) => Some(None),
        Some(Json::Bool(b)) => Some(Some(*b)),
        _ => None,
    }
}

/// Reads a 32-bit integer that may be missing.
pub fn get_opt_i32(members: &Vec<(String, Json)>, key: &str) -> (r: Option<Option<i32>>)
    ensures
        r.deep_view() == optional_i32(members.deep_view(), key@),
{
    match find_member(members, key) {
        None => Some(None),
        Some(Json::Null) => Some(None),
        Some(Json::Int(n)) => {
            if -2147483648 <= *n && *n <= 2147483647 {
                Some(Some(*n as i32))
            } else {
                None
            }
        },
        Some(Json::UInt(n)) => {
            if *n <= 2147483647 {
                Some(Some(*n as i32))
            } else {
                None
            }
        },
        _ => None,
    }
}

/// Reads the members of an object that may be missing.
pub fn get_opt_object(members: &Vec<(String, Json)>, key: &str) -> (r: Option<
    Option<Vec<(String, Json)>>,
>)
    ensures
        r.deep_view() == optional_object(members.deep_view(), key@),
{
    match find_member(members, key) {
        None => Some(None),
        Some(Json::Null) => Some(None),
        Some(Json::Object(inner)) => {
            proof {
                lemma_object_view(*inner);
            }
            Some(Some(clone_members(inner)))
        },
        _ => None,
    }
}

/// A member appended if there is a value for it is found under its key
/// unless an earlier member has that key; every other key is found as
/// before.
pub proof fn lemma_lookup_with_optional(
    members: MembersView,
    name: Seq<char>,
    value: Option<JsonView>,
    key: Seq<char>,
)
    ensures
        lookup(with_optional(members, name, value), key) == match lookup(members, key) {
            Some(found) => Some(found),
            None => if name == key {
                value
            } else {
                None
            },
        },
{
    match value {
        Some(v) => lemma_lookup_push(members, name, v, key),
        None => {},
    }
}

/// What is read under `key`, which has to be there, by `decode`.
pub open spec fn required_with<T>(
    members: MembersView,
    key: Seq<char>,
    decode: spec_fn(JsonView) -> Option<T>,
) -> Option<T> {
    match lookup(members, key) {
        Some(j) => decode(j),
        None => None,
    }
}

/// What is read under `key`, if anything, by `decode`: a key that is
/// missing or bound to `null` stands for nothing, and a value that `decode`
/// does not read is malformed (the outer `None`).
pub open spec fn optional_with<T>(
    members: MembersView,
    key: Seq<char>,
    decode: spec_fn(JsonView) -> Option<T>,
) -> Option<Option<T>> {
    match lookup(members, key) {
        None => Some(None),
        Some(JsonView::Null) => Some(None),
        Some(j) => match decode(j) {
            Some(value) => Some(Some(value)),
            None => None,
        },
    }
}

} // verus!
