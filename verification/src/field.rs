//! The fields that attribute and slot records are made of: how each sort of
//! field is written into the member list of an object and read back from one.
//!
//! A field is written under its key as the value that stands for it, or not
//! at all where nothing stands for it: a string that is not there and a flag
//! that is `false` are left out. A member that is absent or `null` reads as
//! that default.

use crate::error::{result_map, result_view, DecodeError, DecodeErrorView};
use crate::json::{get, items_view, lookup, members_view, Json, JsonView, Members};
use crate::json::{lemma_lookup_concat, lemma_lookup_decreases, lemma_lookup_single};
use vstd::prelude::*;

verus! {

/// The model of an optional string.
pub open spec fn opt_view(value: Option<String>) -> Option<Seq<char>> {
    match value {
        Some(s) => Some(s@),
        None => None,
    }
}

/// The model of a record that was read: one that was left out has no members.
pub open spec fn record_view(inner: Option<&Vec<(String, Json)>>) -> Members {
    match inner {
        Some(members) => members_view(members@),
        None => Seq::empty(),
    }
}

/// The model of an optional array that was read.
pub open spec fn opt_items_view(items: Option<&Vec<Json>>) -> Option<Seq<JsonView>> {
    match items {
        Some(items) => Some(items_view(items@)),
        None => None,
    }
}

/// A field as it is written: one member under `key` where a value stands for
/// the field, and nothing where none does.
pub open spec fn field(key: Seq<char>, value: Option<JsonView>) -> Members {
    match value {
        Some(value) => seq![(key, value)],
        None => Seq::empty(),
    }
}

/// What stands for a string: always the string.
pub open spec fn str_value(value: Seq<char>) -> Option<JsonView> {
    Some(JsonView::Str(value))
}

/// What stands for an optional string: the string, where there is one.
pub open spec fn opt_str_value(value: Option<Seq<char>>) -> Option<JsonView> {
    match value {
        Some(s) => Some(JsonView::Str(s)),
        None => None,
    }
}

/// What stands for a flag: `true` where it is set, and nothing where it is
/// not.
pub open spec fn flag_value(value: bool) -> Option<JsonView> {
    if value {
        Some(JsonView::Bool(true))
    } else {
        None
    }
}

/// What stands for a nested record: the object of its members, where it has
/// any.
pub open spec fn record_value(inner: Members) -> Option<JsonView> {
    if inner.len() == 0 {
        None
    } else {
        Some(JsonView::Object(inner))
    }
}

/// A required string: the member must be there and be a string.
pub open spec fn required_str(members: Members, key: Seq<char>) -> Result<
    Seq<char>,
    DecodeErrorView,
> {
    match lookup(members, key) {
        None => Err(DecodeErrorView::MissingRequiredField),
        Some(JsonView::Str(s)) => Ok(s),
        Some(_) => Err(DecodeErrorView::TypeMismatch),
    }
}

/// An optional string: absent or `null` reads as no string.
pub open spec fn optional_str(members: Members, key: Seq<char>) -> Result<
    Option<Seq<char>>,
    DecodeErrorView,
> {
    match lookup(members, key) {
        None => Ok(None),
        Some(JsonView::Null) => Ok(None),
        Some(JsonView::Str(s)) => Ok(Some(s)),
        Some(_) => Err(DecodeErrorView::TypeMismatch),
    }
}

/// A flag: absent or `null` reads as `false`.
pub open spec fn flag(members: Members, key: Seq<char>) -> Result<bool, DecodeErrorView> {
    match lookup(members, key) {
        None => Ok(false),
        Some(JsonView::Null) => Ok(false),
        Some(JsonView::Bool(b)) => Ok(b),
        Some(_) => Err(DecodeErrorView::TypeMismatch),
    }
}

/// A boolean that is fixed in advance: the member must be there and hold
/// exactly `expected`.
pub open spec fn literal(members: Members, key: Seq<char>, expected: bool) -> Result<
    (),
    DecodeErrorView,
> {
    match lookup(members, key) {
        None => Err(DecodeErrorView::MissingRequiredField),
        Some(JsonView::Bool(b)) => if b == expected {
            Ok(())
        } else {
            Err(DecodeErrorView::TypeMismatch)
        },
        Some(_) => Err(DecodeErrorView::TypeMismatch),
    }
}

/// A nested record. One that is not `required` may be absent or `null`, and
/// then reads as the record without members.
pub open spec fn record(members: Members, key: Seq<char>, required: bool) -> Result<
    Members,
    DecodeErrorView,
> {
    match lookup(members, key) {
        None => if required {
            Err(DecodeErrorView::MissingRequiredField)
        } else {
            Ok(Seq::empty())
        },
        Some(JsonView::Null) => if required {
            Err(DecodeErrorView::TypeMismatch)
        } else {
            Ok(Seq::empty())
        },
        Some(JsonView::Object(inner)) => Ok(inner),
        Some(_) => Err(DecodeErrorView::TypeMismatch),
    }
}

/// A required array: the member must be there and be an array.
pub open spec fn required_array(members: Members, key: Seq<char>) -> Result<
    Seq<JsonView>,
    DecodeErrorView,
> {
    match lookup(members, key) {
        None => Err(DecodeErrorView::MissingRequiredField),
        Some(JsonView::Array(items)) => Ok(items),
        Some(_) => Err(DecodeErrorView::TypeMismatch),
    }
}

/// An optional array: absent or `null` reads as no array.
pub open spec fn optional_array(members: Members, key: Seq<char>) -> Result<
    Option<Seq<JsonView>>,
    DecodeErrorView,
> {
    match lookup(members, key) {
        None => Ok(None),
        Some(JsonView::Null) => Ok(None),
        Some(JsonView::Array(items)) => Ok(Some(items)),
        Some(_) => Err(DecodeErrorView::TypeMismatch),
    }
}

/// Every member of the list, if it has any, is named `key`.
pub open spec fn owned_by(members: Members, key: Seq<char>) -> bool {
    forall|i: int| 0 <= i < members.len() ==> (#[trigger] members[i]).0 == key
}

/// A list whose members are all named alike holds nothing under another name.
pub broadcast proof fn lemma_lookup_elsewhere(members: Members, name: Seq<char>, key: Seq<char>)
    requires
        #[trigger] owned_by(members, name),
        key != name,
    ensures
        #[trigger] lookup(members, key) is None,
    decreases members.len(),
{
    if members.len() != 0 {
        assert(members[0].0 == name);
        assert forall|i: int| 0 <= i < members.drop_first().len() implies (
        #[trigger] members.drop_first()[i]).0 == name by {
            assert(members.drop_first()[i] == members[i + 1]);
        }
        lemma_lookup_elsewhere(members.drop_first(), name, key);
    }
}

/// After a list whose members are all named `name` has been appended, every
/// other name is looked up as before, and `name` is looked up in what was
/// appended unless it was there before.
pub broadcast proof fn lemma_lookup_appended(
    front: Members,
    back: Members,
    name: Seq<char>,
    key: Seq<char>,
)
    requires
        #[trigger] owned_by(back, name),
    ensures
        #[trigger] lookup(front + back, key) == if key == name {
            match lookup(front, name) {
                Some(value) => Some(value),
                None => lookup(back, name),
            }
        } else {
            lookup(front, key)
        },
{
    lemma_lookup_concat(front, back, key);
    if key != name {
        lemma_lookup_elsewhere(back, name, key);
    }
}

/// A field is written under its key and nowhere else, and what is found
/// there is what stands for the field.
pub broadcast proof fn lemma_field(key: Seq<char>, value: Option<JsonView>)
    ensures
        owned_by(#[trigger] field(key, value), key),
        lookup(field(key, value), key) == value,
{
    if let Some(v) = value {
        lemma_lookup_single(key, v, key);
    }
}

/// What is appended to a list without members is the whole list.
pub broadcast proof fn lemma_empty_then(members: Members)
    ensures
        #[trigger] (Members::empty() + members) == members,
{
    assert(Members::empty() + members =~= members);
}

/// The facts by which a lookup in a list of fields is traced to the field
/// that has the key.
pub broadcast group group_field_lookups {
    lemma_lookup_elsewhere,
    lemma_lookup_appended,
    lemma_field,
}

/// A record that was read as required lies strictly inside the member list.
pub proof fn lemma_record_decreases(members: Members, key: Seq<char>)
    ensures
        record(members, key, true) matches Ok(inner) ==> decreases_to!(members => inner),
{
    lemma_lookup_decreases(members, key);
}

/// An array that was read lies strictly inside the member list.
pub proof fn lemma_array_decreases(members: Members, key: Seq<char>)
    ensures
        required_array(members, key) matches Ok(items) ==> decreases_to!(members => items),
        optional_array(members, key) matches Ok(Some(items)) ==> decreases_to!(members => items),
{
    lemma_lookup_decreases(members, key);
}

/// A member list without members.
pub fn no_members() -> (members: Vec<(String, Json)>)
    ensures
        members_view(members@) == Members::empty(),
{
    let members: Vec<(String, Json)> = Vec::new();
    assert(members_view(members@) =~= Members::empty());
    members
}

/// The members of a record that was read, where `none` is a member list
/// without members to stand for a record that was left out.
pub fn or_none<'a>(
    inner: Option<&'a Vec<(String, Json)>>,
    none: &'a Vec<(String, Json)>,
) -> (members: &'a Vec<(String, Json)>)
    requires
        members_view(none@) == Members::empty(),
    ensures
        members_view(members@) == record_view(inner),
{
    match inner {
        Some(members) => members,
        None => none,
    }
}

/// A copy of an optional string.
pub fn clone_opt_str(value: &Option<String>) -> (copy: Option<String>)
    ensures
        opt_view(copy) == opt_view(*value),
{
    match value {
        Some(s) => Some(s.clone()),
        None => None,
    }
}

/// Appends one member.
pub fn put(members: &mut Vec<(String, Json)>, key: &str, value: Json)
    ensures
        members_view(final(members)@) == members_view(old(members)@) + field(key@, Some(value@)),
{
    members.push((key.to_owned(), value));
    assert(members_view(members@) =~= members_view(old(members)@) + field(key@, Some(value@)));
}

/// Appends nothing: the field is left out, and the list stays as it is.
pub fn skip(members: &mut Vec<(String, Json)>, key: &str)
    ensures
        *final(members) == *old(members),
        members_view(final(members)@) == members_view(old(members)@) + field(key@, None),
{
    assert(members_view(members@) + field(key@, None) =~= members_view(members@));
}

/// Appends a string field.
pub fn put_str(members: &mut Vec<(String, Json)>, key: &str, value: &String)
    ensures
        members_view(final(members)@) == members_view(old(members)@) + field(
            key@,
            str_value(value@),
        ),
{
    put(members, key, Json::Str(value.clone()));
}

/// Appends an optional string field.
pub fn put_opt_str(members: &mut Vec<(String, Json)>, key: &str, value: &Option<String>)
    ensures
        members_view(final(members)@) == members_view(old(members)@) + field(
            key@,
            opt_str_value(opt_view(*value)),
        ),
{
    match value {
        Some(s) => put(members, key, Json::Str(s.clone())),
        None => skip(members, key),
    }
}

/// Appends a flag.
pub fn put_flag(members: &mut Vec<(String, Json)>, key: &str, value: bool)
    ensures
        members_view(final(members)@) == members_view(old(members)@) + field(
            key@,
            flag_value(value),
        ),
{
    if value {
        put(members, key, Json::Bool(true));
    } else {
        skip(members, key);
    }
}

/// Appends a nested record.
pub fn put_record(members: &mut Vec<(String, Json)>, key: &str, inner: Vec<(String, Json)>)
    ensures
        members_view(final(members)@) == members_view(old(members)@) + field(
            key@,
            record_value(members_view(inner@)),
        ),
{
    if inner.len() > 0 {
        put(members, key, Json::Object(inner));
    } else {
        skip(members, key);
    }
}

/// Reads a required string.
pub fn read_str(members: &Vec<(String, Json)>, key: &str) -> (r: Result<String, DecodeError>)
    ensures
        result_view(r) == required_str(members_view(members@), key@),
{
    match get(members, key) {
        None => Err(DecodeError::MissingRequiredField),
        Some(Json::Str(s)) => Ok(s.clone()),
        Some(_) => Err(DecodeError::TypeMismatch),
    }
}

/// Reads an optional string.
pub fn read_opt_str(members: &Vec<(String, Json)>, key: &str) -> (r: Result<
    Option<String>,
    DecodeError,
>)
    ensures
        result_map(r, |value: Option<String>| opt_view(value)) == optional_str(
            members_view(members@),
            key@,
        ),
{
    match get(members, key) {
        None => Ok(None),
        Some(Json::Null) => Ok(None),
        Some(Json::Str(s)) => Ok(Some(s.clone())),
        Some(_) => Err(DecodeError::TypeMismatch),
    }
}

/// Reads a flag.
pub fn read_flag(members: &Vec<(String, Json)>, key: &str) -> (r: Result<bool, DecodeError>)
    ensures
        result_view(r) == flag(members_view(members@), key@),
{
    match get(members, key) {
        None => Ok(false),
        Some(Json::Null) => Ok(false),
        Some(Json::Bool(b)) => Ok(*b),
        Some(_) => Err(DecodeError::TypeMismatch),
    }
}

/// Checks a boolean that is fixed in advance.
pub fn read_literal(members: &Vec<(String, Json)>, key: &str, expected: bool) -> (r: Result<
    (),
    DecodeError,
>)
    ensures
        result_view(r) == literal(members_view(members@), key@, expected),
{
    match get(members, key) {
        None => Err(DecodeError::MissingRequiredField),
        Some(Json::Bool(b)) => if *b == expected {
            Ok(())
        } else {
            Err(DecodeError::TypeMismatch)
        },
        Some(_) => Err(DecodeError::TypeMismatch),
    }
}

/// Reads a nested record; `None` stands for the record without members.
pub fn read_record<'a>(members: &'a Vec<(String, Json)>, key: &str, required: bool) -> (r: Result<
    Option<&'a Vec<(String, Json)>>,
    DecodeError,
>)
    ensures
        result_map(r, |inner: Option<&Vec<(String, Json)>>| record_view(inner)) == record(
            members_view(members@),
            key@,
            required,
        ),
{
    match get(members, key) {
        None => if required {
            Err(DecodeError::MissingRequiredField)
        } else {
            Ok(None)
        },
        Some(Json::Null) => if required {
            Err(DecodeError::TypeMismatch)
        } else {
            Ok(None)
        },
        Some(Json::Object(inner)) => Ok(Some(inner)),
        Some(_) => Err(DecodeError::TypeMismatch),
    }
}

/// Reads a required array.
pub fn read_array<'a>(members: &'a Vec<(String, Json)>, key: &str) -> (r: Result<
    &'a Vec<Json>,
    DecodeError,
>)
    ensures
        result_map(r, |items: &Vec<Json>| items_view(items@)) == required_array(
            members_view(members@),
            key@,
        ),
{
    match get(members, key) {
        None => Err(DecodeError::MissingRequiredField),
        Some(Json::Array(items)) => Ok(items),
        Some(_) => Err(DecodeError::TypeMismatch),
    }
}

/// Reads an optional array.
pub fn read_opt_array<'a>(members: &'a Vec<(String, Json)>, key: &str) -> (r: Result<
    Option<&'a Vec<Json>>,
    DecodeError,
>)
    ensures
        result_map(r, |items: Option<&Vec<Json>>| opt_items_view(items)) == optional_array(
            members_view(members@),
            key@,
        ),
{
    match get(members, key) {
        None => Ok(None),
        Some(Json::Null) => Ok(None),
        Some(Json::Array(items)) => Ok(Some(items)),
        Some(_) => Err(DecodeError::TypeMismatch),
    }
}

} // verus!
