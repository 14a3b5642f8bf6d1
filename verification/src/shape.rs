//! The shape that every kind of component shares on the wire: an object with
//! the fixed `inline` flag of the kind, its `props` record and its `slots`
//! record, and, inside a tagged union, a `type` member that names the kind.

use crate::error::{result_map, result_view, DecodeError, DecodeErrorView};
use crate::field::{
    field, group_field_lookups, lemma_record_decreases, literal, put, put_record, read_literal,
    read_record, read_str, record, record_value, record_view, required_str, str_value,
};
use crate::json::{lemma_lookup_concat, lemma_lookup_single};
use crate::json::{lookup, members_view, Json, JsonView, Members};
use vstd::prelude::*;

verus! {

/// The object of one component. A record without members is left out.
pub open spec fn kind_object(inline: bool, props: Members, slots: Members) -> JsonView {
    JsonView::Object(
        field("inline"@, Some(JsonView::Bool(inline))) + field("props"@, record_value(props))
            + field("slots"@, record_value(slots)),
    )
}

/// The two records of the object of one component, after its shape has been
/// checked: the value is an object, `inline` holds the flag of the kind, and
/// `props` and `slots` are objects (or, where not required, absent or `null`).
pub open spec fn kind_parts(
    json: JsonView,
    inline: bool,
    props_required: bool,
    slots_required: bool,
) -> Result<(Members, Members), DecodeErrorView> {
    match json {
        JsonView::Object(members) => {
            let flag = literal(members, "inline"@, inline);
            let props = record(members, "props"@, props_required);
            let slots = record(members, "slots"@, slots_required);
            if flag is Err {
                Err(flag->Err_0)
            } else if props is Err {
                Err(props->Err_0)
            } else if slots is Err {
                Err(slots->Err_0)
            } else {
                Ok((props->Ok_0, slots->Ok_0))
            }
        },
        _ => Err(DecodeErrorView::TypeMismatch),
    }
}

/// An object with the `type` member put in front of its members.
pub open spec fn tagged(tag: Seq<char>, object: JsonView) -> JsonView {
    match object {
        JsonView::Object(members) => JsonView::Object(field("type"@, str_value(tag)) + members),
        other => other,
    }
}

/// The tag of a value of a tagged union: the value must be an object with a
/// string under `type`.
pub open spec fn tag_of(json: JsonView) -> Result<Seq<char>, DecodeErrorView> {
    match json {
        JsonView::Object(members) => required_str(members, "type"@),
        _ => Err(DecodeErrorView::TypeMismatch),
    }
}

/// The names of the members that make up the shape are pairwise distinct.
pub proof fn lemma_shape_keys()
    ensures
        "type"@ != "inline"@,
        "type"@ != "props"@,
        "type"@ != "slots"@,
        "inline"@ != "props"@,
        "inline"@ != "slots"@,
        "props"@ != "slots"@,
{
    reveal_strlit("type");
    reveal_strlit("inline");
    reveal_strlit("props");
    reveal_strlit("slots");
    assert("type"@.len() == 4 && "inline"@.len() == 6 && "props"@.len() == 5);
    assert("props"@[0] != "slots"@[0]);
}

/// The records of an object come back out of it as they went in. A record
/// that is required on the way back must have had a member to be written.
pub proof fn lemma_kind_parts_of_object(
    inline: bool,
    props: Members,
    slots: Members,
    props_required: bool,
    slots_required: bool,
)
    requires
        props_required ==> props.len() > 0,
        slots_required ==> slots.len() > 0,
    ensures
        kind_parts(kind_object(inline, props, slots), inline, props_required, slots_required)
            == Ok::<(Members, Members), DecodeErrorView>((props, slots)),
{
    broadcast use group_field_lookups;

    lemma_shape_keys();
    assert(props.len() == 0 ==> props == Members::empty());
    assert(slots.len() == 0 ==> slots == Members::empty());
}

/// The object of a component has a `props` member exactly when an attribute
/// was written, and a `slots` member exactly when a slot was written.
pub proof fn lemma_kind_object_records(inline: bool, props: Members, slots: Members)
    ensures
        kind_object(inline, props, slots) matches JsonView::Object(members) && (lookup(
            members,
            "props"@,
        ) is None <==> props.len() == 0) && (lookup(members, "slots"@) is None <==> slots.len()
            == 0),
{
    broadcast use group_field_lookups;

    lemma_shape_keys();
}

/// The `type` member does not change what the shape of an object is.
pub proof fn lemma_kind_parts_of_tagged(
    tag: Seq<char>,
    json: JsonView,
    inline: bool,
    props_required: bool,
    slots_required: bool,
)
    ensures
        kind_parts(tagged(tag, json), inline, props_required, slots_required) == kind_parts(
            json,
            inline,
            props_required,
            slots_required,
        ),
{
    broadcast use {lemma_lookup_concat, lemma_lookup_single};

    lemma_shape_keys();
}

/// The tag that was put on an object is the tag that is read from it.
pub proof fn lemma_tag_of_tagged(tag: Seq<char>, json: JsonView)
    requires
        json is Object,
    ensures
        tag_of(tagged(tag, json)) == Ok::<Seq<char>, DecodeErrorView>(tag),
{
    broadcast use {lemma_lookup_concat, lemma_lookup_single};

}

/// A `slots` record that was read as required lies strictly inside the value.
pub proof fn lemma_slots_decrease(json: JsonView, inline: bool, props_required: bool)
    ensures
        kind_parts(json, inline, props_required, true) matches Ok(parts) ==> decreases_to!(
            json => parts.1
        ),
{
    if let JsonView::Object(members) = json {
        lemma_record_decreases(members, "slots"@);
    }
}

/// Builds the object of one component.
pub fn build(inline: bool, props: Vec<(String, Json)>, slots: Vec<(String, Json)>) -> (json: Json)
    ensures
        json@ == kind_object(inline, members_view(props@), members_view(slots@)),
{
    let mut members: Vec<(String, Json)> = Vec::new();
    put(&mut members, "inline", Json::Bool(inline));
    put_record(&mut members, "props", props);
    put_record(&mut members, "slots", slots);
    assert(Members::empty() + field("inline"@, Some(JsonView::Bool(inline))) =~= field(
        "inline"@,
        Some(JsonView::Bool(inline)),
    ));
    Json::Object(members)
}

/// Checks the shape of the object of one component and hands out its two
/// records; `None` stands for a record without members.
pub fn split<'a>(json: &'a Json, inline: bool, props_required: bool, slots_required: bool) -> (r:
    Result<(Option<&'a Vec<(String, Json)>>, Option<&'a Vec<(String, Json)>>), DecodeError>)
    ensures
        result_map(
            r,
            |parts: (Option<&Vec<(String, Json)>>, Option<&Vec<(String, Json)>>)|
                (record_view(parts.0), record_view(parts.1)),
        ) == kind_parts(json@, inline, props_required, slots_required),
{
    match json {
        Json::Object(members) => {
            read_literal(members, "inline", inline)?;
            let props = read_record(members, "props", props_required)?;
            let slots = read_record(members, "slots", slots_required)?;
            Ok((props, slots))
        },
        _ => Err(DecodeError::TypeMismatch),
    }
}

/// Puts the `type` member in front of the members of an object.
pub fn with_tag(tag: &str, object: Json) -> (json: Json)
    ensures
        json@ == tagged(tag@, object@),
{
    match object {
        Json::Object(mut members) => {
            let ghost before = members@;
            members.insert(0, ("type".to_owned(), Json::Str(tag.to_owned())));
            assert(members_view(members@) =~= field("type"@, str_value(tag@)) + members_view(
                before,
            ));
            Json::Object(members)
        },
        other => other,
    }
}

/// Reads the tag of a value of a tagged union.
pub fn read_tag(json: &Json) -> (r: Result<String, DecodeError>)
    ensures
        result_view(r) == tag_of(json@),
{
    match json {
        Json::Object(members) => read_str(members, "type"),
        _ => Err(DecodeError::TypeMismatch),
    }
}

} // verus!
