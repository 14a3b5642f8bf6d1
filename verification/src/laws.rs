//! What holds of every document, stated over the models of the components
//! and of the JSON values that they are written as.

use crate::choice::{CalloutType, ListStyle};
use crate::component::{
    decoded_document, encoded_document, is_block_tag, lemma_components_round_trip,
    BlockComponentView, ComponentView,
};
use crate::container::ListProps;
use crate::error::DecodeErrorView;
use crate::field::{field, flag_value, opt_str_value, record_value};
use crate::inline::InlineComponentView;
use crate::json::{lookup, JsonView, Members, Number};
use crate::leaf::{HeadingProps, HeadingView};
use crate::level::HeadingLevel;
use crate::shape::{kind_object, kind_parts, lemma_kind_object_records, tag_of};
use vstd::prelude::*;

verus! {

/// Round trip: whatever component is written, reading back what was written
/// gives that component.
pub proof fn round_trip(component: ComponentView)
    ensures
        ComponentView::decoded(component.encoded()) == Ok::<ComponentView, DecodeErrorView>(
            component,
        ),
{
    component.lemma_round_trip();
}

/// Round trip of a document: the components come back as they were written,
/// each in its place.
pub proof fn document_round_trip(components: Seq<ComponentView>)
    ensures
        decoded_document(encoded_document(components)) == Ok::<
            Seq<ComponentView>,
            DecodeErrorView,
        >(components),
{
    lemma_components_round_trip(components);
}

/// What is written tells which of the two a component is: a value that was
/// written for a block is read as a block, and one that was written for an
/// inline component as an inline component.
pub proof fn written_kind_is_kept(component: ComponentView)
    ensures
        ComponentView::decoded(component.encoded()) matches Ok(read) && read.inline()
            == component.inline(),
{
    component.lemma_round_trip();
}

/// No value is read both as an inline component and as a block: the first
/// must hold `true` under `inline`, and the second `false`. So the order in
/// which the two are tried decides nothing.
pub proof fn inline_and_block_are_disjoint(json: JsonView)
    ensures
        !(InlineComponentView::decoded(json) is Ok && BlockComponentView::decoded(json) is Ok),
{
    InlineComponentView::lemma_decoded_is_inline(json);
}

/// A field at its default is written as nothing: a flag that is `false`, a
/// string that is not there, the first variant of an enumeration, and a
/// record without members leave no member behind.
pub proof fn default_fields_are_left_out(key: Seq<char>)
    ensures
        field(key, flag_value(false)) == Members::empty(),
        field(key, opt_str_value(None)) == Members::empty(),
        field(key, ListStyle::Unordered.value()) == Members::empty(),
        field(key, CalloutType::Note.value()) == Members::empty(),
        field(key, record_value(Seq::empty())) == Members::empty(),
{
}

/// Nothing is ever written as `false` or as `null` for a field: a field is
/// there with what it holds, or it is not there.
pub proof fn no_default_is_written(
    flag: bool,
    text: Option<Seq<char>>,
    style: ListStyle,
    callout: CalloutType,
    inner: Members,
)
    ensures
        flag_value(flag) != Some(JsonView::Bool(false)),
        flag_value(flag) != Some(JsonView::Null),
        opt_str_value(text) != Some(JsonView::Null),
        style.value() != Some(JsonView::Null),
        callout.value() != Some(JsonView::Null),
        record_value(inner) != Some(JsonView::Null),
        record_value(inner) != Some(JsonView::Object(Seq::empty())),
{
}

/// The object of a component has a `props` member exactly when an attribute
/// was written, and a `slots` member exactly when a slot was written.
pub proof fn empty_records_are_left_out(inline: bool, props: Members, slots: Members)
    ensures
        kind_object(inline, props, slots) matches JsonView::Object(members) && (lookup(
            members,
            "props"@,
        ) is None <==> props.len() == 0) && (lookup(members, "slots"@) is None <==> slots.len()
            == 0),
{
    lemma_kind_object_records(inline, props, slots);
}

/// An integer stands for a heading level exactly when it is from 1 to 6, and
/// then the level is written as that integer again.
pub proof fn heading_level_range(n: int)
    ensures
        HeadingLevel::of_number(n) is Some <==> 1 <= n <= 6,
        HeadingLevel::of_number(n) matches Some(level) ==> level.number() == n,
{
}

/// A heading whose `level` is an integer outside 1 to 6 is rejected as out
/// of range, whatever else its attributes hold.
pub proof fn heading_level_out_of_range(members: Members, number: Number, n: int)
    requires
        lookup(members, "level"@) == Some(JsonView::Number(number)),
        number.as_int() == Some(n),
        !(1 <= n <= 6),
    ensures
        HeadingProps::decoded(members) == Err::<HeadingProps, DecodeErrorView>(
            DecodeErrorView::OutOfRange,
        ),
{
}

/// A heading of the right shape whose `level` is an integer outside 1 to 6
/// is rejected as out of range.
pub proof fn heading_out_of_range(json: JsonView, number: Number, n: int)
    requires
        kind_parts(json, false, true, true) matches Ok(parts) && lookup(parts.0, "level"@) == Some(
            JsonView::Number(number),
        ),
        number.as_int() == Some(n),
        !(1 <= n <= 6),
    ensures
        HeadingView::decoded(json) == Err::<HeadingView, DecodeErrorView>(
            DecodeErrorView::OutOfRange,
        ),
{
}

/// Among blocks, a name under `type` that is not the name of a block kind is
/// rejected as an unknown tag, with that name.
pub proof fn unknown_tag_is_rejected(json: JsonView, tag: Seq<char>)
    requires
        tag_of(json) == Ok::<Seq<char>, DecodeErrorView>(tag),
        !is_block_tag(tag),
    ensures
        BlockComponentView::decoded(json) == Err::<BlockComponentView, DecodeErrorView>(
            DecodeErrorView::UnknownTag(tag),
        ),
{
}

/// Among inline components, a name under `type` other than `Text` and `Icon`
/// is rejected as an unknown tag, with that name.
pub proof fn unknown_inline_tag_is_rejected(json: JsonView, tag: Seq<char>)
    requires
        tag_of(json) == Ok::<Seq<char>, DecodeErrorView>(tag),
        tag != "Text"@,
        tag != "Icon"@,
    ensures
        InlineComponentView::decoded(json) == Err::<InlineComponentView, DecodeErrorView>(
            DecodeErrorView::UnknownTag(tag),
        ),
{
}

/// A list without a `listStyle` attribute is unordered, and `listStyle` is
/// written exactly for a list that is not unordered.
pub proof fn list_style_default(members: Members, props: ListProps)
    ensures
        lookup(members, "listStyle"@) is None ==> ListProps::decoded(members) == Ok::<
            ListProps,
            DecodeErrorView,
        >(ListProps { list_style: ListStyle::Unordered }),
        lookup(props.encoded(), "listStyle"@) is None <==> props.list_style
            == ListStyle::Unordered,
{
    props.lemma_encoded();
}

} // verus!
