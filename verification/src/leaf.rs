//! The block components that hold no nested blocks: their children, where
//! they have any, are inline components.

use crate::error::{result_view, DecodeError, DecodeErrorView};
use crate::field::{
    clone_opt_str, field, flag, flag_value, group_field_lookups, lemma_empty_then, no_members,
    opt_str_value, opt_view, optional_str, or_none, put_flag, put_opt_str, put_str, read_flag,
    read_opt_str, read_str, required_str, str_value,
};
use crate::inline::{
    clone_inlines, inlines_at, inlines_value, inlines_view, lemma_inlines_round_trip, put_inlines,
    read_inlines, InlineComponent, InlineComponentView,
};
use crate::json::{lookup, members_view, Json, JsonView, Members};
use crate::level::HeadingLevel;
use crate::shape::{
    build, kind_object, kind_parts, lemma_kind_object_records, lemma_kind_parts_of_object,
    lemma_kind_parts_of_tagged, split, tagged,
};
use vstd::prelude::*;

verus! {

/// The attributes of a heading.
#[derive(Debug, PartialEq, Eq)]
pub struct HeadingProps {
    /// The depth of the heading.
    pub level: HeadingLevel,
}

impl View for HeadingProps {
    type V = HeadingProps;

    open spec fn view(&self) -> HeadingProps {
        *self
    }
}

impl Clone for HeadingProps {
    fn clone(&self) -> (record: HeadingProps)
        ensures
            record@ == self@,
    {
        HeadingProps { level: self.level }
    }
}

impl Default for HeadingProps {
    fn default() -> (record: HeadingProps)
        ensures
            record@ == HeadingProps::initial(),
    {
        HeadingProps { level: HeadingLevel::H1 }
    }
}

impl HeadingProps {
    /// The record with every field at its default.
    pub open spec fn initial() -> HeadingProps {
        HeadingProps { level: HeadingLevel::H1 }
    }

    /// The members that the record is written as.
    pub open spec fn encoded(self) -> Members {
        field("level"@, self.level.value())
    }

    /// The record that a member list is read as.
    pub open spec fn decoded(members: Members) -> Result<HeadingProps, DecodeErrorView> {
        let level = HeadingLevel::decoded(members, "level"@);
        if level is Err {
            Err(level->Err_0)
        } else {
            Ok(HeadingProps { level: level->Ok_0 })
        }
    }

    /// Each field is found under its own key, as what stands for it;
    /// at least one member is always written.
    pub proof fn lemma_encoded(self)
        ensures
            lookup(self.encoded(), "level"@) == self.level.value(),
            self.encoded().len() > 0,
    {
        broadcast use group_field_lookups;

    }

    /// Reading back the members that the record was written as gives the
    /// record.
    pub proof fn lemma_round_trip(self)
        ensures
            Self::decoded(self.encoded()) == Ok::<Self, DecodeErrorView>(self),
    {
        self.lemma_encoded();
    }
}

impl HeadingProps {
    /// Writes the record as the members of an object, from which it can be
    /// read back.
    pub fn encode(&self) -> (members: Vec<(String, Json)>)
        ensures
            members_view(members@) == self@.encoded(),
            HeadingProps::decoded(members_view(members@)) == Ok::<
                HeadingProps,
                DecodeErrorView,
            >(self@),
    {
        broadcast use lemma_empty_then;

        let mut members = no_members();
        self.level.encode(&mut members, "level");
        proof {
            self@.lemma_round_trip();
        }
        members
    }

    /// Reads the record from the members of an object.
    pub fn decode(members: &Vec<(String, Json)>) -> (r: Result<HeadingProps, DecodeError>)
        ensures
            result_view(r) == HeadingProps::decoded(members_view(members@)),
    {
        let level = HeadingLevel::decode(members, "level")?;
        Ok(HeadingProps { level })
    }
}

/// The slots of a heading.
#[derive(Debug, PartialEq, Eq)]
pub struct HeadingSlots {
    /// The text of the heading.
    pub default: Vec<InlineComponent>,
}

/// The mathematical model of a [`HeadingSlots`].
pub struct HeadingSlotsView {
    /// The text of the heading.
    pub default: Seq<InlineComponentView>,
}

impl View for HeadingSlots {
    type V = HeadingSlotsView;

    open spec fn view(&self) -> HeadingSlotsView {
        HeadingSlotsView { default: inlines_view(self.default@) }
    }
}

impl Clone for HeadingSlots {
    fn clone(&self) -> (record: HeadingSlots)
        ensures
            record@ == self@,
    {
        HeadingSlots { default: clone_inlines(&self.default) }
    }
}

impl Default for HeadingSlots {
    fn default() -> (record: HeadingSlots)
        ensures
            record@ == HeadingSlotsView::initial(),
    {
        let record = HeadingSlots { default: Vec::new() };
        assert(record@.default =~= Seq::empty());
        record
    }
}

impl HeadingSlotsView {
    /// The record with every field at its default.
    pub open spec fn initial() -> HeadingSlotsView {
        HeadingSlotsView { default: Seq::empty() }
    }

    /// The members that the record is written as.
    pub open spec fn encoded(self) -> Members {
        field("default"@, inlines_value(self.default))
    }

    /// The record that a member list is read as.
    pub open spec fn decoded(members: Members) -> Result<HeadingSlotsView, DecodeErrorView> {
        let default = inlines_at(members, "default"@);
        if default is Err {
            Err(default->Err_0)
        } else {
            Ok(HeadingSlotsView { default: default->Ok_0 })
        }
    }

    /// Each field is found under its own key, as what stands for it;
    /// at least one member is always written.
    pub proof fn lemma_encoded(self)
        ensures
            lookup(self.encoded(), "default"@) == inlines_value(self.default),
            self.encoded().len() > 0,
    {
        broadcast use group_field_lookups;

    }

    /// Reading back the members that the record was written as gives the
    /// record.
    pub proof fn lemma_round_trip(self)
        ensures
            Self::decoded(self.encoded()) == Ok::<Self, DecodeErrorView>(self),
    {
        self.lemma_encoded();
        lemma_inlines_round_trip(self.default);
    }
}

impl HeadingSlots {
    /// Writes the record as the members of an object, from which it can be
    /// read back.
    pub fn encode(&self) -> (members: Vec<(String, Json)>)
        ensures
            members_view(members@) == self@.encoded(),
            HeadingSlotsView::decoded(members_view(members@)) == Ok::<
                HeadingSlotsView,
                DecodeErrorView,
            >(self@),
    {
        broadcast use lemma_empty_then;

        let mut members = no_members();
        put_inlines(&mut members, "default", &self.default);
        proof {
            self@.lemma_round_trip();
        }
        members
    }

    /// Reads the record from the members of an object.
    pub fn decode(members: &Vec<(String, Json)>) -> (r: Result<HeadingSlots, DecodeError>)
        ensures
            result_view(r) == HeadingSlotsView::decoded(members_view(members@)),
    {
        let default = read_inlines(members, "default")?;
        Ok(HeadingSlots { default })
    }
}

/// A heading.
#[derive(Debug, PartialEq, Eq)]
pub struct Heading {
    /// The attributes.
    pub props: HeadingProps,
    /// The children, by slot.
    pub slots: HeadingSlots,
}

/// The mathematical model of a [`Heading`].
pub struct HeadingView {
    /// The attributes.
    pub props: HeadingProps,
    /// The children, by slot.
    pub slots: HeadingSlotsView,
}

impl View for Heading {
    type V = HeadingView;

    open spec fn view(&self) -> HeadingView {
        HeadingView { props: self.props@, slots: self.slots@ }
    }
}

impl Clone for Heading {
    fn clone(&self) -> (kind: Heading)
        ensures
            kind@ == self@,
    {
        Heading { props: self.props.clone(), slots: self.slots.clone() }
    }
}

impl Default for Heading {
    fn default() -> (kind: Heading)
        ensures
            kind@ == HeadingView::initial(),
    {
        Heading { props: HeadingProps::default(), slots: HeadingSlots::default() }
    }
}

impl HeadingView {
    /// The heading with every attribute at its default and no children.
    pub open spec fn initial() -> HeadingView {
        Self { props: HeadingProps::initial(), slots: HeadingSlotsView::initial() }
    }

    /// The object that the heading is written as, without a `type` member.
    pub open spec fn encoded(self) -> JsonView {
        kind_object(false, self.props.encoded(), self.slots.encoded())
    }

    /// The heading that a value is read as. The shape of the object is checked
    /// first, then the attributes are read, then the slots; the first failure
    /// is the result.
    pub open spec fn decoded(json: JsonView) -> Result<HeadingView, DecodeErrorView> {
        match kind_parts(json, false, true, true) {
            Err(e) => Err(e),
            Ok(parts) => {
                let props = HeadingProps::decoded(parts.0);
                let slots = HeadingSlotsView::decoded(parts.1);
                if props is Err {
                    Err(props->Err_0)
                } else if slots is Err {
                    Err(slots->Err_0)
                } else {
                    Ok(HeadingView { props: props->Ok_0, slots: slots->Ok_0 })
                }
            },
        }
    }

    /// Reading back the object that the heading was written as gives the
    /// heading.
    pub proof fn lemma_round_trip(self)
        ensures
            Self::decoded(self.encoded()) == Ok::<Self, DecodeErrorView>(self),
    {
        self.props.lemma_round_trip();
        self.slots.lemma_round_trip();
        self.props.lemma_encoded();
        self.slots.lemma_encoded();
        lemma_kind_parts_of_object(false, self.props.encoded(), self.slots.encoded(), true, true);
    }

    /// A `type` member in front of the members of a value does not change
    /// what the value is read as.
    pub proof fn lemma_decoded_tagged(tag: Seq<char>, json: JsonView)
        ensures
            HeadingView::decoded(tagged(tag, json)) == HeadingView::decoded(json),
    {
        lemma_kind_parts_of_tagged(tag, json, false, true, true);
    }
}

impl Heading {
    /// Writes the heading as an object, without a `type` member, from which it
    /// can be read back.
    pub fn encode(&self) -> (json: Json)
        ensures
            json@ == self@.encoded(),
            HeadingView::decoded(json@) == Ok::<HeadingView, DecodeErrorView>(self@),
    {
        proof {
            self@.lemma_round_trip();
        }
        build(false, self.props.encode(), self.slots.encode())
    }

    /// Reads the heading from an object; a `type` member, if there is one, is
    /// not looked at.
    pub fn decode(json: &Json) -> (r: Result<Heading, DecodeError>)
        ensures
            result_view(r) == HeadingView::decoded(json@),
    {
        let parts = split(json, false, true, true)?;
        let none = no_members();
        let props = HeadingProps::decode(or_none(parts.0, &none))?;
        let slots = HeadingSlots::decode(or_none(parts.1, &none))?;
        Ok(Heading { props, slots })
    }
}

/// The attributes of a paragraph: it has none.
#[derive(Debug, PartialEq, Eq)]
pub struct ParagraphProps;

impl View for ParagraphProps {
    type V = ParagraphProps;

    open spec fn view(&self) -> ParagraphProps {
        *self
    }
}

impl Clone for ParagraphProps {
    fn clone(&self) -> (record: ParagraphProps)
        ensures
            record@ == self@,
    {
        ParagraphProps
    }
}

impl Default for ParagraphProps {
    fn default() -> (record: ParagraphProps)
        ensures
            record@ == ParagraphProps::initial(),
    {
        ParagraphProps
    }
}

impl ParagraphProps {
    /// The record with every field at its default.
    pub open spec fn initial() -> ParagraphProps {
        ParagraphProps
    }

    /// The members that the record is written as.
    pub open spec fn encoded(self) -> Members {
        Seq::empty()
    }

    /// The record that a member list is read as: whatever the list holds,
    /// the record takes nothing from it.
    pub open spec fn decoded(members: Members) -> Result<ParagraphProps, DecodeErrorView> {
        Ok(ParagraphProps)
    }

    /// Reading back the members that the record was written as gives the
    /// record.
    pub proof fn lemma_round_trip(self)
        ensures
            Self::decoded(self.encoded()) == Ok::<Self, DecodeErrorView>(self),
    {
    }
}

impl ParagraphProps {
    /// Writes the record as the members of an object, from which it can be
    /// read back.
    pub fn encode(&self) -> (members: Vec<(String, Json)>)
        ensures
            members_view(members@) == self@.encoded(),
            ParagraphProps::decoded(members_view(members@)) == Ok::<
                ParagraphProps,
                DecodeErrorView,
            >(self@),
    {
        no_members()
    }

    /// Reads the record from the members of an object.
    pub fn decode(members: &Vec<(String, Json)>) -> (r: Result<ParagraphProps, DecodeError>)
        ensures
            result_view(r) == ParagraphProps::decoded(members_view(members@)),
    {
        Ok(ParagraphProps)
    }
}

/// The slots of a paragraph.
#[derive(Debug, PartialEq, Eq)]
pub struct ParagraphSlots {
    /// The text of the paragraph.
    pub default: Vec<InlineComponent>,
}

/// The mathematical model of a [`ParagraphSlots`].
pub struct ParagraphSlotsView {
    /// The text of the paragraph.
    pub default: Seq<InlineComponentView>,
}

impl View for ParagraphSlots {
    type V = ParagraphSlotsView;

    open spec fn view(&self) -> ParagraphSlotsView {
        ParagraphSlotsView { default: inlines_view(self.default@) }
    }
}

impl Clone for ParagraphSlots {
    fn clone(&self) -> (record: ParagraphSlots)
        ensures
            record@ == self@,
    {
        ParagraphSlots { default: clone_inlines(&self.default) }
    }
}

impl Default for ParagraphSlots {
    fn default() -> (record: ParagraphSlots)
        ensures
            record@ == ParagraphSlotsView::initial(),
    {
        let record = ParagraphSlots { default: Vec::new() };
        assert(record@.default =~= Seq::empty());
        record
    }
}

impl ParagraphSlotsView {
    /// The record with every field at its default.
    pub open spec fn initial() -> ParagraphSlotsView {
        ParagraphSlotsView { default: Seq::empty() }
    }

    /// The members that the record is written as.
    pub open spec fn encoded(self) -> Members {
        field("default"@, inlines_value(self.default))
    }

    /// The record that a member list is read as.
    pub open spec fn decoded(members: Members) -> Result<ParagraphSlotsView, DecodeErrorView> {
        let default = inlines_at(members, "default"@);
        if default is Err {
            Err(default->Err_0)
        } else {
            Ok(ParagraphSlotsView { default: default->Ok_0 })
        }
    }

    /// Each field is found under its own key, as what stands for it;
    /// at least one member is always written.
    pub proof fn lemma_encoded(self)
        ensures
            lookup(self.encoded(), "default"@) == inlines_value(self.default),
            self.encoded().len() > 0,
    {
        broadcast use group_field_lookups;

    }

    /// Reading back the members that the record was written as gives the
    /// record.
    pub proof fn lemma_round_trip(self)
        ensures
            Self::decoded(self.encoded()) == Ok::<Self, DecodeErrorView>(self),
    {
        self.lemma_encoded();
        lemma_inlines_round_trip(self.default);
    }
}

impl ParagraphSlots {
    /// Writes the record as the members of an object, from which it can be
    /// read back.
    pub fn encode(&self) -> (members: Vec<(String, Json)>)
        ensures
            members_view(members@) == self@.encoded(),
            ParagraphSlotsView::decoded(members_view(members@)) == Ok::<
                ParagraphSlotsView,
                DecodeErrorView,
            >(self@),
    {
        broadcast use lemma_empty_then;

        let mut members = no_members();
        put_inlines(&mut members, "default", &self.default);
        proof {
            self@.lemma_round_trip();
        }
        members
    }

    /// Reads the record from the members of an object.
    pub fn decode(members: &Vec<(String, Json)>) -> (r: Result<ParagraphSlots, DecodeError>)
        ensures
            result_view(r) == ParagraphSlotsView::decoded(members_view(members@)),
    {
        let default = read_inlines(members, "default")?;
        Ok(ParagraphSlots { default })
    }
}

/// A paragraph.
#[derive(Debug, PartialEq, Eq)]
pub struct Paragraph {
    /// The attributes.
    pub props: ParagraphProps,
    /// The children, by slot.
    pub slots: ParagraphSlots,
}

/// The mathematical model of a [`Paragraph`].
pub struct ParagraphView {
    /// The attributes.
    pub props: ParagraphProps,
    /// The children, by slot.
    pub slots: ParagraphSlotsView,
}

impl View for Paragraph {
    type V = ParagraphView;

    open spec fn view(&self) -> ParagraphView {
        ParagraphView { props: self.props@, slots: self.slots@ }
    }
}

impl Clone for Paragraph {
    fn clone(&self) -> (kind: Paragraph)
        ensures
            kind@ == self@,
    {
        Paragraph { props: self.props.clone(), slots: self.slots.clone() }
    }
}

impl Default for Paragraph {
    fn default() -> (kind: Paragraph)
        ensures
            kind@ == ParagraphView::initial(),
    {
        Paragraph { props: ParagraphProps::default(), slots: ParagraphSlots::default() }
    }
}

impl ParagraphView {
    /// The paragraph with every attribute at its default and no children.
    pub open spec fn initial() -> ParagraphView {
        Self { props: ParagraphProps::initial(), slots: ParagraphSlotsView::initial() }
    }

    /// The object that the paragraph is written as, without a `type` member.
    pub open spec fn encoded(self) -> JsonView {
        kind_object(false, self.props.encoded(), self.slots.encoded())
    }

    /// The paragraph that a value is read as. The shape of the object is checked
    /// first, then the attributes are read, then the slots; the first failure
    /// is the result.
    pub open spec fn decoded(json: JsonView) -> Result<ParagraphView, DecodeErrorView> {
        match kind_parts(json, false, false, true) {
            Err(e) => Err(e),
            Ok(parts) => {
                let props = ParagraphProps::decoded(parts.0);
                let slots = ParagraphSlotsView::decoded(parts.1);
                if props is Err {
                    Err(props->Err_0)
                } else if slots is Err {
                    Err(slots->Err_0)
                } else {
                    Ok(ParagraphView { props: props->Ok_0, slots: slots->Ok_0 })
                }
            },
        }
    }

    /// Reading back the object that the paragraph was written as gives the
    /// paragraph.
    pub proof fn lemma_round_trip(self)
        ensures
            Self::decoded(self.encoded()) == Ok::<Self, DecodeErrorView>(self),
    {
        self.props.lemma_round_trip();
        self.slots.lemma_round_trip();
        self.slots.lemma_encoded();
        lemma_kind_parts_of_object(false, self.props.encoded(), self.slots.encoded(), false, true);
    }

    /// The object has no `props` member.
    pub proof fn lemma_defaults_left_out(self)
        ensures
            self.encoded() matches JsonView::Object(members) && lookup(members, "props"@) is None,
    {
        lemma_kind_object_records(false, self.props.encoded(), self.slots.encoded());
    }

    /// A `type` member in front of the members of a value does not change
    /// what the value is read as.
    pub proof fn lemma_decoded_tagged(tag: Seq<char>, json: JsonView)
        ensures
            ParagraphView::decoded(tagged(tag, json)) == ParagraphView::decoded(json),
    {
        lemma_kind_parts_of_tagged(tag, json, false, false, true);
    }
}

impl Paragraph {
    /// Writes the paragraph as an object, without a `type` member, from which it
    /// can be read back.
    pub fn encode(&self) -> (json: Json)
        ensures
            json@ == self@.encoded(),
            ParagraphView::decoded(json@) == Ok::<ParagraphView, DecodeErrorView>(self@),
    {
        proof {
            self@.lemma_round_trip();
        }
        build(false, self.props.encode(), self.slots.encode())
    }

    /// Reads the paragraph from an object; a `type` member, if there is one, is
    /// not looked at.
    pub fn decode(json: &Json) -> (r: Result<Paragraph, DecodeError>)
        ensures
            result_view(r) == ParagraphView::decoded(json@),
    {
        let parts = split(json, false, false, true)?;
        let none = no_members();
        let props = ParagraphProps::decode(or_none(parts.0, &none))?;
        let slots = ParagraphSlots::decode(or_none(parts.1, &none))?;
        Ok(Paragraph { props, slots })
    }
}

/// The attributes of a list item: it has none.
#[derive(Debug, PartialEq, Eq)]
pub struct ListItemProps;

impl View for ListItemProps {
    type V = ListItemProps;

    open spec fn view(&self) -> ListItemProps {
        *self
    }
}

impl Clone for ListItemProps {
    fn clone(&self) -> (record: ListItemProps)
        ensures
            record@ == self@,
    {
        ListItemProps
    }
}

impl Default for ListItemProps {
    fn default() -> (record: ListItemProps)
        ensures
            record@ == ListItemProps::initial(),
    {
        ListItemProps
    }
}

impl ListItemProps {
    /// The record with every field at its default.
    pub open spec fn initial() -> ListItemProps {
        ListItemProps
    }

    /// The members that the record is written as.
    pub open spec fn encoded(self) -> Members {
        Seq::empty()
    }

    /// The record that a member list is read as: whatever the list holds,
    /// the record takes nothing from it.
    pub open spec fn decoded(members: Members) -> Result<ListItemProps, DecodeErrorView> {
        Ok(ListItemProps)
    }

    /// Reading back the members that the record was written as gives the
    /// record.
    pub proof fn lemma_round_trip(self)
        ensures
            Self::decoded(self.encoded()) == Ok::<Self, DecodeErrorView>(self),
    {
    }
}

impl ListItemProps {
    /// Writes the record as the members of an object, from which it can be
    /// read back.
    pub fn encode(&self) -> (members: Vec<(String, Json)>)
        ensures
            members_view(members@) == self@.encoded(),
            ListItemProps::decoded(members_view(members@)) == Ok::<
                ListItemProps,
                DecodeErrorView,
            >(self@),
    {
        no_members()
    }

    /// Reads the record from the members of an object.
    pub fn decode(members: &Vec<(String, Json)>) -> (r: Result<ListItemProps, DecodeError>)
        ensures
            result_view(r) == ListItemProps::decoded(members_view(members@)),
    {
        Ok(ListItemProps)
    }
}

/// The slots of a list item.
#[derive(Debug, PartialEq, Eq)]
pub struct ListItemSlots {
    /// The text of the item.
    pub default: Vec<InlineComponent>,
}

/// The mathematical model of a [`ListItemSlots`].
pub struct ListItemSlotsView {
    /// The text of the item.
    pub default: Seq<InlineComponentView>,
}

impl View for ListItemSlots {
    type V = ListItemSlotsView;

    open spec fn view(&self) -> ListItemSlotsView {
        ListItemSlotsView { default: inlines_view(self.default@) }
    }
}

impl Clone for ListItemSlots {
    fn clone(&self) -> (record: ListItemSlots)
        ensures
            record@ == self@,
    {
        ListItemSlots { default: clone_inlines(&self.default) }
    }
}

impl Default for ListItemSlots {
    fn default() -> (record: ListItemSlots)
        ensures
            record@ == ListItemSlotsView::initial(),
    {
        let record = ListItemSlots { default: Vec::new() };
        assert(record@.default =~= Seq::empty());
        record
    }
}

impl ListItemSlotsView {
    /// The record with every field at its default.
    pub open spec fn initial() -> ListItemSlotsView {
        ListItemSlotsView { default: Seq::empty() }
    }

    /// The members that the record is written as.
    pub open spec fn encoded(self) -> Members {
        field("default"@, inlines_value(self.default))
    }

    /// The record that a member list is read as.
    pub open spec fn decoded(members: Members) -> Result<ListItemSlotsView, DecodeErrorView> {
        let default = inlines_at(members, "default"@);
        if default is Err {
            Err(default->Err_0)
        } else {
            Ok(ListItemSlotsView { default: default->Ok_0 })
        }
    }

    /// Each field is found under its own key, as what stands for it;
    /// at least one member is always written.
    pub proof fn lemma_encoded(self)
        ensures
            lookup(self.encoded(), "default"@) == inlines_value(self.default),
            self.encoded().len() > 0,
    {
        broadcast use group_field_lookups;

    }

    /// Reading back the members that the record was written as gives the
    /// record.
    pub proof fn lemma_round_trip(self)
        ensures
            Self::decoded(self.encoded()) == Ok::<Self, DecodeErrorView>(self),
    {
        self.lemma_encoded();
        lemma_inlines_round_trip(self.default);
    }
}

impl ListItemSlots {
    /// Writes the record as the members of an object, from which it can be
    /// read back.
    pub fn encode(&self) -> (members: Vec<(String, Json)>)
        ensures
            members_view(members@) == self@.encoded(),
            ListItemSlotsView::decoded(members_view(members@)) == Ok::<
                ListItemSlotsView,
                DecodeErrorView,
            >(self@),
    {
        broadcast use lemma_empty_then;

        let mut members = no_members();
        put_inlines(&mut members, "default", &self.default);
        proof {
            self@.lemma_round_trip();
        }
        members
    }

    /// Reads the record from the members of an object.
    pub fn decode(members: &Vec<(String, Json)>) -> (r: Result<ListItemSlots, DecodeError>)
        ensures
            result_view(r) == ListItemSlotsView::decoded(members_view(members@)),
    {
        let default = read_inlines(members, "default")?;
        Ok(ListItemSlots { default })
    }
}

/// One item of a list.
#[derive(Debug, PartialEq, Eq)]
pub struct ListItem {
    /// The attributes.
    pub props: ListItemProps,
    /// The children, by slot.
    pub slots: ListItemSlots,
}

/// The mathematical model of a [`ListItem`].
pub struct ListItemView {
    /// The attributes.
    pub props: ListItemProps,
    /// The children, by slot.
    pub slots: ListItemSlotsView,
}

impl View for ListItem {
    type V = ListItemView;

    open spec fn view(&self) -> ListItemView {
        ListItemView { props: self.props@, slots: self.slots@ }
    }
}

impl Clone for ListItem {
    fn clone(&self) -> (kind: ListItem)
        ensures
            kind@ == self@,
    {
        ListItem { props: self.props.clone(), slots: self.slots.clone() }
    }
}

impl Default for ListItem {
    fn default() -> (kind: ListItem)
        ensures
            kind@ == ListItemView::initial(),
    {
        ListItem { props: ListItemProps::default(), slots: ListItemSlots::default() }
    }
}

impl ListItemView {
    /// The list item with every attribute at its default and no children.
    pub open spec fn initial() -> ListItemView {
        Self { props: ListItemProps::initial(), slots: ListItemSlotsView::initial() }
    }

    /// The object that the list item is written as, without a `type` member.
    pub open spec fn encoded(self) -> JsonView {
        kind_object(false, self.props.encoded(), self.slots.encoded())
    }

    /// The list item that a value is read as. The shape of the object is checked
    /// first, then the attributes are read, then the slots; the first failure
    /// is the result.
    pub open spec fn decoded(json: JsonView) -> Result<ListItemView, DecodeErrorView> {
        match kind_parts(json, false, false, true) {
            Err(e) => Err(e),
            Ok(parts) => {
                let props = ListItemProps::decoded(parts.0);
                let slots = ListItemSlotsView::decoded(parts.1);
                if props is Err {
                    Err(props->Err_0)
                } else if slots is Err {
                    Err(slots->Err_0)
                } else {
                    Ok(ListItemView { props: props->Ok_0, slots: slots->Ok_0 })
                }
            },
        }
    }

    /// Reading back the object that the list item was written as gives the
    /// list item.
    pub proof fn lemma_round_trip(self)
        ensures
            Self::decoded(self.encoded()) == Ok::<Self, DecodeErrorView>(self),
    {
        self.props.lemma_round_trip();
        self.slots.lemma_round_trip();
        self.slots.lemma_encoded();
        lemma_kind_parts_of_object(false, self.props.encoded(), self.slots.encoded(), false, true);
    }

    /// The object has no `props` member.
    pub proof fn lemma_defaults_left_out(self)
        ensures
            self.encoded() matches JsonView::Object(members) && lookup(members, "props"@) is None,
    {
        lemma_kind_object_records(false, self.props.encoded(), self.slots.encoded());
    }

    /// A `type` member in front of the members of a value does not change
    /// what the value is read as.
    pub proof fn lemma_decoded_tagged(tag: Seq<char>, json: JsonView)
        ensures
            ListItemView::decoded(tagged(tag, json)) == ListItemView::decoded(json),
    {
        lemma_kind_parts_of_tagged(tag, json, false, false, true);
    }
}

impl ListItem {
    /// Writes the list item as an object, without a `type` member, from which it
    /// can be read back.
    pub fn encode(&self) -> (json: Json)
        ensures
            json@ == self@.encoded(),
            ListItemView::decoded(json@) == Ok::<ListItemView, DecodeErrorView>(self@),
    {
        proof {
            self@.lemma_round_trip();
        }
        build(false, self.props.encode(), self.slots.encode())
    }

    /// Reads the list item from an object; a `type` member, if there is one, is
    /// not looked at.
    pub fn decode(json: &Json) -> (r: Result<ListItem, DecodeError>)
        ensures
            result_view(r) == ListItemView::decoded(json@),
    {
        let parts = split(json, false, false, true)?;
        let none = no_members();
        let props = ListItemProps::decode(or_none(parts.0, &none))?;
        let slots = ListItemSlots::decode(or_none(parts.1, &none))?;
        Ok(ListItem { props, slots })
    }
}

/// The attributes of a divider: it has none.
#[derive(Debug, PartialEq, Eq)]
pub struct DividerProps;

impl View for DividerProps {
    type V = DividerProps;

    open spec fn view(&self) -> DividerProps {
        *self
    }
}

impl Clone for DividerProps {
    fn clone(&self) -> (record: DividerProps)
        ensures
            record@ == self@,
    {
        DividerProps
    }
}

impl Default for DividerProps {
    fn default() -> (record: DividerProps)
        ensures
            record@ == DividerProps::initial(),
    {
        DividerProps
    }
}

impl DividerProps {
    /// The record with every field at its default.
    pub open spec fn initial() -> DividerProps {
        DividerProps
    }

    /// The members that the record is written as.
    pub open spec fn encoded(self) -> Members {
        Seq::empty()
    }

    /// The record that a member list is read as: whatever the list holds,
    /// the record takes nothing from it.
    pub open spec fn decoded(members: Members) -> Result<DividerProps, DecodeErrorView> {
        Ok(DividerProps)
    }

    /// Reading back the members that the record was written as gives the
    /// record.
    pub proof fn lemma_round_trip(self)
        ensures
            Self::decoded(self.encoded()) == Ok::<Self, DecodeErrorView>(self),
    {
    }
}

impl DividerProps {
    /// Writes the record as the members of an object, from which it can be
    /// read back.
    pub fn encode(&self) -> (members: Vec<(String, Json)>)
        ensures
            members_view(members@) == self@.encoded(),
            DividerProps::decoded(members_view(members@)) == Ok::<
                DividerProps,
                DecodeErrorView,
            >(self@),
    {
        no_members()
    }

    /// Reads the record from the members of an object.
    pub fn decode(members: &Vec<(String, Json)>) -> (r: Result<DividerProps, DecodeError>)
        ensures
            result_view(r) == DividerProps::decoded(members_view(members@)),
    {
        Ok(DividerProps)
    }
}

/// The slots of a divider: it has no children.
#[derive(Debug, PartialEq, Eq)]
pub struct DividerSlots;

impl View for DividerSlots {
    type V = DividerSlots;

    open spec fn view(&self) -> DividerSlots {
        *self
    }
}

impl Clone for DividerSlots {
    fn clone(&self) -> (record: DividerSlots)
        ensures
            record@ == self@,
    {
        DividerSlots
    }
}

impl Default for DividerSlots {
    fn default() -> (record: DividerSlots)
        ensures
            record@ == DividerSlots::initial(),
    {
        DividerSlots
    }
}

impl DividerSlots {
    /// The record with every field at its default.
    pub open spec fn initial() -> DividerSlots {
        DividerSlots
    }

    /// The members that the record is written as.
    pub open spec fn encoded(self) -> Members {
        Seq::empty()
    }

    /// The record that a member list is read as: whatever the list holds,
    /// the record takes nothing from it.
    pub open spec fn decoded(members: Members) -> Result<DividerSlots, DecodeErrorView> {
        Ok(DividerSlots)
    }

    /// Reading back the members that the record was written as gives the
    /// record.
    pub proof fn lemma_round_trip(self)
        ensures
            Self::decoded(self.encoded()) == Ok::<Self, DecodeErrorView>(self),
    {
    }
}

impl DividerSlots {
    /// Writes the record as the members of an object, from which it can be
    /// read back.
    pub fn encode(&self) -> (members: Vec<(String, Json)>)
        ensures
            members_view(members@) == self@.encoded(),
            DividerSlots::decoded(members_view(members@)) == Ok::<
                DividerSlots,
                DecodeErrorView,
            >(self@),
    {
        no_members()
    }

    /// Reads the record from the members of an object.
    pub fn decode(members: &Vec<(String, Json)>) -> (r: Result<DividerSlots, DecodeError>)
        ensures
            result_view(r) == DividerSlots::decoded(members_view(members@)),
    {
        Ok(DividerSlots)
    }
}

/// A rule between two parts of a document.
#[derive(Debug, PartialEq, Eq)]
pub struct Divider {
    /// The attributes.
    pub props: DividerProps,
    /// The children, by slot.
    pub slots: DividerSlots,
}

impl View for Divider {
    type V = Divider;

    open spec fn view(&self) -> Divider {
        *self
    }
}

impl Clone for Divider {
    fn clone(&self) -> (kind: Divider)
        ensures
            kind@ == self@,
    {
        Divider { props: self.props.clone(), slots: self.slots.clone() }
    }
}

impl Default for Divider {
    fn default() -> (kind: Divider)
        ensures
            kind@ == Divider::initial(),
    {
        Divider { props: DividerProps::default(), slots: DividerSlots::default() }
    }
}

impl Divider {
    /// The divider with every attribute at its default and no children.
    pub open spec fn initial() -> Divider {
        Self { props: DividerProps::initial(), slots: DividerSlots::initial() }
    }

    /// The object that the divider is written as, without a `type` member.
    pub open spec fn encoded(self) -> JsonView {
        kind_object(false, self.props.encoded(), self.slots.encoded())
    }

    /// The divider that a value is read as. The shape of the object is checked
    /// first, then the attributes are read, then the slots; the first failure
    /// is the result.
    pub open spec fn decoded(json: JsonView) -> Result<Divider, DecodeErrorView> {
        match kind_parts(json, false, false, false) {
            Err(e) => Err(e),
            Ok(parts) => {
                let props = DividerProps::decoded(parts.0);
                let slots = DividerSlots::decoded(parts.1);
                if props is Err {
                    Err(props->Err_0)
                } else if slots is Err {
                    Err(slots->Err_0)
                } else {
                    Ok(Divider { props: props->Ok_0, slots: slots->Ok_0 })
                }
            },
        }
    }

    /// Reading back the object that the divider was written as gives the
    /// divider.
    pub proof fn lemma_round_trip(self)
        ensures
            Self::decoded(self.encoded()) == Ok::<Self, DecodeErrorView>(self),
    {
        self.props.lemma_round_trip();
        self.slots.lemma_round_trip();
        lemma_kind_parts_of_object(false, self.props.encoded(), self.slots.encoded(), false, false);
    }

    /// The object has no `props` member, and it has no `slots` member.
    pub proof fn lemma_defaults_left_out(self)
        ensures
            self.encoded() matches JsonView::Object(members) && {
                &&& lookup(members, "props"@) is None
                &&& lookup(members, "slots"@) is None
            },
    {
        lemma_kind_object_records(false, self.props.encoded(), self.slots.encoded());
    }

    /// A `type` member in front of the members of a value does not change
    /// what the value is read as.
    pub proof fn lemma_decoded_tagged(tag: Seq<char>, json: JsonView)
        ensures
            Divider::decoded(tagged(tag, json)) == Divider::decoded(json),
    {
        lemma_kind_parts_of_tagged(tag, json, false, false, false);
    }
}

impl Divider {
    /// Writes the divider as an object, without a `type` member, from which it
    /// can be read back.
    pub fn encode(&self) -> (json: Json)
        ensures
            json@ == self@.encoded(),
            Divider::decoded(json@) == Ok::<Divider, DecodeErrorView>(self@),
    {
        proof {
            self@.lemma_round_trip();
        }
        build(false, self.props.encode(), self.slots.encode())
    }

    /// Reads the divider from an object; a `type` member, if there is one, is
    /// not looked at.
    pub fn decode(json: &Json) -> (r: Result<Divider, DecodeError>)
        ensures
            result_view(r) == Divider::decoded(json@),
    {
        let parts = split(json, false, false, false)?;
        let none = no_members();
        let props = DividerProps::decode(or_none(parts.0, &none))?;
        let slots = DividerSlots::decode(or_none(parts.1, &none))?;
        Ok(Divider { props, slots })
    }
}

/// The attributes of a bookmark.
#[derive(Debug, PartialEq, Eq)]
pub struct BookmarkProps {
    /// The address of the page.
    pub url: String,
    /// The title of the page.
    pub title: Option<String>,
    /// A description of the page.
    pub description: Option<String>,
    /// A picture that stands for the page.
    pub image: Option<String>,
}

/// The mathematical model of a [`BookmarkProps`].
pub struct BookmarkPropsView {
    /// The address of the page.
    pub url: Seq<char>,
    /// The title of the page.
    pub title: Option<Seq<char>>,
    /// A description of the page.
    pub description: Option<Seq<char>>,
    /// A picture that stands for the page.
    pub image: Option<Seq<char>>,
}

impl View for BookmarkProps {
    type V = BookmarkPropsView;

    open spec fn view(&self) -> BookmarkPropsView {
        BookmarkPropsView {
            url: self.url@,
            title: opt_view(self.title),
            description: opt_view(self.description),
            image: opt_view(self.image),
        }
    }
}

impl Clone for BookmarkProps {
    fn clone(&self) -> (record: BookmarkProps)
        ensures
            record@ == self@,
    {
        BookmarkProps {
            url: self.url.clone(),
            title: clone_opt_str(&self.title),
            description: clone_opt_str(&self.description),
            image: clone_opt_str(&self.image),
        }
    }
}

impl Default for BookmarkProps {
    fn default() -> (record: BookmarkProps)
        ensures
            record@ == BookmarkPropsView::initial(),
    {
        BookmarkProps {
            url: String::new(),
            title: None,
            description: None,
            image: None,
        }
    }
}

impl BookmarkPropsView {
    /// The record with every field at its default.
    pub open spec fn initial() -> BookmarkPropsView {
        BookmarkPropsView {
            url: Seq::empty(),
            title: None,
            description: None,
            image: None,
        }
    }

    /// The members that the record is written as.
    pub open spec fn encoded(self) -> Members {
        field("url"@, str_value(self.url))
            + field("title"@, opt_str_value(self.title))
            + field("description"@, opt_str_value(self.description))
            + field("image"@, opt_str_value(self.image))
    }

    /// The record that a member list is read as. Where more than one field
    /// fails, the failure of the field that is declared first is the result.
    pub open spec fn decoded(members: Members) -> Result<BookmarkPropsView, DecodeErrorView> {
        let url = required_str(members, "url"@);
        let title = optional_str(members, "title"@);
        let description = optional_str(members, "description"@);
        let image = optional_str(members, "image"@);
        if url is Err {
            Err(url->Err_0)
        } else if title is Err {
            Err(title->Err_0)
        } else if description is Err {
            Err(description->Err_0)
        } else if image is Err {
            Err(image->Err_0)
        } else {
            Ok(
                BookmarkPropsView {
                    url: url->Ok_0,
                    title: title->Ok_0,
                    description: description->Ok_0,
                    image: image->Ok_0,
                },
            )
        }
    }

    /// Each field is found under its own key, as what stands for it;
    /// at least one member is always written.
    pub proof fn lemma_encoded(self)
        ensures
            lookup(self.encoded(), "url"@) == str_value(self.url),
            lookup(self.encoded(), "title"@) == opt_str_value(self.title),
            lookup(self.encoded(), "description"@) == opt_str_value(self.description),
            lookup(self.encoded(), "image"@) == opt_str_value(self.image),
            self.encoded().len() > 0,
    {
        broadcast use group_field_lookups;

        reveal_strlit("url");
        reveal_strlit("title");
        reveal_strlit("description");
        reveal_strlit("image");
        assert("url"@.len() == 3);
        assert("title"@.len() == 5);
        assert("description"@.len() == 11);
        assert("image"@.len() == 5);
        assert("title"@[0] == 't');
        assert("image"@[0] == 'i');
    }

    /// Reading back the members that the record was written as gives the
    /// record.
    pub proof fn lemma_round_trip(self)
        ensures
            Self::decoded(self.encoded()) == Ok::<Self, DecodeErrorView>(self),
    {
        self.lemma_encoded();
    }
}

impl BookmarkProps {
    /// Writes the record as the members of an object, from which it can be
    /// read back.
    pub fn encode(&self) -> (members: Vec<(String, Json)>)
        ensures
            members_view(members@) == self@.encoded(),
            BookmarkPropsView::decoded(members_view(members@)) == Ok::<
                BookmarkPropsView,
                DecodeErrorView,
            >(self@),
    {
        broadcast use lemma_empty_then;

        let mut members = no_members();
        put_str(&mut members, "url", &self.url);
        put_opt_str(&mut members, "title", &self.title);
        put_opt_str(&mut members, "description", &self.description);
        put_opt_str(&mut members, "image", &self.image);
        proof {
            self@.lemma_round_trip();
        }
        members
    }

    /// Reads the record from the members of an object.
    pub fn decode(members: &Vec<(String, Json)>) -> (r: Result<BookmarkProps, DecodeError>)
        ensures
            result_view(r) == BookmarkPropsView::decoded(members_view(members@)),
    {
        let url = read_str(members, "url")?;
        let title = read_opt_str(members, "title")?;
        let description = read_opt_str(members, "description")?;
        let image = read_opt_str(members, "image")?;
        Ok(BookmarkProps {
            url,
            title,
            description,
            image,
        })
    }
}

/// The slots of a bookmark: it has no children.
#[derive(Debug, PartialEq, Eq)]
pub struct BookmarkSlots;

impl View for BookmarkSlots {
    type V = BookmarkSlots;

    open spec fn view(&self) -> BookmarkSlots {
        *self
    }
}

impl Clone for BookmarkSlots {
    fn clone(&self) -> (record: BookmarkSlots)
        ensures
            record@ == self@,
    {
        BookmarkSlots
    }
}

impl Default for BookmarkSlots {
    fn default() -> (record: BookmarkSlots)
        ensures
            record@ == BookmarkSlots::initial(),
    {
        BookmarkSlots
    }
}

impl BookmarkSlots {
    /// The record with every field at its default.
    pub open spec fn initial() -> BookmarkSlots {
        BookmarkSlots
    }

    /// The members that the record is written as.
    pub open spec fn encoded(self) -> Members {
        Seq::empty()
    }

    /// The record that a member list is read as: whatever the list holds,
    /// the record takes nothing from it.
    pub open spec fn decoded(members: Members) -> Result<BookmarkSlots, DecodeErrorView> {
        Ok(BookmarkSlots)
    }

    /// Reading back the members that the record was written as gives the
    /// record.
    pub proof fn lemma_round_trip(self)
        ensures
            Self::decoded(self.encoded()) == Ok::<Self, DecodeErrorView>(self),
    {
    }
}

impl BookmarkSlots {
    /// Writes the record as the members of an object, from which it can be
    /// read back.
    pub fn encode(&self) -> (members: Vec<(String, Json)>)
        ensures
            members_view(members@) == self@.encoded(),
            BookmarkSlots::decoded(members_view(members@)) == Ok::<
                BookmarkSlots,
                DecodeErrorView,
            >(self@),
    {
        no_members()
    }

    /// Reads the record from the members of an object.
    pub fn decode(members: &Vec<(String, Json)>) -> (r: Result<BookmarkSlots, DecodeError>)
        ensures
            result_view(r) == BookmarkSlots::decoded(members_view(members@)),
    {
        Ok(BookmarkSlots)
    }
}

/// A link to a page, shown as a card.
#[derive(Debug, PartialEq, Eq)]
pub struct Bookmark {
    /// The attributes.
    pub props: BookmarkProps,
    /// The children, by slot.
    pub slots: BookmarkSlots,
}

/// The mathematical model of a [`Bookmark`].
pub struct BookmarkView {
    /// The attributes.
    pub props: BookmarkPropsView,
    /// The children, by slot.
    pub slots: BookmarkSlots,
}

impl View for Bookmark {
    type V = BookmarkView;

    open spec fn view(&self) -> BookmarkView {
        BookmarkView { props: self.props@, slots: self.slots@ }
    }
}

impl Clone for Bookmark {
    fn clone(&self) -> (kind: Bookmark)
        ensures
            kind@ == self@,
    {
        Bookmark { props: self.props.clone(), slots: self.slots.clone() }
    }
}

impl Default for Bookmark {
    fn default() -> (kind: Bookmark)
        ensures
            kind@ == BookmarkView::initial(),
    {
        Bookmark { props: BookmarkProps::default(), slots: BookmarkSlots::default() }
    }
}

impl BookmarkView {
    /// The bookmark with every attribute at its default and no children.
    pub open spec fn initial() -> BookmarkView {
        Self { props: BookmarkPropsView::initial(), slots: BookmarkSlots::initial() }
    }

    /// The object that the bookmark is written as, without a `type` member.
    pub open spec fn encoded(self) -> JsonView {
        kind_object(false, self.props.encoded(), self.slots.encoded())
    }

    /// The bookmark that a value is read as. The shape of the object is checked
    /// first, then the attributes are read, then the slots; the first failure
    /// is the result.
    pub open spec fn decoded(json: JsonView) -> Result<BookmarkView, DecodeErrorView> {
        match kind_parts(json, false, true, false) {
            Err(e) => Err(e),
            Ok(parts) => {
                let props = BookmarkPropsView::decoded(parts.0);
                let slots = BookmarkSlots::decoded(parts.1);
                if props is Err {
                    Err(props->Err_0)
                } else if slots is Err {
                    Err(slots->Err_0)
                } else {
                    Ok(BookmarkView { props: props->Ok_0, slots: slots->Ok_0 })
                }
            },
        }
    }

    /// Reading back the object that the bookmark was written as gives the
    /// bookmark.
    pub proof fn lemma_round_trip(self)
        ensures
            Self::decoded(self.encoded()) == Ok::<Self, DecodeErrorView>(self),
    {
        self.props.lemma_round_trip();
        self.slots.lemma_round_trip();
        self.props.lemma_encoded();
        lemma_kind_parts_of_object(false, self.props.encoded(), self.slots.encoded(), true, false);
    }

    /// The object has no `slots` member.
    pub proof fn lemma_defaults_left_out(self)
        ensures
            self.encoded() matches JsonView::Object(members) && lookup(members, "slots"@) is None,
    {
        lemma_kind_object_records(false, self.props.encoded(), self.slots.encoded());
    }

    /// A `type` member in front of the members of a value does not change
    /// what the value is read as.
    pub proof fn lemma_decoded_tagged(tag: Seq<char>, json: JsonView)
        ensures
            BookmarkView::decoded(tagged(tag, json)) == BookmarkView::decoded(json),
    {
        lemma_kind_parts_of_tagged(tag, json, false, true, false);
    }
}

impl Bookmark {
    /// Writes the bookmark as an object, without a `type` member, from which it
    /// can be read back.
    pub fn encode(&self) -> (json: Json)
        ensures
            json@ == self@.encoded(),
            BookmarkView::decoded(json@) == Ok::<BookmarkView, DecodeErrorView>(self@),
    {
        proof {
            self@.lemma_round_trip();
        }
        build(false, self.props.encode(), self.slots.encode())
    }

    /// Reads the bookmark from an object; a `type` member, if there is one, is
    /// not looked at.
    pub fn decode(json: &Json) -> (r: Result<Bookmark, DecodeError>)
        ensures
            result_view(r) == BookmarkView::decoded(json@),
    {
        let parts = split(json, false, true, false)?;
        let none = no_members();
        let props = BookmarkProps::decode(or_none(parts.0, &none))?;
        let slots = BookmarkSlots::decode(or_none(parts.1, &none))?;
        Ok(Bookmark { props, slots })
    }
}

/// The attributes of a file.
#[derive(Debug, PartialEq, Eq)]
pub struct FileProps {
    /// Where the file is.
    pub src: String,
    /// The name of the file.
    pub name: Option<String>,
}

/// The mathematical model of a [`FileProps`].
pub struct FilePropsView {
    /// Where the file is.
    pub src: Seq<char>,
    /// The name of the file.
    pub name: Option<Seq<char>>,
}

impl View for FileProps {
    type V = FilePropsView;

    open spec fn view(&self) -> FilePropsView {
        FilePropsView {
            src: self.src@,
            name: opt_view(self.name),
        }
    }
}

impl Clone for FileProps {
    fn clone(&self) -> (record: FileProps)
        ensures
            record@ == self@,
    {
        FileProps {
            src: self.src.clone(),
            name: clone_opt_str(&self.name),
        }
    }
}

impl Default for FileProps {
    fn default() -> (record: FileProps)
        ensures
            record@ == FilePropsView::initial(),
    {
        FileProps {
            src: String::new(),
            name: None,
        }
    }
}

impl FilePropsView {
    /// The record with every field at its default.
    pub open spec fn initial() -> FilePropsView {
        FilePropsView {
            src: Seq::empty(),
            name: None,
        }
    }

    /// The members that the record is written as.
    pub open spec fn encoded(self) -> Members {
        field("src"@, str_value(self.src))
            + field("name"@, opt_str_value(self.name))
    }

    /// The record that a member list is read as. Where more than one field
    /// fails, the failure of the field that is declared first is the result.
    pub open spec fn decoded(members: Members) -> Result<FilePropsView, DecodeErrorView> {
        let src = required_str(members, "src"@);
        let name = optional_str(members, "name"@);
        if src is Err {
            Err(src->Err_0)
        } else if name is Err {
            Err(name->Err_0)
        } else {
            Ok(
                FilePropsView {
                    src: src->Ok_0,
                    name: name->Ok_0,
                },
            )
        }
    }

    /// Each field is found under its own key, as what stands for it;
    /// at least one member is always written.
    pub proof fn lemma_encoded(self)
        ensures
            lookup(self.encoded(), "src"@) == str_value(self.src),
            lookup(self.encoded(), "name"@) == opt_str_value(self.name),
            self.encoded().len() > 0,
    {
        broadcast use group_field_lookups;

        reveal_strlit("src");
        reveal_strlit("name");
        assert("src"@.len() == 3);
        assert("name"@.len() == 4);
    }

    /// Reading back the members that the record was written as gives the
    /// record.
    pub proof fn lemma_round_trip(self)
        ensures
            Self::decoded(self.encoded()) == Ok::<Self, DecodeErrorView>(self),
    {
        self.lemma_encoded();
    }
}

impl FileProps {
    /// Writes the record as the members of an object, from which it can be
    /// read back.
    pub fn encode(&self) -> (members: Vec<(String, Json)>)
        ensures
            members_view(members@) == self@.encoded(),
            FilePropsView::decoded(members_view(members@)) == Ok::<
                FilePropsView,
                DecodeErrorView,
            >(self@),
    {
        broadcast use lemma_empty_then;

        let mut members = no_members();
        put_str(&mut members, "src", &self.src);
        put_opt_str(&mut members, "name", &self.name);
        proof {
            self@.lemma_round_trip();
        }
        members
    }

    /// Reads the record from the members of an object.
    pub fn decode(members: &Vec<(String, Json)>) -> (r: Result<FileProps, DecodeError>)
        ensures
            result_view(r) == FilePropsView::decoded(members_view(members@)),
    {
        let src = read_str(members, "src")?;
        let name = read_opt_str(members, "name")?;
        Ok(FileProps {
            src,
            name,
        })
    }
}

/// The slots of a file: it has no children.
#[derive(Debug, PartialEq, Eq)]
pub struct FileSlots;

impl View for FileSlots {
    type V = FileSlots;

    open spec fn view(&self) -> FileSlots {
        *self
    }
}

impl Clone for FileSlots {
    fn clone(&self) -> (record: FileSlots)
        ensures
            record@ == self@,
    {
        FileSlots
    }
}

impl Default for FileSlots {
    fn default() -> (record: FileSlots)
        ensures
            record@ == FileSlots::initial(),
    {
        FileSlots
    }
}

impl FileSlots {
    /// The record with every field at its default.
    pub open spec fn initial() -> FileSlots {
        FileSlots
    }

    /// The members that the record is written as.
    pub open spec fn encoded(self) -> Members {
        Seq::empty()
    }

    /// The record that a member list is read as: whatever the list holds,
    /// the record takes nothing from it.
    pub open spec fn decoded(members: Members) -> Result<FileSlots, DecodeErrorView> {
        Ok(FileSlots)
    }

    /// Reading back the members that the record was written as gives the
    /// record.
    pub proof fn lemma_round_trip(self)
        ensures
            Self::decoded(self.encoded()) == Ok::<Self, DecodeErrorView>(self),
    {
    }
}

impl FileSlots {
    /// Writes the record as the members of an object, from which it can be
    /// read back.
    pub fn encode(&self) -> (members: Vec<(String, Json)>)
        ensures
            members_view(members@) == self@.encoded(),
            FileSlots::decoded(members_view(members@)) == Ok::<FileSlots, DecodeErrorView>(self@),
    {
        no_members()
    }

    /// Reads the record from the members of an object.
    pub fn decode(members: &Vec<(String, Json)>) -> (r: Result<FileSlots, DecodeError>)
        ensures
            result_view(r) == FileSlots::decoded(members_view(members@)),
    {
        Ok(FileSlots)
    }
}

/// An attached file.
#[derive(Debug, PartialEq, Eq)]
pub struct File {
    /// The attributes.
    pub props: FileProps,
    /// The children, by slot.
    pub slots: FileSlots,
}

/// The mathematical model of a [`File`].
pub struct FileView {
    /// The attributes.
    pub props: FilePropsView,
    /// The children, by slot.
    pub slots: FileSlots,
}

impl View for File {
    type V = FileView;

    open spec fn view(&self) -> FileView {
        FileView { props: self.props@, slots: self.slots@ }
    }
}

impl Clone for File {
    fn clone(&self) -> (kind: File)
        ensures
            kind@ == self@,
    {
        File { props: self.props.clone(), slots: self.slots.clone() }
    }
}

impl Default for File {
    fn default() -> (kind: File)
        ensures
            kind@ == FileView::initial(),
    {
        File { props: FileProps::default(), slots: FileSlots::default() }
    }
}

impl FileView {
    /// The file with every attribute at its default and no children.
    pub open spec fn initial() -> FileView {
        Self { props: FilePropsView::initial(), slots: FileSlots::initial() }
    }

    /// The object that the file is written as, without a `type` member.
    pub open spec fn encoded(self) -> JsonView {
        kind_object(false, self.props.encoded(), self.slots.encoded())
    }

    /// The file that a value is read as. The shape of the object is checked
    /// first, then the attributes are read, then the slots; the first failure
    /// is the result.
    pub open spec fn decoded(json: JsonView) -> Result<FileView, DecodeErrorView> {
        match kind_parts(json, false, true, false) {
            Err(e) => Err(e),
            Ok(parts) => {
                let props = FilePropsView::decoded(parts.0);
                let slots = FileSlots::decoded(parts.1);
                if props is Err {
                    Err(props->Err_0)
                } else if slots is Err {
                    Err(slots->Err_0)
                } else {
                    Ok(FileView { props: props->Ok_0, slots: slots->Ok_0 })
                }
            },
        }
    }

    /// Reading back the object that the file was written as gives the
    /// file.
    pub proof fn lemma_round_trip(self)
        ensures
            Self::decoded(self.encoded()) == Ok::<Self, DecodeErrorView>(self),
    {
        self.props.lemma_round_trip();
        self.slots.lemma_round_trip();
        self.props.lemma_encoded();
        lemma_kind_parts_of_object(false, self.props.encoded(), self.slots.encoded(), true, false);
    }

    /// The object has no `slots` member.
    pub proof fn lemma_defaults_left_out(self)
        ensures
            self.encoded() matches JsonView::Object(members) && lookup(members, "slots"@) is None,
    {
        lemma_kind_object_records(false, self.props.encoded(), self.slots.encoded());
    }

    /// A `type` member in front of the members of a value does not change
    /// what the value is read as.
    pub proof fn lemma_decoded_tagged(tag: Seq<char>, json: JsonView)
        ensures
            FileView::decoded(tagged(tag, json)) == FileView::decoded(json),
    {
        lemma_kind_parts_of_tagged(tag, json, false, true, false);
    }
}

impl File {
    /// Writes the file as an object, without a `type` member, from which it
    /// can be read back.
    pub fn encode(&self) -> (json: Json)
        ensures
            json@ == self@.encoded(),
            FileView::decoded(json@) == Ok::<FileView, DecodeErrorView>(self@),
    {
        proof {
            self@.lemma_round_trip();
        }
        build(false, self.props.encode(), self.slots.encode())
    }

    /// Reads the file from an object; a `type` member, if there is one, is
    /// not looked at.
    pub fn decode(json: &Json) -> (r: Result<File, DecodeError>)
        ensures
            result_view(r) == FileView::decoded(json@),
    {
        let parts = split(json, false, true, false)?;
        let none = no_members();
        let props = FileProps::decode(or_none(parts.0, &none))?;
        let slots = FileSlots::decode(or_none(parts.1, &none))?;
        Ok(File { props, slots })
    }
}

/// The attributes of an image.
#[derive(Debug, PartialEq, Eq)]
pub struct ImageProps {
    /// Where the picture is.
    pub src: String,
    /// The text that stands in for the picture.
    pub alt: Option<String>,
}

/// The mathematical model of an [`ImageProps`].
pub struct ImagePropsView {
    /// Where the picture is.
    pub src: Seq<char>,
    /// The text that stands in for the picture.
    pub alt: Option<Seq<char>>,
}

impl View for ImageProps {
    type V = ImagePropsView;

    open spec fn view(&self) -> ImagePropsView {
        ImagePropsView {
            src: self.src@,
            alt: opt_view(self.alt),
        }
    }
}

impl Clone for ImageProps {
    fn clone(&self) -> (record: ImageProps)
        ensures
            record@ == self@,
    {
        ImageProps {
            src: self.src.clone(),
            alt: clone_opt_str(&self.alt),
        }
    }
}

impl Default for ImageProps {
    fn default() -> (record: ImageProps)
        ensures
            record@ == ImagePropsView::initial(),
    {
        ImageProps {
            src: String::new(),
            alt: None,
        }
    }
}

impl ImagePropsView {
    /// The record with every field at its default.
    pub open spec fn initial() -> ImagePropsView {
        ImagePropsView {
            src: Seq::empty(),
            alt: None,
        }
    }

    /// The members that the record is written as.
    pub open spec fn encoded(self) -> Members {
        field("src"@, str_value(self.src))
            + field("alt"@, opt_str_value(self.alt))
    }

    /// The record that a member list is read as. Where more than one field
    /// fails, the failure of the field that is declared first is the result.
    pub open spec fn decoded(members: Members) -> Result<ImagePropsView, DecodeErrorView> {
        let src = required_str(members, "src"@);
        let alt = optional_str(members, "alt"@);
        if src is Err {
            Err(src->Err_0)
        } else if alt is Err {
            Err(alt->Err_0)
        } else {
            Ok(
                ImagePropsView {
                    src: src->Ok_0,
                    alt: alt->Ok_0,
                },
            )
        }
    }

    /// Each field is found under its own key, as what stands for it;
    /// at least one member is always written.
    pub proof fn lemma_encoded(self)
        ensures
            lookup(self.encoded(), "src"@) == str_value(self.src),
            lookup(self.encoded(), "alt"@) == opt_str_value(self.alt),
            self.encoded().len() > 0,
    {
        broadcast use group_field_lookups;

        reveal_strlit("src");
        reveal_strlit("alt");
        assert("src"@.len() == 3);
        assert("alt"@.len() == 3);
        assert("src"@[0] == 's');
        assert("alt"@[0] == 'a');
    }

    /// Reading back the members that the record was written as gives the
    /// record.
    pub proof fn lemma_round_trip(self)
        ensures
            Self::decoded(self.encoded()) == Ok::<Self, DecodeErrorView>(self),
    {
        self.lemma_encoded();
    }
}

impl ImageProps {
    /// Writes the record as the members of an object, from which it can be
    /// read back.
    pub fn encode(&self) -> (members: Vec<(String, Json)>)
        ensures
            members_view(members@) == self@.encoded(),
            ImagePropsView::decoded(members_view(members@)) == Ok::<
                ImagePropsView,
                DecodeErrorView,
            >(self@),
    {
        broadcast use lemma_empty_then;

        let mut members = no_members();
        put_str(&mut members, "src", &self.src);
        put_opt_str(&mut members, "alt", &self.alt);
        proof {
            self@.lemma_round_trip();
        }
        members
    }

    /// Reads the record from the members of an object.
    pub fn decode(members: &Vec<(String, Json)>) -> (r: Result<ImageProps, DecodeError>)
        ensures
            result_view(r) == ImagePropsView::decoded(members_view(members@)),
    {
        let src = read_str(members, "src")?;
        let alt = read_opt_str(members, "alt")?;
        Ok(ImageProps {
            src,
            alt,
        })
    }
}

/// The slots of an image: it has no children.
#[derive(Debug, PartialEq, Eq)]
pub struct ImageSlots;

impl View for ImageSlots {
    type V = ImageSlots;

    open spec fn view(&self) -> ImageSlots {
        *self
    }
}

impl Clone for ImageSlots {
    fn clone(&self) -> (record: ImageSlots)
        ensures
            record@ == self@,
    {
        ImageSlots
    }
}

impl Default for ImageSlots {
    fn default() -> (record: ImageSlots)
        ensures
            record@ == ImageSlots::initial(),
    {
        ImageSlots
    }
}

impl ImageSlots {
    /// The record with every field at its default.
    pub open spec fn initial() -> ImageSlots {
        ImageSlots
    }

    /// The members that the record is written as.
    pub open spec fn encoded(self) -> Members {
        Seq::empty()
    }

    /// The record that a member list is read as: whatever the list holds,
    /// the record takes nothing from it.
    pub open spec fn decoded(members: Members) -> Result<ImageSlots, DecodeErrorView> {
        Ok(ImageSlots)
    }

    /// Reading back the members that the record was written as gives the
    /// record.
    pub proof fn lemma_round_trip(self)
        ensures
            Self::decoded(self.encoded()) == Ok::<Self, DecodeErrorView>(self),
    {
    }
}

impl ImageSlots {
    /// Writes the record as the members of an object, from which it can be
    /// read back.
    pub fn encode(&self) -> (members: Vec<(String, Json)>)
        ensures
            members_view(members@) == self@.encoded(),
            ImageSlots::decoded(members_view(members@)) == Ok::<ImageSlots, DecodeErrorView>(self@),
    {
        no_members()
    }

    /// Reads the record from the members of an object.
    pub fn decode(members: &Vec<(String, Json)>) -> (r: Result<ImageSlots, DecodeError>)
        ensures
            result_view(r) == ImageSlots::decoded(members_view(members@)),
    {
        Ok(ImageSlots)
    }
}

/// A picture.
#[derive(Debug, PartialEq, Eq)]
pub struct Image {
    /// The attributes.
    pub props: ImageProps,
    /// The children, by slot.
    pub slots: ImageSlots,
}

/// The mathematical model of an [`Image`].
pub struct ImageView {
    /// The attributes.
    pub props: ImagePropsView,
    /// The children, by slot.
    pub slots: ImageSlots,
}

impl View for Image {
    type V = ImageView;

    open spec fn view(&self) -> ImageView {
        ImageView { props: self.props@, slots: self.slots@ }
    }
}

impl Clone for Image {
    fn clone(&self) -> (kind: Image)
        ensures
            kind@ == self@,
    {
        Image { props: self.props.clone(), slots: self.slots.clone() }
    }
}

impl Default for Image {
    fn default() -> (kind: Image)
        ensures
            kind@ == ImageView::initial(),
    {
        Image { props: ImageProps::default(), slots: ImageSlots::default() }
    }
}

impl ImageView {
    /// The image with every attribute at its default and no children.
    pub open spec fn initial() -> ImageView {
        Self { props: ImagePropsView::initial(), slots: ImageSlots::initial() }
    }

    /// The object that the image is written as, without a `type` member.
    pub open spec fn encoded(self) -> JsonView {
        kind_object(false, self.props.encoded(), self.slots.encoded())
    }

    /// The image that a value is read as. The shape of the object is checked
    /// first, then the attributes are read, then the slots; the first failure
    /// is the result.
    pub open spec fn decoded(json: JsonView) -> Result<ImageView, DecodeErrorView> {
        match kind_parts(json, false, true, false) {
            Err(e) => Err(e),
            Ok(parts) => {
                let props = ImagePropsView::decoded(parts.0);
                let slots = ImageSlots::decoded(parts.1);
                if props is Err {
                    Err(props->Err_0)
                } else if slots is Err {
                    Err(slots->Err_0)
                } else {
                    Ok(ImageView { props: props->Ok_0, slots: slots->Ok_0 })
                }
            },
        }
    }

    /// Reading back the object that the image was written as gives the
    /// image.
    pub proof fn lemma_round_trip(self)
        ensures
            Self::decoded(self.encoded()) == Ok::<Self, DecodeErrorView>(self),
    {
        self.props.lemma_round_trip();
        self.slots.lemma_round_trip();
        self.props.lemma_encoded();
        lemma_kind_parts_of_object(false, self.props.encoded(), self.slots.encoded(), true, false);
    }

    /// The object has no `slots` member.
    pub proof fn lemma_defaults_left_out(self)
        ensures
            self.encoded() matches JsonView::Object(members) && lookup(members, "slots"@) is None,
    {
        lemma_kind_object_records(false, self.props.encoded(), self.slots.encoded());
    }

    /// A `type` member in front of the members of a value does not change
    /// what the value is read as.
    pub proof fn lemma_decoded_tagged(tag: Seq<char>, json: JsonView)
        ensures
            ImageView::decoded(tagged(tag, json)) == ImageView::decoded(json),
    {
        lemma_kind_parts_of_tagged(tag, json, false, true, false);
    }
}

impl Image {
    /// Writes the image as an object, without a `type` member, from which it
    /// can be read back.
    pub fn encode(&self) -> (json: Json)
        ensures
            json@ == self@.encoded(),
            ImageView::decoded(json@) == Ok::<ImageView, DecodeErrorView>(self@),
    {
        proof {
            self@.lemma_round_trip();
        }
        build(false, self.props.encode(), self.slots.encode())
    }

    /// Reads the image from an object; a `type` member, if there is one, is
    /// not looked at.
    pub fn decode(json: &Json) -> (r: Result<Image, DecodeError>)
        ensures
            result_view(r) == ImageView::decoded(json@),
    {
        let parts = split(json, false, true, false)?;
        let none = no_members();
        let props = ImageProps::decode(or_none(parts.0, &none))?;
        let slots = ImageSlots::decode(or_none(parts.1, &none))?;
        Ok(Image { props, slots })
    }
}

/// The attributes of a block of code.
#[derive(Debug, PartialEq, Eq)]
pub struct CodeBlockProps {
    /// The source text.
    pub code: String,
    /// The language of the source text.
    pub language: String,
}

/// The mathematical model of a [`CodeBlockProps`].
pub struct CodeBlockPropsView {
    /// The source text.
    pub code: Seq<char>,
    /// The language of the source text.
    pub language: Seq<char>,
}

impl View for CodeBlockProps {
    type V = CodeBlockPropsView;

    open spec fn view(&self) -> CodeBlockPropsView {
        CodeBlockPropsView {
            code: self.code@,
            language: self.language@,
        }
    }
}

impl Clone for CodeBlockProps {
    fn clone(&self) -> (record: CodeBlockProps)
        ensures
            record@ == self@,
    {
        CodeBlockProps {
            code: self.code.clone(),
            language: self.language.clone(),
        }
    }
}

impl Default for CodeBlockProps {
    fn default() -> (record: CodeBlockProps)
        ensures
            record@ == CodeBlockPropsView::initial(),
    {
        CodeBlockProps {
            code: String::new(),
            language: String::new(),
        }
    }
}

impl CodeBlockPropsView {
    /// The record with every field at its default.
    pub open spec fn initial() -> CodeBlockPropsView {
        CodeBlockPropsView {
            code: Seq::empty(),
            language: Seq::empty(),
        }
    }

    /// The members that the record is written as.
    pub open spec fn encoded(self) -> Members {
        field("code"@, str_value(self.code))
            + field("language"@, str_value(self.language))
    }

    /// The record that a member list is read as. Where more than one field
    /// fails, the failure of the field that is declared first is the result.
    pub open spec fn decoded(members: Members) -> Result<CodeBlockPropsView, DecodeErrorView> {
        let code = required_str(members, "code"@);
        let language = required_str(members, "language"@);
        if code is Err {
            Err(code->Err_0)
        } else if language is Err {
            Err(language->Err_0)
        } else {
            Ok(
                CodeBlockPropsView {
                    code: code->Ok_0,
                    language: language->Ok_0,
                },
            )
        }
    }

    /// Each field is found under its own key, as what stands for it;
    /// at least one member is always written.
    pub proof fn lemma_encoded(self)
        ensures
            lookup(self.encoded(), "code"@) == str_value(self.code),
            lookup(self.encoded(), "language"@) == str_value(self.language),
            self.encoded().len() > 0,
    {
        broadcast use group_field_lookups;

        reveal_strlit("code");
        reveal_strlit("language");
        assert("code"@.len() == 4);
        assert("language"@.len() == 8);
    }

    /// Reading back the members that the record was written as gives the
    /// record.
    pub proof fn lemma_round_trip(self)
        ensures
            Self::decoded(self.encoded()) == Ok::<Self, DecodeErrorView>(self),
    {
        self.lemma_encoded();
    }
}

impl CodeBlockProps {
    /// Writes the record as the members of an object, from which it can be
    /// read back.
    pub fn encode(&self) -> (members: Vec<(String, Json)>)
        ensures
            members_view(members@) == self@.encoded(),
            CodeBlockPropsView::decoded(members_view(members@)) == Ok::<
                CodeBlockPropsView,
                DecodeErrorView,
            >(self@),
    {
        broadcast use lemma_empty_then;

        let mut members = no_members();
        put_str(&mut members, "code", &self.code);
        put_str(&mut members, "language", &self.language);
        proof {
            self@.lemma_round_trip();
        }
        members
    }

    /// Reads the record from the members of an object.
    pub fn decode(members: &Vec<(String, Json)>) -> (r: Result<CodeBlockProps, DecodeError>)
        ensures
            result_view(r) == CodeBlockPropsView::decoded(members_view(members@)),
    {
        let code = read_str(members, "code")?;
        let language = read_str(members, "language")?;
        Ok(CodeBlockProps {
            code,
            language,
        })
    }
}

/// The slots of a block of code.
#[derive(Debug, PartialEq, Eq)]
pub struct CodeBlockSlots {
    /// The caption of the block.
    pub default: Vec<InlineComponent>,
}

/// The mathematical model of a [`CodeBlockSlots`].
pub struct CodeBlockSlotsView {
    /// The caption of the block.
    pub default: Seq<InlineComponentView>,
}

impl View for CodeBlockSlots {
    type V = CodeBlockSlotsView;

    open spec fn view(&self) -> CodeBlockSlotsView {
        CodeBlockSlotsView { default: inlines_view(self.default@) }
    }
}

impl Clone for CodeBlockSlots {
    fn clone(&self) -> (record: CodeBlockSlots)
        ensures
            record@ == self@,
    {
        CodeBlockSlots { default: clone_inlines(&self.default) }
    }
}

impl Default for CodeBlockSlots {
    fn default() -> (record: CodeBlockSlots)
        ensures
            record@ == CodeBlockSlotsView::initial(),
    {
        let record = CodeBlockSlots { default: Vec::new() };
        assert(record@.default =~= Seq::empty());
        record
    }
}

impl CodeBlockSlotsView {
    /// The record with every field at its default.
    pub open spec fn initial() -> CodeBlockSlotsView {
        CodeBlockSlotsView { default: Seq::empty() }
    }

    /// The members that the record is written as.
    pub open spec fn encoded(self) -> Members {
        field("default"@, inlines_value(self.default))
    }

    /// The record that a member list is read as.
    pub open spec fn decoded(members: Members) -> Result<CodeBlockSlotsView, DecodeErrorView> {
        let default = inlines_at(members, "default"@);
        if default is Err {
            Err(default->Err_0)
        } else {
            Ok(CodeBlockSlotsView { default: default->Ok_0 })
        }
    }

    /// Each field is found under its own key, as what stands for it;
    /// at least one member is always written.
    pub proof fn lemma_encoded(self)
        ensures
            lookup(self.encoded(), "default"@) == inlines_value(self.default),
            self.encoded().len() > 0,
    {
        broadcast use group_field_lookups;

    }

    /// Reading back the members that the record was written as gives the
    /// record.
    pub proof fn lemma_round_trip(self)
        ensures
            Self::decoded(self.encoded()) == Ok::<Self, DecodeErrorView>(self),
    {
        self.lemma_encoded();
        lemma_inlines_round_trip(self.default);
    }
}

impl CodeBlockSlots {
    /// Writes the record as the members of an object, from which it can be
    /// read back.
    pub fn encode(&self) -> (members: Vec<(String, Json)>)
        ensures
            members_view(members@) == self@.encoded(),
            CodeBlockSlotsView::decoded(members_view(members@)) == Ok::<
                CodeBlockSlotsView,
                DecodeErrorView,
            >(self@),
    {
        broadcast use lemma_empty_then;

        let mut members = no_members();
        put_inlines(&mut members, "default", &self.default);
        proof {
            self@.lemma_round_trip();
        }
        members
    }

    /// Reads the record from the members of an object.
    pub fn decode(members: &Vec<(String, Json)>) -> (r: Result<CodeBlockSlots, DecodeError>)
        ensures
            result_view(r) == CodeBlockSlotsView::decoded(members_view(members@)),
    {
        let default = read_inlines(members, "default")?;
        Ok(CodeBlockSlots { default })
    }
}

/// A block of source code.
#[derive(Debug, PartialEq, Eq)]
pub struct CodeBlock {
    /// The attributes.
    pub props: CodeBlockProps,
    /// The children, by slot.
    pub slots: CodeBlockSlots,
}

/// The mathematical model of a [`CodeBlock`].
pub struct CodeBlockView {
    /// The attributes.
    pub props: CodeBlockPropsView,
    /// The children, by slot.
    pub slots: CodeBlockSlotsView,
}

impl View for CodeBlock {
    type V = CodeBlockView;

    open spec fn view(&self) -> CodeBlockView {
        CodeBlockView { props: self.props@, slots: self.slots@ }
    }
}

impl Clone for CodeBlock {
    fn clone(&self) -> (kind: CodeBlock)
        ensures
            kind@ == self@,
    {
        CodeBlock { props: self.props.clone(), slots: self.slots.clone() }
    }
}

impl Default for CodeBlock {
    fn default() -> (kind: CodeBlock)
        ensures
            kind@ == CodeBlockView::initial(),
    {
        CodeBlock { props: CodeBlockProps::default(), slots: CodeBlockSlots::default() }
    }
}

impl CodeBlockView {
    /// The block of code with every attribute at its default and no children.
    pub open spec fn initial() -> CodeBlockView {
        Self { props: CodeBlockPropsView::initial(), slots: CodeBlockSlotsView::initial() }
    }

    /// The object that the block of code is written as, without a `type` member.
    pub open spec fn encoded(self) -> JsonView {
        kind_object(false, self.props.encoded(), self.slots.encoded())
    }

    /// The block of code that a value is read as. The shape of the object is checked
    /// first, then the attributes are read, then the slots; the first failure
    /// is the result.
    pub open spec fn decoded(json: JsonView) -> Result<CodeBlockView, DecodeErrorView> {
        match kind_parts(json, false, true, true) {
            Err(e) => Err(e),
            Ok(parts) => {
                let props = CodeBlockPropsView::decoded(parts.0);
                let slots = CodeBlockSlotsView::decoded(parts.1);
                if props is Err {
                    Err(props->Err_0)
                } else if slots is Err {
                    Err(slots->Err_0)
                } else {
                    Ok(CodeBlockView { props: props->Ok_0, slots: slots->Ok_0 })
                }
            },
        }
    }

    /// Reading back the object that the block of code was written as gives the
    /// block of code.
    pub proof fn lemma_round_trip(self)
        ensures
            Self::decoded(self.encoded()) == Ok::<Self, DecodeErrorView>(self),
    {
        self.props.lemma_round_trip();
        self.slots.lemma_round_trip();
        self.props.lemma_encoded();
        self.slots.lemma_encoded();
        lemma_kind_parts_of_object(false, self.props.encoded(), self.slots.encoded(), true, true);
    }

    /// A `type` member in front of the members of a value does not change
    /// what the value is read as.
    pub proof fn lemma_decoded_tagged(tag: Seq<char>, json: JsonView)
        ensures
            CodeBlockView::decoded(tagged(tag, json)) == CodeBlockView::decoded(json),
    {
        lemma_kind_parts_of_tagged(tag, json, false, true, true);
    }
}

impl CodeBlock {
    /// Writes the block of code as an object, without a `type` member, from which it
    /// can be read back.
    pub fn encode(&self) -> (json: Json)
        ensures
            json@ == self@.encoded(),
            CodeBlockView::decoded(json@) == Ok::<CodeBlockView, DecodeErrorView>(self@),
    {
        proof {
            self@.lemma_round_trip();
        }
        build(false, self.props.encode(), self.slots.encode())
    }

    /// Reads the block of code from an object; a `type` member, if there is one, is
    /// not looked at.
    pub fn decode(json: &Json) -> (r: Result<CodeBlock, DecodeError>)
        ensures
            result_view(r) == CodeBlockView::decoded(json@),
    {
        let parts = split(json, false, true, true)?;
        let none = no_members();
        let props = CodeBlockProps::decode(or_none(parts.0, &none))?;
        let slots = CodeBlockSlots::decode(or_none(parts.1, &none))?;
        Ok(CodeBlock { props, slots })
    }
}

/// The attributes of a KaTeX block.
#[derive(Debug, PartialEq, Eq)]
pub struct KatexProps {
    /// The expression.
    pub expression: String,
}

/// The mathematical model of a [`KatexProps`].
pub struct KatexPropsView {
    /// The expression.
    pub expression: Seq<char>,
}

impl View for KatexProps {
    type V = KatexPropsView;

    open spec fn view(&self) -> KatexPropsView {
        KatexPropsView { expression: self.expression@ }
    }
}

impl Clone for KatexProps {
    fn clone(&self) -> (record: KatexProps)
        ensures
            record@ == self@,
    {
        KatexProps { expression: self.expression.clone() }
    }
}

impl Default for KatexProps {
    fn default() -> (record: KatexProps)
        ensures
            record@ == KatexPropsView::initial(),
    {
        KatexProps { expression: String::new() }
    }
}

impl KatexPropsView {
    /// The record with every field at its default.
    pub open spec fn initial() -> KatexPropsView {
        KatexPropsView { expression: Seq::empty() }
    }

    /// The members that the record is written as.
    pub open spec fn encoded(self) -> Members {
        field("expression"@, str_value(self.expression))
    }

    /// The record that a member list is read as.
    pub open spec fn decoded(members: Members) -> Result<KatexPropsView, DecodeErrorView> {
        let expression = required_str(members, "expression"@);
        if expression is Err {
            Err(expression->Err_0)
        } else {
            Ok(KatexPropsView { expression: expression->Ok_0 })
        }
    }

    /// Each field is found under its own key, as what stands for it;
    /// at least one member is always written.
    pub proof fn lemma_encoded(self)
        ensures
            lookup(self.encoded(), "expression"@) == str_value(self.expression),
            self.encoded().len() > 0,
    {
        broadcast use group_field_lookups;

    }

    /// Reading back the members that the record was written as gives the
    /// record.
    pub proof fn lemma_round_trip(self)
        ensures
            Self::decoded(self.encoded()) == Ok::<Self, DecodeErrorView>(self),
    {
        self.lemma_encoded();
    }
}

impl KatexProps {
    /// Writes the record as the members of an object, from which it can be
    /// read back.
    pub fn encode(&self) -> (members: Vec<(String, Json)>)
        ensures
            members_view(members@) == self@.encoded(),
            KatexPropsView::decoded(members_view(members@)) == Ok::<
                KatexPropsView,
                DecodeErrorView,
            >(self@),
    {
        broadcast use lemma_empty_then;

        let mut members = no_members();
        put_str(&mut members, "expression", &self.expression);
        proof {
            self@.lemma_round_trip();
        }
        members
    }

    /// Reads the record from the members of an object.
    pub fn decode(members: &Vec<(String, Json)>) -> (r: Result<KatexProps, DecodeError>)
        ensures
            result_view(r) == KatexPropsView::decoded(members_view(members@)),
    {
        let expression = read_str(members, "expression")?;
        Ok(KatexProps { expression })
    }
}

/// The slots of a KaTeX block: it has no children.
#[derive(Debug, PartialEq, Eq)]
pub struct KatexSlots;

impl View for KatexSlots {
    type V = KatexSlots;

    open spec fn view(&self) -> KatexSlots {
        *self
    }
}

impl Clone for KatexSlots {
    fn clone(&self) -> (record: KatexSlots)
        ensures
            record@ == self@,
    {
        KatexSlots
    }
}

impl Default for KatexSlots {
    fn default() -> (record: KatexSlots)
        ensures
            record@ == KatexSlots::initial(),
    {
        KatexSlots
    }
}

impl KatexSlots {
    /// The record with every field at its default.
    pub open spec fn initial() -> KatexSlots {
        KatexSlots
    }

    /// The members that the record is written as.
    pub open spec fn encoded(self) -> Members {
        Seq::empty()
    }

    /// The record that a member list is read as: whatever the list holds,
    /// the record takes nothing from it.
    pub open spec fn decoded(members: Members) -> Result<KatexSlots, DecodeErrorView> {
        Ok(KatexSlots)
    }

    /// Reading back the members that the record was written as gives the
    /// record.
    pub proof fn lemma_round_trip(self)
        ensures
            Self::decoded(self.encoded()) == Ok::<Self, DecodeErrorView>(self),
    {
    }
}

impl KatexSlots {
    /// Writes the record as the members of an object, from which it can be
    /// read back.
    pub fn encode(&self) -> (members: Vec<(String, Json)>)
        ensures
            members_view(members@) == self@.encoded(),
            KatexSlots::decoded(members_view(members@)) == Ok::<KatexSlots, DecodeErrorView>(self@),
    {
        no_members()
    }

    /// Reads the record from the members of an object.
    pub fn decode(members: &Vec<(String, Json)>) -> (r: Result<KatexSlots, DecodeError>)
        ensures
            result_view(r) == KatexSlots::decoded(members_view(members@)),
    {
        Ok(KatexSlots)
    }
}

/// A KaTeX expression set off as a block.
#[derive(Debug, PartialEq, Eq)]
pub struct Katex {
    /// The attributes.
    pub props: KatexProps,
    /// The children, by slot.
    pub slots: KatexSlots,
}

/// The mathematical model of a [`Katex`].
pub struct KatexView {
    /// The attributes.
    pub props: KatexPropsView,
    /// The children, by slot.
    pub slots: KatexSlots,
}

impl View for Katex {
    type V = KatexView;

    open spec fn view(&self) -> KatexView {
        KatexView { props: self.props@, slots: self.slots@ }
    }
}

impl Clone for Katex {
    fn clone(&self) -> (kind: Katex)
        ensures
            kind@ == self@,
    {
        Katex { props: self.props.clone(), slots: self.slots.clone() }
    }
}

impl Default for Katex {
    fn default() -> (kind: Katex)
        ensures
            kind@ == KatexView::initial(),
    {
        Katex { props: KatexProps::default(), slots: KatexSlots::default() }
    }
}

impl KatexView {
    /// The KaTeX block with every attribute at its default and no children.
    pub open spec fn initial() -> KatexView {
        Self { props: KatexPropsView::initial(), slots: KatexSlots::initial() }
    }

    /// The object that the KaTeX block is written as, without a `type` member.
    pub open spec fn encoded(self) -> JsonView {
        kind_object(false, self.props.encoded(), self.slots.encoded())
    }

    /// The KaTeX block that a value is read as. The shape of the object is checked
    /// first, then the attributes are read, then the slots; the first failure
    /// is the result.
    pub open spec fn decoded(json: JsonView) -> Result<KatexView, DecodeErrorView> {
        match kind_parts(json, false, true, false) {
            Err(e) => Err(e),
            Ok(parts) => {
                let props = KatexPropsView::decoded(parts.0);
                let slots = KatexSlots::decoded(parts.1);
                if props is Err {
                    Err(props->Err_0)
                } else if slots is Err {
                    Err(slots->Err_0)
                } else {
                    Ok(KatexView { props: props->Ok_0, slots: slots->Ok_0 })
                }
            },
        }
    }

    /// Reading back the object that the KaTeX block was written as gives the
    /// KaTeX block.
    pub proof fn lemma_round_trip(self)
        ensures
            Self::decoded(self.encoded()) == Ok::<Self, DecodeErrorView>(self),
    {
        self.props.lemma_round_trip();
        self.slots.lemma_round_trip();
        self.props.lemma_encoded();
        lemma_kind_parts_of_object(false, self.props.encoded(), self.slots.encoded(), true, false);
    }

    /// The object has no `slots` member.
    pub proof fn lemma_defaults_left_out(self)
        ensures
            self.encoded() matches JsonView::Object(members) && lookup(members, "slots"@) is None,
    {
        lemma_kind_object_records(false, self.props.encoded(), self.slots.encoded());
    }

    /// A `type` member in front of the members of a value does not change
    /// what the value is read as.
    pub proof fn lemma_decoded_tagged(tag: Seq<char>, json: JsonView)
        ensures
            KatexView::decoded(tagged(tag, json)) == KatexView::decoded(json),
    {
        lemma_kind_parts_of_tagged(tag, json, false, true, false);
    }
}

impl Katex {
    /// Writes the KaTeX block as an object, without a `type` member, from which it
    /// can be read back.
    pub fn encode(&self) -> (json: Json)
        ensures
            json@ == self@.encoded(),
            KatexView::decoded(json@) == Ok::<KatexView, DecodeErrorView>(self@),
    {
        proof {
            self@.lemma_round_trip();
        }
        build(false, self.props.encode(), self.slots.encode())
    }

    /// Reads the KaTeX block from an object; a `type` member, if there is one, is
    /// not looked at.
    pub fn decode(json: &Json) -> (r: Result<Katex, DecodeError>)
        ensures
            result_view(r) == KatexView::decoded(json@),
    {
        let parts = split(json, false, true, false)?;
        let none = no_members();
        let props = KatexProps::decode(or_none(parts.0, &none))?;
        let slots = KatexSlots::decode(or_none(parts.1, &none))?;
        Ok(Katex { props, slots })
    }
}

/// The attributes of a table cell.
#[derive(Debug, PartialEq, Eq)]
pub struct TableCellProps {
    /// The cell holds a header.
    pub is_header: bool,
}

impl View for TableCellProps {
    type V = TableCellProps;

    open spec fn view(&self) -> TableCellProps {
        *self
    }
}

impl Clone for TableCellProps {
    fn clone(&self) -> (record: TableCellProps)
        ensures
            record@ == self@,
    {
        TableCellProps { is_header: self.is_header }
    }
}

impl Default for TableCellProps {
    fn default() -> (record: TableCellProps)
        ensures
            record@ == TableCellProps::initial(),
    {
        TableCellProps { is_header: false }
    }
}

impl TableCellProps {
    /// The record with every field at its default.
    pub open spec fn initial() -> TableCellProps {
        TableCellProps { is_header: false }
    }

    /// The members that the record is written as.
    pub open spec fn encoded(self) -> Members {
        field("isHeader"@, flag_value(self.is_header))
    }

    /// The record that a member list is read as.
    pub open spec fn decoded(members: Members) -> Result<TableCellProps, DecodeErrorView> {
        let is_header = flag(members, "isHeader"@);
        if is_header is Err {
            Err(is_header->Err_0)
        } else {
            Ok(TableCellProps { is_header: is_header->Ok_0 })
        }
    }

    /// Each field is found under its own key, as what stands for it.
    pub proof fn lemma_encoded(self)
        ensures
            lookup(self.encoded(), "isHeader"@) == flag_value(self.is_header),
    {
        broadcast use group_field_lookups;

    }

    /// Reading back the members that the record was written as gives the
    /// record.
    pub proof fn lemma_round_trip(self)
        ensures
            Self::decoded(self.encoded()) == Ok::<Self, DecodeErrorView>(self),
    {
        self.lemma_encoded();
    }

    /// The record is written as no member at all exactly when every field is
    /// at its default.
    pub proof fn lemma_omitted(self)
        ensures
            self.encoded().len() == 0 <==> self == TableCellProps::initial(),
    {
    }
}

impl TableCellProps {
    /// Writes the record as the members of an object, from which it can be
    /// read back.
    pub fn encode(&self) -> (members: Vec<(String, Json)>)
        ensures
            members_view(members@) == self@.encoded(),
            TableCellProps::decoded(members_view(members@)) == Ok::<
                TableCellProps,
                DecodeErrorView,
            >(self@),
    {
        broadcast use lemma_empty_then;

        let mut members = no_members();
        put_flag(&mut members, "isHeader", self.is_header);
        proof {
            self@.lemma_round_trip();
        }
        members
    }

    /// Reads the record from the members of an object.
    pub fn decode(members: &Vec<(String, Json)>) -> (r: Result<TableCellProps, DecodeError>)
        ensures
            result_view(r) == TableCellProps::decoded(members_view(members@)),
    {
        let is_header = read_flag(members, "isHeader")?;
        Ok(TableCellProps { is_header })
    }
}

/// The slots of a table cell.
#[derive(Debug, PartialEq, Eq)]
pub struct TableCellSlots {
    /// The text of the cell.
    pub default: Vec<InlineComponent>,
}

/// The mathematical model of a [`TableCellSlots`].
pub struct TableCellSlotsView {
    /// The text of the cell.
    pub default: Seq<InlineComponentView>,
}

impl View for TableCellSlots {
    type V = TableCellSlotsView;

    open spec fn view(&self) -> TableCellSlotsView {
        TableCellSlotsView { default: inlines_view(self.default@) }
    }
}

impl Clone for TableCellSlots {
    fn clone(&self) -> (record: TableCellSlots)
        ensures
            record@ == self@,
    {
        TableCellSlots { default: clone_inlines(&self.default) }
    }
}

impl Default for TableCellSlots {
    fn default() -> (record: TableCellSlots)
        ensures
            record@ == TableCellSlotsView::initial(),
    {
        let record = TableCellSlots { default: Vec::new() };
        assert(record@.default =~= Seq::empty());
        record
    }
}

impl TableCellSlotsView {
    /// The record with every field at its default.
    pub open spec fn initial() -> TableCellSlotsView {
        TableCellSlotsView { default: Seq::empty() }
    }

    /// The members that the record is written as.
    pub open spec fn encoded(self) -> Members {
        field("default"@, inlines_value(self.default))
    }

    /// The record that a member list is read as.
    pub open spec fn decoded(members: Members) -> Result<TableCellSlotsView, DecodeErrorView> {
        let default = inlines_at(members, "default"@);
        if default is Err {
            Err(default->Err_0)
        } else {
            Ok(TableCellSlotsView { default: default->Ok_0 })
        }
    }

    /// Each field is found under its own key, as what stands for it;
    /// at least one member is always written.
    pub proof fn lemma_encoded(self)
        ensures
            lookup(self.encoded(), "default"@) == inlines_value(self.default),
            self.encoded().len() > 0,
    {
        broadcast use group_field_lookups;

    }

    /// Reading back the members that the record was written as gives the
    /// record.
    pub proof fn lemma_round_trip(self)
        ensures
            Self::decoded(self.encoded()) == Ok::<Self, DecodeErrorView>(self),
    {
        self.lemma_encoded();
        lemma_inlines_round_trip(self.default);
    }
}

impl TableCellSlots {
    /// Writes the record as the members of an object, from which it can be
    /// read back.
    pub fn encode(&self) -> (members: Vec<(String, Json)>)
        ensures
            members_view(members@) == self@.encoded(),
            TableCellSlotsView::decoded(members_view(members@)) == Ok::<
                TableCellSlotsView,
                DecodeErrorView,
            >(self@),
    {
        broadcast use lemma_empty_then;

        let mut members = no_members();
        put_inlines(&mut members, "default", &self.default);
        proof {
            self@.lemma_round_trip();
        }
        members
    }

    /// Reads the record from the members of an object.
    pub fn decode(members: &Vec<(String, Json)>) -> (r: Result<TableCellSlots, DecodeError>)
        ensures
            result_view(r) == TableCellSlotsView::decoded(members_view(members@)),
    {
        let default = read_inlines(members, "default")?;
        Ok(TableCellSlots { default })
    }
}

/// One cell of a table row.
#[derive(Debug, PartialEq, Eq)]
pub struct TableCell {
    /// The attributes.
    pub props: TableCellProps,
    /// The children, by slot.
    pub slots: TableCellSlots,
}

/// The mathematical model of a [`TableCell`].
pub struct TableCellView {
    /// The attributes.
    pub props: TableCellProps,
    /// The children, by slot.
    pub slots: TableCellSlotsView,
}

impl View for TableCell {
    type V = TableCellView;

    open spec fn view(&self) -> TableCellView {
        TableCellView { props: self.props@, slots: self.slots@ }
    }
}

impl Clone for TableCell {
    fn clone(&self) -> (kind: TableCell)
        ensures
            kind@ == self@,
    {
        TableCell { props: self.props.clone(), slots: self.slots.clone() }
    }
}

impl Default for TableCell {
    fn default() -> (kind: TableCell)
        ensures
            kind@ == TableCellView::initial(),
    {
        TableCell { props: TableCellProps::default(), slots: TableCellSlots::default() }
    }
}

impl TableCellView {
    /// The table cell with every attribute at its default and no children.
    pub open spec fn initial() -> TableCellView {
        Self { props: TableCellProps::initial(), slots: TableCellSlotsView::initial() }
    }

    /// The object that the table cell is written as, without a `type` member.
    pub open spec fn encoded(self) -> JsonView {
        kind_object(false, self.props.encoded(), self.slots.encoded())
    }

    /// The table cell that a value is read as. The shape of the object is checked
    /// first, then the attributes are read, then the slots; the first failure
    /// is the result.
    pub open spec fn decoded(json: JsonView) -> Result<TableCellView, DecodeErrorView> {
        match kind_parts(json, false, false, true) {
            Err(e) => Err(e),
            Ok(parts) => {
                let props = TableCellProps::decoded(parts.0);
                let slots = TableCellSlotsView::decoded(parts.1);
                if props is Err {
                    Err(props->Err_0)
                } else if slots is Err {
                    Err(slots->Err_0)
                } else {
                    Ok(TableCellView { props: props->Ok_0, slots: slots->Ok_0 })
                }
            },
        }
    }

    /// Reading back the object that the table cell was written as gives the
    /// table cell.
    pub proof fn lemma_round_trip(self)
        ensures
            Self::decoded(self.encoded()) == Ok::<Self, DecodeErrorView>(self),
    {
        self.props.lemma_round_trip();
        self.slots.lemma_round_trip();
        self.slots.lemma_encoded();
        lemma_kind_parts_of_object(false, self.props.encoded(), self.slots.encoded(), false, true);
    }

    /// The object has no `props` member exactly when every attribute is at its
    /// default.
    pub proof fn lemma_defaults_left_out(self)
        ensures
            self.encoded() matches JsonView::Object(members) && {
                &&& lookup(members, "props"@) is None <==> self.props == TableCellProps::initial()
            },
    {
        self.props.lemma_omitted();
        lemma_kind_object_records(false, self.props.encoded(), self.slots.encoded());
    }

    /// A `type` member in front of the members of a value does not change
    /// what the value is read as.
    pub proof fn lemma_decoded_tagged(tag: Seq<char>, json: JsonView)
        ensures
            TableCellView::decoded(tagged(tag, json)) == TableCellView::decoded(json),
    {
        lemma_kind_parts_of_tagged(tag, json, false, false, true);
    }
}

impl TableCell {
    /// Writes the table cell as an object, without a `type` member, from which it
    /// can be read back.
    pub fn encode(&self) -> (json: Json)
        ensures
            json@ == self@.encoded(),
            TableCellView::decoded(json@) == Ok::<TableCellView, DecodeErrorView>(self@),
    {
        proof {
            self@.lemma_round_trip();
        }
        build(false, self.props.encode(), self.slots.encode())
    }

    /// Reads the table cell from an object; a `type` member, if there is one, is
    /// not looked at.
    pub fn decode(json: &Json) -> (r: Result<TableCell, DecodeError>)
        ensures
            result_view(r) == TableCellView::decoded(json@),
    {
        let parts = split(json, false, false, true)?;
        let none = no_members();
        let props = TableCellProps::decode(or_none(parts.0, &none))?;
        let slots = TableCellSlots::decode(or_none(parts.1, &none))?;
        Ok(TableCell { props, slots })
    }
}

/// The attributes of an unsupported part.
#[derive(Debug, PartialEq, Eq)]
pub struct UnsupportedProps {
    /// What the part was.
    pub details: String,
}

/// The mathematical model of an [`UnsupportedProps`].
pub struct UnsupportedPropsView {
    /// What the part was.
    pub details: Seq<char>,
}

impl View for UnsupportedProps {
    type V = UnsupportedPropsView;

    open spec fn view(&self) -> UnsupportedPropsView {
        UnsupportedPropsView { details: self.details@ }
    }
}

impl Clone for UnsupportedProps {
    fn clone(&self) -> (record: UnsupportedProps)
        ensures
            record@ == self@,
    {
        UnsupportedProps { details: self.details.clone() }
    }
}

impl Default for UnsupportedProps {
    fn default() -> (record: UnsupportedProps)
        ensures
            record@ == UnsupportedPropsView::initial(),
    {
        UnsupportedProps { details: String::new() }
    }
}

impl UnsupportedPropsView {
    /// The record with every field at its default.
    pub open spec fn initial() -> UnsupportedPropsView {
        UnsupportedPropsView { details: Seq::empty() }
    }

    /// The members that the record is written as.
    pub open spec fn encoded(self) -> Members {
        field("details"@, str_value(self.details))
    }

    /// The record that a member list is read as.
    pub open spec fn decoded(members: Members) -> Result<UnsupportedPropsView, DecodeErrorView> {
        let details = required_str(members, "details"@);
        if details is Err {
            Err(details->Err_0)
        } else {
            Ok(UnsupportedPropsView { details: details->Ok_0 })
        }
    }

    /// Each field is found under its own key, as what stands for it;
    /// at least one member is always written.
    pub proof fn lemma_encoded(self)
        ensures
            lookup(self.encoded(), "details"@) == str_value(self.details),
            self.encoded().len() > 0,
    {
        broadcast use group_field_lookups;

    }

    /// Reading back the members that the record was written as gives the
    /// record.
    pub proof fn lemma_round_trip(self)
        ensures
            Self::decoded(self.encoded()) == Ok::<Self, DecodeErrorView>(self),
    {
        self.lemma_encoded();
    }
}

impl UnsupportedProps {
    /// Writes the record as the members of an object, from which it can be
    /// read back.
    pub fn encode(&self) -> (members: Vec<(String, Json)>)
        ensures
            members_view(members@) == self@.encoded(),
            UnsupportedPropsView::decoded(members_view(members@)) == Ok::<
                UnsupportedPropsView,
                DecodeErrorView,
            >(self@),
    {
        broadcast use lemma_empty_then;

        let mut members = no_members();
        put_str(&mut members, "details", &self.details);
        proof {
            self@.lemma_round_trip();
        }
        members
    }

    /// Reads the record from the members of an object.
    pub fn decode(members: &Vec<(String, Json)>) -> (r: Result<UnsupportedProps, DecodeError>)
        ensures
            result_view(r) == UnsupportedPropsView::decoded(members_view(members@)),
    {
        let details = read_str(members, "details")?;
        Ok(UnsupportedProps { details })
    }
}

/// The slots of an unsupported part: it has no children.
#[derive(Debug, PartialEq, Eq)]
pub struct UnsupportedSlots {}

impl View for UnsupportedSlots {
    type V = UnsupportedSlots;

    open spec fn view(&self) -> UnsupportedSlots {
        *self
    }
}

impl Clone for UnsupportedSlots {
    fn clone(&self) -> (record: UnsupportedSlots)
        ensures
            record@ == self@,
    {
        UnsupportedSlots {}
    }
}

impl Default for UnsupportedSlots {
    fn default() -> (record: UnsupportedSlots)
        ensures
            record@ == UnsupportedSlots::initial(),
    {
        UnsupportedSlots {}
    }
}

impl UnsupportedSlots {
    /// The record with every field at its default.
    pub open spec fn initial() -> UnsupportedSlots {
        UnsupportedSlots {}
    }

    /// The members that the record is written as.
    pub open spec fn encoded(self) -> Members {
        Seq::empty()
    }

    /// The record that a member list is read as: whatever the list holds,
    /// the record takes nothing from it.
    pub open spec fn decoded(members: Members) -> Result<UnsupportedSlots, DecodeErrorView> {
        Ok(UnsupportedSlots {})
    }

    /// Reading back the members that the record was written as gives the
    /// record.
    pub proof fn lemma_round_trip(self)
        ensures
            Self::decoded(self.encoded()) == Ok::<Self, DecodeErrorView>(self),
    {
    }
}

impl UnsupportedSlots {
    /// Writes the record as the members of an object, from which it can be
    /// read back.
    pub fn encode(&self) -> (members: Vec<(String, Json)>)
        ensures
            members_view(members@) == self@.encoded(),
            UnsupportedSlots::decoded(members_view(members@)) == Ok::<
                UnsupportedSlots,
                DecodeErrorView,
            >(self@),
    {
        no_members()
    }

    /// Reads the record from the members of an object.
    pub fn decode(members: &Vec<(String, Json)>) -> (r: Result<UnsupportedSlots, DecodeError>)
        ensures
            result_view(r) == UnsupportedSlots::decoded(members_view(members@)),
    {
        Ok(UnsupportedSlots {})
    }
}

/// A part of a document that has no kind of its own.
#[derive(Debug, PartialEq, Eq)]
pub struct Unsupported {
    /// The attributes, if the part has any.
    pub props: Option<UnsupportedProps>,
    /// The children, by slot.
    pub slots: UnsupportedSlots,
}

/// The mathematical model of an [`Unsupported`].
pub struct UnsupportedView {
    /// The attributes, if the part has any.
    pub props: Option<UnsupportedPropsView>,
    /// The children, by slot.
    pub slots: UnsupportedSlots,
}

impl View for Unsupported {
    type V = UnsupportedView;

    open spec fn view(&self) -> UnsupportedView {
        UnsupportedView {
            props: match self.props {
                Some(props) => Some(props@),
                None => None,
            },
            slots: self.slots@,
        }
    }
}

impl Clone for Unsupported {
    fn clone(&self) -> (kind: Unsupported)
        ensures
            kind@ == self@,
    {
        let props = match &self.props {
            Some(props) => Some(props.clone()),
            None => None,
        };
        Unsupported { props, slots: self.slots.clone() }
    }
}

impl Default for Unsupported {
    fn default() -> (kind: Unsupported)
        ensures
            kind@ == UnsupportedView::initial(),
    {
        Unsupported { props: None, slots: UnsupportedSlots::default() }
    }
}

impl UnsupportedView {
    /// The unsupported part with every attribute at its default and no children.
    pub open spec fn initial() -> UnsupportedView {
        Self { props: None, slots: UnsupportedSlots::initial() }
    }

    /// The object that the unsupported part is written as, without a `type` member.
    pub open spec fn encoded(self) -> JsonView {
        kind_object(
            false,
            match self.props {
                Some(props) => props.encoded(),
                None => Seq::empty(),
            },
            self.slots.encoded(),
        )
    }

    /// The unsupported part that a value is read as. The shape of the object is checked
    /// first, then the attributes are read, then the slots; the first failure
    /// is the result. Attributes that are absent, or an object without
    /// members, read as no attributes.
    pub open spec fn decoded(json: JsonView) -> Result<UnsupportedView, DecodeErrorView> {
        match kind_parts(json, false, false, false) {
            Err(e) => Err(e),
            Ok(parts) => {
                let props = UnsupportedPropsView::decoded(parts.0);
                let slots = UnsupportedSlots::decoded(parts.1);
                if parts.0.len() != 0 && props is Err {
                    Err(props->Err_0)
                } else if slots is Err {
                    Err(slots->Err_0)
                } else {
                    Ok(
                        UnsupportedView {
                            props: if parts.0.len() == 0 {
                                None
                            } else {
                                Some(props->Ok_0)
                            },
                            slots: slots->Ok_0,
                        },
                    )
                }
            },
        }
    }

    /// Reading back the object that the unsupported part was written as gives the
    /// unsupported part.
    pub proof fn lemma_round_trip(self)
        ensures
            Self::decoded(self.encoded()) == Ok::<Self, DecodeErrorView>(self),
    {
        if let Some(props) = self.props {
            props.lemma_round_trip();
            props.lemma_encoded();
        }
        self.slots.lemma_round_trip();
        lemma_kind_parts_of_object(
            false,
            match self.props {
                Some(props) => props.encoded(),
                None => Seq::empty(),
            },
            self.slots.encoded(),
            false,
            false,
        );
    }

    /// The object has a `props` member exactly when the part has
    /// attributes, and it has no `slots` member.
    pub proof fn lemma_defaults_left_out(self)
        ensures
            self.encoded() matches JsonView::Object(members) && {
                &&& lookup(members, "props"@) is None <==> self.props is None
                &&& lookup(members, "slots"@) is None
            },
    {
        if let Some(props) = self.props {
            props.lemma_encoded();
        }
        lemma_kind_object_records(
            false,
            match self.props {
                Some(props) => props.encoded(),
                None => Seq::empty(),
            },
            self.slots.encoded(),
        );
    }

    /// A `type` member in front of the members of a value does not change
    /// what the value is read as.
    pub proof fn lemma_decoded_tagged(tag: Seq<char>, json: JsonView)
        ensures
            UnsupportedView::decoded(tagged(tag, json)) == UnsupportedView::decoded(json),
    {
        lemma_kind_parts_of_tagged(tag, json, false, false, false);
    }
}

impl Unsupported {
    /// Writes the unsupported part as an object, without a `type` member, from which it
    /// can be read back.
    pub fn encode(&self) -> (json: Json)
        ensures
            json@ == self@.encoded(),
            UnsupportedView::decoded(json@) == Ok::<UnsupportedView, DecodeErrorView>(self@),
    {
        proof {
            self@.lemma_round_trip();
        }
        let props = match &self.props {
            Some(props) => props.encode(),
            None => no_members(),
        };
        build(false, props, self.slots.encode())
    }

    /// Reads the unsupported part from an object; a `type` member, if there is one, is
    /// not looked at.
    pub fn decode(json: &Json) -> (r: Result<Unsupported, DecodeError>)
        ensures
            result_view(r) == UnsupportedView::decoded(json@),
    {
        let parts = split(json, false, false, false)?;
        let none = no_members();
        let props = match parts.0 {
            Some(members) => if members.len() == 0 {
                None
            } else {
                Some(UnsupportedProps::decode(members)?)
            },
            None => None,
        };
        let slots = UnsupportedSlots::decode(or_none(parts.1, &none))?;
        Ok(Unsupported { props, slots })
    }
}

} // verus!
