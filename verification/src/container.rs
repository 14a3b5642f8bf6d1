//! The block components that hold nested components, to any depth.

use crate::choice::{CalloutType, ListStyle};
use crate::component::{
    clone_components, clone_opt_components, components_at, components_value, components_view,
    lemma_components_round_trip, lemma_opt_components_round_trip, opt_components_at,
    opt_components_value, opt_components_view, put_components, put_opt_components,
    read_components, read_opt_components, Component, ComponentView,
};
use crate::error::{result_view, DecodeError, DecodeErrorView};
use crate::field::{
    clone_opt_str, field, flag, flag_value, group_field_lookups, lemma_empty_then, no_members,
    opt_str_value, opt_view, optional_str, or_none, put_flag, put_opt_str, read_flag,
    read_opt_str,
};
use crate::inline::{
    clone_inlines, inlines_at, inlines_value, inlines_view, lemma_inlines_round_trip, put_inlines,
    read_inlines, InlineComponent, InlineComponentView,
};
use crate::json::{lookup, members_view, Json, JsonView, Members};
use crate::shape::{
    build, kind_object, kind_parts, lemma_kind_object_records, lemma_kind_parts_of_object,
    lemma_kind_parts_of_tagged, lemma_slots_decrease, split, tagged,
};
use vstd::prelude::*;

verus! {

/// The attributes of a list.
#[derive(Debug, PartialEq, Eq)]
pub struct ListProps {
    /// How the items are marked.
    pub list_style: ListStyle,
}

impl View for ListProps {
    type V = ListProps;

    open spec fn view(&self) -> ListProps {
        *self
    }
}

impl Clone for ListProps {
    fn clone(&self) -> (record: ListProps)
        ensures
            record@ == self@,
    {
        ListProps { list_style: self.list_style }
    }
}

impl Default for ListProps {
    fn default() -> (record: ListProps)
        ensures
            record@ == ListProps::initial(),
    {
        ListProps { list_style: ListStyle::Unordered }
    }
}

impl ListProps {
    /// The record with every field at its default.
    pub open spec fn initial() -> ListProps {
        ListProps { list_style: ListStyle::Unordered }
    }

    /// The members that the record is written as.
    pub open spec fn encoded(self) -> Members {
        field("listStyle"@, self.list_style.value())
    }

    /// The record that a member list is read as.
    pub open spec fn decoded(members: Members) -> Result<ListProps, DecodeErrorView> {
        let list_style = ListStyle::decoded(members, "listStyle"@);
        if list_style is Err {
            Err(list_style->Err_0)
        } else {
            Ok(ListProps { list_style: list_style->Ok_0 })
        }
    }

    /// Each field is found under its own key, as what stands for it.
    pub proof fn lemma_encoded(self)
        ensures
            lookup(self.encoded(), "listStyle"@) == self.list_style.value(),
    {
        broadcast use group_field_lookups;

    }

    /// Reading back the members that the record was written as gives the
    /// record.
    pub proof fn lemma_round_trip(self)
        ensures
            Self::decoded(self.encoded()) == Ok::<Self, DecodeErrorView>(self),
    {
        self.lemma_encoded();
        self.list_style.lemma_name();
    }

    /// The record is written as no member at all exactly when every field is
    /// at its default.
    pub proof fn lemma_omitted(self)
        ensures
            self.encoded().len() == 0 <==> self == ListProps::initial(),
    {
    }
}

impl ListProps {
    /// Writes the record as the members of an object, from which it can be
    /// read back.
    pub fn encode(&self) -> (members: Vec<(String, Json)>)
        ensures
            members_view(members@) == self@.encoded(),
            ListProps::decoded(members_view(members@)) == Ok::<ListProps, DecodeErrorView>(self@),
    {
        broadcast use lemma_empty_then;

        let mut members = no_members();
        self.list_style.encode(&mut members, "listStyle");
        proof {
            self@.lemma_round_trip();
        }
        members
    }

    /// Reads the record from the members of an object.
    pub fn decode(members: &Vec<(String, Json)>) -> (r: Result<ListProps, DecodeError>)
        ensures
            result_view(r) == ListProps::decoded(members_view(members@)),
    {
        let list_style = ListStyle::decode(members, "listStyle")?;
        Ok(ListProps { list_style })
    }
}

/// The slots of a list.
#[derive(Debug, PartialEq, Eq)]
pub struct ListSlots {
    /// The items, in order.
    pub default: Vec<Component>,
}

/// The mathematical model of a [`ListSlots`].
pub struct ListSlotsView {
    /// The items, in order.
    pub default: Seq<ComponentView>,
}

impl View for ListSlots {
    type V = ListSlotsView;

    open spec fn view(&self) -> ListSlotsView {
        ListSlotsView { default: components_view(self.default@) }
    }
}

impl Clone for ListSlots {
    fn clone(&self) -> (record: ListSlots)
        ensures
            record@ == self@,
        decreases self,
    {
        ListSlots { default: clone_components(&self.default) }
    }
}

impl Default for ListSlots {
    fn default() -> (record: ListSlots)
        ensures
            record@ == ListSlotsView::initial(),
    {
        let record = ListSlots { default: Vec::new() };
        assert(record@.default =~= Seq::empty());
        record
    }
}

impl ListSlotsView {
    /// The record with every field at its default.
    pub open spec fn initial() -> ListSlotsView {
        ListSlotsView { default: Seq::empty() }
    }

    /// The members that the record is written as.
    pub open spec fn encoded(self) -> Members
        decreases self, 0nat,
    {
        field("default"@, components_value(self.default))
    }

    /// The record that a member list is read as.
    pub open spec fn decoded(members: Members) -> Result<ListSlotsView, DecodeErrorView>
        decreases members, 2nat,
    {
        let default = components_at(members, "default"@);
        if default is Err {
            Err(default->Err_0)
        } else {
            Ok(ListSlotsView { default: default->Ok_0 })
        }
    }

    /// Each field is found under its own key, as what stands for it;
    /// at least one member is always written.
    pub proof fn lemma_encoded(self)
        ensures
            lookup(self.encoded(), "default"@) == components_value(self.default),
            self.encoded().len() > 0,
    {
        broadcast use group_field_lookups;

    }

    /// Reading back the members that the record was written as gives the
    /// record.
    pub proof fn lemma_round_trip(self)
        ensures
            Self::decoded(self.encoded()) == Ok::<Self, DecodeErrorView>(self),
        decreases self, 0nat,
    {
        self.lemma_encoded();
        lemma_components_round_trip(self.default);
    }
}

impl ListSlots {
    /// Writes the record as the members of an object, from which it can be
    /// read back.
    pub fn encode(&self) -> (members: Vec<(String, Json)>)
        ensures
            members_view(members@) == self@.encoded(),
            ListSlotsView::decoded(members_view(members@)) == Ok::<
                ListSlotsView,
                DecodeErrorView,
            >(self@),
        decreases self, 0nat,
    {
        broadcast use lemma_empty_then;

        let mut members = no_members();
        put_components(&mut members, "default", &self.default);
        proof {
            self@.lemma_round_trip();
        }
        members
    }

    /// Reads the record from the members of an object.
    pub fn decode(members: &Vec<(String, Json)>) -> (r: Result<ListSlots, DecodeError>)
        ensures
            result_view(r) == ListSlotsView::decoded(members_view(members@)),
        decreases members_view(members@), 2nat,
    {
        let default = read_components(members, "default")?;
        Ok(ListSlots { default })
    }
}

/// A list.
#[derive(Debug, PartialEq, Eq)]
pub struct List {
    /// The attributes.
    pub props: ListProps,
    /// The children, by slot.
    pub slots: ListSlots,
}

/// The mathematical model of a [`List`].
pub struct ListView {
    /// The attributes.
    pub props: ListProps,
    /// The children, by slot.
    pub slots: ListSlotsView,
}

/// The model of a list.
pub open spec fn list_view(kind: List) -> ListView
    decreases kind,
{
    ListView {
        props: kind.props@,
        slots: ListSlotsView { default: components_view(kind.slots.default@) },
    }
}

impl View for List {
    type V = ListView;

    open spec fn view(&self) -> ListView {
        list_view(*self)
    }
}

impl Clone for List {
    fn clone(&self) -> (kind: List)
        ensures
            kind@ == self@,
        decreases self,
    {
        List { props: self.props.clone(), slots: self.slots.clone() }
    }
}

impl Default for List {
    fn default() -> (kind: List)
        ensures
            kind@ == ListView::initial(),
    {
        List { props: ListProps::default(), slots: ListSlots::default() }
    }
}

impl ListView {
    /// The list with every attribute at its default and no children.
    pub open spec fn initial() -> ListView {
        Self { props: ListProps::initial(), slots: ListSlotsView::initial() }
    }

    /// The object that the list is written as, without a `type` member.
    pub open spec fn encoded(self) -> JsonView
        decreases self, 0nat,
    {
        kind_object(false, self.props.encoded(), self.slots.encoded())
    }

    /// The list that a value is read as. The shape of the object is checked
    /// first, then the attributes are read, then the slots; the first failure
    /// is the result.
    pub open spec fn decoded(json: JsonView) -> Result<ListView, DecodeErrorView>
        decreases json, 1nat,
    {
        match kind_parts(json, false, false, true) {
            Err(e) => Err(e),
            Ok(parts) => {
                let props = ListProps::decoded(parts.0);
                let slots = {
                    proof {
                        lemma_slots_decrease(json, false, false);
                    }
                    ListSlotsView::decoded(parts.1)
                };
                if props is Err {
                    Err(props->Err_0)
                } else if slots is Err {
                    Err(slots->Err_0)
                } else {
                    Ok(ListView { props: props->Ok_0, slots: slots->Ok_0 })
                }
            },
        }
    }

    /// Reading back the object that the list was written as gives the
    /// list.
    pub proof fn lemma_round_trip(self)
        ensures
            Self::decoded(self.encoded()) == Ok::<Self, DecodeErrorView>(self),
        decreases self, 1nat,
    {
        self.props.lemma_round_trip();
        self.slots.lemma_round_trip();
        self.slots.lemma_encoded();
        lemma_kind_parts_of_object(false, self.props.encoded(), self.slots.encoded(), false, true);
    }

    /// The object has no `props` member exactly when every attribute is at its
    /// default.
    pub proof fn lemma_defaults_left_out(self)
        ensures
            self.encoded() matches JsonView::Object(members) && {
                &&& lookup(members, "props"@) is None <==> self.props == ListProps::initial()
            },
    {
        self.props.lemma_omitted();
        lemma_kind_object_records(false, self.props.encoded(), self.slots.encoded());
    }

    /// A `type` member in front of the members of a value does not change
    /// what the value is read as.
    pub proof fn lemma_decoded_tagged(tag: Seq<char>, json: JsonView)
        ensures
            ListView::decoded(tagged(tag, json)) == ListView::decoded(json),
    {
        lemma_kind_parts_of_tagged(tag, json, false, false, true);
    }
}

impl List {
    /// Writes the list as an object, without a `type` member, from which it
    /// can be read back.
    pub fn encode(&self) -> (json: Json)
        ensures
            json@ == self@.encoded(),
            ListView::decoded(json@) == Ok::<ListView, DecodeErrorView>(self@),
        decreases self, 0nat,
    {
        proof {
            self@.lemma_round_trip();
        }
        build(false, self.props.encode(), self.slots.encode())
    }

    /// Reads the list from an object; a `type` member, if there is one, is
    /// not looked at.
    pub fn decode(json: &Json) -> (r: Result<List, DecodeError>)
        ensures
            result_view(r) == ListView::decoded(json@),
        decreases json@, 1nat,
    {
        let parts = split(json, false, false, true)?;
        let none = no_members();
        let props = ListProps::decode(or_none(parts.0, &none))?;
        proof {
            lemma_slots_decrease(json@, false, false);
        }
        let slots = ListSlots::decode(or_none(parts.1, &none))?;
        Ok(List { props, slots })
    }
}

/// The attributes of a block quotation.
#[derive(Debug, PartialEq, Eq)]
pub struct BlockQuoteProps {
    /// Where the quotation is from.
    pub cite: Option<String>,
}

/// The mathematical model of a [`BlockQuoteProps`].
pub struct BlockQuotePropsView {
    /// Where the quotation is from.
    pub cite: Option<Seq<char>>,
}

impl View for BlockQuoteProps {
    type V = BlockQuotePropsView;

    open spec fn view(&self) -> BlockQuotePropsView {
        BlockQuotePropsView { cite: opt_view(self.cite) }
    }
}

impl Clone for BlockQuoteProps {
    fn clone(&self) -> (record: BlockQuoteProps)
        ensures
            record@ == self@,
    {
        BlockQuoteProps { cite: clone_opt_str(&self.cite) }
    }
}

impl Default for BlockQuoteProps {
    fn default() -> (record: BlockQuoteProps)
        ensures
            record@ == BlockQuotePropsView::initial(),
    {
        BlockQuoteProps { cite: None }
    }
}

impl BlockQuotePropsView {
    /// The record with every field at its default.
    pub open spec fn initial() -> BlockQuotePropsView {
        BlockQuotePropsView { cite: None }
    }

    /// The members that the record is written as.
    pub open spec fn encoded(self) -> Members {
        field("cite"@, opt_str_value(self.cite))
    }

    /// The record that a member list is read as.
    pub open spec fn decoded(members: Members) -> Result<BlockQuotePropsView, DecodeErrorView> {
        let cite = optional_str(members, "cite"@);
        if cite is Err {
            Err(cite->Err_0)
        } else {
            Ok(BlockQuotePropsView { cite: cite->Ok_0 })
        }
    }

    /// Each field is found under its own key, as what stands for it.
    pub proof fn lemma_encoded(self)
        ensures
            lookup(self.encoded(), "cite"@) == opt_str_value(self.cite),
    {
        broadcast use group_field_lookups;

    }

    /// Reading back the members that the record was written as gives the
    /// record.
    pub proof fn lemma_round_trip(self)
        ensures
            Self::decoded(self.encoded()) == Ok::<Self, DecodeErrorView>(self),
    {
        self.lemma_encoded();
    }

    /// The record is written as no member at all exactly when every field is
    /// at its default.
    pub proof fn lemma_omitted(self)
        ensures
            self.encoded().len() == 0 <==> self == BlockQuotePropsView::initial(),
    {
    }
}

impl BlockQuoteProps {
    /// Writes the record as the members of an object, from which it can be
    /// read back.
    pub fn encode(&self) -> (members: Vec<(String, Json)>)
        ensures
            members_view(members@) == self@.encoded(),
            BlockQuotePropsView::decoded(members_view(members@)) == Ok::<
                BlockQuotePropsView,
                DecodeErrorView,
            >(self@),
    {
        broadcast use lemma_empty_then;

        let mut members = no_members();
        put_opt_str(&mut members, "cite", &self.cite);
        proof {
            self@.lemma_round_trip();
        }
        members
    }

    /// Reads the record from the members of an object.
    pub fn decode(members: &Vec<(String, Json)>) -> (r: Result<BlockQuoteProps, DecodeError>)
        ensures
            result_view(r) == BlockQuotePropsView::decoded(members_view(members@)),
    {
        let cite = read_opt_str(members, "cite")?;
        Ok(BlockQuoteProps { cite })
    }
}

/// The slots of a block quotation.
#[derive(Debug, PartialEq, Eq)]
pub struct BlockQuoteSlots {
    /// What is quoted.
    pub default: Vec<Component>,
}

/// The mathematical model of a [`BlockQuoteSlots`].
pub struct BlockQuoteSlotsView {
    /// What is quoted.
    pub default: Seq<ComponentView>,
}

impl View for BlockQuoteSlots {
    type V = BlockQuoteSlotsView;

    open spec fn view(&self) -> BlockQuoteSlotsView {
        BlockQuoteSlotsView { default: components_view(self.default@) }
    }
}

impl Clone for BlockQuoteSlots {
    fn clone(&self) -> (record: BlockQuoteSlots)
        ensures
            record@ == self@,
        decreases self,
    {
        BlockQuoteSlots { default: clone_components(&self.default) }
    }
}

impl Default for BlockQuoteSlots {
    fn default() -> (record: BlockQuoteSlots)
        ensures
            record@ == BlockQuoteSlotsView::initial(),
    {
        let record = BlockQuoteSlots { default: Vec::new() };
        assert(record@.default =~= Seq::empty());
        record
    }
}

impl BlockQuoteSlotsView {
    /// The record with every field at its default.
    pub open spec fn initial() -> BlockQuoteSlotsView {
        BlockQuoteSlotsView { default: Seq::empty() }
    }

    /// The members that the record is written as.
    pub open spec fn encoded(self) -> Members
        decreases self, 0nat,
    {
        field("default"@, components_value(self.default))
    }

    /// The record that a member list is read as.
    pub open spec fn decoded(members: Members) -> Result<BlockQuoteSlotsView, DecodeErrorView>
        decreases members, 2nat,
    {
        let default = components_at(members, "default"@);
        if default is Err {
            Err(default->Err_0)
        } else {
            Ok(BlockQuoteSlotsView { default: default->Ok_0 })
        }
    }

    /// Each field is found under its own key, as what stands for it;
    /// at least one member is always written.
    pub proof fn lemma_encoded(self)
        ensures
            lookup(self.encoded(), "default"@) == components_value(self.default),
            self.encoded().len() > 0,
    {
        broadcast use group_field_lookups;

    }

    /// Reading back the members that the record was written as gives the
    /// record.
    pub proof fn lemma_round_trip(self)
        ensures
            Self::decoded(self.encoded()) == Ok::<Self, DecodeErrorView>(self),
        decreases self, 0nat,
    {
        self.lemma_encoded();
        lemma_components_round_trip(self.default);
    }
}

impl BlockQuoteSlots {
    /// Writes the record as the members of an object, from which it can be
    /// read back.
    pub fn encode(&self) -> (members: Vec<(String, Json)>)
        ensures
            members_view(members@) == self@.encoded(),
            BlockQuoteSlotsView::decoded(members_view(members@)) == Ok::<
                BlockQuoteSlotsView,
                DecodeErrorView,
            >(self@),
        decreases self, 0nat,
    {
        broadcast use lemma_empty_then;

        let mut members = no_members();
        put_components(&mut members, "default", &self.default);
        proof {
            self@.lemma_round_trip();
        }
        members
    }

    /// Reads the record from the members of an object.
    pub fn decode(members: &Vec<(String, Json)>) -> (r: Result<BlockQuoteSlots, DecodeError>)
        ensures
            result_view(r) == BlockQuoteSlotsView::decoded(members_view(members@)),
        decreases members_view(members@), 2nat,
    {
        let default = read_components(members, "default")?;
        Ok(BlockQuoteSlots { default })
    }
}

/// A quotation set off as a block.
#[derive(Debug, PartialEq, Eq)]
pub struct BlockQuote {
    /// The attributes.
    pub props: BlockQuoteProps,
    /// The children, by slot.
    pub slots: BlockQuoteSlots,
}

/// The mathematical model of a [`BlockQuote`].
pub struct BlockQuoteView {
    /// The attributes.
    pub props: BlockQuotePropsView,
    /// The children, by slot.
    pub slots: BlockQuoteSlotsView,
}

/// The model of a block quotation.
pub open spec fn block_quote_view(kind: BlockQuote) -> BlockQuoteView
    decreases kind,
{
    BlockQuoteView {
        props: kind.props@,
        slots: BlockQuoteSlotsView { default: components_view(kind.slots.default@) },
    }
}

impl View for BlockQuote {
    type V = BlockQuoteView;

    open spec fn view(&self) -> BlockQuoteView {
        block_quote_view(*self)
    }
}

impl Clone for BlockQuote {
    fn clone(&self) -> (kind: BlockQuote)
        ensures
            kind@ == self@,
        decreases self,
    {
        BlockQuote { props: self.props.clone(), slots: self.slots.clone() }
    }
}

impl Default for BlockQuote {
    fn default() -> (kind: BlockQuote)
        ensures
            kind@ == BlockQuoteView::initial(),
    {
        BlockQuote { props: BlockQuoteProps::default(), slots: BlockQuoteSlots::default() }
    }
}

impl BlockQuoteView {
    /// The block quotation with every attribute at its default and no children.
    pub open spec fn initial() -> BlockQuoteView {
        Self { props: BlockQuotePropsView::initial(), slots: BlockQuoteSlotsView::initial() }
    }

    /// The object that the block quotation is written as, without a `type` member.
    pub open spec fn encoded(self) -> JsonView
        decreases self, 0nat,
    {
        kind_object(false, self.props.encoded(), self.slots.encoded())
    }

    /// The block quotation that a value is read as. The shape of the object is checked
    /// first, then the attributes are read, then the slots; the first failure
    /// is the result.
    pub open spec fn decoded(json: JsonView) -> Result<BlockQuoteView, DecodeErrorView>
        decreases json, 1nat,
    {
        match kind_parts(json, false, false, true) {
            Err(e) => Err(e),
            Ok(parts) => {
                let props = BlockQuotePropsView::decoded(parts.0);
                let slots = {
                    proof {
                        lemma_slots_decrease(json, false, false);
                    }
                    BlockQuoteSlotsView::decoded(parts.1)
                };
                if props is Err {
                    Err(props->Err_0)
                } else if slots is Err {
                    Err(slots->Err_0)
                } else {
                    Ok(BlockQuoteView { props: props->Ok_0, slots: slots->Ok_0 })
                }
            },
        }
    }

    /// Reading back the object that the block quotation was written as gives the
    /// block quotation.
    pub proof fn lemma_round_trip(self)
        ensures
            Self::decoded(self.encoded()) == Ok::<Self, DecodeErrorView>(self),
        decreases self, 1nat,
    {
        self.props.lemma_round_trip();
        self.slots.lemma_round_trip();
        self.slots.lemma_encoded();
        lemma_kind_parts_of_object(false, self.props.encoded(), self.slots.encoded(), false, true);
    }

    /// The object has no `props` member exactly when every attribute is at its
    /// default.
    pub proof fn lemma_defaults_left_out(self)
        ensures
            self.encoded() matches JsonView::Object(members) && {
                &&& lookup(members, "props"@) is None <==> self.props
                    == BlockQuotePropsView::initial()
            },
    {
        self.props.lemma_omitted();
        lemma_kind_object_records(false, self.props.encoded(), self.slots.encoded());
    }

    /// A `type` member in front of the members of a value does not change
    /// what the value is read as.
    pub proof fn lemma_decoded_tagged(tag: Seq<char>, json: JsonView)
        ensures
            BlockQuoteView::decoded(tagged(tag, json)) == BlockQuoteView::decoded(json),
    {
        lemma_kind_parts_of_tagged(tag, json, false, false, true);
    }
}

impl BlockQuote {
    /// Writes the block quotation as an object, without a `type` member, from which it
    /// can be read back.
    pub fn encode(&self) -> (json: Json)
        ensures
            json@ == self@.encoded(),
            BlockQuoteView::decoded(json@) == Ok::<BlockQuoteView, DecodeErrorView>(self@),
        decreases self, 0nat,
    {
        proof {
            self@.lemma_round_trip();
        }
        build(false, self.props.encode(), self.slots.encode())
    }

    /// Reads the block quotation from an object; a `type` member, if there is one, is
    /// not looked at.
    pub fn decode(json: &Json) -> (r: Result<BlockQuote, DecodeError>)
        ensures
            result_view(r) == BlockQuoteView::decoded(json@),
        decreases json@, 1nat,
    {
        let parts = split(json, false, false, true)?;
        let none = no_members();
        let props = BlockQuoteProps::decode(or_none(parts.0, &none))?;
        proof {
            lemma_slots_decrease(json@, false, false);
        }
        let slots = BlockQuoteSlots::decode(or_none(parts.1, &none))?;
        Ok(BlockQuote { props, slots })
    }
}

/// The attributes of a callout.
#[derive(Debug, PartialEq, Eq)]
pub struct CalloutProps {
    /// What the callout draws attention to.
    pub callout_type: CalloutType,
}

impl View for CalloutProps {
    type V = CalloutProps;

    open spec fn view(&self) -> CalloutProps {
        *self
    }
}

impl Clone for CalloutProps {
    fn clone(&self) -> (record: CalloutProps)
        ensures
            record@ == self@,
    {
        CalloutProps { callout_type: self.callout_type }
    }
}

impl Default for CalloutProps {
    fn default() -> (record: CalloutProps)
        ensures
            record@ == CalloutProps::initial(),
    {
        CalloutProps { callout_type: CalloutType::Note }
    }
}

impl CalloutProps {
    /// The record with every field at its default.
    pub open spec fn initial() -> CalloutProps {
        CalloutProps { callout_type: CalloutType::Note }
    }

    /// The members that the record is written as.
    pub open spec fn encoded(self) -> Members {
        field("type"@, self.callout_type.value())
    }

    /// The record that a member list is read as.
    pub open spec fn decoded(members: Members) -> Result<CalloutProps, DecodeErrorView> {
        let callout_type = CalloutType::decoded(members, "type"@);
        if callout_type is Err {
            Err(callout_type->Err_0)
        } else {
            Ok(CalloutProps { callout_type: callout_type->Ok_0 })
        }
    }

    /// Each field is found under its own key, as what stands for it.
    pub proof fn lemma_encoded(self)
        ensures
            lookup(self.encoded(), "type"@) == self.callout_type.value(),
    {
        broadcast use group_field_lookups;

    }

    /// Reading back the members that the record was written as gives the
    /// record.
    pub proof fn lemma_round_trip(self)
        ensures
            Self::decoded(self.encoded()) == Ok::<Self, DecodeErrorView>(self),
    {
        self.lemma_encoded();
        self.callout_type.lemma_name();
    }

    /// The record is written as no member at all exactly when every field is
    /// at its default.
    pub proof fn lemma_omitted(self)
        ensures
            self.encoded().len() == 0 <==> self == CalloutProps::initial(),
    {
    }
}

impl CalloutProps {
    /// Writes the record as the members of an object, from which it can be
    /// read back.
    pub fn encode(&self) -> (members: Vec<(String, Json)>)
        ensures
            members_view(members@) == self@.encoded(),
            CalloutProps::decoded(members_view(members@)) == Ok::<
                CalloutProps,
                DecodeErrorView,
            >(self@),
    {
        broadcast use lemma_empty_then;

        let mut members = no_members();
        self.callout_type.encode(&mut members, "type");
        proof {
            self@.lemma_round_trip();
        }
        members
    }

    /// Reads the record from the members of an object.
    pub fn decode(members: &Vec<(String, Json)>) -> (r: Result<CalloutProps, DecodeError>)
        ensures
            result_view(r) == CalloutProps::decoded(members_view(members@)),
    {
        let callout_type = CalloutType::decode(members, "type")?;
        Ok(CalloutProps { callout_type })
    }
}

/// The slots of a callout.
#[derive(Debug, PartialEq, Eq)]
pub struct CalloutSlots {
    /// What the callout says.
    pub default: Vec<Component>,
}

/// The mathematical model of a [`CalloutSlots`].
pub struct CalloutSlotsView {
    /// What the callout says.
    pub default: Seq<ComponentView>,
}

impl View for CalloutSlots {
    type V = CalloutSlotsView;

    open spec fn view(&self) -> CalloutSlotsView {
        CalloutSlotsView { default: components_view(self.default@) }
    }
}

impl Clone for CalloutSlots {
    fn clone(&self) -> (record: CalloutSlots)
        ensures
            record@ == self@,
        decreases self,
    {
        CalloutSlots { default: clone_components(&self.default) }
    }
}

impl Default for CalloutSlots {
    fn default() -> (record: CalloutSlots)
        ensures
            record@ == CalloutSlotsView::initial(),
    {
        let record = CalloutSlots { default: Vec::new() };
        assert(record@.default =~= Seq::empty());
        record
    }
}

impl CalloutSlotsView {
    /// The record with every field at its default.
    pub open spec fn initial() -> CalloutSlotsView {
        CalloutSlotsView { default: Seq::empty() }
    }

    /// The members that the record is written as.
    pub open spec fn encoded(self) -> Members
        decreases self, 0nat,
    {
        field("default"@, components_value(self.default))
    }

    /// The record that a member list is read as.
    pub open spec fn decoded(members: Members) -> Result<CalloutSlotsView, DecodeErrorView>
        decreases members, 2nat,
    {
        let default = components_at(members, "default"@);
        if default is Err {
            Err(default->Err_0)
        } else {
            Ok(CalloutSlotsView { default: default->Ok_0 })
        }
    }

    /// Each field is found under its own key, as what stands for it;
    /// at least one member is always written.
    pub proof fn lemma_encoded(self)
        ensures
            lookup(self.encoded(), "default"@) == components_value(self.default),
            self.encoded().len() > 0,
    {
        broadcast use group_field_lookups;

    }

    /// Reading back the members that the record was written as gives the
    /// record.
    pub proof fn lemma_round_trip(self)
        ensures
            Self::decoded(self.encoded()) == Ok::<Self, DecodeErrorView>(self),
        decreases self, 0nat,
    {
        self.lemma_encoded();
        lemma_components_round_trip(self.default);
    }
}

impl CalloutSlots {
    /// Writes the record as the members of an object, from which it can be
    /// read back.
    pub fn encode(&self) -> (members: Vec<(String, Json)>)
        ensures
            members_view(members@) == self@.encoded(),
            CalloutSlotsView::decoded(members_view(members@)) == Ok::<
                CalloutSlotsView,
                DecodeErrorView,
            >(self@),
        decreases self, 0nat,
    {
        broadcast use lemma_empty_then;

        let mut members = no_members();
        put_components(&mut members, "default", &self.default);
        proof {
            self@.lemma_round_trip();
        }
        members
    }

    /// Reads the record from the members of an object.
    pub fn decode(members: &Vec<(String, Json)>) -> (r: Result<CalloutSlots, DecodeError>)
        ensures
            result_view(r) == CalloutSlotsView::decoded(members_view(members@)),
        decreases members_view(members@), 2nat,
    {
        let default = read_components(members, "default")?;
        Ok(CalloutSlots { default })
    }
}

/// A boxed remark.
#[derive(Debug, PartialEq, Eq)]
pub struct Callout {
    /// The attributes.
    pub props: CalloutProps,
    /// The children, by slot.
    pub slots: CalloutSlots,
}

/// The mathematical model of a [`Callout`].
pub struct CalloutView {
    /// The attributes.
    pub props: CalloutProps,
    /// The children, by slot.
    pub slots: CalloutSlotsView,
}

/// The model of a callout.
pub open spec fn callout_view(kind: Callout) -> CalloutView
    decreases kind,
{
    CalloutView {
        props: kind.props@,
        slots: CalloutSlotsView { default: components_view(kind.slots.default@) },
    }
}

impl View for Callout {
    type V = CalloutView;

    open spec fn view(&self) -> CalloutView {
        callout_view(*self)
    }
}

impl Clone for Callout {
    fn clone(&self) -> (kind: Callout)
        ensures
            kind@ == self@,
        decreases self,
    {
        Callout { props: self.props.clone(), slots: self.slots.clone() }
    }
}

impl Default for Callout {
    fn default() -> (kind: Callout)
        ensures
            kind@ == CalloutView::initial(),
    {
        Callout { props: CalloutProps::default(), slots: CalloutSlots::default() }
    }
}

impl CalloutView {
    /// The callout with every attribute at its default and no children.
    pub open spec fn initial() -> CalloutView {
        Self { props: CalloutProps::initial(), slots: CalloutSlotsView::initial() }
    }

    /// The object that the callout is written as, without a `type` member.
    pub open spec fn encoded(self) -> JsonView
        decreases self, 0nat,
    {
        kind_object(false, self.props.encoded(), self.slots.encoded())
    }

    /// The callout that a value is read as. The shape of the object is checked
    /// first, then the attributes are read, then the slots; the first failure
    /// is the result.
    pub open spec fn decoded(json: JsonView) -> Result<CalloutView, DecodeErrorView>
        decreases json, 1nat,
    {
        match kind_parts(json, false, false, true) {
            Err(e) => Err(e),
            Ok(parts) => {
                let props = CalloutProps::decoded(parts.0);
                let slots = {
                    proof {
                        lemma_slots_decrease(json, false, false);
                    }
                    CalloutSlotsView::decoded(parts.1)
                };
                if props is Err {
                    Err(props->Err_0)
                } else if slots is Err {
                    Err(slots->Err_0)
                } else {
                    Ok(CalloutView { props: props->Ok_0, slots: slots->Ok_0 })
                }
            },
        }
    }

    /// Reading back the object that the callout was written as gives the
    /// callout.
    pub proof fn lemma_round_trip(self)
        ensures
            Self::decoded(self.encoded()) == Ok::<Self, DecodeErrorView>(self),
        decreases self, 1nat,
    {
        self.props.lemma_round_trip();
        self.slots.lemma_round_trip();
        self.slots.lemma_encoded();
        lemma_kind_parts_of_object(false, self.props.encoded(), self.slots.encoded(), false, true);
    }

    /// The object has no `props` member exactly when every attribute is at its
    /// default.
    pub proof fn lemma_defaults_left_out(self)
        ensures
            self.encoded() matches JsonView::Object(members) && {
                &&& lookup(members, "props"@) is None <==> self.props == CalloutProps::initial()
            },
    {
        self.props.lemma_omitted();
        lemma_kind_object_records(false, self.props.encoded(), self.slots.encoded());
    }

    /// A `type` member in front of the members of a value does not change
    /// what the value is read as.
    pub proof fn lemma_decoded_tagged(tag: Seq<char>, json: JsonView)
        ensures
            CalloutView::decoded(tagged(tag, json)) == CalloutView::decoded(json),
    {
        lemma_kind_parts_of_tagged(tag, json, false, false, true);
    }
}

impl Callout {
    /// Writes the callout as an object, without a `type` member, from which it
    /// can be read back.
    pub fn encode(&self) -> (json: Json)
        ensures
            json@ == self@.encoded(),
            CalloutView::decoded(json@) == Ok::<CalloutView, DecodeErrorView>(self@),
        decreases self, 0nat,
    {
        proof {
            self@.lemma_round_trip();
        }
        build(false, self.props.encode(), self.slots.encode())
    }

    /// Reads the callout from an object; a `type` member, if there is one, is
    /// not looked at.
    pub fn decode(json: &Json) -> (r: Result<Callout, DecodeError>)
        ensures
            result_view(r) == CalloutView::decoded(json@),
        decreases json@, 1nat,
    {
        let parts = split(json, false, false, true)?;
        let none = no_members();
        let props = CalloutProps::decode(or_none(parts.0, &none))?;
        proof {
            lemma_slots_decrease(json@, false, false);
        }
        let slots = CalloutSlots::decode(or_none(parts.1, &none))?;
        Ok(Callout { props, slots })
    }
}

/// The attributes of a toggle: it has none.
#[derive(Debug, PartialEq, Eq)]
pub struct ToggleProps;

impl View for ToggleProps {
    type V = ToggleProps;

    open spec fn view(&self) -> ToggleProps {
        *self
    }
}

impl Clone for ToggleProps {
    fn clone(&self) -> (record: ToggleProps)
        ensures
            record@ == self@,
    {
        ToggleProps
    }
}

impl Default for ToggleProps {
    fn default() -> (record: ToggleProps)
        ensures
            record@ == ToggleProps::initial(),
    {
        ToggleProps
    }
}

impl ToggleProps {
    /// The record with every field at its default.
    pub open spec fn initial() -> ToggleProps {
        ToggleProps
    }

    /// The members that the record is written as.
    pub open spec fn encoded(self) -> Members {
        Seq::empty()
    }

    /// The record that a member list is read as: whatever the list holds,
    /// the record takes nothing from it.
    pub open spec fn decoded(members: Members) -> Result<ToggleProps, DecodeErrorView> {
        Ok(ToggleProps)
    }

    /// Reading back the members that the record was written as gives the
    /// record.
    pub proof fn lemma_round_trip(self)
        ensures
            Self::decoded(self.encoded()) == Ok::<Self, DecodeErrorView>(self),
    {
    }
}

impl ToggleProps {
    /// Writes the record as the members of an object, from which it can be
    /// read back.
    pub fn encode(&self) -> (members: Vec<(String, Json)>)
        ensures
            members_view(members@) == self@.encoded(),
            ToggleProps::decoded(members_view(members@)) == Ok::<
                ToggleProps,
                DecodeErrorView,
            >(self@),
    {
        no_members()
    }

    /// Reads the record from the members of an object.
    pub fn decode(members: &Vec<(String, Json)>) -> (r: Result<ToggleProps, DecodeError>)
        ensures
            result_view(r) == ToggleProps::decoded(members_view(members@)),
    {
        Ok(ToggleProps)
    }
}

/// The slots of a toggle.
#[derive(Debug, PartialEq, Eq)]
pub struct ToggleSlots {
    /// What the toggle shows when it is open.
    pub default: Vec<Component>,
    /// The text that is always shown.
    pub summary: Vec<InlineComponent>,
}

/// The mathematical model of a [`ToggleSlots`].
pub struct ToggleSlotsView {
    /// What the toggle shows when it is open.
    pub default: Seq<ComponentView>,
    /// The text that is always shown.
    pub summary: Seq<InlineComponentView>,
}

impl View for ToggleSlots {
    type V = ToggleSlotsView;

    open spec fn view(&self) -> ToggleSlotsView {
        ToggleSlotsView {
            default: components_view(self.default@),
            summary: inlines_view(self.summary@),
        }
    }
}

impl Clone for ToggleSlots {
    fn clone(&self) -> (record: ToggleSlots)
        ensures
            record@ == self@,
        decreases self,
    {
        ToggleSlots {
            default: clone_components(&self.default),
            summary: clone_inlines(&self.summary),
        }
    }
}

impl Default for ToggleSlots {
    fn default() -> (record: ToggleSlots)
        ensures
            record@ == ToggleSlotsView::initial(),
    {
        let record = ToggleSlots {
            default: Vec::new(),
            summary: Vec::new(),
        };
        assert(record@.default =~= Seq::empty());
        assert(record@.summary =~= Seq::empty());
        record
    }
}

impl ToggleSlotsView {
    /// The record with every field at its default.
    pub open spec fn initial() -> ToggleSlotsView {
        ToggleSlotsView {
            default: Seq::empty(),
            summary: Seq::empty(),
        }
    }

    /// The members that the record is written as.
    pub open spec fn encoded(self) -> Members
        decreases self, 0nat,
    {
        field("default"@, components_value(self.default))
            + field("summary"@, inlines_value(self.summary))
    }

    /// The record that a member list is read as. Where more than one field
    /// fails, the failure of the field that is declared first is the result.
    pub open spec fn decoded(members: Members) -> Result<ToggleSlotsView, DecodeErrorView>
        decreases members, 2nat,
    {
        let default = components_at(members, "default"@);
        let summary = inlines_at(members, "summary"@);
        if default is Err {
            Err(default->Err_0)
        } else if summary is Err {
            Err(summary->Err_0)
        } else {
            Ok(
                ToggleSlotsView {
                    default: default->Ok_0,
                    summary: summary->Ok_0,
                },
            )
        }
    }

    /// Each field is found under its own key, as what stands for it;
    /// at least one member is always written.
    pub proof fn lemma_encoded(self)
        ensures
            lookup(self.encoded(), "default"@) == components_value(self.default),
            lookup(self.encoded(), "summary"@) == inlines_value(self.summary),
            self.encoded().len() > 0,
    {
        broadcast use group_field_lookups;

        reveal_strlit("default");
        reveal_strlit("summary");
        assert("default"@.len() == 7);
        assert("summary"@.len() == 7);
        assert("default"@[0] == 'd');
        assert("summary"@[0] == 's');
    }

    /// Reading back the members that the record was written as gives the
    /// record.
    pub proof fn lemma_round_trip(self)
        ensures
            Self::decoded(self.encoded()) == Ok::<Self, DecodeErrorView>(self),
        decreases self, 0nat,
    {
        self.lemma_encoded();
        lemma_components_round_trip(self.default);
        lemma_inlines_round_trip(self.summary);
    }
}

impl ToggleSlots {
    /// Writes the record as the members of an object, from which it can be
    /// read back.
    pub fn encode(&self) -> (members: Vec<(String, Json)>)
        ensures
            members_view(members@) == self@.encoded(),
            ToggleSlotsView::decoded(members_view(members@)) == Ok::<
                ToggleSlotsView,
                DecodeErrorView,
            >(self@),
        decreases self, 0nat,
    {
        broadcast use lemma_empty_then;

        let mut members = no_members();
        put_components(&mut members, "default", &self.default);
        put_inlines(&mut members, "summary", &self.summary);
        proof {
            self@.lemma_round_trip();
        }
        members
    }

    /// Reads the record from the members of an object.
    pub fn decode(members: &Vec<(String, Json)>) -> (r: Result<ToggleSlots, DecodeError>)
        ensures
            result_view(r) == ToggleSlotsView::decoded(members_view(members@)),
        decreases members_view(members@), 2nat,
    {
        let default = read_components(members, "default")?;
        let summary = read_inlines(members, "summary")?;
        Ok(ToggleSlots {
            default,
            summary,
        })
    }
}

/// A part that can be folded away under its summary.
#[derive(Debug, PartialEq, Eq)]
pub struct Toggle {
    /// The attributes.
    pub props: ToggleProps,
    /// The children, by slot.
    pub slots: ToggleSlots,
}

/// The mathematical model of a [`Toggle`].
pub struct ToggleView {
    /// The attributes.
    pub props: ToggleProps,
    /// The children, by slot.
    pub slots: ToggleSlotsView,
}

/// The model of a toggle.
pub open spec fn toggle_view(kind: Toggle) -> ToggleView
    decreases kind,
{
    ToggleView {
        props: kind.props@,
        slots: ToggleSlotsView {
            default: components_view(kind.slots.default@),
            summary: inlines_view(kind.slots.summary@),
        },
    }
}

impl View for Toggle {
    type V = ToggleView;

    open spec fn view(&self) -> ToggleView {
        toggle_view(*self)
    }
}

impl Clone for Toggle {
    fn clone(&self) -> (kind: Toggle)
        ensures
            kind@ == self@,
        decreases self,
    {
        Toggle { props: self.props.clone(), slots: self.slots.clone() }
    }
}

impl Default for Toggle {
    fn default() -> (kind: Toggle)
        ensures
            kind@ == ToggleView::initial(),
    {
        Toggle { props: ToggleProps::default(), slots: ToggleSlots::default() }
    }
}

impl ToggleView {
    /// The toggle with every attribute at its default and no children.
    pub open spec fn initial() -> ToggleView {
        Self { props: ToggleProps::initial(), slots: ToggleSlotsView::initial() }
    }

    /// The object that the toggle is written as, without a `type` member.
    pub open spec fn encoded(self) -> JsonView
        decreases self, 0nat,
    {
        kind_object(false, self.props.encoded(), self.slots.encoded())
    }

    /// The toggle that a value is read as. The shape of the object is checked
    /// first, then the attributes are read, then the slots; the first failure
    /// is the result.
    pub open spec fn decoded(json: JsonView) -> Result<ToggleView, DecodeErrorView>
        decreases json, 1nat,
    {
        match kind_parts(json, false, false, true) {
            Err(e) => Err(e),
            Ok(parts) => {
                let props = ToggleProps::decoded(parts.0);
                let slots = {
                    proof {
                        lemma_slots_decrease(json, false, false);
                    }
                    ToggleSlotsView::decoded(parts.1)
                };
                if props is Err {
                    Err(props->Err_0)
                } else if slots is Err {
                    Err(slots->Err_0)
                } else {
                    Ok(ToggleView { props: props->Ok_0, slots: slots->Ok_0 })
                }
            },
        }
    }

    /// Reading back the object that the toggle was written as gives the
    /// toggle.
    pub proof fn lemma_round_trip(self)
        ensures
            Self::decoded(self.encoded()) == Ok::<Self, DecodeErrorView>(self),
        decreases self, 1nat,
    {
        self.props.lemma_round_trip();
        self.slots.lemma_round_trip();
        self.slots.lemma_encoded();
        lemma_kind_parts_of_object(false, self.props.encoded(), self.slots.encoded(), false, true);
    }

    /// The object has no `props` member.
    pub proof fn lemma_defaults_left_out(self)
        ensures
            self.encoded() matches JsonView::Object(members) && lookup(members, "props"@) is None,
    {
        lemma_kind_object_records(false, self.props.encoded(), self.slots.encoded());
    }

    /// A `type` member in front of the members of a value does not change
    /// what the value is read as.
    pub proof fn lemma_decoded_tagged(tag: Seq<char>, json: JsonView)
        ensures
            ToggleView::decoded(tagged(tag, json)) == ToggleView::decoded(json),
    {
        lemma_kind_parts_of_tagged(tag, json, false, false, true);
    }
}

impl Toggle {
    /// Writes the toggle as an object, without a `type` member, from which it
    /// can be read back.
    pub fn encode(&self) -> (json: Json)
        ensures
            json@ == self@.encoded(),
            ToggleView::decoded(json@) == Ok::<ToggleView, DecodeErrorView>(self@),
        decreases self, 0nat,
    {
        proof {
            self@.lemma_round_trip();
        }
        build(false, self.props.encode(), self.slots.encode())
    }

    /// Reads the toggle from an object; a `type` member, if there is one, is
    /// not looked at.
    pub fn decode(json: &Json) -> (r: Result<Toggle, DecodeError>)
        ensures
            result_view(r) == ToggleView::decoded(json@),
        decreases json@, 1nat,
    {
        let parts = split(json, false, false, true)?;
        let none = no_members();
        let props = ToggleProps::decode(or_none(parts.0, &none))?;
        proof {
            lemma_slots_decrease(json@, false, false);
        }
        let slots = ToggleSlots::decode(or_none(parts.1, &none))?;
        Ok(Toggle { props, slots })
    }
}

/// The attributes of a table.
#[derive(Debug, PartialEq, Eq)]
pub struct TableProps {
    /// The first row holds headers.
    pub has_column_header: bool,
    /// The first column holds headers.
    pub has_row_header: bool,
    /// The caption of the table.
    pub caption: Option<String>,
}

/// The mathematical model of a [`TableProps`].
pub struct TablePropsView {
    /// The first row holds headers.
    pub has_column_header: bool,
    /// The first column holds headers.
    pub has_row_header: bool,
    /// The caption of the table.
    pub caption: Option<Seq<char>>,
}

impl View for TableProps {
    type V = TablePropsView;

    open spec fn view(&self) -> TablePropsView {
        TablePropsView {
            has_column_header: self.has_column_header,
            has_row_header: self.has_row_header,
            caption: opt_view(self.caption),
        }
    }
}

impl Clone for TableProps {
    fn clone(&self) -> (record: TableProps)
        ensures
            record@ == self@,
    {
        TableProps {
            has_column_header: self.has_column_header,
            has_row_header: self.has_row_header,
            caption: clone_opt_str(&self.caption),
        }
    }
}

impl Default for TableProps {
    fn default() -> (record: TableProps)
        ensures
            record@ == TablePropsView::initial(),
    {
        TableProps {
            has_column_header: false,
            has_row_header: false,
            caption: None,
        }
    }
}

impl TablePropsView {
    /// The record with every field at its default.
    pub open spec fn initial() -> TablePropsView {
        TablePropsView {
            has_column_header: false,
            has_row_header: false,
            caption: None,
        }
    }

    /// The members that the record is written as.
    pub open spec fn encoded(self) -> Members {
        field("hasColumnHeader"@, flag_value(self.has_column_header))
            + field("hasRowHeader"@, flag_value(self.has_row_header))
            + field("caption"@, opt_str_value(self.caption))
    }

    /// The record that a member list is read as. Where more than one field
    /// fails, the failure of the field that is declared first is the result.
    pub open spec fn decoded(members: Members) -> Result<TablePropsView, DecodeErrorView> {
        let has_column_header = flag(members, "hasColumnHeader"@);
        let has_row_header = flag(members, "hasRowHeader"@);
        let caption = optional_str(members, "caption"@);
        if has_column_header is Err {
            Err(has_column_header->Err_0)
        } else if has_row_header is Err {
            Err(has_row_header->Err_0)
        } else if caption is Err {
            Err(caption->Err_0)
        } else {
            Ok(
                TablePropsView {
                    has_column_header: has_column_header->Ok_0,
                    has_row_header: has_row_header->Ok_0,
                    caption: caption->Ok_0,
                },
            )
        }
    }

    /// Each field is found under its own key, as what stands for it.
    pub proof fn lemma_encoded(self)
        ensures
            lookup(self.encoded(), "hasColumnHeader"@) == flag_value(self.has_column_header),
            lookup(self.encoded(), "hasRowHeader"@) == flag_value(self.has_row_header),
            lookup(self.encoded(), "caption"@) == opt_str_value(self.caption),
    {
        broadcast use group_field_lookups;

        reveal_strlit("hasColumnHeader");
        reveal_strlit("hasRowHeader");
        reveal_strlit("caption");
        assert("hasColumnHeader"@.len() == 15);
        assert("hasRowHeader"@.len() == 12);
        assert("caption"@.len() == 7);
    }

    /// Reading back the members that the record was written as gives the
    /// record.
    pub proof fn lemma_round_trip(self)
        ensures
            Self::decoded(self.encoded()) == Ok::<Self, DecodeErrorView>(self),
    {
        self.lemma_encoded();
    }

    /// The record is written as no member at all exactly when every field is
    /// at its default.
    pub proof fn lemma_omitted(self)
        ensures
            self.encoded().len() == 0 <==> self == TablePropsView::initial(),
    {
    }
}

impl TableProps {
    /// Writes the record as the members of an object, from which it can be
    /// read back.
    pub fn encode(&self) -> (members: Vec<(String, Json)>)
        ensures
            members_view(members@) == self@.encoded(),
            TablePropsView::decoded(members_view(members@)) == Ok::<
                TablePropsView,
                DecodeErrorView,
            >(self@),
    {
        broadcast use lemma_empty_then;

        let mut members = no_members();
        put_flag(&mut members, "hasColumnHeader", self.has_column_header);
        put_flag(&mut members, "hasRowHeader", self.has_row_header);
        put_opt_str(&mut members, "caption", &self.caption);
        proof {
            self@.lemma_round_trip();
        }
        members
    }

    /// Reads the record from the members of an object.
    pub fn decode(members: &Vec<(String, Json)>) -> (r: Result<TableProps, DecodeError>)
        ensures
            result_view(r) == TablePropsView::decoded(members_view(members@)),
    {
        let has_column_header = read_flag(members, "hasColumnHeader")?;
        let has_row_header = read_flag(members, "hasRowHeader")?;
        let caption = read_opt_str(members, "caption")?;
        Ok(TableProps {
            has_column_header,
            has_row_header,
            caption,
        })
    }
}

/// The slots of a table.
#[derive(Debug, PartialEq, Eq)]
pub struct TableSlots {
    /// The rows of the header, if the table has one.
    pub header: Option<Vec<Component>>,
    /// The rows of the body, in order.
    pub body: Vec<Component>,
}

/// The mathematical model of a [`TableSlots`].
pub struct TableSlotsView {
    /// The rows of the header, if the table has one.
    pub header: Option<Seq<ComponentView>>,
    /// The rows of the body, in order.
    pub body: Seq<ComponentView>,
}

impl View for TableSlots {
    type V = TableSlotsView;

    open spec fn view(&self) -> TableSlotsView {
        TableSlotsView {
            header: opt_components_view(self.header),
            body: components_view(self.body@),
        }
    }
}

impl Clone for TableSlots {
    fn clone(&self) -> (record: TableSlots)
        ensures
            record@ == self@,
        decreases self,
    {
        TableSlots {
            header: clone_opt_components(&self.header),
            body: clone_components(&self.body),
        }
    }
}

impl Default for TableSlots {
    fn default() -> (record: TableSlots)
        ensures
            record@ == TableSlotsView::initial(),
    {
        let record = TableSlots {
            header: None,
            body: Vec::new(),
        };
        assert(record@.body =~= Seq::empty());
        record
    }
}

impl TableSlotsView {
    /// The record with every field at its default.
    pub open spec fn initial() -> TableSlotsView {
        TableSlotsView {
            header: None,
            body: Seq::empty(),
        }
    }

    /// The members that the record is written as.
    pub open spec fn encoded(self) -> Members
        decreases self, 0nat,
    {
        field("header"@, opt_components_value(self.header))
            + field("body"@, components_value(self.body))
    }

    /// The record that a member list is read as. Where more than one field
    /// fails, the failure of the field that is declared first is the result.
    pub open spec fn decoded(members: Members) -> Result<TableSlotsView, DecodeErrorView>
        decreases members, 2nat,
    {
        let header = opt_components_at(members, "header"@);
        let body = components_at(members, "body"@);
        if header is Err {
            Err(header->Err_0)
        } else if body is Err {
            Err(body->Err_0)
        } else {
            Ok(
                TableSlotsView {
                    header: header->Ok_0,
                    body: body->Ok_0,
                },
            )
        }
    }

    /// Each field is found under its own key, as what stands for it;
    /// at least one member is always written.
    pub proof fn lemma_encoded(self)
        ensures
            lookup(self.encoded(), "header"@) == opt_components_value(self.header),
            lookup(self.encoded(), "body"@) == components_value(self.body),
            self.encoded().len() > 0,
    {
        broadcast use group_field_lookups;

        reveal_strlit("header");
        reveal_strlit("body");
        assert("header"@.len() == 6);
        assert("body"@.len() == 4);
    }

    /// Reading back the members that the record was written as gives the
    /// record.
    pub proof fn lemma_round_trip(self)
        ensures
            Self::decoded(self.encoded()) == Ok::<Self, DecodeErrorView>(self),
        decreases self, 0nat,
    {
        self.lemma_encoded();
        lemma_opt_components_round_trip(self.header);
        lemma_components_round_trip(self.body);
    }
}

impl TableSlots {
    /// Writes the record as the members of an object, from which it can be
    /// read back.
    pub fn encode(&self) -> (members: Vec<(String, Json)>)
        ensures
            members_view(members@) == self@.encoded(),
            TableSlotsView::decoded(members_view(members@)) == Ok::<
                TableSlotsView,
                DecodeErrorView,
            >(self@),
        decreases self, 0nat,
    {
        broadcast use lemma_empty_then;

        let mut members = no_members();
        put_opt_components(&mut members, "header", &self.header);
        put_components(&mut members, "body", &self.body);
        proof {
            self@.lemma_round_trip();
        }
        members
    }

    /// Reads the record from the members of an object.
    pub fn decode(members: &Vec<(String, Json)>) -> (r: Result<TableSlots, DecodeError>)
        ensures
            result_view(r) == TableSlotsView::decoded(members_view(members@)),
        decreases members_view(members@), 2nat,
    {
        let header = read_opt_components(members, "header")?;
        let body = read_components(members, "body")?;
        Ok(TableSlots {
            header,
            body,
        })
    }
}

/// A table.
#[derive(Debug, PartialEq, Eq)]
pub struct Table {
    /// The attributes.
    pub props: TableProps,
    /// The children, by slot.
    pub slots: TableSlots,
}

/// The mathematical model of a [`Table`].
pub struct TableView {
    /// The attributes.
    pub props: TablePropsView,
    /// The children, by slot.
    pub slots: TableSlotsView,
}

/// The model of a table.
pub open spec fn table_view(kind: Table) -> TableView
    decreases kind,
{
    TableView {
        props: kind.props@,
        slots: TableSlotsView {
            header: opt_components_view(kind.slots.header),
            body: components_view(kind.slots.body@),
        },
    }
}

impl View for Table {
    type V = TableView;

    open spec fn view(&self) -> TableView {
        table_view(*self)
    }
}

impl Clone for Table {
    fn clone(&self) -> (kind: Table)
        ensures
            kind@ == self@,
        decreases self,
    {
        Table { props: self.props.clone(), slots: self.slots.clone() }
    }
}

impl Default for Table {
    fn default() -> (kind: Table)
        ensures
            kind@ == TableView::initial(),
    {
        Table { props: TableProps::default(), slots: TableSlots::default() }
    }
}

impl TableView {
    /// The table with every attribute at its default and no children.
    pub open spec fn initial() -> TableView {
        Self { props: TablePropsView::initial(), slots: TableSlotsView::initial() }
    }

    /// The object that the table is written as, without a `type` member.
    pub open spec fn encoded(self) -> JsonView
        decreases self, 0nat,
    {
        kind_object(false, self.props.encoded(), self.slots.encoded())
    }

    /// The table that a value is read as. The shape of the object is checked
    /// first, then the attributes are read, then the slots; the first failure
    /// is the result.
    pub open spec fn decoded(json: JsonView) -> Result<TableView, DecodeErrorView>
        decreases json, 1nat,
    {
        match kind_parts(json, false, false, true) {
            Err(e) => Err(e),
            Ok(parts) => {
                let props = TablePropsView::decoded(parts.0);
                let slots = {
                    proof {
                        lemma_slots_decrease(json, false, false);
                    }
                    TableSlotsView::decoded(parts.1)
                };
                if props is Err {
                    Err(props->Err_0)
                } else if slots is Err {
                    Err(slots->Err_0)
                } else {
                    Ok(TableView { props: props->Ok_0, slots: slots->Ok_0 })
                }
            },
        }
    }

    /// Reading back the object that the table was written as gives the
    /// table.
    pub proof fn lemma_round_trip(self)
        ensures
            Self::decoded(self.encoded()) == Ok::<Self, DecodeErrorView>(self),
        decreases self, 1nat,
    {
        self.props.lemma_round_trip();
        self.slots.lemma_round_trip();
        self.slots.lemma_encoded();
        lemma_kind_parts_of_object(false, self.props.encoded(), self.slots.encoded(), false, true);
    }

    /// The object has no `props` member exactly when every attribute is at its
    /// default.
    pub proof fn lemma_defaults_left_out(self)
        ensures
            self.encoded() matches JsonView::Object(members) && {
                &&& lookup(members, "props"@) is None <==> self.props == TablePropsView::initial()
            },
    {
        self.props.lemma_omitted();
        lemma_kind_object_records(false, self.props.encoded(), self.slots.encoded());
    }

    /// A `type` member in front of the members of a value does not change
    /// what the value is read as.
    pub proof fn lemma_decoded_tagged(tag: Seq<char>, json: JsonView)
        ensures
            TableView::decoded(tagged(tag, json)) == TableView::decoded(json),
    {
        lemma_kind_parts_of_tagged(tag, json, false, false, true);
    }
}

impl Table {
    /// Writes the table as an object, without a `type` member, from which it
    /// can be read back.
    pub fn encode(&self) -> (json: Json)
        ensures
            json@ == self@.encoded(),
            TableView::decoded(json@) == Ok::<TableView, DecodeErrorView>(self@),
        decreases self, 0nat,
    {
        proof {
            self@.lemma_round_trip();
        }
        build(false, self.props.encode(), self.slots.encode())
    }

    /// Reads the table from an object; a `type` member, if there is one, is
    /// not looked at.
    pub fn decode(json: &Json) -> (r: Result<Table, DecodeError>)
        ensures
            result_view(r) == TableView::decoded(json@),
        decreases json@, 1nat,
    {
        let parts = split(json, false, false, true)?;
        let none = no_members();
        let props = TableProps::decode(or_none(parts.0, &none))?;
        proof {
            lemma_slots_decrease(json@, false, false);
        }
        let slots = TableSlots::decode(or_none(parts.1, &none))?;
        Ok(Table { props, slots })
    }
}

/// The attributes of a table row: it has none.
#[derive(Debug, PartialEq, Eq)]
pub struct TableRowProps;

impl View for TableRowProps {
    type V = TableRowProps;

    open spec fn view(&self) -> TableRowProps {
        *self
    }
}

impl Clone for TableRowProps {
    fn clone(&self) -> (record: TableRowProps)
        ensures
            record@ == self@,
    {
        TableRowProps
    }
}

impl Default for TableRowProps {
    fn default() -> (record: TableRowProps)
        ensures
            record@ == TableRowProps::initial(),
    {
        TableRowProps
    }
}

impl TableRowProps {
    /// The record with every field at its default.
    pub open spec fn initial() -> TableRowProps {
        TableRowProps
    }

    /// The members that the record is written as.
    pub open spec fn encoded(self) -> Members {
        Seq::empty()
    }

    /// The record that a member list is read as: whatever the list holds,
    /// the record takes nothing from it.
    pub open spec fn decoded(members: Members) -> Result<TableRowProps, DecodeErrorView> {
        Ok(TableRowProps)
    }

    /// Reading back the members that the record was written as gives the
    /// record.
    pub proof fn lemma_round_trip(self)
        ensures
            Self::decoded(self.encoded()) == Ok::<Self, DecodeErrorView>(self),
    {
    }
}

impl TableRowProps {
    /// Writes the record as the members of an object, from which it can be
    /// read back.
    pub fn encode(&self) -> (members: Vec<(String, Json)>)
        ensures
            members_view(members@) == self@.encoded(),
            TableRowProps::decoded(members_view(members@)) == Ok::<
                TableRowProps,
                DecodeErrorView,
            >(self@),
    {
        no_members()
    }

    /// Reads the record from the members of an object.
    pub fn decode(members: &Vec<(String, Json)>) -> (r: Result<TableRowProps, DecodeError>)
        ensures
            result_view(r) == TableRowProps::decoded(members_view(members@)),
    {
        Ok(TableRowProps)
    }
}

/// The slots of a table row.
#[derive(Debug, PartialEq, Eq)]
pub struct TableRowSlots {
    /// The cells of the row, in order.
    pub default: Vec<Component>,
}

/// The mathematical model of a [`TableRowSlots`].
pub struct TableRowSlotsView {
    /// The cells of the row, in order.
    pub default: Seq<ComponentView>,
}

impl View for TableRowSlots {
    type V = TableRowSlotsView;

    open spec fn view(&self) -> TableRowSlotsView {
        TableRowSlotsView { default: components_view(self.default@) }
    }
}

impl Clone for TableRowSlots {
    fn clone(&self) -> (record: TableRowSlots)
        ensures
            record@ == self@,
        decreases self,
    {
        TableRowSlots { default: clone_components(&self.default) }
    }
}

impl Default for TableRowSlots {
    fn default() -> (record: TableRowSlots)
        ensures
            record@ == TableRowSlotsView::initial(),
    {
        let record = TableRowSlots { default: Vec::new() };
        assert(record@.default =~= Seq::empty());
        record
    }
}

impl TableRowSlotsView {
    /// The record with every field at its default.
    pub open spec fn initial() -> TableRowSlotsView {
        TableRowSlotsView { default: Seq::empty() }
    }

    /// The members that the record is written as.
    pub open spec fn encoded(self) -> Members
        decreases self, 0nat,
    {
        field("default"@, components_value(self.default))
    }

    /// The record that a member list is read as.
    pub open spec fn decoded(members: Members) -> Result<TableRowSlotsView, DecodeErrorView>
        decreases members, 2nat,
    {
        let default = components_at(members, "default"@);
        if default is Err {
            Err(default->Err_0)
        } else {
            Ok(TableRowSlotsView { default: default->Ok_0 })
        }
    }

    /// Each field is found under its own key, as what stands for it;
    /// at least one member is always written.
    pub proof fn lemma_encoded(self)
        ensures
            lookup(self.encoded(), "default"@) == components_value(self.default),
            self.encoded().len() > 0,
    {
        broadcast use group_field_lookups;

    }

    /// Reading back the members that the record was written as gives the
    /// record.
    pub proof fn lemma_round_trip(self)
        ensures
            Self::decoded(self.encoded()) == Ok::<Self, DecodeErrorView>(self),
        decreases self, 0nat,
    {
        self.lemma_encoded();
        lemma_components_round_trip(self.default);
    }
}

impl TableRowSlots {
    /// Writes the record as the members of an object, from which it can be
    /// read back.
    pub fn encode(&self) -> (members: Vec<(String, Json)>)
        ensures
            members_view(members@) == self@.encoded(),
            TableRowSlotsView::decoded(members_view(members@)) == Ok::<
                TableRowSlotsView,
                DecodeErrorView,
            >(self@),
        decreases self, 0nat,
    {
        broadcast use lemma_empty_then;

        let mut members = no_members();
        put_components(&mut members, "default", &self.default);
        proof {
            self@.lemma_round_trip();
        }
        members
    }

    /// Reads the record from the members of an object.
    pub fn decode(members: &Vec<(String, Json)>) -> (r: Result<TableRowSlots, DecodeError>)
        ensures
            result_view(r) == TableRowSlotsView::decoded(members_view(members@)),
        decreases members_view(members@), 2nat,
    {
        let default = read_components(members, "default")?;
        Ok(TableRowSlots { default })
    }
}

/// One row of a table.
#[derive(Debug, PartialEq, Eq)]
pub struct TableRow {
    /// The attributes.
    pub props: TableRowProps,
    /// The children, by slot.
    pub slots: TableRowSlots,
}

/// The mathematical model of a [`TableRow`].
pub struct TableRowView {
    /// The attributes.
    pub props: TableRowProps,
    /// The children, by slot.
    pub slots: TableRowSlotsView,
}

/// The model of a table row.
pub open spec fn table_row_view(kind: TableRow) -> TableRowView
    decreases kind,
{
    TableRowView {
        props: kind.props@,
        slots: TableRowSlotsView { default: components_view(kind.slots.default@) },
    }
}

impl View for TableRow {
    type V = TableRowView;

    open spec fn view(&self) -> TableRowView {
        table_row_view(*self)
    }
}

impl Clone for TableRow {
    fn clone(&self) -> (kind: TableRow)
        ensures
            kind@ == self@,
        decreases self,
    {
        TableRow { props: self.props.clone(), slots: self.slots.clone() }
    }
}

impl Default for TableRow {
    fn default() -> (kind: TableRow)
        ensures
            kind@ == TableRowView::initial(),
    {
        TableRow { props: TableRowProps::default(), slots: TableRowSlots::default() }
    }
}

impl TableRowView {
    /// The table row with every attribute at its default and no children.
    pub open spec fn initial() -> TableRowView {
        Self { props: TableRowProps::initial(), slots: TableRowSlotsView::initial() }
    }

    /// The object that the table row is written as, without a `type` member.
    pub open spec fn encoded(self) -> JsonView
        decreases self, 0nat,
    {
        kind_object(false, self.props.encoded(), self.slots.encoded())
    }

    /// The table row that a value is read as. The shape of the object is checked
    /// first, then the attributes are read, then the slots; the first failure
    /// is the result.
    pub open spec fn decoded(json: JsonView) -> Result<TableRowView, DecodeErrorView>
        decreases json, 1nat,
    {
        match kind_parts(json, false, false, true) {
            Err(e) => Err(e),
            Ok(parts) => {
                let props = TableRowProps::decoded(parts.0);
                let slots = {
                    proof {
                        lemma_slots_decrease(json, false, false);
                    }
                    TableRowSlotsView::decoded(parts.1)
                };
                if props is Err {
                    Err(props->Err_0)
                } else if slots is Err {
                    Err(slots->Err_0)
                } else {
                    Ok(TableRowView { props: props->Ok_0, slots: slots->Ok_0 })
                }
            },
        }
    }

    /// Reading back the object that the table row was written as gives the
    /// table row.
    pub proof fn lemma_round_trip(self)
        ensures
            Self::decoded(self.encoded()) == Ok::<Self, DecodeErrorView>(self),
        decreases self, 1nat,
    {
        self.props.lemma_round_trip();
        self.slots.lemma_round_trip();
        self.slots.lemma_encoded();
        lemma_kind_parts_of_object(false, self.props.encoded(), self.slots.encoded(), false, true);
    }

    /// The object has no `props` member.
    pub proof fn lemma_defaults_left_out(self)
        ensures
            self.encoded() matches JsonView::Object(members) && lookup(members, "props"@) is None,
    {
        lemma_kind_object_records(false, self.props.encoded(), self.slots.encoded());
    }

    /// A `type` member in front of the members of a value does not change
    /// what the value is read as.
    pub proof fn lemma_decoded_tagged(tag: Seq<char>, json: JsonView)
        ensures
            TableRowView::decoded(tagged(tag, json)) == TableRowView::decoded(json),
    {
        lemma_kind_parts_of_tagged(tag, json, false, false, true);
    }
}

impl TableRow {
    /// Writes the table row as an object, without a `type` member, from which it
    /// can be read back.
    pub fn encode(&self) -> (json: Json)
        ensures
            json@ == self@.encoded(),
            TableRowView::decoded(json@) == Ok::<TableRowView, DecodeErrorView>(self@),
        decreases self, 0nat,
    {
        proof {
            self@.lemma_round_trip();
        }
        build(false, self.props.encode(), self.slots.encode())
    }

    /// Reads the table row from an object; a `type` member, if there is one, is
    /// not looked at.
    pub fn decode(json: &Json) -> (r: Result<TableRow, DecodeError>)
        ensures
            result_view(r) == TableRowView::decoded(json@),
        decreases json@, 1nat,
    {
        let parts = split(json, false, false, true)?;
        let none = no_members();
        let props = TableRowProps::decode(or_none(parts.0, &none))?;
        proof {
            lemma_slots_decrease(json@, false, false);
        }
        let slots = TableRowSlots::decode(or_none(parts.1, &none))?;
        Ok(TableRow { props, slots })
    }
}

/// The attributes of a column list: it has none.
#[derive(Debug, PartialEq, Eq)]
pub struct ColumnListProps {}

impl View for ColumnListProps {
    type V = ColumnListProps;

    open spec fn view(&self) -> ColumnListProps {
        *self
    }
}

impl Clone for ColumnListProps {
    fn clone(&self) -> (record: ColumnListProps)
        ensures
            record@ == self@,
    {
        ColumnListProps {}
    }
}

impl Default for ColumnListProps {
    fn default() -> (record: ColumnListProps)
        ensures
            record@ == ColumnListProps::initial(),
    {
        ColumnListProps {}
    }
}

impl ColumnListProps {
    /// The record with every field at its default.
    pub open spec fn initial() -> ColumnListProps {
        ColumnListProps {}
    }

    /// The members that the record is written as.
    pub open spec fn encoded(self) -> Members {
        Seq::empty()
    }

    /// The record that a member list is read as: whatever the list holds,
    /// the record takes nothing from it.
    pub open spec fn decoded(members: Members) -> Result<ColumnListProps, DecodeErrorView> {
        Ok(ColumnListProps {})
    }

    /// Reading back the members that the record was written as gives the
    /// record.
    pub proof fn lemma_round_trip(self)
        ensures
            Self::decoded(self.encoded()) == Ok::<Self, DecodeErrorView>(self),
    {
    }
}

impl ColumnListProps {
    /// Writes the record as the members of an object, from which it can be
    /// read back.
    pub fn encode(&self) -> (members: Vec<(String, Json)>)
        ensures
            members_view(members@) == self@.encoded(),
            ColumnListProps::decoded(members_view(members@)) == Ok::<
                ColumnListProps,
                DecodeErrorView,
            >(self@),
    {
        no_members()
    }

    /// Reads the record from the members of an object.
    pub fn decode(members: &Vec<(String, Json)>) -> (r: Result<ColumnListProps, DecodeError>)
        ensures
            result_view(r) == ColumnListProps::decoded(members_view(members@)),
    {
        Ok(ColumnListProps {})
    }
}

/// The slots of a column list.
#[derive(Debug, PartialEq, Eq)]
pub struct ColumnListSlots {
    /// The columns, in order.
    pub default: Vec<Component>,
}

/// The mathematical model of a [`ColumnListSlots`].
pub struct ColumnListSlotsView {
    /// The columns, in order.
    pub default: Seq<ComponentView>,
}

impl View for ColumnListSlots {
    type V = ColumnListSlotsView;

    open spec fn view(&self) -> ColumnListSlotsView {
        ColumnListSlotsView { default: components_view(self.default@) }
    }
}

impl Clone for ColumnListSlots {
    fn clone(&self) -> (record: ColumnListSlots)
        ensures
            record@ == self@,
        decreases self,
    {
        ColumnListSlots { default: clone_components(&self.default) }
    }
}

impl Default for ColumnListSlots {
    fn default() -> (record: ColumnListSlots)
        ensures
            record@ == ColumnListSlotsView::initial(),
    {
        let record = ColumnListSlots { default: Vec::new() };
        assert(record@.default =~= Seq::empty());
        record
    }
}

impl ColumnListSlotsView {
    /// The record with every field at its default.
    pub open spec fn initial() -> ColumnListSlotsView {
        ColumnListSlotsView { default: Seq::empty() }
    }

    /// The members that the record is written as.
    pub open spec fn encoded(self) -> Members
        decreases self, 0nat,
    {
        field("default"@, components_value(self.default))
    }

    /// The record that a member list is read as.
    pub open spec fn decoded(members: Members) -> Result<ColumnListSlotsView, DecodeErrorView>
        decreases members, 2nat,
    {
        let default = components_at(members, "default"@);
        if default is Err {
            Err(default->Err_0)
        } else {
            Ok(ColumnListSlotsView { default: default->Ok_0 })
        }
    }

    /// Each field is found under its own key, as what stands for it;
    /// at least one member is always written.
    pub proof fn lemma_encoded(self)
        ensures
            lookup(self.encoded(), "default"@) == components_value(self.default),
            self.encoded().len() > 0,
    {
        broadcast use group_field_lookups;

    }

    /// Reading back the members that the record was written as gives the
    /// record.
    pub proof fn lemma_round_trip(self)
        ensures
            Self::decoded(self.encoded()) == Ok::<Self, DecodeErrorView>(self),
        decreases self, 0nat,
    {
        self.lemma_encoded();
        lemma_components_round_trip(self.default);
    }
}

impl ColumnListSlots {
    /// Writes the record as the members of an object, from which it can be
    /// read back.
    pub fn encode(&self) -> (members: Vec<(String, Json)>)
        ensures
            members_view(members@) == self@.encoded(),
            ColumnListSlotsView::decoded(members_view(members@)) == Ok::<
                ColumnListSlotsView,
                DecodeErrorView,
            >(self@),
        decreases self, 0nat,
    {
        broadcast use lemma_empty_then;

        let mut members = no_members();
        put_components(&mut members, "default", &self.default);
        proof {
            self@.lemma_round_trip();
        }
        members
    }

    /// Reads the record from the members of an object.
    pub fn decode(members: &Vec<(String, Json)>) -> (r: Result<ColumnListSlots, DecodeError>)
        ensures
            result_view(r) == ColumnListSlotsView::decoded(members_view(members@)),
        decreases members_view(members@), 2nat,
    {
        let default = read_components(members, "default")?;
        Ok(ColumnListSlots { default })
    }
}

/// Columns set side by side.
#[derive(Debug, PartialEq, Eq)]
pub struct ColumnList {
    /// The attributes.
    pub props: ColumnListProps,
    /// The children, by slot.
    pub slots: ColumnListSlots,
}

/// The mathematical model of a [`ColumnList`].
pub struct ColumnListView {
    /// The attributes.
    pub props: ColumnListProps,
    /// The children, by slot.
    pub slots: ColumnListSlotsView,
}

/// The model of a column list.
pub open spec fn column_list_view(kind: ColumnList) -> ColumnListView
    decreases kind,
{
    ColumnListView {
        props: kind.props@,
        slots: ColumnListSlotsView { default: components_view(kind.slots.default@) },
    }
}

impl View for ColumnList {
    type V = ColumnListView;

    open spec fn view(&self) -> ColumnListView {
        column_list_view(*self)
    }
}

impl Clone for ColumnList {
    fn clone(&self) -> (kind: ColumnList)
        ensures
            kind@ == self@,
        decreases self,
    {
        ColumnList { props: self.props.clone(), slots: self.slots.clone() }
    }
}

impl Default for ColumnList {
    fn default() -> (kind: ColumnList)
        ensures
            kind@ == ColumnListView::initial(),
    {
        ColumnList { props: ColumnListProps::default(), slots: ColumnListSlots::default() }
    }
}

impl ColumnListView {
    /// The column list with every attribute at its default and no children.
    pub open spec fn initial() -> ColumnListView {
        Self { props: ColumnListProps::initial(), slots: ColumnListSlotsView::initial() }
    }

    /// The object that the column list is written as, without a `type` member.
    pub open spec fn encoded(self) -> JsonView
        decreases self, 0nat,
    {
        kind_object(false, self.props.encoded(), self.slots.encoded())
    }

    /// The column list that a value is read as. The shape of the object is checked
    /// first, then the attributes are read, then the slots; the first failure
    /// is the result.
    pub open spec fn decoded(json: JsonView) -> Result<ColumnListView, DecodeErrorView>
        decreases json, 1nat,
    {
        match kind_parts(json, false, false, true) {
            Err(e) => Err(e),
            Ok(parts) => {
                let props = ColumnListProps::decoded(parts.0);
                let slots = {
                    proof {
                        lemma_slots_decrease(json, false, false);
                    }
                    ColumnListSlotsView::decoded(parts.1)
                };
                if props is Err {
                    Err(props->Err_0)
                } else if slots is Err {
                    Err(slots->Err_0)
                } else {
                    Ok(ColumnListView { props: props->Ok_0, slots: slots->Ok_0 })
                }
            },
        }
    }

    /// Reading back the object that the column list was written as gives the
    /// column list.
    pub proof fn lemma_round_trip(self)
        ensures
            Self::decoded(self.encoded()) == Ok::<Self, DecodeErrorView>(self),
        decreases self, 1nat,
    {
        self.props.lemma_round_trip();
        self.slots.lemma_round_trip();
        self.slots.lemma_encoded();
        lemma_kind_parts_of_object(false, self.props.encoded(), self.slots.encoded(), false, true);
    }

    /// The object has no `props` member.
    pub proof fn lemma_defaults_left_out(self)
        ensures
            self.encoded() matches JsonView::Object(members) && lookup(members, "props"@) is None,
    {
        lemma_kind_object_records(false, self.props.encoded(), self.slots.encoded());
    }

    /// A `type` member in front of the members of a value does not change
    /// what the value is read as.
    pub proof fn lemma_decoded_tagged(tag: Seq<char>, json: JsonView)
        ensures
            ColumnListView::decoded(tagged(tag, json)) == ColumnListView::decoded(json),
    {
        lemma_kind_parts_of_tagged(tag, json, false, false, true);
    }
}

impl ColumnList {
    /// Writes the column list as an object, without a `type` member, from which it
    /// can be read back.
    pub fn encode(&self) -> (json: Json)
        ensures
            json@ == self@.encoded(),
            ColumnListView::decoded(json@) == Ok::<ColumnListView, DecodeErrorView>(self@),
        decreases self, 0nat,
    {
        proof {
            self@.lemma_round_trip();
        }
        build(false, self.props.encode(), self.slots.encode())
    }

    /// Reads the column list from an object; a `type` member, if there is one, is
    /// not looked at.
    pub fn decode(json: &Json) -> (r: Result<ColumnList, DecodeError>)
        ensures
            result_view(r) == ColumnListView::decoded(json@),
        decreases json@, 1nat,
    {
        let parts = split(json, false, false, true)?;
        let none = no_members();
        let props = ColumnListProps::decode(or_none(parts.0, &none))?;
        proof {
            lemma_slots_decrease(json@, false, false);
        }
        let slots = ColumnListSlots::decode(or_none(parts.1, &none))?;
        Ok(ColumnList { props, slots })
    }
}

/// The attributes of a column: it has none.
#[derive(Debug, PartialEq, Eq)]
pub struct ColumnProps {}

impl View for ColumnProps {
    type V = ColumnProps;

    open spec fn view(&self) -> ColumnProps {
        *self
    }
}

impl Clone for ColumnProps {
    fn clone(&self) -> (record: ColumnProps)
        ensures
            record@ == self@,
    {
        ColumnProps {}
    }
}

impl Default for ColumnProps {
    fn default() -> (record: ColumnProps)
        ensures
            record@ == ColumnProps::initial(),
    {
        ColumnProps {}
    }
}

impl ColumnProps {
    /// The record with every field at its default.
    pub open spec fn initial() -> ColumnProps {
        ColumnProps {}
    }

    /// The members that the record is written as.
    pub open spec fn encoded(self) -> Members {
        Seq::empty()
    }

    /// The record that a member list is read as: whatever the list holds,
    /// the record takes nothing from it.
    pub open spec fn decoded(members: Members) -> Result<ColumnProps, DecodeErrorView> {
        Ok(ColumnProps {})
    }

    /// Reading back the members that the record was written as gives the
    /// record.
    pub proof fn lemma_round_trip(self)
        ensures
            Self::decoded(self.encoded()) == Ok::<Self, DecodeErrorView>(self),
    {
    }
}

impl ColumnProps {
    /// Writes the record as the members of an object, from which it can be
    /// read back.
    pub fn encode(&self) -> (members: Vec<(String, Json)>)
        ensures
            members_view(members@) == self@.encoded(),
            ColumnProps::decoded(members_view(members@)) == Ok::<
                ColumnProps,
                DecodeErrorView,
            >(self@),
    {
        no_members()
    }

    /// Reads the record from the members of an object.
    pub fn decode(members: &Vec<(String, Json)>) -> (r: Result<ColumnProps, DecodeError>)
        ensures
            result_view(r) == ColumnProps::decoded(members_view(members@)),
    {
        Ok(ColumnProps {})
    }
}

/// The slots of a column.
#[derive(Debug, PartialEq, Eq)]
pub struct ColumnSlots {
    /// What the column holds.
    pub default: Vec<Component>,
}

/// The mathematical model of a [`ColumnSlots`].
pub struct ColumnSlotsView {
    /// What the column holds.
    pub default: Seq<ComponentView>,
}

impl View for ColumnSlots {
    type V = ColumnSlotsView;

    open spec fn view(&self) -> ColumnSlotsView {
        ColumnSlotsView { default: components_view(self.default@) }
    }
}

impl Clone for ColumnSlots {
    fn clone(&self) -> (record: ColumnSlots)
        ensures
            record@ == self@,
        decreases self,
    {
        ColumnSlots { default: clone_components(&self.default) }
    }
}

impl Default for ColumnSlots {
    fn default() -> (record: ColumnSlots)
        ensures
            record@ == ColumnSlotsView::initial(),
    {
        let record = ColumnSlots { default: Vec::new() };
        assert(record@.default =~= Seq::empty());
        record
    }
}

impl ColumnSlotsView {
    /// The record with every field at its default.
    pub open spec fn initial() -> ColumnSlotsView {
        ColumnSlotsView { default: Seq::empty() }
    }

    /// The members that the record is written as.
    pub open spec fn encoded(self) -> Members
        decreases self, 0nat,
    {
        field("default"@, components_value(self.default))
    }

    /// The record that a member list is read as.
    pub open spec fn decoded(members: Members) -> Result<ColumnSlotsView, DecodeErrorView>
        decreases members, 2nat,
    {
        let default = components_at(members, "default"@);
        if default is Err {
            Err(default->Err_0)
        } else {
            Ok(ColumnSlotsView { default: default->Ok_0 })
        }
    }

    /// Each field is found under its own key, as what stands for it;
    /// at least one member is always written.
    pub proof fn lemma_encoded(self)
        ensures
            lookup(self.encoded(), "default"@) == components_value(self.default),
            self.encoded().len() > 0,
    {
        broadcast use group_field_lookups;

    }

    /// Reading back the members that the record was written as gives the
    /// record.
    pub proof fn lemma_round_trip(self)
        ensures
            Self::decoded(self.encoded()) == Ok::<Self, DecodeErrorView>(self),
        decreases self, 0nat,
    {
        self.lemma_encoded();
        lemma_components_round_trip(self.default);
    }
}

impl ColumnSlots {
    /// Writes the record as the members of an object, from which it can be
    /// read back.
    pub fn encode(&self) -> (members: Vec<(String, Json)>)
        ensures
            members_view(members@) == self@.encoded(),
            ColumnSlotsView::decoded(members_view(members@)) == Ok::<
                ColumnSlotsView,
                DecodeErrorView,
            >(self@),
        decreases self, 0nat,
    {
        broadcast use lemma_empty_then;

        let mut members = no_members();
        put_components(&mut members, "default", &self.default);
        proof {
            self@.lemma_round_trip();
        }
        members
    }

    /// Reads the record from the members of an object.
    pub fn decode(members: &Vec<(String, Json)>) -> (r: Result<ColumnSlots, DecodeError>)
        ensures
            result_view(r) == ColumnSlotsView::decoded(members_view(members@)),
        decreases members_view(members@), 2nat,
    {
        let default = read_components(members, "default")?;
        Ok(ColumnSlots { default })
    }
}

/// One column of a column list.
#[derive(Debug, PartialEq, Eq)]
pub struct Column {
    /// The attributes.
    pub props: ColumnProps,
    /// The children, by slot.
    pub slots: ColumnSlots,
}

/// The mathematical model of a [`Column`].
pub struct ColumnView {
    /// The attributes.
    pub props: ColumnProps,
    /// The children, by slot.
    pub slots: ColumnSlotsView,
}

/// The model of a column.
pub open spec fn column_view(kind: Column) -> ColumnView
    decreases kind,
{
    ColumnView {
        props: kind.props@,
        slots: ColumnSlotsView { default: components_view(kind.slots.default@) },
    }
}

impl View for Column {
    type V = ColumnView;

    open spec fn view(&self) -> ColumnView {
        column_view(*self)
    }
}

impl Clone for Column {
    fn clone(&self) -> (kind: Column)
        ensures
            kind@ == self@,
        decreases self,
    {
        Column { props: self.props.clone(), slots: self.slots.clone() }
    }
}

impl Default for Column {
    fn default() -> (kind: Column)
        ensures
            kind@ == ColumnView::initial(),
    {
        Column { props: ColumnProps::default(), slots: ColumnSlots::default() }
    }
}

impl ColumnView {
    /// The column with every attribute at its default and no children.
    pub open spec fn initial() -> ColumnView {
        Self { props: ColumnProps::initial(), slots: ColumnSlotsView::initial() }
    }

    /// The object that the column is written as, without a `type` member.
    pub open spec fn encoded(self) -> JsonView
        decreases self, 0nat,
    {
        kind_object(false, self.props.encoded(), self.slots.encoded())
    }

    /// The column that a value is read as. The shape of the object is checked
    /// first, then the attributes are read, then the slots; the first failure
    /// is the result.
    pub open spec fn decoded(json: JsonView) -> Result<ColumnView, DecodeErrorView>
        decreases json, 1nat,
    {
        match kind_parts(json, false, false, true) {
            Err(e) => Err(e),
            Ok(parts) => {
                let props = ColumnProps::decoded(parts.0);
                let slots = {
                    proof {
                        lemma_slots_decrease(json, false, false);
                    }
                    ColumnSlotsView::decoded(parts.1)
                };
                if props is Err {
                    Err(props->Err_0)
                } else if slots is Err {
                    Err(slots->Err_0)
                } else {
                    Ok(ColumnView { props: props->Ok_0, slots: slots->Ok_0 })
                }
            },
        }
    }

    /// Reading back the object that the column was written as gives the
    /// column.
    pub proof fn lemma_round_trip(self)
        ensures
            Self::decoded(self.encoded()) == Ok::<Self, DecodeErrorView>(self),
        decreases self, 1nat,
    {
        self.props.lemma_round_trip();
        self.slots.lemma_round_trip();
        self.slots.lemma_encoded();
        lemma_kind_parts_of_object(false, self.props.encoded(), self.slots.encoded(), false, true);
    }

    /// The object has no `props` member.
    pub proof fn lemma_defaults_left_out(self)
        ensures
            self.encoded() matches JsonView::Object(members) && lookup(members, "props"@) is None,
    {
        lemma_kind_object_records(false, self.props.encoded(), self.slots.encoded());
    }

    /// A `type` member in front of the members of a value does not change
    /// what the value is read as.
    pub proof fn lemma_decoded_tagged(tag: Seq<char>, json: JsonView)
        ensures
            ColumnView::decoded(tagged(tag, json)) == ColumnView::decoded(json),
    {
        lemma_kind_parts_of_tagged(tag, json, false, false, true);
    }
}

impl Column {
    /// Writes the column as an object, without a `type` member, from which it
    /// can be read back.
    pub fn encode(&self) -> (json: Json)
        ensures
            json@ == self@.encoded(),
            ColumnView::decoded(json@) == Ok::<ColumnView, DecodeErrorView>(self@),
        decreases self, 0nat,
    {
        proof {
            self@.lemma_round_trip();
        }
        build(false, self.props.encode(), self.slots.encode())
    }

    /// Reads the column from an object; a `type` member, if there is one, is
    /// not looked at.
    pub fn decode(json: &Json) -> (r: Result<Column, DecodeError>)
        ensures
            result_view(r) == ColumnView::decoded(json@),
        decreases json@, 1nat,
    {
        let parts = split(json, false, false, true)?;
        let none = no_members();
        let props = ColumnProps::decode(or_none(parts.0, &none))?;
        proof {
            lemma_slots_decrease(json@, false, false);
        }
        let slots = ColumnSlots::decode(or_none(parts.1, &none))?;
        Ok(Column { props, slots })
    }
}

} // verus!
