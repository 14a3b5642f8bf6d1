//! The closed string enumerations: each variant has one fixed lower-case
//! name on the wire, and the default variant is written as nothing.

use crate::error::{result_view, DecodeError, DecodeErrorView};
use crate::field::{field, put, skip};
use crate::json::{get, lookup, members_view, same, Json, JsonView, Members};
use vstd::prelude::*;

verus! {

/// How the items of a list are marked.
#[derive(Debug, Clone, Copy, PartialEq, Eq, Structural)]
pub enum ListStyle {
    Unordered,
    Ordered,
}

impl View for ListStyle {
    type V = ListStyle;

    open spec fn view(&self) -> ListStyle {
        *self
    }
}

impl Default for ListStyle {
    fn default() -> (style: ListStyle)
        ensures
            style == ListStyle::Unordered,
    {
        ListStyle::Unordered
    }
}

impl ListStyle {
    /// The name of the style on the wire.
    pub open spec fn name(self) -> Seq<char> {
        match self {
            ListStyle::Unordered => "unordered"@,
            ListStyle::Ordered => "ordered"@,
        }
    }

    /// The style that a name stands for, if any.
    pub open spec fn of_name(name: Seq<char>) -> Option<ListStyle> {
        if name == "unordered"@ {
            Some(ListStyle::Unordered)
        } else if name == "ordered"@ {
            Some(ListStyle::Ordered)
        } else {
            None
        }
    }

    /// What stands for the style: its name, and nothing for `unordered`, the
    /// default.
    pub open spec fn value(self) -> Option<JsonView> {
        if self == ListStyle::Unordered {
            None
        } else {
            Some(JsonView::Str(self.name()))
        }
    }

    /// The style as it is read from a member list: absent or `null` reads as
    /// `unordered`, and a string must be the name of a style.
    pub open spec fn decoded(members: Members, key: Seq<char>) -> Result<
        ListStyle,
        DecodeErrorView,
    > {
        match lookup(members, key) {
            None => Ok(ListStyle::Unordered),
            Some(JsonView::Null) => Ok(ListStyle::Unordered),
            Some(JsonView::Str(name)) => match ListStyle::of_name(name) {
                Some(style) => Ok(style),
                None => Err(DecodeErrorView::UnknownEnumString),
            },
            Some(_) => Err(DecodeErrorView::TypeMismatch),
        }
    }

    /// Each style is the one that its name stands for.
    pub proof fn lemma_name(self)
        ensures
            ListStyle::of_name(self.name()) == Some(self),
    {
        reveal_strlit("unordered");
        reveal_strlit("ordered");
        assert("unordered"@.len() == 9 && "ordered"@.len() == 7);
    }

    /// The name of the style on the wire.
    pub fn as_str(&self) -> (name: &'static str)
        ensures
            name@ == self.name(),
    {
        match self {
            ListStyle::Unordered => "unordered",
            ListStyle::Ordered => "ordered",
        }
    }

    /// The style that a name stands for.
    pub fn parse(name: &str) -> (r: Result<ListStyle, DecodeError>)
        ensures
            match r {
                Ok(style) => ListStyle::of_name(name@) == Some(style),
                Err(e) => e == DecodeError::UnknownEnumString && ListStyle::of_name(name@) is None,
            },
    {
        if same(name, "unordered") {
            Ok(ListStyle::Unordered)
        } else if same(name, "ordered") {
            Ok(ListStyle::Ordered)
        } else {
            Err(DecodeError::UnknownEnumString)
        }
    }

    /// Appends the style to a member list.
    pub fn encode(&self, members: &mut Vec<(String, Json)>, key: &str)
        ensures
            members_view(final(members)@) == members_view(old(members)@) + field(
                key@,
                self.value(),
            ),
    {
        match self {
            ListStyle::Unordered => {
                skip(members, key);
            },
            ListStyle::Ordered => {
                put(members, key, Json::Str(self.as_str().to_owned()));
            },
        }
    }

    /// Reads the style from a member list.
    pub fn decode(members: &Vec<(String, Json)>, key: &str) -> (r: Result<ListStyle, DecodeError>)
        ensures
            result_view(r) == ListStyle::decoded(members_view(members@), key@),
    {
        match get(members, key) {
            None => Ok(ListStyle::Unordered),
            Some(Json::Null) => Ok(ListStyle::Unordered),
            Some(Json::Str(name)) => ListStyle::parse(name.as_str()),
            Some(_) => Err(DecodeError::TypeMismatch),
        }
    }
}

/// What a callout draws attention to.
#[derive(Debug, Clone, Copy, PartialEq, Eq, Structural)]
pub enum CalloutType {
    Note,
    Tip,
    Important,
    Warning,
    Caution,
}

impl View for CalloutType {
    type V = CalloutType;

    open spec fn view(&self) -> CalloutType {
        *self
    }
}

impl Default for CalloutType {
    fn default() -> (callout: CalloutType)
        ensures
            callout == CalloutType::Note,
    {
        CalloutType::Note
    }
}

impl CalloutType {
    /// The name of the variant on the wire.
    pub open spec fn name(self) -> Seq<char> {
        match self {
            CalloutType::Note => "note"@,
            CalloutType::Tip => "tip"@,
            CalloutType::Important => "important"@,
            CalloutType::Warning => "warning"@,
            CalloutType::Caution => "caution"@,
        }
    }

    /// The variant that a name stands for, if any.
    pub open spec fn of_name(name: Seq<char>) -> Option<CalloutType> {
        if name == "note"@ {
            Some(CalloutType::Note)
        } else if name == "tip"@ {
            Some(CalloutType::Tip)
        } else if name == "important"@ {
            Some(CalloutType::Important)
        } else if name == "warning"@ {
            Some(CalloutType::Warning)
        } else if name == "caution"@ {
            Some(CalloutType::Caution)
        } else {
            None
        }
    }

    /// What stands for the variant: its name, and nothing for `note`, the
    /// default.
    pub open spec fn value(self) -> Option<JsonView> {
        if self == CalloutType::Note {
            None
        } else {
            Some(JsonView::Str(self.name()))
        }
    }

    /// The variant as it is read from a member list: absent or `null` reads
    /// as `note`, and a string must be the name of a variant.
    pub open spec fn decoded(members: Members, key: Seq<char>) -> Result<
        CalloutType,
        DecodeErrorView,
    > {
        match lookup(members, key) {
            None => Ok(CalloutType::Note),
            Some(JsonView::Null) => Ok(CalloutType::Note),
            Some(JsonView::Str(name)) => match CalloutType::of_name(name) {
                Some(callout) => Ok(callout),
                None => Err(DecodeErrorView::UnknownEnumString),
            },
            Some(_) => Err(DecodeErrorView::TypeMismatch),
        }
    }

    /// Each variant is the one that its name stands for.
    pub proof fn lemma_name(self)
        ensures
            CalloutType::of_name(self.name()) == Some(self),
    {
        reveal_strlit("note");
        reveal_strlit("tip");
        reveal_strlit("important");
        reveal_strlit("warning");
        reveal_strlit("caution");
        assert("note"@.len() == 4 && "tip"@.len() == 3 && "important"@.len() == 9);
        assert("warning"@[0] == 'w' && "caution"@[0] == 'c');
    }

    /// The name of the variant on the wire.
    pub fn as_str(&self) -> (name: &'static str)
        ensures
            name@ == self.name(),
    {
        match self {
            CalloutType::Note => "note",
            CalloutType::Tip => "tip",
            CalloutType::Important => "important",
            CalloutType::Warning => "warning",
            CalloutType::Caution => "caution",
        }
    }

    /// The variant that a name stands for.
    pub fn parse(name: &str) -> (r: Result<CalloutType, DecodeError>)
        ensures
            match r {
                Ok(callout) => CalloutType::of_name(name@) == Some(callout),
                Err(e) => e == DecodeError::UnknownEnumString && CalloutType::of_name(name@)
                    is None,
            },
    {
        if same(name, "note") {
            Ok(CalloutType::Note)
        } else if same(name, "tip") {
            Ok(CalloutType::Tip)
        } else if same(name, "important") {
            Ok(CalloutType::Important)
        } else if same(name, "warning") {
            Ok(CalloutType::Warning)
        } else if same(name, "caution") {
            Ok(CalloutType::Caution)
        } else {
            Err(DecodeError::UnknownEnumString)
        }
    }

    /// Appends the variant to a member list.
    pub fn encode(&self, members: &mut Vec<(String, Json)>, key: &str)
        ensures
            members_view(final(members)@) == members_view(old(members)@) + field(
                key@,
                self.value(),
            ),
    {
        match self {
            CalloutType::Note => {
                skip(members, key);
            },
            _ => {
                put(members, key, Json::Str(self.as_str().to_owned()));
            },
        }
    }

    /// Reads the variant from a member list.
    pub fn decode(members: &Vec<(String, Json)>, key: &str) -> (r: Result<
        CalloutType,
        DecodeError,
    >)
        ensures
            result_view(r) == CalloutType::decoded(members_view(members@), key@),
    {
        match get(members, key) {
            None => Ok(CalloutType::Note),
            Some(Json::Null) => Ok(CalloutType::Note),
            Some(Json::Str(name)) => CalloutType::parse(name.as_str()),
            Some(_) => Err(DecodeError::TypeMismatch),
        }
    }
}

} // verus!
