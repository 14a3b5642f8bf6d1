//! Heading levels: six named levels in memory, the integers 1 to 6 on the
//! wire.

use crate::error::{result_view, DecodeError, DecodeErrorView};
use crate::field::{field, put};
use crate::json::{get, lookup, members_view, Json, JsonView, Members, Number};
use vstd::prelude::*;
use vstd::std_specs::convert::{FromSpecImpl, TryFromSpecImpl};

verus! {

/// The depth of a heading.
#[derive(Debug, Clone, Copy, PartialEq, Eq, Structural)]
pub enum HeadingLevel {
    H1,
    H2,
    H3,
    H4,
    H5,
    H6,
}

impl View for HeadingLevel {
    type V = HeadingLevel;

    open spec fn view(&self) -> HeadingLevel {
        *self
    }
}

impl HeadingLevel {
    /// The integer that stands for the level on the wire.
    pub open spec fn number(self) -> int {
        match self {
            HeadingLevel::H1 => 1,
            HeadingLevel::H2 => 2,
            HeadingLevel::H3 => 3,
            HeadingLevel::H4 => 4,
            HeadingLevel::H5 => 5,
            HeadingLevel::H6 => 6,
        }
    }

    /// The level that an integer stands for: one for each of 1 to 6, none
    /// for any other integer.
    pub open spec fn of_number(n: int) -> Option<HeadingLevel> {
        if n == 1 {
            Some(HeadingLevel::H1)
        } else if n == 2 {
            Some(HeadingLevel::H2)
        } else if n == 3 {
            Some(HeadingLevel::H3)
        } else if n == 4 {
            Some(HeadingLevel::H4)
        } else if n == 5 {
            Some(HeadingLevel::H5)
        } else if n == 6 {
            Some(HeadingLevel::H6)
        } else {
            None
        }
    }

    /// What stands for the level: always its integer.
    pub open spec fn value(self) -> Option<JsonView> {
        Some(JsonView::Number(Number::PosInt(self.number() as u64)))
    }

    /// The level as it is read from a member list: the member must be there
    /// and be an integer from 1 to 6.
    pub open spec fn decoded(members: Members, key: Seq<char>) -> Result<
        HeadingLevel,
        DecodeErrorView,
    > {
        match lookup(members, key) {
            None => Err(DecodeErrorView::MissingRequiredField),
            Some(JsonView::Number(n)) => match n.as_int() {
                None => Err(DecodeErrorView::TypeMismatch),
                Some(i) => match HeadingLevel::of_number(i) {
                    None => Err(DecodeErrorView::OutOfRange),
                    Some(level) => Ok(level),
                },
            },
            Some(_) => Err(DecodeErrorView::TypeMismatch),
        }
    }

    /// Appends the level to a member list.
    pub fn encode(&self, members: &mut Vec<(String, Json)>, key: &str)
        ensures
            members_view(final(members)@) == members_view(old(members)@) + field(
                key@,
                self.value(),
            ),
    {
        let n: u8 = u8::from(*self);
        put(members, key, Json::Number(Number::PosInt(n as u64)));
    }

    /// Reads the level from a member list.
    pub fn decode(members: &Vec<(String, Json)>, key: &str) -> (r: Result<
        HeadingLevel,
        DecodeError,
    >)
        ensures
            result_view(r) == HeadingLevel::decoded(members_view(members@), key@),
    {
        match get(members, key) {
            None => Err(DecodeError::MissingRequiredField),
            Some(Json::Number(n)) => match n.integer() {
                None => Err(DecodeError::TypeMismatch),
                Some(i) => if 1 <= i && i <= 6 {
                    HeadingLevel::try_from(i as u8)
                } else {
                    Err(DecodeError::OutOfRange)
                },
            },
            Some(_) => Err(DecodeError::TypeMismatch),
        }
    }
}

impl Default for HeadingLevel {
    fn default() -> (level: HeadingLevel)
        ensures
            level == HeadingLevel::H1,
    {
        HeadingLevel::H1
    }
}

impl From<HeadingLevel> for u8 {
    fn from(level: HeadingLevel) -> (n: u8)
        ensures
            n == level.number(),
    {
        match level {
            HeadingLevel::H1 => 1,
            HeadingLevel::H2 => 2,
            HeadingLevel::H3 => 3,
            HeadingLevel::H4 => 4,
            HeadingLevel::H5 => 5,
            HeadingLevel::H6 => 6,
        }
    }
}

impl FromSpecImpl<HeadingLevel> for u8 {
    open spec fn obeys_from_spec() -> bool {
        true
    }

    open spec fn from_spec(level: HeadingLevel) -> u8 {
        level.number() as u8
    }
}

impl TryFrom<u8> for HeadingLevel {
    type Error = DecodeError;

    fn try_from(value: u8) -> (r: Result<HeadingLevel, DecodeError>)
        ensures
            match r {
                Ok(level) => HeadingLevel::of_number(value as int) == Some(level),
                Err(e) => e == DecodeError::OutOfRange && HeadingLevel::of_number(value as int)
                    is None,
            },
    {
        match value {
            1 => Ok(HeadingLevel::H1),
            2 => Ok(HeadingLevel::H2),
            3 => Ok(HeadingLevel::H3),
            4 => Ok(HeadingLevel::H4),
            5 => Ok(HeadingLevel::H5),
            6 => Ok(HeadingLevel::H6),
            _ => Err(DecodeError::OutOfRange),
        }
    }
}

impl TryFromSpecImpl<u8> for HeadingLevel {
    open spec fn obeys_try_from_spec() -> bool {
        true
    }

    open spec fn try_from_spec(value: u8) -> Result<HeadingLevel, DecodeError> {
        match HeadingLevel::of_number(value as int) {
            Some(level) => Ok(level),
            None => Err(DecodeError::OutOfRange),
        }
    }
}

} // verus!
