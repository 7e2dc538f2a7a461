//! Comparisons of a room's member count, and their written form.

use crate::text::chars_of;
use js_int::UInt;
use std::str::FromStr;
use vstd::prelude::*;
use vstd::string::StrSliceExecFns;

verus! {

/// How a room's member count is compared with the bound of a condition.
#[derive(Clone, Copy, Debug, PartialEq, Eq, Structural)]
pub enum ComparisonOperator {
    /// The count equals the bound.
    Eq,
    /// The count is less than the bound.
    Lt,
    /// The count is greater than the bound.
    Gt,
    /// The count is greater than or equal to the bound.
    Ge,
    /// The count is less than or equal to the bound.
    Le,
}

/// A comparison of a room's member count with a bound.
#[derive(Clone, Copy, Debug, PartialEq, Eq, Structural)]
pub struct RoomMemberCountIs {
    pub prefix: ComparisonOperator,
    pub count: u64,
}

impl RoomMemberCountIs {
    /// Whether a room of `members` members satisfies the comparison.
    pub open spec fn admits(self, members: int) -> bool {
        match self.prefix {
            ComparisonOperator::Eq => members == self.count,
            ComparisonOperator::Lt => members < self.count,
            ComparisonOperator::Gt => members > self.count,
            ComparisonOperator::Ge => members >= self.count,
            ComparisonOperator::Le => members <= self.count,
        }
    }

    /// The comparison that holds of rooms with exactly `count` members.
    pub fn exactly(count: u64) -> (is: RoomMemberCountIs)
        ensures
            is == (RoomMemberCountIs { prefix: ComparisonOperator::Eq, count }),
    {
        RoomMemberCountIs { prefix: ComparisonOperator::Eq, count }
    }

    /// Tests a member count against the comparison.
    pub fn contains(&self, members: u64) -> (yes: bool)
        ensures
            yes == self.admits(members as int),
    {
        match self.prefix {
            ComparisonOperator::Eq => members == self.count,
            ComparisonOperator::Lt => members < self.count,
            ComparisonOperator::Gt => members > self.count,
            ComparisonOperator::Ge => members >= self.count,
            ComparisonOperator::Le => members <= self.count,
        }
    }
}

/// The number that `js_int::UInt` reads from `text`, where it reads one.
pub uninterp spec fn uint_from_text(text: Seq<char>) -> Option<u64>;

/// `UInt::from_str`, with the number it read as a `u64`.
///
/// Trusted: the result is what `js_int` makes of the text, a function of
/// the text alone. The crate reads a decimal `u64` and refuses one above
/// `js_int::MAX_SAFE_UINT`.
#[verifier::external_body]
fn read_uint(text: &str) -> (number: Option<u64>)
    ensures
        number == uint_from_text(text@),
{
    match UInt::from_str(text) {
        Ok(number) => Some(u64::from(number)),
        Err(_) => None,
    }
}

/// The comparison that the start of `text` names, and the number of
/// characters that name it. A text that starts with none of `<=`, `<`,
/// `>=`, `>` and `==` names equality, with no characters.
pub open spec fn prefix_of(text: Seq<char>) -> (ComparisonOperator, int) {
    if text.len() >= 2 && text[0] == '<' && text[1] == '=' {
        (ComparisonOperator::Le, 2)
    } else if text.len() >= 1 && text[0] == '<' {
        (ComparisonOperator::Lt, 1)
    } else if text.len() >= 2 && text[0] == '>' && text[1] == '=' {
        (ComparisonOperator::Ge, 2)
    } else if text.len() >= 1 && text[0] == '>' {
        (ComparisonOperator::Gt, 1)
    } else if text.len() >= 2 && text[0] == '=' && text[1] == '=' {
        (ComparisonOperator::Eq, 2)
    } else {
        (ComparisonOperator::Eq, 0)
    }
}

/// The comparison that `text` is the written form of: a prefix, then a
/// number as `js_int::UInt` reads it. Nothing where the rest is no such
/// number.
pub open spec fn comparison_of(text: Seq<char>) -> Option<RoomMemberCountIs> {
    let (prefix, at) = prefix_of(text);
    RoomMemberCountIs::with_count(prefix, uint_from_text(text.skip(at)))
}

/// Reads the comparison that the start of `text` names, and says how many
/// characters name it.
pub fn split_prefix(text: &str) -> (split: (ComparisonOperator, usize))
    ensures
        split.0 == prefix_of(text@).0,
        split.1 == prefix_of(text@).1,
        split.1 <= text@.len(),
{
    let chars = chars_of(text);
    let n = chars.len();
    if n >= 2 && chars[0] == '<' && chars[1] == '=' {
        (ComparisonOperator::Le, 2)
    } else if n >= 1 && chars[0] == '<' {
        (ComparisonOperator::Lt, 1)
    } else if n >= 2 && chars[0] == '>' && chars[1] == '=' {
        (ComparisonOperator::Ge, 2)
    } else if n >= 1 && chars[0] == '>' {
        (ComparisonOperator::Gt, 1)
    } else if n >= 2 && chars[0] == '=' && chars[1] == '=' {
        (ComparisonOperator::Eq, 2)
    } else {
        (ComparisonOperator::Eq, 0)
    }
}

impl RoomMemberCountIs {
    /// The comparison with the given prefix and the given bound, where
    /// there is a bound.
    pub open spec fn with_count(
        prefix: ComparisonOperator,
        count: Option<u64>,
    ) -> Option<RoomMemberCountIs> {
        match count {
            Some(count) => Some(RoomMemberCountIs { prefix, count }),
            None => None,
        }
    }

    /// The comparison with the given prefix and the given bound, where
    /// there is a bound.
    pub fn from_parts(
        prefix: ComparisonOperator,
        count: Option<u64>,
    ) -> (is: Option<RoomMemberCountIs>)
        ensures
            is == Self::with_count(prefix, count),
    {
        match count {
            Some(count) => Some(RoomMemberCountIs { prefix, count }),
            None => None,
        }
    }

    /// Reads a comparison from its written form: one of the prefixes `==`,
    /// `<`, `>`, `>=` and `<=`, then the bound. A number without a prefix
    /// stands for equality.
    pub fn parse(text: &str) -> (is: Option<RoomMemberCountIs>)
        ensures
            is == comparison_of(text@),
    {
        let (prefix, at) = split_prefix(text);
        let rest = text.substring_char(at, text.unicode_len());
        Self::from_parts(prefix, read_uint(rest))
    }
}

} // verus!
