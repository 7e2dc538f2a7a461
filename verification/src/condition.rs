//! Conditions of a push rule.

use crate::context::{RoomContext, RoomContextView, UserContext, UserContextView};
use crate::event::{lookup_text, same_text, EventValue, ValueView};
use crate::member_count::RoomMemberCountIs;
use crate::glob::{
    contains_word, glob_match, glob_match_word, glob_matches, glob_matches_word, has_word,
};
use crate::text::{chars_of, fold};
use vstd::prelude::*;

verus! {

/// A condition that an event, its room and the user must meet for a rule
/// to match.
#[derive(Clone, Debug, PartialEq, Eq)]
pub enum PushCondition {
    /// The field of the event under the dotted path `key` is a string that
    /// matches the glob `pattern`.
    EventMatch { key: String, pattern: String },
    /// The body of the event contains the user's display name in the room.
    ContainsDisplayName,
    /// The room's member count satisfies the comparison.
    RoomMemberCount { is: RoomMemberCountIs },
    /// The sender of the event may send the kind of notification that `key`
    /// names.
    SenderNotificationPermission { key: String },
}

/// The mathematical value of a [`PushCondition`].
pub enum PushConditionView {
    EventMatch { key: Seq<char>, pattern: Seq<char> },
    ContainsDisplayName,
    RoomMemberCount { is: RoomMemberCountIs },
    SenderNotificationPermission { key: Seq<char> },
}

impl View for PushCondition {
    type V = PushConditionView;

    open spec fn view(&self) -> PushConditionView {
        match self {
            PushCondition::EventMatch { key, pattern } => PushConditionView::EventMatch {
                key: key@,
                pattern: pattern@,
            },
            PushCondition::ContainsDisplayName => PushConditionView::ContainsDisplayName,
            PushCondition::RoomMemberCount { is } => PushConditionView::RoomMemberCount { is: *is },
            PushCondition::SenderNotificationPermission { key } => {
                PushConditionView::SenderNotificationPermission { key: key@ }
            },
        }
    }
}

/// The values of a list of conditions, in order.
pub open spec fn condition_views(conditions: Seq<PushCondition>) -> Seq<PushConditionView> {
    conditions.map_values(|c: PushCondition| c@)
}

/// The path of the body of a message.
pub open spec fn body_key() -> Seq<char> {
    "content.body"@
}

/// The path of the sender of an event.
pub open spec fn sender_key() -> Seq<char> {
    "sender"@
}

/// Whether the glob `pattern` matches a word of the body of `event`,
/// whatever the case of ASCII letters. It does not where the event has no
/// body or the body is no string.
pub open spec fn body_matches(event: ValueView, pattern: Seq<char>) -> bool {
    match lookup_text(event, body_key()) {
        Some(body) => glob_matches_word(fold(pattern), fold(body)),
        None => false,
    }
}

impl PushConditionView {
    /// Whether the condition holds of an event, its room and the user.
    ///
    /// A condition on a field holds where the field is a string that the
    /// pattern matches: for the body of a message a word of it, whatever
    /// the case of ASCII letters; for any other field the whole string,
    /// case included. A condition never holds of what is missing: a field,
    /// a display name, a member count, the power levels.
    pub open spec fn holds(
        self,
        event: ValueView,
        room: RoomContextView,
        user: UserContextView,
    ) -> bool {
        match self {
            PushConditionView::EventMatch { key, pattern } => {
                if key == body_key() {
                    body_matches(event, pattern)
                } else {
                    match lookup_text(event, key) {
                        Some(text) => glob_matches(pattern, text),
                        None => false,
                    }
                }
            },
            PushConditionView::ContainsDisplayName => {
                match user.display_name {
                    Some(name) => match lookup_text(event, body_key()) {
                        Some(body) => name.len() > 0 && contains_word(fold(body), fold(name)),
                        None => false,
                    },
                    None => false,
                }
            },
            PushConditionView::RoomMemberCount { is } => {
                match room.member_count {
                    Some(members) => is.admits(members),
                    None => false,
                }
            },
            PushConditionView::SenderNotificationPermission { key } => {
                match room.power_levels {
                    Some(levels) => match lookup_text(event, sender_key()) {
                        Some(sender) => levels.may_notify(sender, key),
                        None => false,
                    },
                    None => false,
                }
            },
        }
    }
}

/// Tests whether the glob `pattern` matches a word of the body of `event`.
pub fn body_match(event: &EventValue, pattern: &str) -> (yes: bool)
    ensures
        yes == body_matches(event@, pattern@),
{
    match event.lookup_text("content.body") {
        Some(body) => glob_match_word(pattern, body.as_str()),
        None => false,
    }
}

impl PushCondition {
    /// Tests whether the condition holds of an event, its room and the
    /// user.
    pub fn applies(
        &self,
        event: &EventValue,
        room: &RoomContext,
        user: &UserContext,
    ) -> (yes: bool)
        ensures
            yes == self@.holds(event@, room@, user@),
    {
        match self {
            PushCondition::EventMatch { key, pattern } => {
                let body = chars_of("content.body");
                if same_text(key.as_str(), &body) {
                    body_match(event, pattern.as_str())
                } else {
                    match event.lookup_text(key.as_str()) {
                        Some(text) => glob_match(pattern.as_str(), text.as_str()),
                        None => false,
                    }
                }
            },
            PushCondition::ContainsDisplayName => {
                match &user.display_name {
                    Some(name) => match event.lookup_text("content.body") {
                        Some(body) => !name.as_str().is_empty() && has_word(
                            body.as_str(),
                            name.as_str(),
                        ),
                        None => false,
                    },
                    None => false,
                }
            },
            PushCondition::RoomMemberCount { is } => {
                match room.member_count {
                    Some(members) => is.contains(members),
                    None => false,
                }
            },
            PushCondition::SenderNotificationPermission { key } => {
                match &room.power_levels {
                    Some(levels) => match event.lookup_text("sender") {
                        Some(sender) => levels.may_notify(sender.as_str(), key.as_str()),
                        None => false,
                    },
                    None => false,
                }
            },
        }
    }
}

} // verus!
