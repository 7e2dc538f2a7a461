//! What evaluation knows besides the event: the room it was sent in and
//! the user whose rules are evaluated.

use crate::event::{entry_named, lemma_entry_found, lemma_entry_missing, same_text};
use crate::text::chars_of;
use vstd::prelude::*;

verus! {

/// A power level under a name: that of a user, or the level that a kind
/// of notification requires.
#[derive(Clone, Debug, PartialEq, Eq)]
pub struct PowerLevel {
    pub name: String,
    pub level: i64,
}

/// The names and levels of a list of power levels, in order.
pub open spec fn level_views(levels: Seq<PowerLevel>) -> Seq<(Seq<char>, int)> {
    levels.map_values(|entry: PowerLevel| (entry.name@, entry.level as int))
}

/// The power levels of a room, as far as notifications need them.
#[derive(Clone, Debug, PartialEq, Eq)]
pub struct PowerLevels {
    /// The levels of the users that have one of their own.
    pub users: Vec<PowerLevel>,
    /// The level of every other user.
    pub users_default: i64,
    /// The level that each kind of notification requires of its sender.
    pub notifications: Vec<PowerLevel>,
}

/// The mathematical value of [`PowerLevels`].
pub struct PowerLevelsView {
    pub users: Seq<(Seq<char>, int)>,
    pub users_default: int,
    pub notifications: Seq<(Seq<char>, int)>,
}

impl View for PowerLevels {
    type V = PowerLevelsView;

    open spec fn view(&self) -> PowerLevelsView {
        PowerLevelsView {
            users: level_views(self.users@),
            users_default: self.users_default as int,
            notifications: level_views(self.notifications@),
        }
    }
}

impl PowerLevelsView {
    /// The power level of `user`: the user's own where there is one, the
    /// default otherwise.
    pub open spec fn level_of(self, user: Seq<char>) -> int {
        match entry_named(self.users, user) {
            Some(level) => level,
            None => self.users_default,
        }
    }

    /// Whether `sender` may send the kind of notification that `key`
    /// names: the room must state a level for that kind, and the sender's
    /// level must reach it.
    pub open spec fn may_notify(self, sender: Seq<char>, key: Seq<char>) -> bool {
        match entry_named(self.notifications, key) {
            Some(required) => self.level_of(sender) >= required,
            None => false,
        }
    }
}

/// The level under `name` in a list of power levels: that of the first
/// entry with that name.
pub fn level_named(levels: &Vec<PowerLevel>, name: &str) -> (found: Option<i64>)
    ensures
        match found {
            Some(level) => entry_named(level_views(levels@), name@) == Some(level as int),
            None => entry_named(level_views(levels@), name@) is None,
        },
{
    let wanted = chars_of(name);
    let ghost entries = level_views(levels@);
    let mut i: usize = 0;
    while i < levels.len()
        invariant
            i <= levels.len(),
            wanted@ == name@,
            entries == level_views(levels@),
            forall|k: int| 0 <= k < i ==> entries[k].0 != name@,
        decreases levels.len() - i,
    {
        if same_text(levels[i].name.as_str(), &wanted) {
            proof {
                lemma_entry_found(entries, name@, i as int);
            }
            return Some(levels[i].level);
        }
        i += 1;
    }
    proof {
        lemma_entry_missing(entries, name@);
    }
    None
}

impl PowerLevels {
    /// Tests whether `sender` may send the kind of notification that `key`
    /// names.
    pub fn may_notify(&self, sender: &str, key: &str) -> (yes: bool)
        ensures
            yes == self@.may_notify(sender@, key@),
    {
        match level_named(&self.notifications, key) {
            Some(required) => {
                let level = match level_named(&self.users, sender) {
                    Some(own) => own,
                    None => self.users_default,
                };
                level >= required
            },
            None => false,
        }
    }
}

/// What is known of the room in which an event was sent. What is not
/// known is `None`, and a condition that needs it does not hold.
#[derive(Clone, Debug, PartialEq, Eq)]
pub struct RoomContext {
    /// The number of members of the room.
    pub member_count: Option<u64>,
    /// The power levels of the room.
    pub power_levels: Option<PowerLevels>,
}

/// The mathematical value of a [`RoomContext`].
pub struct RoomContextView {
    pub member_count: Option<int>,
    pub power_levels: Option<PowerLevelsView>,
}

impl View for RoomContext {
    type V = RoomContextView;

    open spec fn view(&self) -> RoomContextView {
        RoomContextView {
            member_count: match self.member_count {
                Some(count) => Some(count as int),
                None => None,
            },
            power_levels: match self.power_levels {
                Some(levels) => Some(levels@),
                None => None,
            },
        }
    }
}

/// What is known of the user whose rules are evaluated.
#[derive(Clone, Debug, PartialEq, Eq)]
pub struct UserContext {
    /// The user's display name in the room, if the user has one.
    pub display_name: Option<String>,
}

/// The mathematical value of a [`UserContext`].
pub struct UserContextView {
    pub display_name: Option<Seq<char>>,
}

impl View for UserContext {
    type V = UserContextView;

    open spec fn view(&self) -> UserContextView {
        UserContextView {
            display_name: match self.display_name {
                Some(name) => Some(name@),
                None => None,
            },
        }
    }
}

} // verus!
