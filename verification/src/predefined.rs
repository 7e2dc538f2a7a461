//! The rules that every user starts out with.

use crate::action::{Action, ActionView, Tweak, TweakView};
use crate::condition::{PushCondition, PushConditionView};
use crate::member_count::{ComparisonOperator, RoomMemberCountIs};
use crate::ident::{full_text, localpart, user_id_localpart, user_id_text};
use crate::rule::{
    ConditionalPushRule, ConditionalPushRuleView, PatternedPushRule, PatternedPushRuleView,
};
use crate::ruleset::{conditional_rules, ids_unique, Ruleset, RulesetView};
use ruma_identifiers::UserId;
use vstd::prelude::*;

verus! {

/// The condition that the field under `key` matches `pattern`.
pub open spec fn event_match_view(key: Seq<char>, pattern: Seq<char>) -> PushConditionView {
    PushConditionView::EventMatch { key, pattern }
}

/// The condition that the room has exactly two members.
pub open spec fn two_members_view() -> PushConditionView {
    PushConditionView::RoomMemberCount {
        is: RoomMemberCountIs { prefix: ComparisonOperator::Eq, count: 2 },
    }
}

/// The action that sets the sound to `name`.
pub open spec fn sound_view(name: Seq<char>) -> ActionView {
    ActionView::SetTweak(TweakView::Sound(name))
}

/// The action that sets the highlight to `on`.
pub open spec fn highlight_view(on: bool) -> ActionView {
    ActionView::SetTweak(TweakView::Highlight(on))
}

fn event_match(key: &str, pattern: &str) -> (condition: PushCondition)
    ensures
        condition@ == event_match_view(key@, pattern@),
{
    PushCondition::EventMatch { key: key.to_owned(), pattern: pattern.to_owned() }
}

fn sound(name: &str) -> (action: Action)
    ensures
        action@ == sound_view(name@),
{
    Action::SetTweak(Tweak::Sound(name.to_owned()))
}

fn highlight(on: bool) -> (action: Action)
    ensures
        action@ == highlight_view(on),
{
    Action::SetTweak(Tweak::Highlight(on))
}

/// The default override rules, as values.
impl ConditionalPushRuleView {
    /// `.m.rule.master`: no conditions, disabled, does not notify.
    pub open spec fn master() -> Self {
        ConditionalPushRuleView {
            actions: seq![ActionView::DontNotify],
            default: true,
            enabled: false,
            rule_id: ".m.rule.master"@,
            conditions: seq![],
        }
    }

    /// `.m.rule.suppress_notices`: silences messages of type `m.notice`.
    pub open spec fn suppress_notices() -> Self {
        ConditionalPushRuleView {
            actions: seq![ActionView::DontNotify],
            default: true,
            enabled: true,
            rule_id: ".m.rule.suppress_notices"@,
            conditions: seq![event_match_view("content.msgtype"@, "m.notice"@)],
        }
    }

    /// `.m.rule.invite_for_me`: notifies of an invitation whose state key is
    /// `user_id`.
    pub open spec fn invite_for_me(user_id: Seq<char>) -> Self {
        ConditionalPushRuleView {
            actions: seq![ActionView::Notify, sound_view("default"@), highlight_view(false)],
            default: true,
            enabled: true,
            rule_id: ".m.rule.invite_for_me"@,
            conditions: seq![
                event_match_view("type"@, "m.room.member"@),
                event_match_view("content.membership"@, "invite"@),
                event_match_view("state_key"@, user_id),
            ],
        }
    }

    /// `.m.rule.member_event`: silences membership events.
    pub open spec fn member_event() -> Self {
        ConditionalPushRuleView {
            actions: seq![ActionView::DontNotify],
            default: true,
            enabled: true,
            rule_id: ".m.rule.member_event"@,
            conditions: seq![event_match_view("type"@, "m.room.member"@)],
        }
    }

    /// `.m.rule.contains_display_name`: notifies, with sound and highlight,
    /// of a message that holds the user's display name.
    pub open spec fn contains_display_name() -> Self {
        ConditionalPushRuleView {
            actions: seq![ActionView::Notify, sound_view("default"@), highlight_view(true)],
            default: true,
            enabled: true,
            rule_id: ".m.rule.contains_display_name"@,
            conditions: seq![PushConditionView::ContainsDisplayName],
        }
    }

    /// `.m.rule.tombstone`: disabled; highlights the upgrade of a room.
    pub open spec fn tombstone() -> Self {
        ConditionalPushRuleView {
            actions: seq![ActionView::Notify, highlight_view(true)],
            default: true,
            enabled: false,
            rule_id: ".m.rule.tombstone"@,
            conditions: seq![
                event_match_view("type"@, "m.room.tombstone"@),
                event_match_view("state_key"@, ""@),
            ],
        }
    }

    /// `.m.rule.roomnotif`: highlights a message that holds `@room`, sent by
    /// someone who may notify the room.
    pub open spec fn roomnotif() -> Self {
        ConditionalPushRuleView {
            actions: seq![ActionView::Notify, highlight_view(true)],
            default: true,
            enabled: true,
            rule_id: ".m.rule.roomnotif"@,
            conditions: seq![
                event_match_view("content.body"@, "@room"@),
                PushConditionView::SenderNotificationPermission { key: "room"@ },
            ],
        }
    }
}

/// The default underride rules, as values.
impl ConditionalPushRuleView {
    /// `.m.rules.call`: rings for an incoming call.
    pub open spec fn call() -> Self {
        ConditionalPushRuleView {
            actions: seq![ActionView::Notify, sound_view("ring"@), highlight_view(false)],
            default: true,
            enabled: true,
            rule_id: ".m.rules.call"@,
            conditions: seq![event_match_view("type"@, "m.call.invite"@)],
        }
    }

    /// `.m.rules.encrypted_room_one_to_one`: notifies, with sound, of an
    /// encrypted event in a room of two.
    pub open spec fn encrypted_room_one_to_one() -> Self {
        ConditionalPushRuleView {
            actions: seq![ActionView::Notify, sound_view("default"@), highlight_view(false)],
            default: true,
            enabled: true,
            rule_id: ".m.rules.encrypted_room_one_to_one"@,
            conditions: seq![
                two_members_view(),
                event_match_view("type"@, "m.room.encrypted"@),
            ],
        }
    }

    /// `.m.rules.room_one_to_one`: notifies, with sound, of a message in a
    /// room of two.
    pub open spec fn room_one_to_one() -> Self {
        ConditionalPushRuleView {
            actions: seq![ActionView::Notify, sound_view("default"@), highlight_view(false)],
            default: true,
            enabled: true,
            rule_id: ".m.rules.room_one_to_one"@,
            conditions: seq![two_members_view(), event_match_view("type"@, "m.room.message"@)],
        }
    }

    /// `.m.rules.message`: notifies of every message.
    pub open spec fn message() -> Self {
        ConditionalPushRuleView {
            actions: seq![ActionView::Notify, highlight_view(false)],
            default: true,
            enabled: true,
            rule_id: ".m.rules.message"@,
            conditions: seq![event_match_view("type"@, "m.room.message"@)],
        }
    }

    /// `.m.rules.encrypted`: notifies of every encrypted event.
    pub open spec fn encrypted() -> Self {
        ConditionalPushRuleView {
            actions: seq![ActionView::Notify, highlight_view(false)],
            default: true,
            enabled: true,
            rule_id: ".m.rules.encrypted"@,
            conditions: seq![event_match_view("type"@, "m.room.encrypted"@)],
        }
    }
}

/// The default content rules, as values.
impl PatternedPushRuleView {
    /// `.m.rules.contains_user_name`: notifies, with sound and highlight, of
    /// a message that holds `localpart` as a word.
    pub open spec fn contains_user_name(localpart: Seq<char>) -> Self {
        PatternedPushRuleView {
            actions: seq![ActionView::Notify, sound_view("default"@), highlight_view(true)],
            default: true,
            enabled: true,
            rule_id: ".m.rules.contains_user_name"@,
            pattern: localpart,
        }
    }
}

/// The default ruleset, as a value.
impl RulesetView {
    /// The rules that a user starts out with, for the user with the
    /// identifier `user_id` and the localpart `localpart`.
    pub open spec fn server_default(user_id: Seq<char>, localpart: Seq<char>) -> Self {
        RulesetView {
            content: seq![PatternedPushRuleView::contains_user_name(localpart)],
            override_: seq![
                ConditionalPushRuleView::master(),
                ConditionalPushRuleView::suppress_notices(),
                ConditionalPushRuleView::invite_for_me(user_id),
                ConditionalPushRuleView::member_event(),
                ConditionalPushRuleView::contains_display_name(),
                ConditionalPushRuleView::tombstone(),
                ConditionalPushRuleView::roomnotif(),
            ],
            room: seq![],
            sender: seq![],
            underride: seq![
                ConditionalPushRuleView::call(),
                ConditionalPushRuleView::encrypted_room_one_to_one(),
                ConditionalPushRuleView::room_one_to_one(),
                ConditionalPushRuleView::message(),
                ConditionalPushRuleView::encrypted(),
            ],
        }
    }
}

/// The default rules have names that are unique within each kind.
pub proof fn lemma_server_default_well_formed(user_id: Seq<char>, localpart: Seq<char>)
    ensures
        RulesetView::server_default(user_id, localpart).well_formed(),
{
    reveal_strlit(".m.rule.master");
    reveal_strlit(".m.rule.suppress_notices");
    reveal_strlit(".m.rule.invite_for_me");
    reveal_strlit(".m.rule.member_event");
    reveal_strlit(".m.rule.contains_display_name");
    reveal_strlit(".m.rule.tombstone");
    reveal_strlit(".m.rule.roomnotif");
    reveal_strlit(".m.rules.call");
    reveal_strlit(".m.rules.encrypted_room_one_to_one");
    reveal_strlit(".m.rules.room_one_to_one");
    reveal_strlit(".m.rules.message");
    reveal_strlit(".m.rules.encrypted");
    let defaults = RulesetView::server_default(user_id, localpart);
    let first = conditional_rules(defaults.override_);
    let last = conditional_rules(defaults.underride);
    assert(".m.rule.tombstone"@[8] != ".m.rule.roomnotif"@[8]);
    assert(first[0].rule_id().len() == 14);
    assert(first[1].rule_id().len() == 24);
    assert(first[2].rule_id().len() == 21);
    assert(first[3].rule_id().len() == 20);
    assert(first[4].rule_id().len() == 29);
    assert(first[5].rule_id() == ".m.rule.tombstone"@);
    assert(first[6].rule_id() == ".m.rule.roomnotif"@);
    assert(ids_unique(first));
    assert(last[0].rule_id().len() == 13);
    assert(last[1].rule_id().len() == 34);
    assert(last[2].rule_id().len() == 24);
    assert(last[3].rule_id().len() == 16);
    assert(last[4].rule_id().len() == 18);
    assert(ids_unique(last));
}

impl Ruleset {
    /// The rules that a user starts out with. Some of them depend on the
    /// user: those that notify when the user is invited or mentioned.
    pub fn server_default(user_id: &UserId) -> (ruleset: Self)
        ensures
            ruleset@ == RulesetView::server_default(
                user_id_text(user_id),
                user_id_localpart(user_id),
            ),
            ruleset@.well_formed(),
    {
        Self::server_default_for(full_text(user_id), localpart(user_id))
    }

    /// The rules that a user starts out with, from the user's identifier
    /// and its localpart as strings.
    pub fn server_default_for(user_id: String, localpart: String) -> (ruleset: Self)
        ensures
            ruleset@ == RulesetView::server_default(user_id@, localpart@),
            ruleset@.well_formed(),
    {
        let ruleset = Self {
            content: vec![PatternedPushRule::contains_name(localpart)],
            override_: vec![
                ConditionalPushRule::master(),
                ConditionalPushRule::suppress_notices(),
                ConditionalPushRule::invite_for(user_id),
                ConditionalPushRule::member_event(),
                ConditionalPushRule::contains_display_name(),
                ConditionalPushRule::tombstone(),
                ConditionalPushRule::roomnotif(),
            ],
            room: Vec::new(),
            sender: Vec::new(),
            underride: vec![
                ConditionalPushRule::call(),
                ConditionalPushRule::encrypted_room_one_to_one(),
                ConditionalPushRule::room_one_to_one(),
                ConditionalPushRule::message(),
                ConditionalPushRule::encrypted(),
            ],
        };
        proof {
            let expected = RulesetView::server_default(user_id@, localpart@);
            assert(ruleset@.content =~= expected.content);
            assert(ruleset@.override_ =~= expected.override_);
            assert(ruleset@.room =~= expected.room);
            assert(ruleset@.sender =~= expected.sender);
            assert(ruleset@.underride =~= expected.underride);
            lemma_server_default_well_formed(user_id@, localpart@);
        }
        ruleset
    }
}

/// Default override push rules.
impl ConditionalPushRule {
    /// Matches all events. Enabling it turns off every notification but
    /// those of override rules that stand before it.
    pub fn master() -> (rule: Self)
        ensures
            rule@ == ConditionalPushRuleView::master(),
    {
        let rule = Self {
            actions: vec![Action::DontNotify],
            default: true,
            enabled: false,
            rule_id: ".m.rule.master".to_owned(),
            conditions: vec![],
        };
        assert(rule@.actions =~= ConditionalPushRuleView::master().actions);
        assert(rule@.conditions =~= ConditionalPushRuleView::master().conditions);
        rule
    }

    /// Matches messages with a `msgtype` of `notice`.
    pub fn suppress_notices() -> (rule: Self)
        ensures
            rule@ == ConditionalPushRuleView::suppress_notices(),
    {
        let rule = Self {
            actions: vec![Action::DontNotify],
            default: true,
            enabled: true,
            rule_id: ".m.rule.suppress_notices".to_owned(),
            conditions: vec![event_match("content.msgtype", "m.notice")],
        };
        assert(rule@.actions =~= ConditionalPushRuleView::suppress_notices().actions);
        assert(rule@.conditions =~= ConditionalPushRuleView::suppress_notices().conditions);
        rule
    }

    /// Matches any invitation of this user to a room.
    pub fn invite_for_me(user_id: &UserId) -> (rule: Self)
        ensures
            rule@ == ConditionalPushRuleView::invite_for_me(user_id_text(user_id)),
    {
        Self::invite_for(full_text(user_id))
    }

    /// Matches any invitation to a room whose state key is `user_id`.
    pub fn invite_for(user_id: String) -> (rule: Self)
        ensures
            rule@ == ConditionalPushRuleView::invite_for_me(user_id@),
    {
        let rule = Self {
            actions: vec![Action::Notify, sound("default"), highlight(false)],
            default: true,
            enabled: true,
            rule_id: ".m.rule.invite_for_me".to_owned(),
            conditions: vec![
                event_match("type", "m.room.member"),
                event_match("content.membership", "invite"),
                PushCondition::EventMatch { key: "state_key".to_owned(), pattern: user_id },
            ],
        };
        assert(rule@.actions =~= ConditionalPushRuleView::invite_for_me(user_id@).actions);
        assert(rule@.conditions =~= ConditionalPushRuleView::invite_for_me(user_id@).conditions);
        rule
    }

    /// Matches any `m.room.member` event.
    pub fn member_event() -> (rule: Self)
        ensures
            rule@ == ConditionalPushRuleView::member_event(),
    {
        let rule = Self {
            actions: vec![Action::DontNotify],
            default: true,
            enabled: true,
            rule_id: ".m.rule.member_event".to_owned(),
            conditions: vec![event_match("type", "m.room.member")],
        };
        assert(rule@.actions =~= ConditionalPushRuleView::member_event().actions);
        assert(rule@.conditions =~= ConditionalPushRuleView::member_event().conditions);
        rule
    }

    /// Matches any message that holds the user's current display name in the
    /// room in which it was sent.
    pub fn contains_display_name() -> (rule: Self)
        ensures
            rule@ == ConditionalPushRuleView::contains_display_name(),
    {
        let rule = Self {
            actions: vec![Action::Notify, sound("default"), highlight(true)],
            default: true,
            enabled: true,
            rule_id: ".m.rule.contains_display_name".to_owned(),
            conditions: vec![PushCondition::ContainsDisplayName],
        };
        assert(rule@.actions =~= ConditionalPushRuleView::contains_display_name().actions);
        assert(rule@.conditions =~= ConditionalPushRuleView::contains_display_name().conditions);
        rule
    }

    /// Matches any state event of type `m.room.tombstone`, to tell the users
    /// of a room that it was upgraded.
    pub fn tombstone() -> (rule: Self)
        ensures
            rule@ == ConditionalPushRuleView::tombstone(),
    {
        let rule = Self {
            actions: vec![Action::Notify, highlight(true)],
            default: true,
            enabled: false,
            rule_id: ".m.rule.tombstone".to_owned(),
            conditions: vec![event_match("type", "m.room.tombstone"), event_match("state_key", "")],
        };
        assert(rule@.actions =~= ConditionalPushRuleView::tombstone().actions);
        assert(rule@.conditions =~= ConditionalPushRuleView::tombstone().conditions);
        rule
    }

    /// Matches any message that holds the text `@room` and whose sender may
    /// notify the whole room.
    pub fn roomnotif() -> (rule: Self)
        ensures
            rule@ == ConditionalPushRuleView::roomnotif(),
    {
        let rule = Self {
            actions: vec![Action::Notify, highlight(true)],
            default: true,
            enabled: true,
            rule_id: ".m.rule.roomnotif".to_owned(),
            conditions: vec![
                event_match("content.body", "@room"),
                PushCondition::SenderNotificationPermission { key: "room".to_owned() },
            ],
        };
        assert(rule@.actions =~= ConditionalPushRuleView::roomnotif().actions);
        assert(rule@.conditions =~= ConditionalPushRuleView::roomnotif().conditions);
        rule
    }
}

/// Default content push rules.
impl PatternedPushRule {
    /// Matches any message that holds the localpart of the user's
    /// identifier between word boundaries.
    pub fn contains_user_name(user_id: &UserId) -> (rule: Self)
        ensures
            rule@ == PatternedPushRuleView::contains_user_name(user_id_localpart(user_id)),
    {
        Self::contains_name(localpart(user_id))
    }

    /// Matches any message that holds `localpart` between word boundaries.
    pub fn contains_name(localpart: String) -> (rule: Self)
        ensures
            rule@ == PatternedPushRuleView::contains_user_name(localpart@),
    {
        let rule = Self {
            rule_id: ".m.rules.contains_user_name".to_owned(),
            enabled: true,
            default: true,
            pattern: localpart,
            actions: vec![Action::Notify, sound("default"), highlight(true)],
        };
        assert(rule@.actions =~= PatternedPushRuleView::contains_user_name(localpart@).actions);
        rule
    }
}

/// Default underride push rules.
impl ConditionalPushRule {
    /// Matches any incoming call.
    pub fn call() -> (rule: Self)
        ensures
            rule@ == ConditionalPushRuleView::call(),
    {
        let rule = Self {
            rule_id: ".m.rules.call".to_owned(),
            default: true,
            enabled: true,
            conditions: vec![event_match("type", "m.call.invite")],
            actions: vec![Action::Notify, sound("ring"), highlight(false)],
        };
        assert(rule@.actions =~= ConditionalPushRuleView::call().actions);
        assert(rule@.conditions =~= ConditionalPushRuleView::call().conditions);
        rule
    }

    /// Matches any encrypted event sent in a room with exactly two members.
    /// An encrypted event cannot be matched by its content, so the rule
    /// matches all encrypted events of such rooms or none.
    pub fn encrypted_room_one_to_one() -> (rule: Self)
        ensures
            rule@ == ConditionalPushRuleView::encrypted_room_one_to_one(),
    {
        let rule = Self {
            rule_id: ".m.rules.encrypted_room_one_to_one".to_owned(),
            default: true,
            enabled: true,
            conditions: vec![
                PushCondition::RoomMemberCount { is: RoomMemberCountIs::exactly(2) },
                event_match("type", "m.room.encrypted"),
            ],
            actions: vec![Action::Notify, sound("default"), highlight(false)],
        };
        assert(rule@.actions =~= ConditionalPushRuleView::encrypted_room_one_to_one().actions);
        assert(rule@.conditions =~= ConditionalPushRuleView::encrypted_room_one_to_one().conditions);
        rule
    }

    /// Matches any message sent in a room with exactly two members.
    pub fn room_one_to_one() -> (rule: Self)
        ensures
            rule@ == ConditionalPushRuleView::room_one_to_one(),
    {
        let rule = Self {
            rule_id: ".m.rules.room_one_to_one".to_owned(),
            default: true,
            enabled: true,
            conditions: vec![
                PushCondition::RoomMemberCount { is: RoomMemberCountIs::exactly(2) },
                event_match("type", "m.room.message"),
            ],
            actions: vec![Action::Notify, sound("default"), highlight(false)],
        };
        assert(rule@.actions =~= ConditionalPushRuleView::room_one_to_one().actions);
        assert(rule@.conditions =~= ConditionalPushRuleView::room_one_to_one().conditions);
        rule
    }

    /// Matches all chat messages.
    pub fn message() -> (rule: Self)
        ensures
            rule@ == ConditionalPushRuleView::message(),
    {
        let rule = Self {
            rule_id: ".m.rules.message".to_owned(),
            default: true,
            enabled: true,
            conditions: vec![event_match("type", "m.room.message")],
            actions: vec![Action::Notify, highlight(false)],
        };
        assert(rule@.actions =~= ConditionalPushRuleView::message().actions);
        assert(rule@.conditions =~= ConditionalPushRuleView::message().conditions);
        rule
    }

    /// Matches all encrypted events. An encrypted event cannot be matched by
    /// its content, so the rule matches all of them or none.
    pub fn encrypted() -> (rule: Self)
        ensures
            rule@ == ConditionalPushRuleView::encrypted(),
    {
        let rule = Self {
            rule_id: ".m.rules.encrypted".to_owned(),
            default: true,
            enabled: true,
            conditions: vec![event_match("type", "m.room.encrypted")],
            actions: vec![Action::Notify, highlight(false)],
        };
        assert(rule@.actions =~= ConditionalPushRuleView::encrypted().actions);
        assert(rule@.conditions =~= ConditionalPushRuleView::encrypted().conditions);
        rule
    }
}

} // verus!
