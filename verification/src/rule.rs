//! The three shapes of a push rule.

use crate::action::{action_views, Action, ActionView};
use crate::condition::{
    body_match, body_matches, condition_views, PushCondition, PushConditionView,
};
use crate::context::{RoomContext, RoomContextView, UserContext, UserContextView};
use crate::event::{EventValue, ValueView};
use vstd::prelude::*;

verus! {

/// A rule that matches an event when all of its conditions hold.
#[derive(Clone, Debug, PartialEq, Eq)]
pub struct ConditionalPushRule {
    /// What the rule does when it matches.
    pub actions: Vec<Action>,
    /// Whether the server supplied the rule.
    pub default: bool,
    /// Whether the rule takes part in evaluation.
    pub enabled: bool,
    /// The rule's name, unique within its kind.
    pub rule_id: String,
    /// The conditions that must all hold. With none, the rule matches every
    /// event.
    pub conditions: Vec<PushCondition>,
}

/// The mathematical value of a [`ConditionalPushRule`].
pub struct ConditionalPushRuleView {
    pub actions: Seq<ActionView>,
    pub default: bool,
    pub enabled: bool,
    pub rule_id: Seq<char>,
    pub conditions: Seq<PushConditionView>,
}

impl View for ConditionalPushRule {
    type V = ConditionalPushRuleView;

    open spec fn view(&self) -> ConditionalPushRuleView {
        ConditionalPushRuleView {
            actions: action_views(self.actions@),
            default: self.default,
            enabled: self.enabled,
            rule_id: self.rule_id@,
            conditions: condition_views(self.conditions@),
        }
    }
}

/// A rule that matches an event when a word of its body matches a glob.
#[derive(Clone, Debug, PartialEq, Eq)]
pub struct PatternedPushRule {
    /// What the rule does when it matches.
    pub actions: Vec<Action>,
    /// Whether the server supplied the rule.
    pub default: bool,
    /// Whether the rule takes part in evaluation.
    pub enabled: bool,
    /// The rule's name, unique within its kind.
    pub rule_id: String,
    /// The glob to find in the body of the event.
    pub pattern: String,
}

/// The mathematical value of a [`PatternedPushRule`].
pub struct PatternedPushRuleView {
    pub actions: Seq<ActionView>,
    pub default: bool,
    pub enabled: bool,
    pub rule_id: Seq<char>,
    pub pattern: Seq<char>,
}

impl View for PatternedPushRule {
    type V = PatternedPushRuleView;

    open spec fn view(&self) -> PatternedPushRuleView {
        PatternedPushRuleView {
            actions: action_views(self.actions@),
            default: self.default,
            enabled: self.enabled,
            rule_id: self.rule_id@,
            pattern: self.pattern@,
        }
    }
}

/// A rule without conditions of its own, named after the room or the sender
/// that it is for: it matches every event that evaluation brings to it.
#[derive(Clone, Debug, PartialEq, Eq)]
pub struct SimpleRule {
    /// What the rule does when it matches.
    pub actions: Vec<Action>,
    /// Whether the server supplied the rule.
    pub default: bool,
    /// Whether the rule takes part in evaluation.
    pub enabled: bool,
    /// The rule's name, unique within its kind.
    pub rule_id: String,
}

/// The mathematical value of a [`SimpleRule`].
pub struct SimpleRuleView {
    pub actions: Seq<ActionView>,
    pub default: bool,
    pub enabled: bool,
    pub rule_id: Seq<char>,
}

impl View for SimpleRule {
    type V = SimpleRuleView;

    open spec fn view(&self) -> SimpleRuleView {
        SimpleRuleView {
            actions: action_views(self.actions@),
            default: self.default,
            enabled: self.enabled,
            rule_id: self.rule_id@,
        }
    }
}

/// A rule of the room kind or of the sender kind: a simple rule, or a
/// conditional one where the rule needs conditions of its own.
#[derive(Clone, Debug, PartialEq, Eq)]
pub enum ScopedPushRule {
    Simple(SimpleRule),
    Conditional(ConditionalPushRule),
}

/// The mathematical value of a rule of any shape.
pub enum RuleView {
    Simple(SimpleRuleView),
    Conditional(ConditionalPushRuleView),
    Patterned(PatternedPushRuleView),
}

impl View for ScopedPushRule {
    type V = RuleView;

    open spec fn view(&self) -> RuleView {
        match self {
            ScopedPushRule::Simple(rule) => RuleView::Simple(rule@),
            ScopedPushRule::Conditional(rule) => RuleView::Conditional(rule@),
        }
    }
}

impl ConditionalPushRuleView {
    /// Whether all conditions of the rule hold. A rule without conditions
    /// applies to every event.
    pub open spec fn applies(
        self,
        event: ValueView,
        room: RoomContextView,
        user: UserContextView,
    ) -> bool {
        forall|i: int|
            0 <= i < self.conditions.len() ==> (#[trigger] self.conditions[i]).holds(
                event,
                room,
                user,
            )
    }
}

impl PatternedPushRuleView {
    /// Whether the pattern of the rule matches a word of the body of the
    /// event.
    pub open spec fn applies(
        self,
        event: ValueView,
        room: RoomContextView,
        user: UserContextView,
    ) -> bool {
        body_matches(event, self.pattern)
    }
}

impl SimpleRuleView {
    /// A simple rule applies to every event.
    pub open spec fn applies(
        self,
        event: ValueView,
        room: RoomContextView,
        user: UserContextView,
    ) -> bool {
        true
    }
}

impl RuleView {
    /// The rule's name.
    pub open spec fn rule_id(self) -> Seq<char> {
        match self {
            RuleView::Simple(rule) => rule.rule_id,
            RuleView::Conditional(rule) => rule.rule_id,
            RuleView::Patterned(rule) => rule.rule_id,
        }
    }

    /// Whether the rule takes part in evaluation.
    pub open spec fn enabled(self) -> bool {
        match self {
            RuleView::Simple(rule) => rule.enabled,
            RuleView::Conditional(rule) => rule.enabled,
            RuleView::Patterned(rule) => rule.enabled,
        }
    }

    /// What the rule does when it matches.
    pub open spec fn actions(self) -> Seq<ActionView> {
        match self {
            RuleView::Simple(rule) => rule.actions,
            RuleView::Conditional(rule) => rule.actions,
            RuleView::Patterned(rule) => rule.actions,
        }
    }

    /// Whether the rule's own test holds of the event, enabled or not.
    pub open spec fn applies(
        self,
        event: ValueView,
        room: RoomContextView,
        user: UserContextView,
    ) -> bool {
        match self {
            RuleView::Simple(rule) => rule.applies(event, room, user),
            RuleView::Conditional(rule) => rule.applies(event, room, user),
            RuleView::Patterned(rule) => rule.applies(event, room, user),
        }
    }

    /// Whether the rule matches the event in evaluation: it is enabled and
    /// its test holds.
    pub open spec fn fires(
        self,
        event: ValueView,
        room: RoomContextView,
        user: UserContextView,
    ) -> bool {
        self.enabled() && self.applies(event, room, user)
    }
}

impl ConditionalPushRule {
    /// Tests whether all conditions of the rule hold.
    pub fn applies(
        &self,
        event: &EventValue,
        room: &RoomContext,
        user: &UserContext,
    ) -> (yes: bool)
        ensures
            yes == self@.applies(event@, room@, user@),
    {
        let mut i: usize = 0;
        while i < self.conditions.len()
            invariant
                i <= self.conditions.len(),
                forall|k: int|
                    0 <= k < i ==> (#[trigger] self@.conditions[k]).holds(event@, room@, user@),
            decreases self.conditions.len() - i,
        {
            if !self.conditions[i].applies(event, room, user) {
                assert(!self@.conditions[i as int].holds(event@, room@, user@));
                return false;
            }
            i += 1;
        }
        true
    }
}

impl PatternedPushRule {
    /// Tests whether the pattern of the rule matches a word of the body of
    /// the event.
    pub fn applies(
        &self,
        event: &EventValue,
        room: &RoomContext,
        user: &UserContext,
    ) -> (yes: bool)
        ensures
            yes == self@.applies(event@, room@, user@),
    {
        body_match(event, self.pattern.as_str())
    }
}

impl SimpleRule {
    /// A simple rule applies to every event.
    pub fn applies(
        &self,
        event: &EventValue,
        room: &RoomContext,
        user: &UserContext,
    ) -> (yes: bool)
        ensures
            yes == self@.applies(event@, room@, user@),
    {
        true
    }
}

impl ScopedPushRule {
    /// The rule's name.
    pub fn rule_id(&self) -> (rule_id: &String)
        ensures
            rule_id@ == self@.rule_id(),
    {
        match self {
            ScopedPushRule::Simple(rule) => &rule.rule_id,
            ScopedPushRule::Conditional(rule) => &rule.rule_id,
        }
    }

    /// Whether the rule takes part in evaluation.
    pub fn enabled(&self) -> (yes: bool)
        ensures
            yes == self@.enabled(),
    {
        match self {
            ScopedPushRule::Simple(rule) => rule.enabled,
            ScopedPushRule::Conditional(rule) => rule.enabled,
        }
    }

    /// What the rule does when it matches.
    pub fn actions(&self) -> (actions: &Vec<Action>)
        ensures
            action_views(actions@) == self@.actions(),
    {
        match self {
            ScopedPushRule::Simple(rule) => &rule.actions,
            ScopedPushRule::Conditional(rule) => &rule.actions,
        }
    }

    /// Tests whether the rule's own test holds of the event.
    pub fn applies(
        &self,
        event: &EventValue,
        room: &RoomContext,
        user: &UserContext,
    ) -> (yes: bool)
        ensures
            yes == self@.applies(event@, room@, user@),
    {
        match self {
            ScopedPushRule::Simple(rule) => rule.applies(event, room, user),
            ScopedPushRule::Conditional(rule) => rule.applies(event, room, user),
        }
    }
}

} // verus!
