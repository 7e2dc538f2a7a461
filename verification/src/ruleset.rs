//! A user's rules, kind by kind, and their evaluation against an event.

use crate::action::{resolve, resolve_actions, Decision, DecisionView};
use crate::context::{RoomContext, RoomContextView, UserContext, UserContextView};
use crate::event::{EventValue, ValueView};
use crate::rule::{
    ConditionalPushRule, ConditionalPushRuleView, PatternedPushRule, PatternedPushRuleView,
    RuleView, ScopedPushRule,
};
use vstd::prelude::*;

verus! {

/// The rules of one user. Each kind keeps its rules in the order in which
/// they were added, and evaluation goes through them in that order.
#[derive(Clone, Debug, PartialEq, Eq)]
pub struct Ruleset {
    /// Rules of the content kind.
    pub content: Vec<PatternedPushRule>,
    /// Rules of the override kind, the first to be evaluated.
    pub override_: Vec<ConditionalPushRule>,
    /// Rules of the room kind.
    pub room: Vec<ScopedPushRule>,
    /// Rules of the sender kind.
    pub sender: Vec<ScopedPushRule>,
    /// Rules of the underride kind, the last to be evaluated.
    pub underride: Vec<ConditionalPushRule>,
}

/// The mathematical value of a [`Ruleset`].
pub struct RulesetView {
    pub content: Seq<PatternedPushRuleView>,
    pub override_: Seq<ConditionalPushRuleView>,
    pub room: Seq<RuleView>,
    pub sender: Seq<RuleView>,
    pub underride: Seq<ConditionalPushRuleView>,
}

/// The values of a list of conditional rules, in order.
pub open spec fn conditional_views(rules: Seq<ConditionalPushRule>) -> Seq<
    ConditionalPushRuleView,
> {
    rules.map_values(|rule: ConditionalPushRule| rule@)
}

/// The values of a list of patterned rules, in order.
pub open spec fn patterned_views(rules: Seq<PatternedPushRule>) -> Seq<PatternedPushRuleView> {
    rules.map_values(|rule: PatternedPushRule| rule@)
}

/// The values of a list of room or sender rules, in order.
pub open spec fn scoped_views(rules: Seq<ScopedPushRule>) -> Seq<RuleView> {
    rules.map_values(|rule: ScopedPushRule| rule@)
}

/// Conditional rules as rules of any shape.
pub open spec fn conditional_rules(rules: Seq<ConditionalPushRuleView>) -> Seq<RuleView> {
    rules.map_values(|rule: ConditionalPushRuleView| RuleView::Conditional(rule))
}

/// Patterned rules as rules of any shape.
pub open spec fn patterned_rules(rules: Seq<PatternedPushRuleView>) -> Seq<RuleView> {
    rules.map_values(|rule: PatternedPushRuleView| RuleView::Patterned(rule))
}

impl View for Ruleset {
    type V = RulesetView;

    open spec fn view(&self) -> RulesetView {
        RulesetView {
            content: patterned_views(self.content@),
            override_: conditional_views(self.override_@),
            room: scoped_views(self.room@),
            sender: scoped_views(self.sender@),
            underride: conditional_views(self.underride@),
        }
    }
}

/// Whether no two rules of the list have the same name.
pub open spec fn ids_unique(rules: Seq<RuleView>) -> bool {
    forall|i: int, j: int|
        0 <= i < j < rules.len() ==> (#[trigger] rules[i]).rule_id() != (
        #[trigger] rules[j]).rule_id()
}

impl RulesetView {
    /// All rules in the order of evaluation: the override rules first,
    /// then the content, room, sender and underride rules, each kind in
    /// its own order.
    pub open spec fn in_priority_order(self) -> Seq<RuleView> {
        conditional_rules(self.override_) + patterned_rules(self.content) + self.room
            + self.sender + conditional_rules(self.underride)
    }

    /// Whether the names of the rules are unique within each kind. Two
    /// rules of different kinds may have the same name.
    pub open spec fn well_formed(self) -> bool {
        &&& ids_unique(conditional_rules(self.override_))
        &&& ids_unique(patterned_rules(self.content))
        &&& ids_unique(self.room)
        &&& ids_unique(self.sender)
        &&& ids_unique(conditional_rules(self.underride))
    }
}

/// Whether one of the rules is called `rule_id`.
pub open spec fn has_id(rules: Seq<RuleView>, rule_id: Seq<char>) -> bool {
    exists|i: int| 0 <= i < rules.len() && (#[trigger] rules[i]).rule_id() == rule_id
}

/// Why a rule was not added to a ruleset.
#[derive(Clone, Copy, Debug, PartialEq, Eq, Structural)]
pub enum RuleError {
    /// The kind already has a rule of that name.
    DuplicateRuleId,
    /// The rule is a content rule and its pattern is empty.
    EmptyPattern,
}

/// A rule with a new name, added at the end, keeps the names unique.
pub proof fn lemma_push_keeps_ids_unique(rules: Seq<RuleView>, rule: RuleView)
    requires
        ids_unique(rules),
        !has_id(rules, rule.rule_id()),
    ensures
        ids_unique(rules.push(rule)),
{
    let longer = rules.push(rule);
    assert forall|i: int, j: int| 0 <= i < j < longer.len() implies (#[trigger] longer[i]).rule_id()
        != (#[trigger] longer[j]).rule_id() by {}
}

/// The outcome of evaluating `rules`, in their order, against an event:
/// the decision of the first rule that is enabled and applies, and
/// nothing where there is no such rule.
pub open spec fn decide(
    rules: Seq<RuleView>,
    event: ValueView,
    room: RoomContextView,
    user: UserContextView,
) -> Option<DecisionView>
    decreases rules.len(),
{
    if rules.len() == 0 {
        None
    } else if rules[0].fires(event, room, user) {
        Some(resolve_actions(rules[0].actions()))
    } else {
        decide(rules.drop_first(), event, room, user)
    }
}

/// The value of an outcome of evaluation.
pub open spec fn outcome_view(outcome: Option<Decision>) -> Option<DecisionView> {
    match outcome {
        Some(decision) => Some(decision@),
        None => None,
    }
}

/// A rule that fires, with none firing before it, decides the outcome.
pub proof fn lemma_decide_first(
    rules: Seq<RuleView>,
    event: ValueView,
    room: RoomContextView,
    user: UserContextView,
    at: int,
)
    requires
        0 <= at < rules.len(),
        rules[at].fires(event, room, user),
        forall|k: int| 0 <= k < at ==> !(#[trigger] rules[k]).fires(event, room, user),
    ensures
        decide(rules, event, room, user) == Some(resolve_actions(rules[at].actions())),
    decreases at,
{
    if at > 0 {
        let rest = rules.drop_first();
        assert forall|k: int| 0 <= k < at - 1 implies !(#[trigger] rest[k]).fires(
            event,
            room,
            user,
        ) by {}
        lemma_decide_first(rest, event, room, user, at - 1);
    }
}

/// Where no rule fires, evaluation has no outcome.
pub proof fn lemma_decide_none(
    rules: Seq<RuleView>,
    event: ValueView,
    room: RoomContextView,
    user: UserContextView,
)
    requires
        forall|k: int| 0 <= k < rules.len() ==> !(#[trigger] rules[k]).fires(event, room, user),
    ensures
        decide(rules, event, room, user) is None,
    decreases rules.len(),
{
    if rules.len() > 0 {
        let rest = rules.drop_first();
        assert forall|k: int| 0 <= k < rest.len() implies !(#[trigger] rest[k]).fires(
            event,
            room,
            user,
        ) by {}
        lemma_decide_none(rest, event, room, user);
    }
}

/// Evaluating one list after another: the second list is heard only
/// where the first has no outcome.
pub proof fn lemma_decide_concat(
    first: Seq<RuleView>,
    second: Seq<RuleView>,
    event: ValueView,
    room: RoomContextView,
    user: UserContextView,
)
    ensures
        decide(first + second, event, room, user) == (if decide(first, event, room, user)
            is Some {
            decide(first, event, room, user)
        } else {
            decide(second, event, room, user)
        }),
    decreases first.len(),
{
    if first.len() > 0 {
        assert((first + second).drop_first() =~= first.drop_first() + second);
        lemma_decide_concat(first.drop_first(), second, event, room, user);
    }
}

/// Evaluates conditional rules in their order.
pub fn evaluate_conditional(
    rules: &Vec<ConditionalPushRule>,
    event: &EventValue,
    room: &RoomContext,
    user: &UserContext,
) -> (outcome: Option<Decision>)
    ensures
        outcome_view(outcome) == decide(
            conditional_rules(conditional_views(rules@)),
            event@,
            room@,
            user@,
        ),
{
    let ghost lifted = conditional_rules(conditional_views(rules@));
    let mut i: usize = 0;
    while i < rules.len()
        invariant
            i <= rules.len(),
            lifted == conditional_rules(conditional_views(rules@)),
            forall|k: int| 0 <= k < i ==> !(#[trigger] lifted[k]).fires(event@, room@, user@),
        decreases rules.len() - i,
    {
        if rules[i].enabled && rules[i].applies(event, room, user) {
            proof {
                lemma_decide_first(lifted, event@, room@, user@, i as int);
            }
            return Some(resolve(&rules[i].actions));
        }
        i += 1;
    }
    proof {
        lemma_decide_none(lifted, event@, room@, user@);
    }
    None
}

/// Evaluates patterned rules in their order.
pub fn evaluate_patterned(
    rules: &Vec<PatternedPushRule>,
    event: &EventValue,
    room: &RoomContext,
    user: &UserContext,
) -> (outcome: Option<Decision>)
    ensures
        outcome_view(outcome) == decide(
            patterned_rules(patterned_views(rules@)),
            event@,
            room@,
            user@,
        ),
{
    let ghost lifted = patterned_rules(patterned_views(rules@));
    let mut i: usize = 0;
    while i < rules.len()
        invariant
            i <= rules.len(),
            lifted == patterned_rules(patterned_views(rules@)),
            forall|k: int| 0 <= k < i ==> !(#[trigger] lifted[k]).fires(event@, room@, user@),
        decreases rules.len() - i,
    {
        if rules[i].enabled && rules[i].applies(event, room, user) {
            proof {
                lemma_decide_first(lifted, event@, room@, user@, i as int);
            }
            return Some(resolve(&rules[i].actions));
        }
        i += 1;
    }
    proof {
        lemma_decide_none(lifted, event@, room@, user@);
    }
    None
}

/// Evaluates room or sender rules in their order.
pub fn evaluate_scoped(
    rules: &Vec<ScopedPushRule>,
    event: &EventValue,
    room: &RoomContext,
    user: &UserContext,
) -> (outcome: Option<Decision>)
    ensures
        outcome_view(outcome) == decide(scoped_views(rules@), event@, room@, user@),
{
    let ghost lifted = scoped_views(rules@);
    let mut i: usize = 0;
    while i < rules.len()
        invariant
            i <= rules.len(),
            lifted == scoped_views(rules@),
            forall|k: int| 0 <= k < i ==> !(#[trigger] lifted[k]).fires(event@, room@, user@),
        decreases rules.len() - i,
    {
        if rules[i].enabled() && rules[i].applies(event, room, user) {
            proof {
                lemma_decide_first(lifted, event@, room@, user@, i as int);
            }
            return Some(resolve(rules[i].actions()));
        }
        i += 1;
    }
    proof {
        lemma_decide_none(lifted, event@, room@, user@);
    }
    None
}

/// Adds `rule` behind the conditional rules of one kind, unless one of
/// them has its name.
fn push_conditional(
    rules: &mut Vec<ConditionalPushRule>,
    rule: ConditionalPushRule,
) -> (added: Result<(), RuleError>)
    ensures
        added is Ok <==> !has_id(
            conditional_rules(conditional_views(old(rules)@)),
            rule@.rule_id,
        ),
        added is Ok ==> conditional_views(final(rules)@) == conditional_views(old(rules)@).push(
            rule@,
        ),
        added is Err ==> added == Err::<(), RuleError>(RuleError::DuplicateRuleId)
            && conditional_views(final(rules)@) == conditional_views(old(rules)@),
{
    let ghost lifted = conditional_rules(conditional_views(rules@));
    let mut i: usize = 0;
    while i < rules.len()
        invariant
            i <= rules.len(),
            *rules == *old(rules),
            lifted == conditional_rules(conditional_views(rules@)),
            forall|k: int| 0 <= k < i ==> (#[trigger] lifted[k]).rule_id() != rule@.rule_id,
        decreases rules.len() - i,
    {
        if rules[i].rule_id == rule.rule_id {
            assert(lifted[i as int].rule_id() == rule@.rule_id);
            return Err(RuleError::DuplicateRuleId);
        }
        i += 1;
    }
    rules.push(rule);
    Ok(())
}

/// Adds `rule` behind the room or sender rules of one kind, unless one of
/// them has its name.
fn push_scoped(
    rules: &mut Vec<ScopedPushRule>,
    rule: ScopedPushRule,
) -> (added: Result<(), RuleError>)
    ensures
        added is Ok <==> !has_id(scoped_views(old(rules)@), rule@.rule_id()),
        added is Ok ==> scoped_views(final(rules)@) == scoped_views(old(rules)@).push(rule@),
        added is Err ==> added == Err::<(), RuleError>(RuleError::DuplicateRuleId)
            && scoped_views(final(rules)@) == scoped_views(old(rules)@),
{
    let ghost lifted = scoped_views(rules@);
    let mut i: usize = 0;
    while i < rules.len()
        invariant
            i <= rules.len(),
            *rules == *old(rules),
            lifted == scoped_views(rules@),
            forall|k: int| 0 <= k < i ==> (#[trigger] lifted[k]).rule_id() != rule@.rule_id(),
        decreases rules.len() - i,
    {
        if *rules[i].rule_id() == *rule.rule_id() {
            assert(lifted[i as int].rule_id() == rule@.rule_id());
            return Err(RuleError::DuplicateRuleId);
        }
        i += 1;
    }
    rules.push(rule);
    Ok(())
}

/// Adds `rule` behind the patterned rules of one kind, unless its pattern
/// is empty or one of them has its name.
fn push_patterned(
    rules: &mut Vec<PatternedPushRule>,
    rule: PatternedPushRule,
) -> (added: Result<(), RuleError>)
    ensures
        added is Ok <==> rule@.pattern.len() > 0 && !has_id(
            patterned_rules(patterned_views(old(rules)@)),
            rule@.rule_id,
        ),
        added is Ok ==> patterned_views(final(rules)@) == patterned_views(old(rules)@).push(
            rule@,
        ),
        added is Err ==> patterned_views(final(rules)@) == patterned_views(old(rules)@),
        added == Err::<(), RuleError>(RuleError::EmptyPattern) <==> rule@.pattern.len() == 0,
        added == Err::<(), RuleError>(RuleError::DuplicateRuleId) <==> rule@.pattern.len() > 0
            && has_id(patterned_rules(patterned_views(old(rules)@)), rule@.rule_id),
{
    if rule.pattern.as_str().is_empty() {
        return Err(RuleError::EmptyPattern);
    }
    let ghost lifted = patterned_rules(patterned_views(rules@));
    let mut i: usize = 0;
    while i < rules.len()
        invariant
            i <= rules.len(),
            *rules == *old(rules),
            rule@.pattern.len() > 0,
            lifted == patterned_rules(patterned_views(rules@)),
            forall|k: int| 0 <= k < i ==> (#[trigger] lifted[k]).rule_id() != rule@.rule_id,
        decreases rules.len() - i,
    {
        if rules[i].rule_id == rule.rule_id {
            assert(lifted[i as int].rule_id() == rule@.rule_id);
            return Err(RuleError::DuplicateRuleId);
        }
        i += 1;
    }
    rules.push(rule);
    Ok(())
}

impl Default for Ruleset {
    /// A ruleset without rules.
    fn default() -> (ruleset: Self)
        ensures
            ruleset@.content.len() == 0,
            ruleset@.override_.len() == 0,
            ruleset@.room.len() == 0,
            ruleset@.sender.len() == 0,
            ruleset@.underride.len() == 0,
            ruleset@.well_formed(),
    {
        Ruleset::new()
    }
}

impl Ruleset {
    /// A ruleset without rules.
    pub fn new() -> (ruleset: Self)
        ensures
            ruleset@.content.len() == 0,
            ruleset@.override_.len() == 0,
            ruleset@.room.len() == 0,
            ruleset@.sender.len() == 0,
            ruleset@.underride.len() == 0,
            ruleset@.well_formed(),
    {
        Ruleset {
            content: Vec::new(),
            override_: Vec::new(),
            room: Vec::new(),
            sender: Vec::new(),
            underride: Vec::new(),
        }
    }

    /// Adds an override rule behind those that are there. A rule whose
    /// name an override rule already has is refused, and nothing changes.
    pub fn add_override(&mut self, rule: ConditionalPushRule) -> (added: Result<(), RuleError>)
        ensures
            added is Ok <==> !has_id(conditional_rules(old(self)@.override_), rule@.rule_id),
            added is Ok ==> final(self)@ == (RulesetView {
                override_: old(self)@.override_.push(rule@),
                ..old(self)@
            }),
            added is Err ==> added == Err::<(), RuleError>(RuleError::DuplicateRuleId),
            added is Err ==> final(self)@ == old(self)@,
            old(self)@.well_formed() ==> final(self)@.well_formed(),
    {
        let ghost before = self@.override_;
        let added = push_conditional(&mut self.override_, rule);
        proof {
            if added is Ok {
                assert(conditional_rules(before.push(rule@)) =~= conditional_rules(before).push(
                    RuleView::Conditional(rule@),
                ));
                if old(self)@.well_formed() {
                    lemma_push_keeps_ids_unique(
                        conditional_rules(before),
                        RuleView::Conditional(rule@),
                    );
                }
            }
        }
        added
    }

    /// Adds an underride rule behind those that are there. A rule whose
    /// name an underride rule already has is refused, and nothing changes.
    pub fn add_underride(&mut self, rule: ConditionalPushRule) -> (added: Result<(), RuleError>)
        ensures
            added is Ok <==> !has_id(conditional_rules(old(self)@.underride), rule@.rule_id),
            added is Ok ==> final(self)@ == (RulesetView {
                underride: old(self)@.underride.push(rule@),
                ..old(self)@
            }),
            added is Err ==> added == Err::<(), RuleError>(RuleError::DuplicateRuleId),
            added is Err ==> final(self)@ == old(self)@,
            old(self)@.well_formed() ==> final(self)@.well_formed(),
    {
        let ghost before = self@.underride;
        let added = push_conditional(&mut self.underride, rule);
        proof {
            if added is Ok {
                assert(conditional_rules(before.push(rule@)) =~= conditional_rules(before).push(
                    RuleView::Conditional(rule@),
                ));
                if old(self)@.well_formed() {
                    lemma_push_keeps_ids_unique(
                        conditional_rules(before),
                        RuleView::Conditional(rule@),
                    );
                }
            }
        }
        added
    }

    /// Adds a content rule behind those that are there. A rule with an
    /// empty pattern is refused, and so is one whose name a content rule
    /// already has; nothing changes then.
    pub fn add_content(&mut self, rule: PatternedPushRule) -> (added: Result<(), RuleError>)
        ensures
            added is Ok <==> rule@.pattern.len() > 0 && !has_id(
                patterned_rules(old(self)@.content),
                rule@.rule_id,
            ),
            added is Ok ==> final(self)@ == (RulesetView {
                content: old(self)@.content.push(rule@),
                ..old(self)@
            }),
            added is Err ==> final(self)@ == old(self)@,
            added == Err::<(), RuleError>(RuleError::EmptyPattern) <==> rule@.pattern.len() == 0,
            added == Err::<(), RuleError>(RuleError::DuplicateRuleId) <==> rule@.pattern.len() > 0
                && has_id(patterned_rules(old(self)@.content), rule@.rule_id),
            old(self)@.well_formed() ==> final(self)@.well_formed(),
    {
        let ghost before = self@.content;
        let added = push_patterned(&mut self.content, rule);
        proof {
            if added is Ok {
                assert(patterned_rules(before.push(rule@)) =~= patterned_rules(before).push(
                    RuleView::Patterned(rule@),
                ));
                if old(self)@.well_formed() {
                    lemma_push_keeps_ids_unique(
                        patterned_rules(before),
                        RuleView::Patterned(rule@),
                    );
                }
            }
        }
        added
    }

    /// Adds a room rule behind those that are there. A rule whose name a
    /// room rule already has is refused, and nothing changes.
    pub fn add_room(&mut self, rule: ScopedPushRule) -> (added: Result<(), RuleError>)
        ensures
            added is Ok <==> !has_id(old(self)@.room, rule@.rule_id()),
            added is Ok ==> final(self)@ == (RulesetView {
                room: old(self)@.room.push(rule@),
                ..old(self)@
            }),
            added is Err ==> added == Err::<(), RuleError>(RuleError::DuplicateRuleId),
            added is Err ==> final(self)@ == old(self)@,
            old(self)@.well_formed() ==> final(self)@.well_formed(),
    {
        let ghost before = self@.room;
        let added = push_scoped(&mut self.room, rule);
        proof {
            if added is Ok && old(self)@.well_formed() {
                lemma_push_keeps_ids_unique(before, rule@);
            }
        }
        added
    }

    /// Adds a sender rule behind those that are there. A rule whose name a
    /// sender rule already has is refused, and nothing changes.
    pub fn add_sender(&mut self, rule: ScopedPushRule) -> (added: Result<(), RuleError>)
        ensures
            added is Ok <==> !has_id(old(self)@.sender, rule@.rule_id()),
            added is Ok ==> final(self)@ == (RulesetView {
                sender: old(self)@.sender.push(rule@),
                ..old(self)@
            }),
            added is Err ==> added == Err::<(), RuleError>(RuleError::DuplicateRuleId),
            added is Err ==> final(self)@ == old(self)@,
            old(self)@.well_formed() ==> final(self)@.well_formed(),
    {
        let ghost before = self@.sender;
        let added = push_scoped(&mut self.sender, rule);
        proof {
            if added is Ok && old(self)@.well_formed() {
                lemma_push_keeps_ids_unique(before, rule@);
            }
        }
        added
    }

    /// Evaluates the rules against an event: the decision of the first
    /// rule, in the order of evaluation, that is enabled and applies.
    /// `None` says that no rule matched, which is not the same as a rule
    /// that decided not to notify.
    pub fn evaluate(
        &self,
        event: &EventValue,
        room: &RoomContext,
        user: &UserContext,
    ) -> (outcome: Option<Decision>)
        ensures
            outcome_view(outcome) == decide(self@.in_priority_order(), event@, room@, user@),
    {
        let ghost o = conditional_rules(self@.override_);
        let ghost c = patterned_rules(self@.content);
        let ghost r = self@.room;
        let ghost s = self@.sender;
        let ghost u = conditional_rules(self@.underride);
        proof {
            lemma_decide_concat(o + c + r + s, u, event@, room@, user@);
            lemma_decide_concat(o + c + r, s, event@, room@, user@);
            lemma_decide_concat(o + c, r, event@, room@, user@);
            lemma_decide_concat(o, c, event@, room@, user@);
        }
        if let Some(decision) = evaluate_conditional(&self.override_, event, room, user) {
            return Some(decision);
        }
        if let Some(decision) = evaluate_patterned(&self.content, event, room, user) {
            return Some(decision);
        }
        if let Some(decision) = evaluate_scoped(&self.room, event, room, user) {
            return Some(decision);
        }
        if let Some(decision) = evaluate_scoped(&self.sender, event, room, user) {
            return Some(decision);
        }
        evaluate_conditional(&self.underride, event, room, user)
    }
}

} // verus!
