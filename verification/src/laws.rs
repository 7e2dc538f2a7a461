//! What holds of evaluation whatever the rules and the event are.

use crate::action::{resolve_actions, ActionView, Decision, DecisionView};
use crate::condition::body_key;
use crate::context::{RoomContext, RoomContextView, UserContext, UserContextView};
use crate::event::{lookup_text, EventValue, ValueView};
use crate::glob::{
    contains_word, is_literal, lemma_literal_matches_itself, lemma_literal_word_match,
    lemma_matches_itself,
};
use crate::rule::{ConditionalPushRuleView, PatternedPushRuleView, RuleView};
use crate::ruleset::{
    conditional_rules, decide, lemma_decide_concat, lemma_decide_first, outcome_view, Ruleset,
    RulesetView,
};
use crate::text::fold;
use vstd::prelude::*;

verus! {

/// The first rule that fires decides, whatever stands behind it: the
/// outcome is the same with any other rules in place of the later ones.
pub proof fn lemma_later_rules_unheard(
    rules: Seq<RuleView>,
    others: Seq<RuleView>,
    event: ValueView,
    room: RoomContextView,
    user: UserContextView,
    at: int,
)
    requires
        0 <= at < rules.len(),
        rules[at].fires(event, room, user),
        forall|k: int| 0 <= k < at ==> !(#[trigger] rules[k]).fires(event, room, user),
    ensures
        decide(rules.take(at + 1) + others, event, room, user) == decide(
            rules,
            event,
            room,
            user,
        ),
{
    let head = rules.take(at + 1);
    lemma_decide_first(rules, event, room, user, at);
    lemma_decide_first(head, event, room, user, at);
    lemma_decide_concat(head, others, event, room, user);
}

/// Of two rules that both fire, the one that stands first decides and
/// shadows the other: in the other order the other one decides.
pub proof fn lemma_order_decides_between_two(
    one: RuleView,
    other: RuleView,
    event: ValueView,
    room: RoomContextView,
    user: UserContextView,
)
    requires
        one.fires(event, room, user),
        other.fires(event, room, user),
    ensures
        decide(seq![one, other], event, room, user) == Some(resolve_actions(one.actions())),
        decide(seq![other, one], event, room, user) == Some(resolve_actions(other.actions())),
{
    lemma_decide_first(seq![one, other], event, room, user, 0);
    lemma_decide_first(seq![other, one], event, room, user, 0);
}

/// A rule added behind the rules of its kind is heard after all of them:
/// it decides only where none of the earlier rules fires.
pub proof fn lemma_added_rule_is_heard_last(
    rules: Seq<RuleView>,
    rule: RuleView,
    event: ValueView,
    room: RoomContextView,
    user: UserContextView,
)
    ensures
        decide(rules.push(rule), event, room, user) == (if decide(rules, event, room, user)
            is Some {
            decide(rules, event, room, user)
        } else if rule.fires(event, room, user) {
            Some(resolve_actions(rule.actions()))
        } else {
            None
        }),
{
    let one = seq![rule];
    assert(rules.push(rule) =~= rules + one);
    lemma_decide_concat(rules, one, event, room, user);
    assert(decide(one.drop_first(), event, room, user) is None);
}

/// A disabled rule is skipped: evaluation gives what it gives without
/// the rule.
pub proof fn lemma_disabled_rule_is_skipped(
    rules: Seq<RuleView>,
    event: ValueView,
    room: RoomContextView,
    user: UserContextView,
    at: int,
)
    requires
        0 <= at < rules.len(),
        !rules[at].enabled(),
    ensures
        decide(rules, event, room, user) == decide(rules.remove(at), event, room, user),
{
    let before = rules.take(at);
    let one = seq![rules[at]];
    let after = rules.skip(at + 1);
    assert(rules =~= before + (one + after));
    lemma_decide_concat(before, one + after, event, room, user);
    lemma_decide_concat(before, after, event, room, user);
    lemma_decide_concat(one, after, event, room, user);
    assert(decide(one.drop_first(), event, room, user) is None);
}

/// An enabled rule without conditions silences everything behind it: with
/// such a rule in front whose one action is `DontNotify`, every event gets
/// the decision not to notify, without tweaks.
pub proof fn lemma_enabled_master_silences(
    master: ConditionalPushRuleView,
    rest: Seq<RuleView>,
    event: ValueView,
    room: RoomContextView,
    user: UserContextView,
)
    requires
        master.enabled,
        master.conditions.len() == 0,
        master.actions == seq![ActionView::DontNotify],
    ensures
        decide(seq![RuleView::Conditional(master)] + rest, event, room, user) == Some(
            DecisionView::silent(),
        ),
{
    assert(resolve_actions(master.actions.drop_last()) == DecisionView::silent());
}

/// The default rules start with `.m.rule.master`, which is disabled: it
/// does not decide, and the outcome is that of the rules behind it.
/// Enabled, it would match every event and decide not to notify.
pub proof fn lemma_default_master(
    user_id: Seq<char>,
    localpart: Seq<char>,
    event: ValueView,
    room: RoomContextView,
    user: UserContextView,
)
    ensures
        ({
            let rules = RulesetView::server_default(user_id, localpart).in_priority_order();
            let enabled_master = RuleView::Conditional(
                ConditionalPushRuleView { enabled: true, ..ConditionalPushRuleView::master() },
            );
            &&& rules.len() > 0
            &&& rules[0] == RuleView::Conditional(ConditionalPushRuleView::master())
            &&& decide(rules, event, room, user) == decide(rules.drop_first(), event, room, user)
            &&& decide(rules.update(0, enabled_master), event, room, user) == Some(
                DecisionView::silent(),
            )
        }),
{
    let rules = RulesetView::server_default(user_id, localpart).in_priority_order();
    let master = ConditionalPushRuleView { enabled: true, ..ConditionalPushRuleView::master() };
    lemma_enabled_master_silences(master, rules.drop_first(), event, room, user);
}

/// Evaluation is a function of the rules, the event, the room and the
/// user: two evaluations of the same rules against the same event come to
/// the same outcome.
pub proof fn lemma_evaluation_is_repeatable(
    ruleset: Ruleset,
    event: EventValue,
    room: RoomContext,
    user: UserContext,
    first: Option<Decision>,
    second: Option<Decision>,
)
    requires
        outcome_view(first) == decide(ruleset@.in_priority_order(), event@, room@, user@),
        outcome_view(second) == decide(ruleset@.in_priority_order(), event@, room@, user@),
    ensures
        outcome_view(first) == outcome_view(second),
{
}

/// Folding the case of a pattern without wildcards leaves it without
/// wildcards.
pub proof fn lemma_fold_keeps_literal(pattern: Seq<char>)
    requires
        is_literal(pattern),
    ensures
        is_literal(fold(pattern)),
{
    assert forall|i: int| 0 <= i < fold(pattern).len() implies fold(pattern)[i] != '*' && fold(
        pattern,
    )[i] != '?' by {}
}

/// The rule for the user's name applies exactly to the events whose body
/// holds the localpart as a word, whatever the case of ASCII letters,
/// where the localpart has no wildcard in it.
pub proof fn lemma_contains_user_name_finds_the_word(
    localpart: Seq<char>,
    event: ValueView,
    room: RoomContextView,
    user: UserContextView,
)
    requires
        is_literal(localpart),
    ensures
        PatternedPushRuleView::contains_user_name(localpart).applies(event, room, user) == (
        match lookup_text(event, body_key()) {
            Some(body) => contains_word(fold(body), fold(localpart)),
            None => false,
        }),
{
    lemma_fold_keeps_literal(localpart);
    match lookup_text(event, body_key()) {
        Some(body) => {
            lemma_literal_word_match(fold(localpart), fold(body));
        },
        None => {},
    }
}

/// An invitation of the user matches the rule for invitations and is
/// notified with the default sound and without highlight: an event of
/// type `m.room.member` whose membership is `invite` and whose state key
/// is the user's identifier.
pub proof fn lemma_invite_for_me_notifies(
    user_id: Seq<char>,
    event: ValueView,
    room: RoomContextView,
    user: UserContextView,
)
    requires
        lookup_text(event, "type"@) == Some("m.room.member"@),
        lookup_text(event, "content.membership"@) == Some("invite"@),
        lookup_text(event, "state_key"@) == Some(user_id),
    ensures
        ConditionalPushRuleView::invite_for_me(user_id).applies(event, room, user),
        resolve_actions(ConditionalPushRuleView::invite_for_me(user_id).actions) == (DecisionView {
            notify: true,
            sound: Some("default"@),
            highlight: Some(false),
        }),
{
    let rule = ConditionalPushRuleView::invite_for_me(user_id);
    reveal_strlit("type");
    reveal_strlit("content.membership");
    reveal_strlit("state_key");
    reveal_strlit("content.body");
    lemma_matches_itself("m.room.member"@);
    lemma_matches_itself("invite"@);
    lemma_matches_itself(user_id);
    lemma_resolve_three(rule.actions);
}

/// The decision of three actions, one after the other.
pub proof fn lemma_resolve_three(actions: Seq<ActionView>)
    requires
        actions.len() == 3,
    ensures
        resolve_actions(actions) == DecisionView::silent().then_apply(actions[0]).then_apply(
            actions[1],
        ).then_apply(actions[2]),
{
    let two = actions.drop_last();
    let one = two.drop_last();
    let none = one.drop_last();
    assert(resolve_actions(one) == resolve_actions(none).then_apply(one.last()));
    assert(resolve_actions(two) == resolve_actions(one).then_apply(two.last()));
}

/// In a room of two, a message matches both the rule for such rooms and
/// the rule for messages. Among the default underride rules the first of
/// the two stands first, so it decides: the message is notified with the
/// default sound.
pub proof fn lemma_one_to_one_decides_before_message(
    user_id: Seq<char>,
    localpart: Seq<char>,
    event: ValueView,
    room: RoomContextView,
    user: UserContextView,
)
    requires
        lookup_text(event, "type"@) == Some("m.room.message"@),
        room.member_count == Some(2int),
    ensures
        ConditionalPushRuleView::room_one_to_one().applies(event, room, user),
        ConditionalPushRuleView::message().applies(event, room, user),
        decide(
            conditional_rules(RulesetView::server_default(user_id, localpart).underride),
            event,
            room,
            user,
        ) == Some(resolve_actions(ConditionalPushRuleView::room_one_to_one().actions)),
        resolve_actions(ConditionalPushRuleView::room_one_to_one().actions) == (DecisionView {
            notify: true,
            sound: Some("default"@),
            highlight: Some(false),
        }),
{
    let rules = conditional_rules(RulesetView::server_default(user_id, localpart).underride);
    let call = ConditionalPushRuleView::call();
    let encrypted = ConditionalPushRuleView::encrypted_room_one_to_one();
    let one_to_one = ConditionalPushRuleView::room_one_to_one();
    reveal_strlit("type");
    reveal_strlit("content.body");
    reveal_strlit("m.call.invite");
    reveal_strlit("m.room.encrypted");
    reveal_strlit("m.room.message");
    lemma_literal_matches_itself("m.call.invite"@, "m.room.message"@);
    lemma_literal_matches_itself("m.room.encrypted"@, "m.room.message"@);
    lemma_matches_itself("m.room.message"@);
    assert(!call.conditions[0].holds(event, room, user));
    assert(!encrypted.conditions[1].holds(event, room, user));
    lemma_decide_first(rules, event, room, user, 2);
    lemma_resolve_three(one_to_one.actions);
}

} // verus!
