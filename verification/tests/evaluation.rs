use push_rules::action::{Action, Decision, Tweak};
use push_rules::condition::PushCondition;
use push_rules::context::{PowerLevel, PowerLevels, RoomContext, UserContext};
use push_rules::event::{EventField, EventValue};
use push_rules::rule::{ConditionalPushRule, PatternedPushRule, ScopedPushRule, SimpleRule};
use push_rules::ruleset::{evaluate_conditional, evaluate_patterned, evaluate_scoped, Ruleset};
use ruma_identifiers::UserId;
use std::convert::TryFrom;

fn ev_t(s: &str) -> EventValue {
    EventValue::Text(s.to_string())
}

fn ev_f(name: &str, value: EventValue) -> EventField {
    EventField { name: name.to_string(), value }
}

fn ev_message(body: &str) -> EventValue {
    EventValue::Object(vec![
        ev_f("type", ev_t("m.room.message")),
        ev_f("sender", ev_t("@bob:example.org")),
        ev_f(
            "content",
            EventValue::Object(vec![ev_f("msgtype", ev_t("m.text")), ev_f("body", ev_t(body))]),
        ),
    ])
}

fn ev_invite(state_key: &str) -> EventValue {
    EventValue::Object(vec![
        ev_f("type", ev_t("m.room.member")),
        ev_f("sender", ev_t("@bob:example.org")),
        ev_f("state_key", ev_t(state_key)),
        ev_f("content", EventValue::Object(vec![ev_f("membership", ev_t("invite"))])),
    ])
}

fn ev_of_type(kind: &str) -> EventValue {
    EventValue::Object(vec![ev_f("type", ev_t(kind)), ev_f("sender", ev_t("@bob:example.org"))])
}

fn ev_room(members: u64) -> RoomContext {
    RoomContext {
        member_count: Some(members),
        power_levels: Some(PowerLevels {
            users: vec![PowerLevel { name: "@admin:example.org".to_string(), level: 100 }],
            users_default: 0,
            notifications: vec![PowerLevel { name: "room".to_string(), level: 50 }],
        }),
    }
}

fn ev_user() -> UserContext {
    UserContext { display_name: Some("Alice A".to_string()) }
}

fn ev_alice() -> UserId {
    UserId::try_from("@alice:example.org").unwrap()
}

fn ev_decision(notify: bool, sound: Option<&str>, highlight: Option<bool>) -> Decision {
    Decision { notify, sound: sound.map(|s| s.to_string()), highlight }
}

fn ev_rule(id: &str, pattern: &str, actions: Vec<Action>) -> ConditionalPushRule {
    ConditionalPushRule {
        actions,
        default: false,
        enabled: true,
        rule_id: id.to_string(),
        conditions: vec![PushCondition::EventMatch {
            key: "type".to_string(),
            pattern: pattern.to_string(),
        }],
    }
}

fn ev_simple(id: &str, enabled: bool, actions: Vec<Action>) -> SimpleRule {
    SimpleRule { actions, default: false, enabled, rule_id: id.to_string() }
}

#[test]
fn order_within_a_kind_decides() {
    let loud = ev_rule("loud", "m.room.*", vec![Action::Notify]);
    let quiet = ev_rule("quiet", "m.room.message", vec![Action::DontNotify]);
    let mut first = Ruleset::new();
    first.override_ = vec![loud.clone(), quiet.clone()];
    let mut second = Ruleset::new();
    second.override_ = vec![quiet, loud];
    let event = ev_message("hello");
    assert_eq!(
        first.evaluate(&event, &ev_room(5), &ev_user()),
        Some(ev_decision(true, None, None))
    );
    assert_eq!(
        second.evaluate(&event, &ev_room(5), &ev_user()),
        Some(ev_decision(false, None, None))
    );
}

#[test]
fn added_rules_are_evaluated_in_the_order_of_adding() {
    let mut ruleset = Ruleset::new();
    ruleset.add_underride(ev_rule("a", "m.room.*", vec![Action::Notify])).unwrap();
    ruleset
        .add_underride(ev_rule("b", "m.room.message", vec![Action::DontNotify]))
        .unwrap();
    assert_eq!(ruleset.underride[0].rule_id, "a");
    assert_eq!(ruleset.underride[1].rule_id, "b");
    assert_eq!(
        ruleset.evaluate(&ev_message("x"), &ev_room(5), &ev_user()),
        Some(ev_decision(true, None, None))
    );
}

#[test]
fn kinds_are_evaluated_in_priority_order() {
    let event = ev_message("hello world");
    let room = ev_room(5);
    let user = ev_user();
    let mut ruleset = Ruleset::new();
    ruleset.underride =
        vec![ev_rule("u", "*", vec![Action::Notify, Action::SetTweak(Tweak::Sound("u".into()))])];
    assert_eq!(ruleset.evaluate(&event, &room, &user), Some(ev_decision(true, Some("u"), None)));
    ruleset.sender = vec![ScopedPushRule::Simple(ev_simple(
        "@bob:example.org",
        true,
        vec![Action::Notify, Action::SetTweak(Tweak::Sound("s".into()))],
    ))];
    assert_eq!(ruleset.evaluate(&event, &room, &user), Some(ev_decision(true, Some("s"), None)));
    ruleset.room = vec![ScopedPushRule::Simple(ev_simple(
        "!room:example.org",
        true,
        vec![Action::Notify, Action::SetTweak(Tweak::Sound("r".into()))],
    ))];
    assert_eq!(ruleset.evaluate(&event, &room, &user), Some(ev_decision(true, Some("r"), None)));
    ruleset.content = vec![PatternedPushRule {
        actions: vec![Action::Notify, Action::SetTweak(Tweak::Sound("c".into()))],
        default: false,
        enabled: true,
        rule_id: "c".to_string(),
        pattern: "hello".to_string(),
    }];
    assert_eq!(ruleset.evaluate(&event, &room, &user), Some(ev_decision(true, Some("c"), None)));
    ruleset.override_ =
        vec![ev_rule("o", "*", vec![Action::Notify, Action::SetTweak(Tweak::Sound("o".into()))])];
    assert_eq!(ruleset.evaluate(&event, &room, &user), Some(ev_decision(true, Some("o"), None)));
}

#[test]
fn the_first_match_ends_evaluation() {
    let mut ruleset = Ruleset::new();
    ruleset.override_ = vec![
        ev_rule("miss", "m.call.invite", vec![Action::Notify]),
        ev_rule("hit", "m.room.message", vec![Action::DontNotify]),
        ev_rule("later", "m.room.message", vec![Action::Notify]),
    ];
    ruleset.underride = vec![ev_rule("last", "*", vec![Action::Notify])];
    assert_eq!(
        ruleset.evaluate(&ev_message("x"), &ev_room(5), &ev_user()),
        Some(ev_decision(false, None, None))
    );
}

#[test]
fn disabled_rules_are_skipped() {
    let mut off = ev_rule("off", "m.room.message", vec![Action::DontNotify]);
    off.enabled = false;
    let mut ruleset = Ruleset::new();
    ruleset.override_ = vec![off, ev_rule("on", "m.room.message", vec![Action::Notify])];
    ruleset.room = vec![ScopedPushRule::Simple(ev_simple("r", false, vec![Action::DontNotify]))];
    assert_eq!(
        ruleset.evaluate(&ev_message("x"), &ev_room(5), &ev_user()),
        Some(ev_decision(true, None, None))
    );
    assert_eq!(ruleset.override_.len(), 2);
    assert_eq!(ruleset.override_[0].rule_id, "off");
}

#[test]
fn all_conditions_must_hold() {
    let mut rule = ev_rule("both", "m.room.message", vec![Action::Notify]);
    rule.conditions.push(PushCondition::EventMatch {
        key: "content.msgtype".to_string(),
        pattern: "m.notice".to_string(),
    });
    let room = ev_room(5);
    assert!(!rule.applies(&ev_message("x"), &room, &ev_user()));
    rule.conditions[1] = PushCondition::EventMatch {
        key: "content.msgtype".to_string(),
        pattern: "m.text".to_string(),
    };
    assert!(rule.applies(&ev_message("x"), &room, &ev_user()));
}

#[test]
fn a_rule_without_conditions_applies_to_everything() {
    let master = ConditionalPushRule::master();
    assert!(master.applies(&ev_message("x"), &ev_room(5), &ev_user()));
    assert!(master.applies(&EventValue::Null, &ev_room(0), &ev_user()));
}

#[test]
fn simple_rules_apply_to_everything() {
    let rule = ev_simple("!room:example.org", true, vec![Action::DontNotify]);
    assert!(rule.applies(&ev_message("x"), &ev_room(5), &ev_user()));
    assert!(rule.applies(&EventValue::Null, &ev_room(0), &ev_user()));
    let scoped = ScopedPushRule::Simple(rule);
    assert!(scoped.enabled());
    assert_eq!(scoped.rule_id(), "!room:example.org");
    assert_eq!(scoped.actions(), &vec![Action::DontNotify]);
    assert!(scoped.applies(&EventValue::Null, &ev_room(0), &ev_user()));
}

#[test]
fn scoped_rules_may_have_conditions() {
    let scoped = ScopedPushRule::Conditional(ev_rule("c", "m.room.message", vec![Action::Notify]));
    assert!(scoped.enabled());
    assert_eq!(scoped.rule_id(), "c");
    assert!(scoped.applies(&ev_message("x"), &ev_room(5), &ev_user()));
    assert!(!scoped.applies(&ev_of_type("m.call.invite"), &ev_room(5), &ev_user()));
    let rules = vec![scoped, ScopedPushRule::Simple(ev_simple("s", true, vec![Action::DontNotify]))];
    assert_eq!(
        evaluate_scoped(&rules, &ev_message("x"), &ev_room(5), &ev_user()),
        Some(ev_decision(true, None, None))
    );
    assert_eq!(
        evaluate_scoped(&rules, &ev_of_type("m.call.invite"), &ev_room(5), &ev_user()),
        Some(ev_decision(false, None, None))
    );
}

#[test]
fn evaluation_of_one_kind() {
    let rules = vec![
        ev_rule("a", "m.call.invite", vec![Action::Notify]),
        ev_rule("b", "m.room.message", vec![Action::DontNotify]),
    ];
    assert_eq!(
        evaluate_conditional(&rules, &ev_message("x"), &ev_room(5), &ev_user()),
        Some(ev_decision(false, None, None))
    );
    assert_eq!(
        evaluate_conditional(&rules, &ev_of_type("m.other"), &ev_room(5), &ev_user()),
        None
    );
    let patterned = vec![PatternedPushRule::contains_name("alice".to_string())];
    assert_eq!(
        evaluate_patterned(&patterned, &ev_message("hi alice"), &ev_room(5), &ev_user()),
        Some(ev_decision(true, Some("default"), Some(true)))
    );
    assert_eq!(
        evaluate_patterned(&patterned, &ev_message("hi bob"), &ev_room(5), &ev_user()),
        None
    );
}

#[test]
fn master_does_not_decide_while_disabled() {
    let ruleset = Ruleset::server_default(&ev_alice());
    assert!(!ruleset.override_[0].enabled);
    assert_eq!(
        ruleset.evaluate(&ev_message("hello"), &ev_room(5), &ev_user()),
        Some(ev_decision(true, None, Some(false)))
    );
}

#[test]
fn master_enabled_silences_every_event() {
    let mut ruleset = Ruleset::server_default(&ev_alice());
    ruleset.override_[0].enabled = true;
    let silent = Some(ev_decision(false, None, None));
    assert_eq!(ruleset.evaluate(&ev_message("hello"), &ev_room(5), &ev_user()), silent);
    assert_eq!(ruleset.evaluate(&ev_message("hi @alice"), &ev_room(2), &ev_user()), silent);
    assert_eq!(ruleset.evaluate(&ev_invite("@alice:example.org"), &ev_room(2), &ev_user()), silent);
    assert_eq!(ruleset.evaluate(&ev_of_type("m.unknown"), &ev_room(2), &ev_user()), silent);
    assert_eq!(ruleset.evaluate(&EventValue::Null, &ev_room(2), &ev_user()), silent);
}

#[test]
fn contains_user_name_matches_the_localpart_as_a_word() {
    let event = ev_message("hi @alice how are you");
    let room = ev_room(5);
    let alice = PatternedPushRule::contains_user_name(&ev_alice());
    assert!(alice.applies(&event, &room, &ev_user()));
    let ali = PatternedPushRule::contains_user_name(&UserId::try_from("@ali:example.org").unwrap());
    assert!(!ali.applies(&event, &room, &ev_user()));
    let ruleset = Ruleset::server_default(&ev_alice());
    assert_eq!(
        ruleset.evaluate(&event, &room, &ev_user()),
        Some(ev_decision(true, Some("default"), Some(true)))
    );
    let other = Ruleset::server_default(&UserId::try_from("@ali:example.org").unwrap());
    assert_eq!(
        other.evaluate(&event, &room, &ev_user()),
        Some(ev_decision(true, None, Some(false)))
    );
}

#[test]
fn invite_for_me_notifies_with_sound() {
    let ruleset = Ruleset::server_default(&ev_alice());
    assert_eq!(
        ruleset.evaluate(&ev_invite("@alice:example.org"), &ev_room(2), &ev_user()),
        Some(ev_decision(true, Some("default"), Some(false)))
    );
}

#[test]
fn an_invite_for_someone_else_is_a_member_event() {
    let ruleset = Ruleset::server_default(&ev_alice());
    assert_eq!(
        ruleset.evaluate(&ev_invite("@carol:example.org"), &ev_room(2), &ev_user()),
        Some(ev_decision(false, None, None))
    );
}

#[test]
fn room_one_to_one_comes_before_message() {
    let ruleset = Ruleset::server_default(&ev_alice());
    let event = ev_message("hello");
    assert!(ruleset.underride[2].applies(&event, &ev_room(2), &ev_user()));
    assert!(ruleset.underride[3].applies(&event, &ev_room(2), &ev_user()));
    assert_eq!(
        ruleset.evaluate(&event, &ev_room(2), &ev_user()),
        Some(ev_decision(true, Some("default"), Some(false)))
    );
    assert_eq!(
        ruleset.evaluate(&event, &ev_room(3), &ev_user()),
        Some(ev_decision(true, None, Some(false)))
    );
}

#[test]
fn evaluation_twice_gives_the_same() {
    let ruleset = Ruleset::server_default(&ev_alice());
    let before = ruleset.clone();
    let event = ev_message("hi @alice");
    let first = ruleset.evaluate(&event, &ev_room(2), &ev_user());
    let second = ruleset.evaluate(&event, &ev_room(2), &ev_user());
    assert_eq!(first, second);
    assert_eq!(ruleset, before);
    let none_first = ruleset.evaluate(&ev_of_type("m.unknown"), &ev_room(2), &ev_user());
    let none_second = ruleset.evaluate(&ev_of_type("m.unknown"), &ev_room(2), &ev_user());
    assert_eq!(none_first, none_second);
}

#[test]
fn no_matching_rule_no_outcome() {
    let ruleset = Ruleset::server_default(&ev_alice());
    assert_eq!(ruleset.evaluate(&ev_of_type("m.unknown"), &ev_room(5), &ev_user()), None);
    assert_eq!(ruleset.evaluate(&EventValue::Null, &ev_room(5), &ev_user()), None);
    assert_eq!(Ruleset::new().evaluate(&ev_message("x"), &ev_room(5), &ev_user()), None);
}

#[test]
fn no_outcome_differs_from_dont_notify() {
    let mut ruleset = Ruleset::new();
    assert_eq!(ruleset.evaluate(&ev_message("x"), &ev_room(5), &ev_user()), None);
    ruleset.override_ = vec![ev_rule("quiet", "*", vec![Action::DontNotify])];
    assert_eq!(
        ruleset.evaluate(&ev_message("x"), &ev_room(5), &ev_user()),
        Some(ev_decision(false, None, None))
    );
}

#[test]
fn suppress_notices_silences_a_notice() {
    let ruleset = Ruleset::server_default(&ev_alice());
    let notice = EventValue::Object(vec![
        ev_f("type", ev_t("m.room.message")),
        ev_f("sender", ev_t("@bot:example.org")),
        ev_f(
            "content",
            EventValue::Object(vec![ev_f("msgtype", ev_t("m.notice")), ev_f("body", ev_t("alice"))]),
        ),
    ]);
    assert_eq!(
        ruleset.evaluate(&notice, &ev_room(2), &ev_user()),
        Some(ev_decision(false, None, None))
    );
}

#[test]
fn display_name_highlights() {
    let ruleset = Ruleset::server_default(&ev_alice());
    assert_eq!(
        ruleset.evaluate(&ev_message("ping alice a!"), &ev_room(5), &ev_user()),
        Some(ev_decision(true, Some("default"), Some(true)))
    );
}

#[test]
fn roomnotif_needs_the_power_level() {
    let ruleset = Ruleset::server_default(&ev_alice());
    let from_admin = EventValue::Object(vec![
        ev_f("type", ev_t("m.room.message")),
        ev_f("sender", ev_t("@admin:example.org")),
        ev_f("content", EventValue::Object(vec![ev_f("body", ev_t("@room look"))])),
    ]);
    assert_eq!(
        ruleset.evaluate(&from_admin, &ev_room(5), &ev_user()),
        Some(ev_decision(true, None, Some(true)))
    );
    assert_eq!(
        ruleset.evaluate(&ev_message("@room look"), &ev_room(5), &ev_user()),
        Some(ev_decision(true, None, Some(false)))
    );
}

#[test]
fn tombstone_ships_without_effect() {
    let ruleset = Ruleset::server_default(&ev_alice());
    let tombstone = EventValue::Object(vec![
        ev_f("type", ev_t("m.room.tombstone")),
        ev_f("state_key", ev_t("")),
    ]);
    assert!(ruleset.override_[5].applies(&tombstone, &ev_room(5), &ev_user()));
    assert_eq!(ruleset.evaluate(&tombstone, &ev_room(5), &ev_user()), None);
}

#[test]
fn calls_ring() {
    let ruleset = Ruleset::server_default(&ev_alice());
    assert_eq!(
        ruleset.evaluate(&ev_of_type("m.call.invite"), &ev_room(5), &ev_user()),
        Some(ev_decision(true, Some("ring"), Some(false)))
    );
}

#[test]
fn encrypted_events_by_room_size() {
    let ruleset = Ruleset::server_default(&ev_alice());
    assert_eq!(
        ruleset.evaluate(&ev_of_type("m.room.encrypted"), &ev_room(2), &ev_user()),
        Some(ev_decision(true, Some("default"), Some(false)))
    );
    assert_eq!(
        ruleset.evaluate(&ev_of_type("m.room.encrypted"), &ev_room(7), &ev_user()),
        Some(ev_decision(true, None, Some(false)))
    );
}

#[test]
fn an_unknown_member_count_fails_closed() {
    let ruleset = Ruleset::server_default(&ev_alice());
    let room = RoomContext { member_count: None, power_levels: None };
    assert_eq!(
        ruleset.evaluate(&ev_message("hello"), &room, &ev_user()),
        Some(ev_decision(true, None, Some(false)))
    );
}
