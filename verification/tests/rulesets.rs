use push_rules::action::Action;
use push_rules::rule::{ConditionalPushRule, PatternedPushRule, ScopedPushRule, SimpleRule};
use push_rules::ruleset::{RuleError, Ruleset};

fn rs_conditional(id: &str) -> ConditionalPushRule {
    ConditionalPushRule {
        actions: vec![Action::Notify],
        default: false,
        enabled: true,
        rule_id: id.to_string(),
        conditions: vec![],
    }
}

fn rs_patterned(id: &str, pattern: &str) -> PatternedPushRule {
    PatternedPushRule {
        actions: vec![Action::Notify],
        default: false,
        enabled: true,
        rule_id: id.to_string(),
        pattern: pattern.to_string(),
    }
}

fn rs_simple(id: &str) -> ScopedPushRule {
    ScopedPushRule::Simple(SimpleRule {
        actions: vec![Action::DontNotify],
        default: false,
        enabled: true,
        rule_id: id.to_string(),
    })
}

#[test]
fn new_ruleset_is_empty() {
    let ruleset = Ruleset::new();
    assert!(ruleset.content.is_empty());
    assert!(ruleset.override_.is_empty());
    assert!(ruleset.room.is_empty());
    assert!(ruleset.sender.is_empty());
    assert!(ruleset.underride.is_empty());
}

#[test]
fn add_override_appends() {
    let mut ruleset = Ruleset::new();
    assert_eq!(ruleset.add_override(rs_conditional("a")), Ok(()));
    assert_eq!(ruleset.add_override(rs_conditional("b")), Ok(()));
    assert_eq!(ruleset.override_, vec![rs_conditional("a"), rs_conditional("b")]);
    assert!(ruleset.underride.is_empty());
}

#[test]
fn add_override_refuses_a_duplicate() {
    let mut ruleset = Ruleset::new();
    ruleset.add_override(rs_conditional("a")).unwrap();
    let mut again = rs_conditional("a");
    again.enabled = false;
    assert_eq!(ruleset.add_override(again), Err(RuleError::DuplicateRuleId));
    assert_eq!(ruleset.override_, vec![rs_conditional("a")]);
}

#[test]
fn the_same_name_may_stand_in_two_kinds() {
    let mut ruleset = Ruleset::new();
    assert_eq!(ruleset.add_override(rs_conditional("a")), Ok(()));
    assert_eq!(ruleset.add_underride(rs_conditional("a")), Ok(()));
    assert_eq!(ruleset.add_content(rs_patterned("a", "x")), Ok(()));
    assert_eq!(ruleset.add_room(rs_simple("a")), Ok(()));
    assert_eq!(ruleset.add_sender(rs_simple("a")), Ok(()));
    assert_eq!(ruleset.override_.len(), 1);
    assert_eq!(ruleset.underride.len(), 1);
    assert_eq!(ruleset.content.len(), 1);
    assert_eq!(ruleset.room.len(), 1);
    assert_eq!(ruleset.sender.len(), 1);
}

#[test]
fn add_underride_refuses_a_duplicate() {
    let mut ruleset = Ruleset::new();
    ruleset.add_underride(rs_conditional("a")).unwrap();
    ruleset.add_underride(rs_conditional("b")).unwrap();
    assert_eq!(ruleset.add_underride(rs_conditional("b")), Err(RuleError::DuplicateRuleId));
    assert_eq!(ruleset.underride, vec![rs_conditional("a"), rs_conditional("b")]);
}

#[test]
fn add_content_refuses_an_empty_pattern() {
    let mut ruleset = Ruleset::new();
    assert_eq!(ruleset.add_content(rs_patterned("a", "")), Err(RuleError::EmptyPattern));
    assert!(ruleset.content.is_empty());
}

#[test]
fn add_content_refuses_a_duplicate() {
    let mut ruleset = Ruleset::new();
    assert_eq!(ruleset.add_content(rs_patterned("a", "x")), Ok(()));
    assert_eq!(ruleset.add_content(rs_patterned("a", "y")), Err(RuleError::DuplicateRuleId));
    assert_eq!(ruleset.content, vec![rs_patterned("a", "x")]);
}

#[test]
fn an_empty_pattern_is_reported_before_a_duplicate() {
    let mut ruleset = Ruleset::new();
    ruleset.add_content(rs_patterned("a", "x")).unwrap();
    assert_eq!(ruleset.add_content(rs_patterned("a", "")), Err(RuleError::EmptyPattern));
}

#[test]
fn add_room_and_sender_refuse_duplicates() {
    let mut ruleset = Ruleset::new();
    assert_eq!(ruleset.add_room(rs_simple("!r:x")), Ok(()));
    assert_eq!(ruleset.add_room(rs_simple("!r:x")), Err(RuleError::DuplicateRuleId));
    assert_eq!(
        ruleset.add_room(ScopedPushRule::Conditional(rs_conditional("!r:x"))),
        Err(RuleError::DuplicateRuleId)
    );
    assert_eq!(ruleset.add_sender(rs_simple("@s:x")), Ok(()));
    assert_eq!(ruleset.add_sender(rs_simple("@s:x")), Err(RuleError::DuplicateRuleId));
    assert_eq!(ruleset.add_sender(rs_simple("@t:x")), Ok(()));
    assert_eq!(ruleset.room, vec![rs_simple("!r:x")]);
    assert_eq!(ruleset.sender, vec![rs_simple("@s:x"), rs_simple("@t:x")]);
}

#[test]
fn adding_to_the_default_rules() {
    let mut ruleset =
        Ruleset::server_default_for("@alice:example.org".to_string(), "alice".to_string());
    assert_eq!(ruleset.add_override(rs_conditional("mine")), Ok(()));
    assert_eq!(ruleset.override_.len(), 8);
    assert_eq!(ruleset.override_[7].rule_id, "mine");
    assert_eq!(
        ruleset.add_override(rs_conditional(".m.rule.master")),
        Err(RuleError::DuplicateRuleId)
    );
    assert_eq!(
        ruleset.add_content(rs_patterned(".m.rules.contains_user_name", "x")),
        Err(RuleError::DuplicateRuleId)
    );
    assert_eq!(ruleset.add_underride(rs_conditional(".m.rule.master")), Ok(()));
}

#[test]
fn the_default_ruleset_is_empty() {
    assert_eq!(Ruleset::default(), Ruleset::new());
}
