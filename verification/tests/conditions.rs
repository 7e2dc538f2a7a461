use push_rules::condition::{body_match, PushCondition};
use push_rules::context::{level_named, PowerLevel, PowerLevels, RoomContext, UserContext};
use push_rules::event::{EventField, EventValue};
use push_rules::member_count::{ComparisonOperator, RoomMemberCountIs};

fn co_text(s: &str) -> EventValue {
    EventValue::Text(s.to_string())
}

fn co_field(name: &str, value: EventValue) -> EventField {
    EventField { name: name.to_string(), value }
}

fn co_message(sender: &str, body: &str) -> EventValue {
    EventValue::Object(vec![
        co_field("type", co_text("m.room.message")),
        co_field("sender", co_text(sender)),
        co_field(
            "content",
            EventValue::Object(vec![
                co_field("msgtype", co_text("m.text")),
                co_field("body", co_text(body)),
            ]),
        ),
    ])
}

fn co_level(name: &str, level: i64) -> PowerLevel {
    PowerLevel { name: name.to_string(), level }
}

fn co_levels() -> PowerLevels {
    PowerLevels {
        users: vec![co_level("@admin:example.org", 100), co_level("@mod:example.org", 50)],
        users_default: 0,
        notifications: vec![co_level("room", 50)],
    }
}

fn co_room(members: Option<u64>, levels: Option<PowerLevels>) -> RoomContext {
    RoomContext { member_count: members, power_levels: levels }
}

fn co_nobody() -> UserContext {
    UserContext { display_name: None }
}

fn co_named(name: &str) -> UserContext {
    UserContext { display_name: Some(name.to_string()) }
}

fn co_event_match(key: &str, pattern: &str) -> PushCondition {
    PushCondition::EventMatch { key: key.to_string(), pattern: pattern.to_string() }
}

#[test]
fn event_match_on_a_plain_field() {
    let event = co_message("@bob:example.org", "hello");
    let room = co_room(None, None);
    assert!(co_event_match("type", "m.room.message").applies(&event, &room, &co_nobody()));
    assert!(co_event_match("type", "m.room.*").applies(&event, &room, &co_nobody()));
    assert!(co_event_match("content.msgtype", "m.text").applies(&event, &room, &co_nobody()));
    assert!(!co_event_match("type", "m.room.member").applies(&event, &room, &co_nobody()));
    assert!(!co_event_match("type", "m.room").applies(&event, &room, &co_nobody()));
}

#[test]
fn event_match_on_a_plain_field_is_case_sensitive() {
    let event = co_message("@bob:example.org", "hello");
    let room = co_room(None, None);
    assert!(!co_event_match("type", "M.ROOM.MESSAGE").applies(&event, &room, &co_nobody()));
    assert!(!co_event_match("sender", "@BOB:example.org").applies(&event, &room, &co_nobody()));
}

#[test]
fn event_match_on_a_missing_field_fails() {
    let event = co_message("@bob:example.org", "hello");
    let room = co_room(None, None);
    assert!(!co_event_match("state_key", "*").applies(&event, &room, &co_nobody()));
    assert!(!co_event_match("content.membership", "*").applies(&event, &room, &co_nobody()));
    assert!(!co_event_match("type.deeper", "*").applies(&event, &room, &co_nobody()));
}

#[test]
fn event_match_on_what_is_no_string_fails() {
    let event = EventValue::Object(vec![
        co_field("count", EventValue::Integer(3)),
        co_field("content", EventValue::Object(vec![co_field("body", EventValue::Bool(true))])),
    ]);
    let room = co_room(None, None);
    assert!(!co_event_match("count", "*").applies(&event, &room, &co_nobody()));
    assert!(!co_event_match("count", "3").applies(&event, &room, &co_nobody()));
    assert!(!co_event_match("content", "*").applies(&event, &room, &co_nobody()));
    assert!(!co_event_match("content.body", "*").applies(&event, &room, &co_nobody()));
}

#[test]
fn event_match_on_an_empty_string() {
    let event = EventValue::Object(vec![co_field("state_key", co_text(""))]);
    let room = co_room(None, None);
    assert!(co_event_match("state_key", "").applies(&event, &room, &co_nobody()));
    assert!(!co_event_match("state_key", "?").applies(&event, &room, &co_nobody()));
    let other = EventValue::Object(vec![co_field("state_key", co_text("@a:b"))]);
    assert!(!co_event_match("state_key", "").applies(&other, &room, &co_nobody()));
}

#[test]
fn event_match_on_the_body_finds_words() {
    let room = co_room(None, None);
    let condition = co_event_match("content.body", "@room");
    assert!(condition.applies(&co_message("@b:x", "hello @room!"), &room, &co_nobody()));
    assert!(condition.applies(&co_message("@b:x", "@ROOM wake up"), &room, &co_nobody()));
    assert!(!condition.applies(&co_message("@b:x", "hello @roomy"), &room, &co_nobody()));
    assert!(!condition.applies(&co_message("@b:x", "hello room"), &room, &co_nobody()));
}

#[test]
fn body_match_is_word_bounded() {
    let event = co_message("@b:x", "hi @alice how are you");
    assert!(body_match(&event, "alice"));
    assert!(!body_match(&event, "ali"));
    assert!(body_match(&event, "ALICE"));
    assert!(body_match(&event, "h*"));
    let no_body = EventValue::Object(vec![co_field("type", co_text("m.room.member"))]);
    assert!(!body_match(&no_body, "alice"));
    assert!(!body_match(&no_body, "*"));
}

#[test]
fn contains_display_name_finds_the_name() {
    let room = co_room(None, None);
    let condition = PushCondition::ContainsDisplayName;
    let event = co_message("@b:x", "Good morning, Alice!");
    assert!(condition.applies(&event, &room, &co_named("Alice")));
    assert!(condition.applies(&event, &room, &co_named("alice")));
    assert!(!condition.applies(&event, &room, &co_named("Ali")));
    assert!(!condition.applies(&event, &room, &co_named("Bob")));
}

#[test]
fn contains_display_name_takes_the_name_literally() {
    let room = co_room(None, None);
    let condition = PushCondition::ContainsDisplayName;
    assert!(!condition.applies(&co_message("@b:x", "anything"), &room, &co_named("*")));
    assert!(condition.applies(&co_message("@b:x", "a * b"), &room, &co_named("*")));
}

#[test]
fn contains_display_name_without_a_name_fails() {
    let room = co_room(None, None);
    let condition = PushCondition::ContainsDisplayName;
    let event = co_message("@b:x", "Good morning, Alice!");
    assert!(!condition.applies(&event, &room, &co_nobody()));
    assert!(!condition.applies(&event, &room, &co_named("")));
    assert!(!condition.applies(&co_message("@b:x", ""), &room, &co_named("")));
}

#[test]
fn contains_display_name_without_a_body_fails() {
    let room = co_room(None, None);
    let condition = PushCondition::ContainsDisplayName;
    let event = EventValue::Object(vec![co_field("type", co_text("m.room.member"))]);
    assert!(!condition.applies(&event, &room, &co_named("Alice")));
}

#[test]
fn room_member_count_compares() {
    let event = co_message("@b:x", "hi");
    let two = PushCondition::RoomMemberCount { is: RoomMemberCountIs::exactly(2) };
    assert!(two.applies(&event, &co_room(Some(2), None), &co_nobody()));
    assert!(!two.applies(&event, &co_room(Some(3), None), &co_nobody()));
    let more = PushCondition::RoomMemberCount {
        is: RoomMemberCountIs { prefix: ComparisonOperator::Gt, count: 2 },
    };
    assert!(more.applies(&event, &co_room(Some(3), None), &co_nobody()));
    assert!(!more.applies(&event, &co_room(Some(2), None), &co_nobody()));
}

#[test]
fn room_member_count_without_a_count_fails() {
    let event = co_message("@b:x", "hi");
    let any = PushCondition::RoomMemberCount {
        is: RoomMemberCountIs { prefix: ComparisonOperator::Ge, count: 0 },
    };
    assert!(any.applies(&event, &co_room(Some(0), None), &co_nobody()));
    assert!(!any.applies(&event, &co_room(None, None), &co_nobody()));
}

#[test]
fn sender_notification_permission_compares_levels() {
    let condition = PushCondition::SenderNotificationPermission { key: "room".to_string() };
    let room = co_room(None, Some(co_levels()));
    assert!(condition.applies(&co_message("@admin:example.org", "x"), &room, &co_nobody()));
    assert!(condition.applies(&co_message("@mod:example.org", "x"), &room, &co_nobody()));
    assert!(!condition.applies(&co_message("@bob:example.org", "x"), &room, &co_nobody()));
}

#[test]
fn sender_notification_permission_uses_the_default_level() {
    let condition = PushCondition::SenderNotificationPermission { key: "room".to_string() };
    let mut levels = co_levels();
    levels.users_default = 50;
    let room = co_room(None, Some(levels));
    assert!(condition.applies(&co_message("@bob:example.org", "x"), &room, &co_nobody()));
}

#[test]
fn sender_notification_permission_fails_closed() {
    let condition = PushCondition::SenderNotificationPermission { key: "room".to_string() };
    let admin = co_message("@admin:example.org", "x");
    assert!(!condition.applies(&admin, &co_room(Some(2), None), &co_nobody()));
    let unknown_key = PushCondition::SenderNotificationPermission { key: "other".to_string() };
    assert!(!unknown_key.applies(&admin, &co_room(None, Some(co_levels())), &co_nobody()));
    let no_sender = EventValue::Object(vec![co_field("type", co_text("m.room.message"))]);
    assert!(!condition.applies(&no_sender, &co_room(None, Some(co_levels())), &co_nobody()));
}

#[test]
fn power_levels_may_notify() {
    let levels = co_levels();
    assert!(levels.may_notify("@admin:example.org", "room"));
    assert!(levels.may_notify("@mod:example.org", "room"));
    assert!(!levels.may_notify("@bob:example.org", "room"));
    assert!(!levels.may_notify("@admin:example.org", "everyone"));
}

#[test]
fn level_named_takes_the_first_entry() {
    let levels = vec![co_level("a", 1), co_level("b", 2), co_level("a", 3)];
    assert_eq!(level_named(&levels, "a"), Some(1));
    assert_eq!(level_named(&levels, "b"), Some(2));
    assert_eq!(level_named(&levels, "c"), None);
    assert_eq!(level_named(&vec![], "a"), None);
}

#[test]
fn negative_levels_compare_as_numbers() {
    let levels = PowerLevels {
        users: vec![co_level("@low:x", -10)],
        users_default: -1,
        notifications: vec![co_level("room", -5)],
    };
    assert!(!levels.may_notify("@low:x", "room"));
    assert!(levels.may_notify("@other:x", "room"));
}
