use push_rules::member_count::{split_prefix, ComparisonOperator, RoomMemberCountIs};

fn mc_is(prefix: ComparisonOperator, count: u64) -> RoomMemberCountIs {
    RoomMemberCountIs { prefix, count }
}

#[test]
fn exactly_is_equality() {
    assert_eq!(RoomMemberCountIs::exactly(2), mc_is(ComparisonOperator::Eq, 2));
}

#[test]
fn contains_compares_with_the_bound() {
    let eq = mc_is(ComparisonOperator::Eq, 2);
    assert!(!eq.contains(1));
    assert!(eq.contains(2));
    assert!(!eq.contains(3));
    let lt = mc_is(ComparisonOperator::Lt, 2);
    assert!(lt.contains(1));
    assert!(!lt.contains(2));
    assert!(!lt.contains(3));
    let gt = mc_is(ComparisonOperator::Gt, 2);
    assert!(!gt.contains(1));
    assert!(!gt.contains(2));
    assert!(gt.contains(3));
    let ge = mc_is(ComparisonOperator::Ge, 2);
    assert!(!ge.contains(1));
    assert!(ge.contains(2));
    assert!(ge.contains(3));
    let le = mc_is(ComparisonOperator::Le, 2);
    assert!(le.contains(1));
    assert!(le.contains(2));
    assert!(!le.contains(3));
}

#[test]
fn contains_at_the_ends_of_the_range() {
    assert!(mc_is(ComparisonOperator::Ge, 0).contains(0));
    assert!(!mc_is(ComparisonOperator::Lt, 0).contains(0));
    assert!(mc_is(ComparisonOperator::Le, u64::MAX).contains(u64::MAX));
    assert!(!mc_is(ComparisonOperator::Gt, u64::MAX).contains(u64::MAX));
}

#[test]
fn split_prefix_reads_the_comparison() {
    assert_eq!(split_prefix("<=2"), (ComparisonOperator::Le, 2));
    assert_eq!(split_prefix("<2"), (ComparisonOperator::Lt, 1));
    assert_eq!(split_prefix(">=2"), (ComparisonOperator::Ge, 2));
    assert_eq!(split_prefix(">2"), (ComparisonOperator::Gt, 1));
    assert_eq!(split_prefix("==2"), (ComparisonOperator::Eq, 2));
    assert_eq!(split_prefix("2"), (ComparisonOperator::Eq, 0));
    assert_eq!(split_prefix(""), (ComparisonOperator::Eq, 0));
    assert_eq!(split_prefix("="), (ComparisonOperator::Eq, 0));
    assert_eq!(split_prefix("=2"), (ComparisonOperator::Eq, 0));
    assert_eq!(split_prefix("<"), (ComparisonOperator::Lt, 1));
    assert_eq!(split_prefix("=<2"), (ComparisonOperator::Eq, 0));
}

#[test]
fn from_parts_needs_a_count() {
    assert_eq!(
        RoomMemberCountIs::from_parts(ComparisonOperator::Gt, Some(7)),
        Some(mc_is(ComparisonOperator::Gt, 7))
    );
    assert_eq!(RoomMemberCountIs::from_parts(ComparisonOperator::Gt, None), None);
}

#[test]
fn parse_with_a_prefix() {
    assert_eq!(RoomMemberCountIs::parse("==2"), Some(mc_is(ComparisonOperator::Eq, 2)));
    assert_eq!(RoomMemberCountIs::parse("<10"), Some(mc_is(ComparisonOperator::Lt, 10)));
    assert_eq!(RoomMemberCountIs::parse(">1"), Some(mc_is(ComparisonOperator::Gt, 1)));
    assert_eq!(RoomMemberCountIs::parse(">=100"), Some(mc_is(ComparisonOperator::Ge, 100)));
    assert_eq!(RoomMemberCountIs::parse("<=0"), Some(mc_is(ComparisonOperator::Le, 0)));
}

#[test]
fn parse_without_a_prefix_is_equality() {
    assert_eq!(RoomMemberCountIs::parse("2"), Some(mc_is(ComparisonOperator::Eq, 2)));
    assert_eq!(RoomMemberCountIs::parse("0"), Some(mc_is(ComparisonOperator::Eq, 0)));
}

#[test]
fn parse_refuses_what_is_no_number() {
    assert_eq!(RoomMemberCountIs::parse(""), None);
    assert_eq!(RoomMemberCountIs::parse("<"), None);
    assert_eq!(RoomMemberCountIs::parse("two"), None);
    assert_eq!(RoomMemberCountIs::parse("=2"), None);
    assert_eq!(RoomMemberCountIs::parse("<=>2"), None);
    assert_eq!(RoomMemberCountIs::parse("2 "), None);
    assert_eq!(RoomMemberCountIs::parse("-2"), None);
    assert_eq!(RoomMemberCountIs::parse("2.5"), None);
}

#[test]
fn parse_stops_at_the_largest_safe_integer() {
    assert_eq!(
        RoomMemberCountIs::parse("9007199254740991"),
        Some(mc_is(ComparisonOperator::Eq, 9007199254740991))
    );
    assert_eq!(RoomMemberCountIs::parse("9007199254740992"), None);
    assert_eq!(RoomMemberCountIs::parse(">=9007199254740992"), None);
}
