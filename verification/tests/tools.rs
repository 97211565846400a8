use synixe_bot::tools::{
    balance_report, names_of, text_names_of, timeout_log, timeout_notice, ArgName, BalanceEntry,
    GetBalance, LookupId, MemberBalance, Timeout,
};

#[test]
fn function_names() {
    assert_eq!(GetBalance {}.name(), "bank_get_balance");
    assert_eq!(Timeout {}.name(), "timeout");
    assert_eq!(LookupId {}.name(), "names_lookup_members");
    assert_eq!(Timeout {}.desc(), "Timeout a user for being innapropriate or breaking the rules");
    assert!(GetBalance {}.desc().starts_with("Get's the balance"));
    assert!(LookupId {}.desc().starts_with("Looks up the ids"));
}

#[test]
fn names_read_from_arguments() {
    let args = vec![ArgName::Text("alice".into()), ArgName::Id(42)];
    assert_eq!(names_of(&args), Some(vec!["alice".to_string(), "42".to_string()]));
    assert_eq!(names_of(&vec![ArgName::Other]), None);
    assert_eq!(text_names_of(&args), None);
    assert_eq!(text_names_of(&vec![ArgName::Text("bob".into())]), Some(vec!["bob".to_string()]));
    assert_eq!(names_of(&vec![]), Some(vec![]));
}

#[test]
fn balances_reported() {
    let a = MemberBalance { member: 1, bank: 10, locker: 2, loadout: 3 };
    let company = MemberBalance { member: 9, bank: 1000, locker: 0, loadout: 0 };
    assert_eq!(
        balance_report(&vec![a, company], 9),
        vec![BalanceEntry::Member(a), BalanceEntry::Company(1000), BalanceEntry::Member(company)]
    );
}

#[test]
fn timeout_texts() {
    assert_eq!(timeout_log(5, "10", Some("spam")), "Timed out user <@5> for 10 minutes\nReason: spam");
    assert_eq!(timeout_log(5, "10", None), "Timed out user <@5> for 10 minutes\nReason: No reason provided");
    assert_eq!(timeout_notice("10", "\"spam\""), "You have been timed out for 10 minutes\nReason: \"spam\"");
}
