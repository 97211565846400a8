use synixe_bot::interaction::{
    approved, confirmation_of, decided_by, macro_get_option, option_text, permission_request,
    answers, public_option, reply_state, requested_command, requires_roles, has_any_role, AllowPublic,
    CommandOption, Confirmation, FollowupAction, InteractionKind, OptionKind, OptionSchema,
    OptionValue, RoleDecision,
};

#[test]
fn confirmations() {
    assert_eq!(confirmation_of(Some("yes")), Confirmation::Yes);
    assert_eq!(confirmation_of(Some("no")), Confirmation::No);
    assert_eq!(confirmation_of(Some("yess")), Confirmation::No);
    assert_eq!(confirmation_of(None), Confirmation::Timeout);
}

#[test]
fn reply_flow_defers_once_then_edits() {
    let mut s = reply_state(InteractionKind::Command, None);
    assert!(s.ephemeral);
    assert_eq!(s.defer(), Some(true));
    s.deferred();
    assert_eq!(s.defer(), None);
    assert_eq!(s.followup(), FollowupAction::Create);
    s.created(42);
    assert_eq!(s.followup(), FollowupAction::Edit(42));
    s.deferred();
    assert_eq!(s.followup(), FollowupAction::Edit(42));
    let public = reply_state(InteractionKind::Modal, Some(true));
    assert!(!public.ephemeral);
    assert!(reply_state(InteractionKind::Component, Some(false)).ephemeral);
    assert!(answers(InteractionKind::Command) && answers(InteractionKind::Modal));
    assert!(!answers(InteractionKind::Autocomplete) && !answers(InteractionKind::Ping));
}

fn opt(name: &str, value: OptionValue) -> CommandOption {
    CommandOption { name: name.into(), value }
}

#[test]
fn options_found_by_name() {
    let options = vec![
        opt("public", OptionValue::Boolean(true)),
        opt("amount", OptionValue::Integer(5)),
        opt("amount", OptionValue::Integer(6)),
    ];
    assert!(matches!(macro_get_option(&options, "amount"), Some(OptionValue::Integer(5))));
    assert!(macro_get_option(&options, "reason").is_none());
    assert_eq!(public_option(&options), Some(true));
    assert_eq!(public_option(&vec![opt("public", OptionValue::Integer(1))]), None);
}

#[test]
fn option_values_shown() {
    assert_eq!(option_text(&OptionValue::Boolean(false)), "false");
    assert_eq!(option_text(&OptionValue::Integer(-3)), "-3");
    assert_eq!(option_text(&OptionValue::Number("1.5".into())), "1.5");
    assert_eq!(option_text(&OptionValue::Channel(9)), "<#9>");
    assert_eq!(option_text(&OptionValue::Role(8)), "<@&8>");
    assert_eq!(option_text(&OptionValue::User(7)), "<@7>");
    assert_eq!(option_text(&OptionValue::Attachment(6)), "Attachment: 6");
    assert_eq!(option_text(&OptionValue::Unknown(3)), "Unknown: 3");
    assert_eq!(option_text(&OptionValue::Unrecognized), "Unrecognized");
    assert_eq!(option_text(&OptionValue::Autocomplete), "Autocomplete");
}

#[test]
fn permission_requests() {
    let options = vec![opt("member", OptionValue::User(5)), opt("amount", OptionValue::Integer(100))];
    let command = requested_command("bank transfer", &options);
    assert_eq!(command, "`/bank transfer member: `<@5>`\n amount: `100`\n`\n");
    assert_eq!(requested_command("docker restart", &vec![]), "`/docker restart `\n");
    assert_eq!(
        permission_request(12, &command),
        "<@12> is requesting permission to use `/bank transfer member: `<@5>`\n amount: `100`\n`\n"
    );
    assert!(approved("approve"));
    assert!(!approved("deny"));
    assert_eq!(decided_by(true, 3), "Approved by <@3>");
    assert_eq!(decided_by(false, 3), "Denied by <@3>");
}

#[test]
fn role_checks() {
    assert!(has_any_role(&vec![1, 2], &vec![5, 2]));
    assert!(!has_any_role(&vec![1, 2], &vec![5]));
    assert_eq!(requires_roles(&vec![1], &vec![1], false), RoleDecision::Allowed);
    assert_eq!(requires_roles(&vec![1], &vec![2], true), RoleDecision::Ask);
    assert_eq!(requires_roles(&vec![1], &vec![], false), RoleDecision::Deny);
}

#[test]
fn public_flag_added() {
    let o = OptionSchema {
        kind: OptionKind::SubCommand,
        name: "balance".into(),
        description: "Check a balance".into(),
        required: false,
        sub_options: vec![],
    }
    .allow_public();
    assert_eq!(o.name, "balance");
    assert_eq!(o.sub_options.len(), 1);
    let flag = &o.sub_options[0];
    assert_eq!(flag.kind, OptionKind::Boolean);
    assert_eq!(flag.name, "public");
    assert_eq!(flag.description, "Post the response publicly");
    assert!(!flag.required);
}
