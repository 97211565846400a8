use synixe_bot::certifications::{
    available_certifications, cert_block, certification_by_id, certified_message, contains_u64,
    expiry_message, first_kit_failed_log, first_kit_plan, first_kit_question, held_report, holds_role, is_available,
    member_roles_with_junior, missing_roles, missing_roles_prompt, passed_count_failed_log,
    should_check_first_kits,
    trial_reply, Certification, FirstKitPlan, HeldCertification,
};

fn cert(id: &str, required: &[&str], granted: &[&str], instructors: Option<Vec<&str>>) -> Certification {
    Certification {
        id: id.into(),
        name: format!("Cert {id}"),
        link: format!("https://x/{id}"),
        roles_required: required.iter().map(|s| s.to_string()).collect(),
        roles_granted: granted.iter().map(|s| s.to_string()).collect(),
        valid_for: Some(90),
        instructors: instructors.map(|v| v.into_iter().map(Into::into).collect()),
    }
}

#[test]
fn roles_checked_by_text() {
    assert!(holds_role(&vec![10, 20], &"20".to_string()));
    assert!(!holds_role(&vec![10, 20], &"2".to_string()));
    assert_eq!(missing_roles(&vec!["10".into(), "30".into(), "40".into()], &vec![10]), vec!["30", "40"]);
    assert!(contains_u64(&vec![1, 2, 3], 3));
    assert!(!contains_u64(&vec![], 3));
}

#[test]
fn member_counts_as_junior() {
    assert_eq!(member_roles_with_junior(&vec![1, 5], 5, 9), vec![1, 5, 9]);
    assert_eq!(member_roles_with_junior(&vec![1], 5, 9), vec![1]);
}

#[test]
fn availability() {
    let open = cert("a", &["1"], &["2"], None);
    let done = cert("b", &["1"], &["1"], None);
    let locked = cert("c", &["3"], &["2"], None);
    assert!(is_available(&open, &vec![1]));
    assert!(!is_available(&done, &vec![1]));
    assert!(!is_available(&locked, &vec![1]));
    let ids: Vec<String> = available_certifications(vec![open, done, locked], &vec![1])
        .into_iter()
        .map(|c| c.id)
        .collect();
    assert_eq!(ids, vec!["a"]);
}

#[test]
fn first_kits() {
    assert!(should_check_first_kits(false, None));
    assert!(should_check_first_kits(false, Some(1)));
    assert!(!should_check_first_kits(false, Some(2)));
    assert!(!should_check_first_kits(true, Some(1)));
    assert_eq!(first_kit_plan(0), FirstKitPlan::Nothing);
    assert_eq!(first_kit_plan(1), FirstKitPlan::GiveOnly);
    assert_eq!(first_kit_plan(3), FirstKitPlan::AskTrainee);
}

#[test]
fn texts() {
    assert_eq!(
        missing_roles_prompt(&vec!["1".into(), "2".into()]),
        "The trainee is missing the following roles: <@&1>, <@&2>\nDo you want to submit the trial anyway?"
    );
    let c = cert("a", &["1", "2"], &["3"], Some(vec!["7", "8"]));
    assert_eq!(
        cert_block(&c, true),
        "**Cert a**\n<https://x/a>\nInstructor(s): <@7>, <@8>\nRequires: <@&1>, <@&2>\nValid for 90 days\n\n"
    );
    let mut bare = cert("b", &[], &["3"], Some(vec![]));
    bare.valid_for = None;
    assert_eq!(cert_block(&bare, true), "**Cert b**\n<https://x/b>\nNo instructors\nNo requirements\nNo expiration\n\n");
    assert_eq!(cert_block(&bare, false), "**Cert b**\n<https://x/b>\n\nNo requirements\nNo expiration\n\n");
    assert_eq!(
        expiry_message("Medic", 0),
        ("Your cert for Medic has expired. Please contact an instructor to schedule a re-certification.".to_string(), true)
    );
    assert_eq!(
        expiry_message("Medic", 7),
        ("Your cert for Medic expires in 7 days. Please contact an instructor to schedule a re-certification.".to_string(), false)
    );
    assert_eq!(certified_message("1", "2", "Medic"), "<@1> has certified <@2> in Medic");
    assert_eq!(trial_reply(None), "Submitted trial");
    assert_eq!(trial_reply(Some("db down")), "Failed to submit trial: db down");
}

#[test]
fn held_certifications() {
    assert_eq!(held_report(5, &vec![]), "<@5> has no certifications");
    let certs = vec![
        HeldCertification { name: Some("Medic".into()), created: 100, valid_for: Some(30), valid_until: Some(200) },
        HeldCertification { name: None, created: 1, valid_for: None, valid_until: None },
        HeldCertification { name: Some("Pilot".into()), created: 50, valid_for: None, valid_until: None },
    ];
    assert_eq!(
        held_report(5, &certs),
        "**<@5> Certifications**\n\n**Medic**\nSince: <t:100:D>\nUntil: <t:200:D> (30 days)\n\n**Pilot**\nSince: <t:50:D>\nNo expiration\n\n"
    );
}

#[test]
fn certification_lookup() {
    let certs = vec![cert("a", &[], &[], None), cert("b", &[], &[], None)];
    assert_eq!(certification_by_id(&certs, "b"), Some(1));
    assert_eq!(certification_by_id(&certs, "z"), None);
}

#[test]
fn first_kit_texts() {
    assert_eq!(
        first_kit_question("Medic"),
        "You've passed your first trial for Medic! Please select a first kit to receive."
    );
    assert_eq!(
        passed_count_failed_log(42, "Medic", "timeout"),
        "When submitting a trial for <@42> in Medic, the passed count could not be checked: timeout"
    );
    assert_eq!(
        first_kit_failed_log(7, "Pilot", "db down"),
        "When <@7> selected a first kit for Pilot, the first kit could not be given: db down"
    );
}
