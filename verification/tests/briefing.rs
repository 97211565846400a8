use synixe_bot::briefing::{
    briefing_messages, briefing_sections, calendar_description, clean_old_briefing, event_end,
    BriefingParts,
};

fn template_parts() -> BriefingParts {
    BriefingParts {
        situation: Some(
            r"<font color='#E0A750'>SITUATION</font>
Insert things players should know about where they are deploying and/or events that happened leading up to their deployment or to the given conflict

<font color='#D81717'>ENEMY FORCES</font>
Insert enemies here
Insert enemy AMLCOA (most likely course of action, aka, what they're doing, how they act, how they'll act towards us, what we know, etc)

<font color='#1D69F6'>FRIENDLY FORCES</font>
Insert friendlies here

<font color='#139120'>INDEPENDENT FORCES</font>
Insert independent forces if there are any, otherwise remove this line and one above

<font color='#993399'>CIVILIAN CONSIDERATIONS</font>
Insert things to consider about civilians, presence/absence and/or behaviour/support to friendlies or enemies

<font color='#663300'>TERRAIN CONSIDERATIONS</font>
Insert anything you find relevant about how the terrain may be advantageous or disadvantageous
"
            .to_string(),
        ),
        mission: Some(
            r"<font color='#1D69F6'>EMPLOYER</font>

Insert name of employer here

<font color='#E0A750'>MISSION</font>

Insert your mission description here,

You can add as much as you feel is relevant.

<img image='FOLDER\IMAGE.jpg' width='200' height='100'/>

As a rule of thumb, consider: who, what (tasks), where, when, and why

<font color='#595305'>RESTRICTIONS</font>

Insert any additional restrictions here

If there are none, remove this section
"
            .to_string(),
        ),
        objectives: Some(
            r"<font color='#E3D310'>PRIMARY OBJECTIVES</font>

Insert objectives that must be completed to achieve the mission goal

<font color='#595305'>SECONDARY OBJECTIVES</font>

Insert objectives that are not required to complete the mission, but may be useful
"
            .to_string(),
        ),
    }
}

#[test]
fn briefing() {
    let messages = briefing_messages(&template_parts(), "contracts", "CO30_Brodsky_Test");
    println!("{messages:#?}");
}

#[test]
fn briefing_template_sections() {
    let messages = briefing_messages(&template_parts(), "Contracts", "CO30_Brodsky_Test")
        .expect("every image has a path");
    assert_eq!(messages.len(), 3);
    assert!(messages[0].starts_with("## Situation\n### SITUATION\n"));
    assert!(messages[1].starts_with("## Mission\n### EMPLOYER\n"));
    assert!(messages[1].contains(
        "[image](https://raw.githubusercontent.com/SynixeContractors/Missions/main/contracts/co30_brodsky_test/FOLDER\\IMAGE.jpg)"
    ));
    assert!(!messages[1].contains("<img"));
    assert!(messages[2].starts_with("## Objectives\n### PRIMARY OBJECTIVES\n"));
    assert!(messages[2].ends_with("may be useful"));
    for m in &messages {
        assert!(!m.contains("</font>"));
        assert!(!m.ends_with('\n'));
    }
}

#[test]
fn briefing_image_named_and_missing_path() {
    let parts = BriefingParts {
        situation: None,
        mission: Some("see <img name=\"Map\" image=\"maps/a.png\"/> here".to_string()),
        objectives: None,
    };
    let messages = briefing_messages(&parts, "Sub", "M1").expect("path present");
    assert_eq!(
        messages,
        vec![
            "## Mission\nsee [Map](https://raw.githubusercontent.com/SynixeContractors/Missions/main/sub/m1/maps/a.png) here"
                .to_string()
        ]
    );
    let broken = BriefingParts {
        situation: Some("<img width='2'/>".to_string()),
        mission: None,
        objectives: None,
    };
    assert_eq!(briefing_messages(&broken, "x", "y"), None);
}

#[test]
fn briefing_without_parts_is_empty() {
    let parts = BriefingParts { situation: None, mission: None, objectives: None };
    assert_eq!(briefing_messages(&parts, "x", "y"), Some(vec![]));
}

#[test]
fn sections_split_at_headings() {
    let text = "intro\n## A\nline a\n\n## B\r\nline b\n\n";
    assert_eq!(
        briefing_sections(text),
        vec!["\nintro".to_string(), "## A\nline a".to_string(), "## B\nline b".to_string()]
    );
}

#[test]
fn old_briefing_cleanup() {
    let content = "<font color='#D81717'>ENEMY</font>            <br/>Insert</font color>";
    assert_eq!(clean_old_briefing(content), "ENEMY\nInsert");
}

#[test]
fn calendar_event_fields() {
    assert_eq!(calendar_description(&Some("old".into()), &Some("new".into())), "old");
    assert_eq!(calendar_description(&None, &Some("new".into())), "new");
    assert_eq!(calendar_description(&None, &None), "No briefing available.");
    assert_eq!(event_end(1000), Some(10000));
    assert_eq!(event_end(i64::MAX), None);
}

#[test]
fn briefing_template_exact() {
    let messages = briefing_messages(&template_parts(), "contracts", "CO30_Brodsky_Test").unwrap();
    let expected = vec![
        "## Situation\n### SITUATION\nInsert things players should know about where they are deploying and/or events that happened leading up to their deployment or to the given conflict\n\n### ENEMY FORCES\nInsert enemies here\nInsert enemy AMLCOA (most likely course of action, aka, what they're doing, how they act, how they'll act towards us, what we know, etc)\n\n### FRIENDLY FORCES\nInsert friendlies here\n\n### INDEPENDENT FORCES\nInsert independent forces if there are any, otherwise remove this line and one above\n\n### CIVILIAN CONSIDERATIONS\nInsert things to consider about civilians, presence/absence and/or behaviour/support to friendlies or enemies\n\n### TERRAIN CONSIDERATIONS\nInsert anything you find relevant about how the terrain may be advantageous or disadvantageous".to_string(),
        "## Mission\n### EMPLOYER\n\nInsert name of employer here\n\n### MISSION\n\nInsert your mission description here,\n\nYou can add as much as you feel is relevant.\n\n[image](https://raw.githubusercontent.com/SynixeContractors/Missions/main/contracts/co30_brodsky_test/FOLDER\\IMAGE.jpg)\n\nAs a rule of thumb, consider: who, what (tasks), where, when, and why\n\n### RESTRICTIONS\n\nInsert any additional restrictions here\n\nIf there are none, remove this section".to_string(),
        "## Objectives\n### PRIMARY OBJECTIVES\n\nInsert objectives that must be completed to achieve the mission goal\n\n### SECONDARY OBJECTIVES\n\nInsert objectives that are not required to complete the mission, but may be useful".to_string(),
    ];
    assert_eq!(messages, expected);
}
