use synixe_bot::gear::{
    confirm_prompt, family_choice, gear_command, gear_commands, gear_config, item_suggestions,
    may_use, resolve_family, variant_suggestions, FamilyItem, GearCommand,
};

fn item(class: &str, pretty: &str, family: &str) -> FamilyItem {
    FamilyItem { class: class.into(), pretty: pretty.into(), family: family.into() }
}

#[test]
fn commands_and_prices() {
    assert_eq!(
        gear_commands(),
        vec![GearCommand::Color, GearCommand::Ugl, GearCommand::Belt, GearCommand::Barrel]
    );
    let ugl = gear_config(GearCommand::Ugl);
    assert_eq!((ugl.relation, ugl.cost, ugl.item_option, ugl.variant_option), ("ugl", 300, "weapon", "ugl"));
    assert!(ugl.filter_base_only && ugl.needs_grenadier);
    let color = gear_config(GearCommand::Color);
    assert_eq!((color.cost, color.description), (150, "Repaint a weapon"));
    assert_eq!(gear_config(GearCommand::Belt).cost, 100);
    assert_eq!(gear_config(GearCommand::Barrel).cost, 60);
    for c in gear_commands() {
        assert_eq!(gear_command(gear_config(c).relation), Some(c));
    }
    assert_eq!(gear_command("paint"), None);
}

#[test]
fn grenadier_needed_for_ugl_only() {
    assert!(!may_use(GearCommand::Ugl, &vec![1, 2], 9));
    assert!(may_use(GearCommand::Ugl, &vec![1, 9], 9));
    assert!(may_use(GearCommand::Color, &vec![], 9));
}

#[test]
fn family_names_resolved() {
    let items = vec![
        item("rifle_black", "Rifle (Black)", "rifle"),
        item("rifle_tan", "Rifle (Tan)", "rifle"),
        item("rifle", "Rifle", "rifle"),
    ];
    assert_eq!(
        resolve_family(&items, &"rifle".to_string(), &"rifle_tan".to_string()),
        Some(("Rifle".to_string(), "Rifle (Tan)".to_string()))
    );
    assert_eq!(resolve_family(&items, &"rifle".to_string(), &"rifle_green".to_string()), None);
    assert_eq!(
        confirm_prompt("Rifle", "Rifle (Tan)", 150),
        "Are you sure you want to change Rifle to Rifle (Tan) for $150?"
    );
}

#[test]
fn suggestions_filtered() {
    let items = vec![item("a", "A", "a"), item("a_ugl", "A UGL", "a"), item("b", "B", "b")];
    let base: Vec<String> = item_suggestions(items, true).into_iter().map(|i| i.class).collect();
    assert_eq!(base, vec!["a", "b"]);
    let many: Vec<FamilyItem> = (0..30).map(|i| item(&format!("x{i}"), "X", "y")).collect();
    assert_eq!(item_suggestions(many, false).len(), 25);
    let variants = vec![item("a", "A", "a"), item("a_red", "A Red", "a")];
    let v: Vec<String> = variant_suggestions(variants, &"a".to_string()).into_iter().map(|i| i.class).collect();
    assert_eq!(v, vec!["a_red"]);
    let c = family_choice(&item("a_red", "A Red", "a"));
    assert_eq!((c.label.as_str(), c.value.as_str()), ("A Red", "a_red"));
}
