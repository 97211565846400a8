use synixe_bot::autocomplete::{matching_choices, truncate_choices, Choice, MAX_CHOICES};
use synixe_bot::select::select;

fn choice(label: &str) -> Choice {
    Choice { label: label.into(), value: label.to_lowercase() }
}

#[test]
fn matching_ignores_case() {
    let items = vec![choice("Medic Kit"), choice("Rifleman"), choice("MEDIC bag")];
    let r: Vec<String> = matching_choices(items, "medic").into_iter().map(|c| c.label).collect();
    assert_eq!(r, vec!["Medic Kit", "MEDIC bag"]);
}

#[test]
fn at_most_twenty_five() {
    let items: Vec<Choice> = (0..40).map(|i| choice(&format!("item {i}"))).collect();
    let r = matching_choices(items, "");
    assert_eq!(r.len(), MAX_CHOICES);
    assert_eq!(r[24].label, "item 24");
    let mut v: Vec<u8> = (0..30).collect();
    truncate_choices(&mut v);
    assert_eq!(v.len(), 25);
    let mut short: Vec<u8> = vec![1, 2];
    truncate_choices(&mut short);
    assert_eq!(short, vec![1, 2]);
}

#[test]
fn select_keeps_flagged() {
    assert_eq!(select(vec!['a', 'b', 'c', 'd'], &vec![true, false, false, true]), vec!['a', 'd']);
    assert_eq!(select(Vec::<u8>::new(), &vec![]), Vec::<u8>::new());
}
