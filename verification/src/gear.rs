//! Gear modifications: the table of modification commands, which item and
//! variant a request names, and the suggestions offered while typing.
use vstd::prelude::*;

use crate::autocomplete::{first_choices, truncate_choices, Choice};
use crate::certifications::contains_u64;
use crate::select::{kept, select};
use crate::text::{chars_of, int_text, push_int, starts_with_chars};

verus! {

/// The gear modification commands.
#[derive(Clone, Copy, Debug, PartialEq, Eq, Structural)]
pub enum GearCommand {
    Color,
    Ugl,
    Belt,
    Barrel,
}

/// How one modification command is set up: its relation (also its
/// subcommand name), description, price, the names of its item and variant
/// options, whether only base items are offered, and whether the
/// grenadier certification is required.
pub struct GearConfig {
    pub relation: &'static str,
    pub description: &'static str,
    pub cost: i32,
    pub item_option: &'static str,
    pub variant_option: &'static str,
    pub filter_base_only: bool,
    pub needs_grenadier: bool,
}

/// The relation name of each command.
pub open spec fn relation_spec(c: GearCommand) -> Seq<char> {
    match c {
        GearCommand::Color => "color"@,
        GearCommand::Ugl => "ugl"@,
        GearCommand::Belt => "belt"@,
        GearCommand::Barrel => "barrel"@,
    }
}

/// The price of each command.
pub open spec fn cost_spec(c: GearCommand) -> i32 {
    match c {
        GearCommand::Color => 150,
        GearCommand::Ugl => 300,
        GearCommand::Belt => 100,
        GearCommand::Barrel => 60,
    }
}

/// The setup of a modification command.
pub fn gear_config(c: GearCommand) -> (g: GearConfig)
    ensures
        g.relation@ == relation_spec(c),
        g.cost == cost_spec(c),
        g.filter_base_only == (c == GearCommand::Ugl || c == GearCommand::Belt),
        g.needs_grenadier == (c == GearCommand::Ugl),
        g.item_option@ == match c {
            GearCommand::Color => "item"@,
            GearCommand::Ugl => "weapon"@,
            GearCommand::Belt => "current"@,
            GearCommand::Barrel => "weapon"@,
        },
        g.variant_option@ == match c {
            GearCommand::Color => "color"@,
            GearCommand::Ugl => "ugl"@,
            GearCommand::Belt => "new"@,
            GearCommand::Barrel => "barrel"@,
        },
        g.description@ == match c {
            GearCommand::Color => "Repaint a weapon"@,
            GearCommand::Ugl => "Upgrade a weapon to have a UGL"@,
            GearCommand::Belt => "Add a belt to a vest"@,
            GearCommand::Barrel => "Change your weapon barrel"@,
        },
{
    match c {
        GearCommand::Color => GearConfig {
            relation: "color",
            description: "Repaint a weapon",
            cost: 150,
            item_option: "item",
            variant_option: "color",
            filter_base_only: false,
            needs_grenadier: false,
        },
        GearCommand::Ugl => GearConfig {
            relation: "ugl",
            description: "Upgrade a weapon to have a UGL",
            cost: 300,
            item_option: "weapon",
            variant_option: "ugl",
            filter_base_only: true,
            needs_grenadier: true,
        },
        GearCommand::Belt => GearConfig {
            relation: "belt",
            description: "Add a belt to a vest",
            cost: 100,
            item_option: "current",
            variant_option: "new",
            filter_base_only: true,
            needs_grenadier: false,
        },
        GearCommand::Barrel => GearConfig {
            relation: "barrel",
            description: "Change your weapon barrel",
            cost: 60,
            item_option: "weapon",
            variant_option: "barrel",
            filter_base_only: false,
            needs_grenadier: false,
        },
    }
}

/// The commands in the order they are registered.
pub fn gear_commands() -> (r: Vec<GearCommand>)
    ensures
        r@ == seq![GearCommand::Color, GearCommand::Ugl, GearCommand::Belt, GearCommand::Barrel],
{
    vec![GearCommand::Color, GearCommand::Ugl, GearCommand::Belt, GearCommand::Barrel]
}

/// The command whose relation is `name`, if any.
pub fn gear_command(name: &str) -> (r: Option<GearCommand>)
    ensures
        match r {
            Some(c) => relation_spec(c) == name@,
            None => forall|c: GearCommand| relation_spec(c) != name@,
        },
{
    let n = chars_of(name);
    let all = gear_commands();
    let mut i: usize = 0;
    while i < all.len()
        invariant
            i <= all.len(),
            n@ == name@,
            all@ == seq![GearCommand::Color, GearCommand::Ugl, GearCommand::Belt, GearCommand::Barrel],
            forall|k: int| 0 <= k < i ==> relation_spec(#[trigger] all@[k]) != name@,
        decreases all.len() - i,
    {
        let r = chars_of(gear_config(all[i]).relation);
        if r.len() == n.len() && starts_with_chars(&n, &r) {
            assert(n@ == r@);
            return Some(all[i]);
        }
        proof {
            if r@ == n@ {
                assert(r@.is_prefix_of(n@));
            }
        }
        i += 1;
    }
    proof {
        assert forall|c: GearCommand| relation_spec(c) != name@ by {
            match c {
                GearCommand::Color => assert(all@[0] == c),
                GearCommand::Ugl => assert(all@[1] == c),
                GearCommand::Belt => assert(all@[2] == c),
                GearCommand::Barrel => assert(all@[3] == c),
            }
        }
    }
    None
}

/// Whether a member holding `roles` may use a command: only the UGL
/// upgrade asks for the grenadier certification role.
pub fn may_use(c: GearCommand, roles: &Vec<u64>, grenadier_role: u64) -> (b: bool)
    ensures
        b == (c != GearCommand::Ugl || roles@.contains(grenadier_role)),
{
    match c {
        GearCommand::Ugl => contains_u64(roles, grenadier_role),
        _ => true,
    }
}

/// An item of a gear family: its class name and the name shown for it.
pub struct FamilyItem {
    pub class: String,
    pub pretty: String,
    pub family: String,
}

/// The name shown for the last family item of class `variant`.
pub open spec fn new_name_spec(items: Seq<FamilyItem>, variant: Seq<char>) -> Option<Seq<char>>
    decreases items.len(),
{
    if items.len() == 0 {
        None
    } else if items.last().class@ == variant {
        Some(items.last().pretty@)
    } else {
        new_name_spec(items.drop_last(), variant)
    }
}

/// The name shown for the last family item of class `item` that is not
/// also of class `variant`.
pub open spec fn original_name_spec(items: Seq<FamilyItem>, item: Seq<char>, variant: Seq<char>) -> Option<Seq<char>>
    decreases items.len(),
{
    if items.len() == 0 {
        None
    } else if items.last().class@ != variant && items.last().class@ == item {
        Some(items.last().pretty@)
    } else {
        original_name_spec(items.drop_last(), item, variant)
    }
}

/// The names shown for the item to change and the variant chosen, found
/// in the item's family; none when either is missing.
pub fn resolve_family(items: &Vec<FamilyItem>, item: &String, variant: &String) -> (r: Option<(String, String)>)
    ensures
        match r {
            Some((o, n)) => original_name_spec(items@, item@, variant@) == Some(o@) && new_name_spec(
                items@,
                variant@,
            ) == Some(n@),
            None => original_name_spec(items@, item@, variant@).is_none() || new_name_spec(
                items@,
                variant@,
            ).is_none(),
        },
{
    let mut original: Option<String> = None;
    let mut new_name: Option<String> = None;
    let mut i: usize = 0;
    while i < items.len()
        invariant
            i <= items.len(),
            match original {
                Some(o) => original_name_spec(items@.take(i as int), item@, variant@) == Some(o@),
                None => original_name_spec(items@.take(i as int), item@, variant@).is_none(),
            },
            match new_name {
                Some(n) => new_name_spec(items@.take(i as int), variant@) == Some(n@),
                None => new_name_spec(items@.take(i as int), variant@).is_none(),
            },
        decreases items.len() - i,
    {
        proof {
            assert(items@.take(i + 1).drop_last() == items@.take(i as int));
            assert(items@.take(i + 1).last() == items@[i as int]);
        }
        if items[i].class == *variant {
            new_name = Some(items[i].pretty.clone());
        } else if items[i].class == *item {
            original = Some(items[i].pretty.clone());
        }
        i += 1;
    }
    assert(items@.take(items.len() as int) == items@);
    match (original, new_name) {
        (Some(o), Some(n)) => Some((o, n)),
        _ => None,
    }
}

/// The question asked before a modification is made.
pub fn confirm_prompt(original: &str, new_name: &str, cost: i32) -> (r: String)
    ensures
        r@ == "Are you sure you want to change "@ + original@ + " to "@ + new_name@ + " for $"@
            + int_text(cost as int) + "?"@,
{
    let mut s = String::from_str("Are you sure you want to change ");
    s.append(original);
    s.append(" to ");
    s.append(new_name);
    s.append(" for $");
    push_int(&mut s, cost as i64);
    s.append("?");
    s
}

/// Whether an item is suggested: within the first suggestions, skipping
/// non-base items when only base items are offered (a base item's class is
/// its family).
pub open spec fn item_suggested(filter_base_only: bool, it: FamilyItem) -> bool {
    !filter_base_only || it.class@ == it.family@
}

/// The items suggested for modification: the first `MAX_CHOICES` compatible
/// items, of which only base items when the command asks for them.
pub fn item_suggestions(items: Vec<FamilyItem>, filter_base_only: bool) -> (r: Vec<FamilyItem>)
    ensures
        r@ == kept(
            first_choices(items@),
            first_choices(items@).map_values(|it: FamilyItem| item_suggested(filter_base_only, it)),
        ),
{
    let mut items = items;
    truncate_choices(&mut items);
    let ghost first = items@;
    let ghost flags = first.map_values(|it: FamilyItem| item_suggested(filter_base_only, it));
    let mut keep: Vec<bool> = Vec::new();
    let mut i: usize = 0;
    while i < items.len()
        invariant
            i <= items.len(),
            items@ == first,
            keep@ == flags.take(i as int),
            flags == first.map_values(|it: FamilyItem| item_suggested(filter_base_only, it)),
        decreases items.len() - i,
    {
        keep.push(!filter_base_only || items[i].class == items[i].family);
        assert(flags.take(i + 1) == flags.take(i as int).push(flags[i as int]));
        i += 1;
    }
    assert(flags.take(items.len() as int) == flags);
    select(items, &keep)
}

/// The variants suggested for an item: the first `MAX_CHOICES` of its
/// family, without the item itself.
pub fn variant_suggestions(variants: Vec<FamilyItem>, item: &String) -> (r: Vec<FamilyItem>)
    ensures
        r@ == kept(
            first_choices(variants@),
            first_choices(variants@).map_values(|it: FamilyItem| it.class@ != item@),
        ),
{
    let mut variants = variants;
    truncate_choices(&mut variants);
    let ghost first = variants@;
    let ghost flags = first.map_values(|it: FamilyItem| it.class@ != item@);
    let mut keep: Vec<bool> = Vec::new();
    let mut i: usize = 0;
    while i < variants.len()
        invariant
            i <= variants.len(),
            variants@ == first,
            keep@ == flags.take(i as int),
            flags == first.map_values(|it: FamilyItem| it.class@ != item@),
        decreases variants.len() - i,
    {
        keep.push(!(variants[i].class == *item));
        assert(flags.take(i + 1) == flags.take(i as int).push(flags[i as int]));
        i += 1;
    }
    assert(flags.take(variants.len() as int) == flags);
    select(variants, &keep)
}

/// The suggestion for a family item: its shown name, sending its class.
pub fn family_choice(it: &FamilyItem) -> (c: Choice)
    ensures
        c.label@ == it.pretty@,
        c.value@ == it.class@,
{
    Choice { label: it.pretty.clone(), value: it.class.clone() }
}

/// Each modification has its own subcommand name and a price of its own
/// kind: repainting costs 150, a UGL 300, a belt 100 and a barrel 60.
pub proof fn law_gear_commands(a: GearCommand, b: GearCommand)
    ensures
        a != b ==> relation_spec(a) != relation_spec(b),
        cost_spec(GearCommand::Color) == 150,
        cost_spec(GearCommand::Ugl) == 300,
        cost_spec(GearCommand::Belt) == 100,
        cost_spec(GearCommand::Barrel) == 60,
        relation_spec(GearCommand::Color) == "color"@,
        relation_spec(GearCommand::Ugl) == "ugl"@,
        relation_spec(GearCommand::Belt) == "belt"@,
        relation_spec(GearCommand::Barrel) == "barrel"@,
{
    reveal_strlit("color");
    reveal_strlit("ugl");
    reveal_strlit("belt");
    reveal_strlit("barrel");
    assert("color"@.len() == 5 && "ugl"@.len() == 3 && "belt"@.len() == 4 && "barrel"@.len() == 6);
}

/// The variant's name is found exactly when some family item is of the
/// variant's class, and the item's name exactly when some item of its class
/// is not of the variant's class.
pub proof fn law_family_names(items: Seq<FamilyItem>, item: Seq<char>, variant: Seq<char>)
    ensures
        new_name_spec(items, variant) is Some <==> exists|i: int|
            0 <= i < items.len() && (#[trigger] items[i]).class@ == variant,
        original_name_spec(items, item, variant) is Some <==> exists|i: int|
            0 <= i < items.len() && (#[trigger] items[i]).class@ == item && items[i].class@ != variant,
    decreases items.len(),
{
    if items.len() > 0 {
        let p = items.drop_last();
        law_family_names(p, item, variant);
        assert forall|i: int| 0 <= i < p.len() implies #[trigger] p[i] == items[i] by {}
        if exists|i: int| 0 <= i < items.len() && (#[trigger] items[i]).class@ == variant {
            let i = choose|i: int| 0 <= i < items.len() && (#[trigger] items[i]).class@ == variant;
            if i < p.len() {
                assert(p[i] == items[i]);
            }
        }
        if exists|i: int| 0 <= i < items.len() && (#[trigger] items[i]).class@ == item && items[i].class@ != variant {
            let i = choose|i: int| 0 <= i < items.len() && (#[trigger] items[i]).class@ == item && items[i].class@ != variant;
            if i < p.len() {
                assert(p[i] == items[i]);
            }
        }
        if exists|i: int| 0 <= i < p.len() && (#[trigger] p[i]).class@ == variant {
            let i = choose|i: int| 0 <= i < p.len() && (#[trigger] p[i]).class@ == variant;
            assert(items[i] == p[i]);
        }
        if exists|i: int| 0 <= i < p.len() && (#[trigger] p[i]).class@ == item && p[i].class@ != variant {
            let i = choose|i: int| 0 <= i < p.len() && (#[trigger] p[i]).class@ == item && p[i].class@ != variant;
            assert(items[i] == p[i]);
        }
    }
}

} // verus!
