//! The garage: its subcommands, which vehicles each one offers, what
//! spawning a vehicle answers, and how maps price transport.
use vstd::prelude::*;

use crate::handler::same_text;
use crate::text::push_lit;

use crate::autocomplete::{first_choices, truncate_choices, Choice};
use crate::select::{kept, select};
use crate::text::{chars_of, decimal, starts_with_chars};

verus! {

/// The garage subcommands.
#[derive(Clone, Copy, Debug, PartialEq, Eq, Structural)]
pub enum Command {
    View,
    PurchaseVehicle,
    PurchaseAddon,
    Attach,
    Detach,
    Spawn,
}

/// The name under which each subcommand is registered.
pub open spec fn command_name(c: Command) -> Seq<char> {
    match c {
        Command::View => "view"@,
        Command::PurchaseVehicle => "purchase_vehicle"@,
        Command::PurchaseAddon => "purchase_addon"@,
        Command::Attach => "attach"@,
        Command::Detach => "detach"@,
        Command::Spawn => "spawn"@,
    }
}


impl Command {
    /// The subcommand registered under `s`, if any.
    pub fn from_str(s: &str) -> (r: Option<Self>)
        ensures
            match r {
                Some(c) => command_name(c) == s@,
                None => forall|c: Command| command_name(c) != s@,
            },
    {
        if same_text(s, "view") {
            Some(Command::View)
        } else if same_text(s, "purchase_vehicle") {
            Some(Command::PurchaseVehicle)
        } else if same_text(s, "purchase_addon") {
            Some(Command::PurchaseAddon)
        } else if same_text(s, "attach") {
            Some(Command::Attach)
        } else if same_text(s, "detach") {
            Some(Command::Detach)
        } else if same_text(s, "spawn") {
            Some(Command::Spawn)
        } else {
            proof {
                assert forall|c: Command| command_name(c) != s@ by {
                    match c {
                        Command::View => {},
                        Command::PurchaseVehicle => {},
                        Command::PurchaseAddon => {},
                        Command::Attach => {},
                        Command::Detach => {},
                        Command::Spawn => {},
                    }
                }
            }
            None
        }
    }
}

/// What the shop is searched for: vehicles or addons, with what was typed.
pub enum AssetFilter {
    Vehicle(Option<String>),
    Addon(Option<String>),
}

impl AssetFilter {
    /// The search text of the filter, if any.
    pub fn search(&self) -> (r: Option<String>)
        ensures
            r == match self {
                AssetFilter::Vehicle(s) => *s,
                AssetFilter::Addon(s) => *s,
            },
    {
        match self {
            AssetFilter::Vehicle(s) => match s {
                Some(t) => Some(t.clone()),
                None => None,
            },
            AssetFilter::Addon(s) => match s {
                Some(t) => Some(t.clone()),
                None => None,
            },
        }
    }
}

/// Which value a vehicle suggestion sends back.
#[derive(Clone, Copy, Debug, PartialEq, Eq, Structural)]
pub enum VehicleValueType {
    Plate,
    Id,
}

/// A vehicle kept in the garage.
pub struct StoredVehicle {
    pub id: String,
    pub name: String,
    pub plate: String,
    pub stored: bool,
    pub addon: Option<String>,
    pub addons: Option<i32>,
}

/// Whether a vehicle is offered for a subcommand: attaching needs a free
/// addon slot and no addon yet, detaching needs an addon, buying an addon
/// needs addon slots; the others offer every vehicle.
pub open spec fn offers_vehicle(command: Command, v: StoredVehicle) -> bool {
    let slots = match v.addons {
        Some(n) => n,
        None => 0,
    };
    match command {
        Command::Attach => v.addon.is_none() && slots > 0,
        Command::Detach => v.addon.is_some(),
        Command::PurchaseAddon => slots > 0,
        _ => true,
    }
}

/// Whether a vehicle is offered for a subcommand (see `offers_vehicle`).
pub fn vehicle_offered(command: Command, v: &StoredVehicle) -> (b: bool)
    ensures
        b == offers_vehicle(command, *v),
{
    let slots = match v.addons {
        Some(n) => n,
        None => 0,
    };
    match command {
        Command::Attach => v.addon.is_none() && slots > 0,
        Command::Detach => v.addon.is_some(),
        Command::PurchaseAddon => slots > 0,
        _ => true,
    }
}

/// The vehicles offered for a subcommand, the first `MAX_CHOICES` of them.
pub fn offered_vehicles(vehicles: Vec<StoredVehicle>, command: Command) -> (r: Vec<StoredVehicle>)
    ensures
        r@ == first_choices(
            kept(vehicles@, vehicles@.map_values(|v: StoredVehicle| offers_vehicle(command, v))),
        ),
{
    let ghost flags = vehicles@.map_values(|v: StoredVehicle| offers_vehicle(command, v));
    let mut keep: Vec<bool> = Vec::new();
    let mut i: usize = 0;
    while i < vehicles.len()
        invariant
            i <= vehicles.len(),
            keep@ == flags.take(i as int),
            flags == vehicles@.map_values(|v: StoredVehicle| offers_vehicle(command, v)),
        decreases vehicles.len() - i,
    {
        keep.push(vehicle_offered(command, &vehicles[i]));
        assert(flags.take(i + 1) == flags.take(i as int).push(flags[i as int]));
        i += 1;
    }
    assert(flags.take(vehicles.len() as int) == flags);
    let mut r = select(vehicles, &keep);
    truncate_choices(&mut r);
    r
}

/// The suggestion for a vehicle: `name - plate`, sending its plate or id.
pub fn vehicle_choice(v: &StoredVehicle, value_type: VehicleValueType) -> (c: Choice)
    ensures
        c.label@ == v.name@ + " - "@ + v.plate@,
        c.value@ == match value_type {
            VehicleValueType::Plate => v.plate@,
            VehicleValueType::Id => v.id@,
        },
{
    let mut label = v.name.clone();
    label.append(" - ");
    label.append(v.plate.as_str());
    let value = match value_type {
        VehicleValueType::Plate => v.plate.clone(),
        VehicleValueType::Id => v.id.clone(),
    };
    Choice { label, value }
}

/// An asset of the shop; `base` is the vehicle an addon fits, none for vehicles.
pub struct ShopAsset {
    pub id: String,
    pub name: String,
    pub cost: i32,
    pub base: Option<u128>,
}

/// Which shop assets are offered: vehicles, or the addons of one vehicle.
#[derive(Clone, Copy, Debug, PartialEq, Eq, Structural)]
pub enum ShopFilter {
    Vehicles,
    AddonsFor(u128),
}

/// Whether a shop asset is offered under a filter.
pub open spec fn offers_asset(filter: ShopFilter, a: ShopAsset) -> bool {
    match filter {
        ShopFilter::Vehicles => a.base.is_none(),
        ShopFilter::AddonsFor(v) => a.base == Some(v),
    }
}

/// The shop assets offered under a filter, the first `MAX_CHOICES` of them.
pub fn offered_assets(assets: Vec<ShopAsset>, filter: ShopFilter) -> (r: Vec<ShopAsset>)
    ensures
        r@ == first_choices(
            kept(assets@, assets@.map_values(|a: ShopAsset| offers_asset(filter, a))),
        ),
{
    let ghost flags = assets@.map_values(|a: ShopAsset| offers_asset(filter, a));
    let mut keep: Vec<bool> = Vec::new();
    let mut i: usize = 0;
    while i < assets.len()
        invariant
            i <= assets.len(),
            keep@ == flags.take(i as int),
            flags == assets@.map_values(|a: ShopAsset| offers_asset(filter, a)),
        decreases assets.len() - i,
    {
        let k = match filter {
            ShopFilter::Vehicles => assets[i].base.is_none(),
            ShopFilter::AddonsFor(v) => match assets[i].base {
                Some(b) => b == v,
                None => false,
            },
        };
        keep.push(k);
        assert(flags.take(i + 1) == flags.take(i as int).push(flags[i as int]));
        i += 1;
    }
    assert(flags.take(assets.len() as int) == flags);
    let mut r = select(assets, &keep);
    truncate_choices(&mut r);
    r
}

/// The garage inventory text: each vehicle's name, plate and whereabouts.
pub open spec fn garage_view_spec(vehicles: Seq<StoredVehicle>) -> Seq<char>
    decreases vehicles.len(),
{
    if vehicles.len() == 0 {
        "**Vehicle Assests**\n\n"@
    } else {
        let v = vehicles.last();
        garage_view_spec(vehicles.drop_last()) + "**"@ + v.name@ + "**\nPlate: "@ + v.plate@
            + "\n"@ + (if v.stored {
            "In garage"@
        } else {
            "Out in the field"@
        }) + "\n\n"@
    }
}

/// The garage inventory reply: a notice when there is no vehicle, the
/// inventory text otherwise.
pub fn garage_view(vehicles: &Vec<StoredVehicle>) -> (r: String)
    ensures
        r@ == (if vehicles.len() == 0 {
            "No vehicle assests found"@
        } else {
            garage_view_spec(vehicles@)
        }),
{
    if vehicles.len() == 0 {
        return String::from_str("No vehicle assests found");
    }
    let mut s = String::from_str("**Vehicle Assests**\n\n");
    let mut i: usize = 0;
    while i < vehicles.len()
        invariant
            i <= vehicles.len(),
            s@ == garage_view_spec(vehicles@.take(i as int)),
        decreases vehicles.len() - i,
    {
        proof {
            assert(vehicles@.take(i + 1).drop_last() == vehicles@.take(i as int));
            assert(vehicles@.take(i + 1).last() == vehicles@[i as int]);
        }
        let v = &vehicles[i];
        s.append("**");
        s.append(v.name.as_str());
        s.append("**\nPlate: ");
        s.append(v.plate.as_str());
        s.append("\n");
        if v.stored {
            s.append("In garage");
        } else {
            s.append("Out in the field");
        }
        s.append("\n\n");
        i += 1;
    }
    assert(vehicles@.take(vehicles.len() as int) == vehicles@);
    s
}

/// How the game server answered a spawn request.
#[derive(Clone, Copy, Debug, PartialEq, Eq, Structural)]
pub enum SpawnResult {
    Yes,
    AreaBlocked,
    NoPlayers,
    NoSpawnArea,
    NoPlayersNear,
}

/// The reply for a refused spawn; none when the vehicle spawned.
pub fn spawn_refusal(r: SpawnResult) -> (s: Option<&'static str>)
    ensures
        match r {
            SpawnResult::Yes => s.is_none(),
            SpawnResult::AreaBlocked => s matches Some(t) && t@ == "Area blocked"@,
            SpawnResult::NoPlayers => s matches Some(t) && t@ == "No players online"@,
            SpawnResult::NoSpawnArea => s matches Some(t) && t@
                == "No spawn area for this type of vehicle"@,
            SpawnResult::NoPlayersNear => s matches Some(t) && t@ == "Unable to spawn vehicle"@,
        },
{
    match r {
        SpawnResult::Yes => None,
        SpawnResult::AreaBlocked => Some("Area blocked"),
        SpawnResult::NoPlayers => Some("No players online"),
        SpawnResult::NoSpawnArea => Some("No spawn area for this type of vehicle"),
        SpawnResult::NoPlayersNear => Some("Unable to spawn vehicle"),
    }
}

/// Whether spawning must first be confirmed: only when transport costs money.
pub fn spawn_needs_confirmation(transport_cost: i32) -> (b: bool)
    ensures
        b == (transport_cost != 0),
{
    transport_cost != 0
}

/// How well a map's infrastructure carries vehicles, which sets what
/// transporting one there costs.
#[derive(Clone, Copy, Debug, PartialEq, Eq, Structural)]
pub enum MapTier {
    /// Good transport infrastructure: cheaper.
    Developed,
    /// Limited infrastructure: dearer.
    Remote,
    /// Any other map: the standard price.
    Standard,
}

/// The maps with good transport infrastructure.
pub open spec fn developed_maps() -> Seq<Seq<char>> {
    seq![
        "Altis"@, "Stratis"@, "Malden"@, "Enoch"@, "chernarus"@, "chernarus_summer"@,
        "Chernarus_Winter"@, "hellanmaa"@, "hellanmaaw"@, "tem_ruha"@, "tem_vinjesvingenc"@,
        "stubbhult"@, "bozcaada"@, "tem_summa"@, "tem_summawcup"@, "VTF_Lybor"@, "sara"@,
        "sara_dbe1"@, "saralite"@, "VTF_Lybor_Winter"@, "VTF_Korsac"@, "VTF_Korsac_Winter"@,
        "vt7"@, "Tembelan"@, "VTF_Prilivsko"@, "VTF_Prilivsko_Flood"@, "pja308"@,
    ]
}

/// The remote maps with limited infrastructure.
pub open spec fn remote_maps() -> Seq<Seq<char>> {
    seq![
        "Bootcamp_ACR"@, "intro"@, "Tanoa"@, "Woodland_ACR"@, "porto"@, "ProvingGrounds_PMC"@,
        "Mountains_ACR"@, "pulau"@, "utes"@, "Shapur_BAF"@, "tem_suursaariv"@, "blud_cordelia"@,
        "pja307"@, "IslaPera"@, "go_map_fjord"@, "tem_kujari"@, "zargabad"@, "Desert_E"@,
        "takistan"@, "tem_anizay"@, "SefrouRamal"@, "MCN_Aliabad"@, "NorthTakistan"@,
        "swu_public_salman_map"@, "juju_javory"@, "Farabad"@,
    ]
}

fn developed_list() -> (r: Vec<&'static str>)
    ensures
        r@.map_values(|s: &str| s@) == developed_maps(),
{
    let r = vec![
        "Altis", "Stratis", "Malden", "Enoch", "chernarus", "chernarus_summer",
        "Chernarus_Winter", "hellanmaa", "hellanmaaw", "tem_ruha", "tem_vinjesvingenc",
        "stubbhult", "bozcaada", "tem_summa", "tem_summawcup", "VTF_Lybor", "sara",
        "sara_dbe1", "saralite", "VTF_Lybor_Winter", "VTF_Korsac", "VTF_Korsac_Winter",
        "vt7", "Tembelan", "VTF_Prilivsko", "VTF_Prilivsko_Flood", "pja308",
    ];
    assert(r@.map_values(|s: &str| s@) == developed_maps());
    r
}

fn remote_list() -> (r: Vec<&'static str>)
    ensures
        r@.map_values(|s: &str| s@) == remote_maps(),
{
    let r = vec![
        "Bootcamp_ACR", "intro", "Tanoa", "Woodland_ACR", "porto", "ProvingGrounds_PMC",
        "Mountains_ACR", "pulau", "utes", "Shapur_BAF", "tem_suursaariv", "blud_cordelia",
        "pja307", "IslaPera", "go_map_fjord", "tem_kujari", "zargabad", "Desert_E",
        "takistan", "tem_anizay", "SefrouRamal", "MCN_Aliabad", "NorthTakistan",
        "swu_public_salman_map", "juju_javory", "Farabad",
    ];
    assert(r@.map_values(|s: &str| s@) == remote_maps());
    r
}

fn listed(world: &str, list: &Vec<&'static str>) -> (b: bool)
    ensures
        b == list@.map_values(|s: &str| s@).contains(world@),
{
    let ghost names = list@.map_values(|s: &str| s@);
    let mut i: usize = 0;
    while i < list.len()
        invariant
            i <= list.len(),
            names == list@.map_values(|s: &str| s@),
            forall|k: int| 0 <= k < i ==> names[k] != world@,
        decreases list.len() - i,
    {
        if same_text(world, list[i]) {
            assert(names[i as int] == world@);
            return true;
        }
        i += 1;
    }
    false
}

/// The tier of a map (by its world name).
pub fn map_tier(world: &str) -> (t: MapTier)
    ensures
        t == (if developed_maps().contains(world@) {
            MapTier::Developed
        } else if remote_maps().contains(world@) {
            MapTier::Remote
        } else {
            MapTier::Standard
        }),
{
    if listed(world, &developed_list()) {
        MapTier::Developed
    } else if listed(world, &remote_list()) {
        MapTier::Remote
    } else {
        MapTier::Standard
    }
}

/// The text of the UUID a text parses as (uuid's `Uuid::parse_str`, then
/// its display), or `None` when it parses as none.
pub uninterp spec fn uuid_parsed(s: Seq<char>) -> Option<Seq<char>>;

/// Calls uuid's `Uuid::parse_str` and displays the result: claims only that
/// the outcome is `uuid_parsed` of the text.
#[verifier::external_body]
fn parse_uuid(s: &str) -> (r: Option<String>)
    ensures
        r matches Some(t) ==> uuid_parsed(s@) == Some(t@),
        r is None ==> uuid_parsed(s@) is None,
{
    uuid::Uuid::parse_str(s).ok().map(|u| u.to_string())
}

/// What a purchase is for.
#[derive(Clone, Copy, Debug, PartialEq, Eq, Structural)]
pub enum PurchaseKind {
    Vehicle,
    Addon,
}

/// The last of the options that is called `vehicle` or `addon`, as its kind.
pub open spec fn purchase_kind_spec(options: Seq<crate::interaction::CommandOption>) -> Option<
    PurchaseKind,
>
    decreases options.len(),
{
    if options.len() == 0 {
        None
    } else if options.last().name@ == "vehicle"@ {
        Some(PurchaseKind::Vehicle)
    } else if options.last().name@ == "addon"@ {
        Some(PurchaseKind::Addon)
    } else {
        purchase_kind_spec(options.drop_last())
    }
}

/// What a purchase is for (see `purchase_kind_spec`).
pub fn purchase_kind(options: &Vec<crate::interaction::CommandOption>) -> (r: Option<PurchaseKind>)
    ensures
        r == purchase_kind_spec(options@),
{
    let mut k: usize = options.len();
    assert(options@.take(k as int) == options@);
    while k > 0
        invariant
            k <= options.len(),
            purchase_kind_spec(options@) == purchase_kind_spec(options@.take(k as int)),
        decreases k,
    {
        proof {
            assert(options@.take(k as int).last() == options@[k - 1]);
            assert(options@.take(k as int).drop_last() == options@.take(k - 1));
        }
        let n = options[k - 1].name.as_str();
        if crate::handler::same_text(n, "vehicle") {
            return Some(PurchaseKind::Vehicle);
        }
        if crate::handler::same_text(n, "addon") {
            return Some(PurchaseKind::Addon);
        }
        k -= 1;
    }
    None
}

/// How a purchase request reads: what is bought (its UUID's text), and for
/// an addon the vehicle it is for; or why it is refused.
pub open spec fn purchase_order_spec(options: Seq<crate::interaction::CommandOption>) -> Result<
    (PurchaseKind, Seq<char>, Option<Seq<char>>),
    Seq<char>,
> {
    match purchase_kind_spec(options) {
        None => Err("Required option not provided: vehicle or addon"@),
        Some(kind) => {
            let key = if kind == PurchaseKind::Vehicle {
                "vehicle"@
            } else {
                "addon"@
            };
            match crate::interaction::option_named(options, key) {
                Some(crate::interaction::OptionValue::Text(id)) => match uuid_parsed(id@) {
                    None => Err("Invalid vehicle or addon UUID"@),
                    Some(u) => if kind == PurchaseKind::Vehicle {
                        Ok((kind, u, None))
                    } else {
                        match crate::interaction::option_named(options, "vehicle"@) {
                            Some(crate::interaction::OptionValue::Text(v)) => Ok((kind, u, Some(v@))),
                            _ => Err("Required option not provided: vehicle"@),
                        }
                    },
                },
                _ => Err("Required option not provided: vehicle or addon"@),
            }
        },
    }
}

/// How a purchase request reads (see `purchase_order_spec`).
pub fn purchase_order(options: &Vec<crate::interaction::CommandOption>) -> (r: Result<
    (PurchaseKind, String, Option<String>),
    String,
>)
    ensures
        r matches Ok(o) ==> purchase_order_spec(options@) == Ok::<
            (PurchaseKind, Seq<char>, Option<Seq<char>>),
            Seq<char>,
        >((o.0, o.1@, crate::briefing::opt_view(o.2))),
        r matches Err(e) ==> purchase_order_spec(options@) == Err::<
            (PurchaseKind, Seq<char>, Option<Seq<char>>),
            Seq<char>,
        >(e@),
{
    let lit = |t: &str| -> (r: String)
        ensures
            r@ == t@,
        { crate::text::string_of(&crate::text::chars_of(t)) };
    let kind = match purchase_kind(options) {
        None => return Err(lit("Required option not provided: vehicle or addon")),
        Some(k) => k,
    };
    let key = match kind {
        PurchaseKind::Vehicle => "vehicle",
        PurchaseKind::Addon => "addon",
    };
    let id = match crate::interaction::macro_get_option(options, key) {
        Some(crate::interaction::OptionValue::Text(id)) => id,
        _ => return Err(lit("Required option not provided: vehicle or addon")),
    };
    let u = match parse_uuid(id.as_str()) {
        None => return Err(lit("Invalid vehicle or addon UUID")),
        Some(u) => u,
    };
    match kind {
        PurchaseKind::Vehicle => Ok((kind, u, None)),
        PurchaseKind::Addon => match crate::interaction::macro_get_option(options, "vehicle") {
            Some(crate::interaction::OptionValue::Text(v)) => Ok((kind, u, Some(v.clone()))),
            _ => Err(lit("Required option not provided: vehicle")),
        },
    }
}


/// The audit line of a purchase: the vehicle's plate, or the addon and the
/// vehicle it is for, and the buyer.
pub fn purchase_audit(order: &(PurchaseKind, String, Option<String>), plate: &str, buyer: u64) -> (r:
    String)
    ensures
        order.0 == PurchaseKind::Vehicle ==> r@ == "Vehicle `"@ + plate@ + "` purchased by <@"@
            + decimal(buyer as nat) + ">"@,
        order.0 == PurchaseKind::Addon ==> r@ == "Addon `"@ + order.1@ + "` purchased for `"@
            + match order.2 {
            Some(v) => v@,
            None => Seq::empty(),
        } + "` by <@"@ + decimal(buyer as nat) + ">"@,
{
    let mut r = String::new();
    match order.0 {
        PurchaseKind::Vehicle => {
            push_lit(&mut r, "Vehicle `");
            push_lit(&mut r, plate);
            push_lit(&mut r, "` purchased by <@");
        },
        PurchaseKind::Addon => {
            push_lit(&mut r, "Addon `");
            push_lit(&mut r, order.1.as_str());
            push_lit(&mut r, "` purchased for `");
            match &order.2 {
                Some(v) => push_lit(&mut r, v.as_str()),
                None => {},
            }
            push_lit(&mut r, "` by <@");
        },
    }
    crate::text::push_decimal(&mut r, buyer);
    push_lit(&mut r, ">");
    r
}

/// Why a vehicle cannot be spawned from what the garage knows of it,
/// checked in this order: unknown vehicle, no class, no saved state.
pub fn spawn_info_refusal(found: bool, has_class: bool, has_state: bool) -> (r: Option<&'static str>)
    ensures
        !found ==> (r matches Some(t) && t@ == "Vehicle not found"@),
        found && !has_class ==> (r matches Some(t) && t@ == "Vehicle class not found"@),
        found && has_class && !has_state ==> (r matches Some(t) && t@ == "Vehicle state not found"@),
        found && has_class && has_state ==> r is None,
{
    if !found {
        Some("Vehicle not found")
    } else if !has_class {
        Some("Vehicle class not found")
    } else if !has_state {
        Some("Vehicle state not found")
    } else {
        None
    }
}

/// The question asked before a vehicle whose transport costs money is spawned.
pub fn transport_prompt(cost: &str) -> (r: String)
    ensures
        r@ == "Transport Cost: "@ + cost@ + "\n Are you sure you want to spawn this vehicle?"@,
{
    let mut r = String::new();
    push_lit(&mut r, "Transport Cost: ");
    push_lit(&mut r, cost);
    push_lit(&mut r, "\n Are you sure you want to spawn this vehicle?");
    r
}

/// The audit line of a spawned vehicle.
pub fn spawned_audit(plate: &str, member: u64) -> (r: String)
    ensures
        r@ == "Vehicle `"@ + plate@ + "` spawned by <@"@ + decimal(member as nat) + ">"@,
{
    let mut r = String::new();
    push_lit(&mut r, "Vehicle `");
    push_lit(&mut r, plate);
    push_lit(&mut r, "` spawned by <@");
    crate::text::push_decimal(&mut r, member);
    push_lit(&mut r, ">");
    r
}

/// The line logged when the garage could not record that a vehicle left it.
pub fn retrieve_failed_log(plate: &str, error: &str) -> (r: String)
    ensures
        r@ == "Failed to store retrieve action on vehicle "@ + plate@ + ": "@ + error@,
{
    let mut r = String::new();
    push_lit(&mut r, "Failed to store retrieve action on vehicle ");
    push_lit(&mut r, plate);
    push_lit(&mut r, ": ");
    push_lit(&mut r, error);
    r
}

/// The line logged when a spawn's transport cost could not be recorded.
pub fn transport_failed_log(plate: &str, cost: i32, error: &str) -> (r: String)
    ensures
        r@ == "Failed to log transport cost on vehicle "@ + plate@ + " for "@ + crate::text::int_text(
            cost as int,
        ) + ": "@ + error@,
{
    let mut r = String::new();
    push_lit(&mut r, "Failed to log transport cost on vehicle ");
    push_lit(&mut r, plate);
    push_lit(&mut r, " for ");
    crate::text::push_int(&mut r, cost as i64);
    push_lit(&mut r, ": ");
    push_lit(&mut r, error);
    r
}

/// Where spawning a vehicle stands.
#[derive(Clone, Copy, Debug, PartialEq, Eq, Structural)]
pub enum SpawnStage {
    /// What the garage knows of the vehicle is being fetched.
    FetchingInfo,
    /// The shop asset, with its transport cost, is being fetched.
    Pricing,
    /// The member is asked to confirm the transport cost.
    Confirming,
    /// The game server was asked to spawn the vehicle.
    Spawning,
    /// The vehicle spawned; its retrieval and transport were recorded.
    Done,
    /// Spawning was refused or failed.
    Stopped,
}

/// What happened at the current stage of spawning.
#[derive(Clone, Copy, Debug, PartialEq, Eq, Structural)]
pub enum SpawnEvent {
    /// What the garage knows: whether the vehicle was found, and whether
    /// its class and saved state are known.
    Info(bool, bool, bool),
    /// The transport cost of the vehicle's asset, `None` when it could not
    /// be fetched.
    Priced(Option<i32>),
    /// The member's answer to the transport cost.
    Confirmed(crate::interaction::Confirmation),
    /// The game server's answer, `None` when the request failed.
    Spawned(Option<SpawnResult>),
}

/// Why spawning stopped.
#[derive(Clone, Copy, Debug, PartialEq, Eq, Structural)]
pub enum SpawnStop {
    NotFound,
    NoClass,
    NoState,
    AssetFailed,
    Cancelled,
    RequestFailed,
    Refused(SpawnResult),
    OutOfOrder,
}

/// What the bot does next while spawning.
#[derive(Clone, Copy, Debug, PartialEq, Eq, Structural)]
pub enum SpawnAction {
    /// Fetch the vehicle's shop asset.
    FetchAsset,
    /// Ask the member to confirm this transport cost.
    Confirm(i32),
    /// Ask the game server to spawn the vehicle.
    RequestSpawn,
    /// Record that the vehicle left the garage and charge this transport cost.
    Record(i32),
    /// Stop, telling the member why.
    Stop(SpawnStop),
}

/// One step of spawning a vehicle: from a stage, the transport cost known
/// so far and what happened, to the next stage, cost and action. The
/// vehicle is only spawned once the cost is zero or the member confirmed
/// it, and the cost is only charged after the vehicle spawned.
pub open spec fn spawn_step_spec(stage: SpawnStage, cost: i32, event: SpawnEvent) -> (
    SpawnStage,
    i32,
    SpawnAction,
) {
    match (stage, event) {
        (SpawnStage::FetchingInfo, SpawnEvent::Info(found, class, state)) => if !found {
            (SpawnStage::Stopped, cost, SpawnAction::Stop(SpawnStop::NotFound))
        } else if !class {
            (SpawnStage::Stopped, cost, SpawnAction::Stop(SpawnStop::NoClass))
        } else if !state {
            (SpawnStage::Stopped, cost, SpawnAction::Stop(SpawnStop::NoState))
        } else {
            (SpawnStage::Pricing, cost, SpawnAction::FetchAsset)
        },
        (SpawnStage::Pricing, SpawnEvent::Priced(p)) => match p {
            None => (SpawnStage::Stopped, cost, SpawnAction::Stop(SpawnStop::AssetFailed)),
            Some(c) => if c != 0 {
                (SpawnStage::Confirming, c, SpawnAction::Confirm(c))
            } else {
                (SpawnStage::Spawning, c, SpawnAction::RequestSpawn)
            },
        },
        (SpawnStage::Confirming, SpawnEvent::Confirmed(a)) => if a
            == crate::interaction::Confirmation::Yes {
            (SpawnStage::Spawning, cost, SpawnAction::RequestSpawn)
        } else {
            (SpawnStage::Stopped, cost, SpawnAction::Stop(SpawnStop::Cancelled))
        },
        (SpawnStage::Spawning, SpawnEvent::Spawned(r)) => match r {
            None => (SpawnStage::Stopped, cost, SpawnAction::Stop(SpawnStop::RequestFailed)),
            Some(SpawnResult::Yes) => (SpawnStage::Done, cost, SpawnAction::Record(cost)),
            Some(other) => (SpawnStage::Stopped, cost, SpawnAction::Stop(SpawnStop::Refused(other))),
        },
        _ => (SpawnStage::Stopped, cost, SpawnAction::Stop(SpawnStop::OutOfOrder)),
    }
}

/// One step of spawning a vehicle (see `spawn_step_spec`).
pub fn spawn_step(stage: SpawnStage, cost: i32, event: SpawnEvent) -> (r: (SpawnStage, i32, SpawnAction))
    ensures
        r == spawn_step_spec(stage, cost, event),
{
    match (stage, event) {
        (SpawnStage::FetchingInfo, SpawnEvent::Info(found, class, state)) => if !found {
            (SpawnStage::Stopped, cost, SpawnAction::Stop(SpawnStop::NotFound))
        } else if !class {
            (SpawnStage::Stopped, cost, SpawnAction::Stop(SpawnStop::NoClass))
        } else if !state {
            (SpawnStage::Stopped, cost, SpawnAction::Stop(SpawnStop::NoState))
        } else {
            (SpawnStage::Pricing, cost, SpawnAction::FetchAsset)
        },
        (SpawnStage::Pricing, SpawnEvent::Priced(p)) => match p {
            None => (SpawnStage::Stopped, cost, SpawnAction::Stop(SpawnStop::AssetFailed)),
            Some(c) => if spawn_needs_confirmation(c) {
                (SpawnStage::Confirming, c, SpawnAction::Confirm(c))
            } else {
                (SpawnStage::Spawning, c, SpawnAction::RequestSpawn)
            },
        },
        (SpawnStage::Confirming, SpawnEvent::Confirmed(a)) => match a {
            crate::interaction::Confirmation::Yes => (SpawnStage::Spawning, cost, SpawnAction::RequestSpawn),
            _ => (SpawnStage::Stopped, cost, SpawnAction::Stop(SpawnStop::Cancelled)),
        },
        (SpawnStage::Spawning, SpawnEvent::Spawned(r)) => match r {
            None => (SpawnStage::Stopped, cost, SpawnAction::Stop(SpawnStop::RequestFailed)),
            Some(SpawnResult::Yes) => (SpawnStage::Done, cost, SpawnAction::Record(cost)),
            Some(other) => (SpawnStage::Stopped, cost, SpawnAction::Stop(SpawnStop::Refused(other))),
        },
        _ => (SpawnStage::Stopped, cost, SpawnAction::Stop(SpawnStop::OutOfOrder)),
    }
}

/// The reply when spawning stops.
pub fn spawn_stop_reply(s: SpawnStop) -> (r: &'static str)
    ensures
        r@ == match s {
            SpawnStop::NotFound => "Vehicle not found"@,
            SpawnStop::NoClass => "Vehicle class not found"@,
            SpawnStop::NoState => "Vehicle state not found"@,
            SpawnStop::AssetFailed => "Failed to fetch asset info"@,
            SpawnStop::Cancelled => "Spawn cancelled"@,
            SpawnStop::RequestFailed => "Failed to spawn vehicle"@,
            SpawnStop::Refused(SpawnResult::AreaBlocked) => "Area blocked"@,
            SpawnStop::Refused(SpawnResult::NoPlayers) => "No players online"@,
            SpawnStop::Refused(SpawnResult::NoSpawnArea) => "No spawn area for this type of vehicle"@,
            SpawnStop::Refused(_) => "Unable to spawn vehicle"@,
            SpawnStop::OutOfOrder => "Failed to spawn vehicle"@,
        },
{
    match s {
        SpawnStop::NotFound => "Vehicle not found",
        SpawnStop::NoClass => "Vehicle class not found",
        SpawnStop::NoState => "Vehicle state not found",
        SpawnStop::AssetFailed => "Failed to fetch asset info",
        SpawnStop::Cancelled => "Spawn cancelled",
        SpawnStop::RequestFailed => "Failed to spawn vehicle",
        SpawnStop::Refused(SpawnResult::AreaBlocked) => "Area blocked",
        SpawnStop::Refused(SpawnResult::NoPlayers) => "No players online",
        SpawnStop::Refused(SpawnResult::NoSpawnArea) => "No spawn area for this type of vehicle",
        SpawnStop::Refused(_) => "Unable to spawn vehicle",
        SpawnStop::OutOfOrder => "Failed to spawn vehicle",
    }
}

/// A vehicle is only spawned after its transport cost was found to be zero
/// or the member confirmed it, and a transport cost is only charged right
/// after the game server spawned the vehicle, the cost being the one priced.
pub proof fn law_spawn_only_when_confirmed(stage: SpawnStage, cost: i32, event: SpawnEvent)
    ensures
        ({
            let (next, c, action) = spawn_step_spec(stage, cost, event);
            &&& action == SpawnAction::RequestSpawn ==> (stage == SpawnStage::Pricing && event
                == SpawnEvent::Priced(Some(0))) || (stage == SpawnStage::Confirming && event
                == SpawnEvent::Confirmed(crate::interaction::Confirmation::Yes))
            &&& (action matches SpawnAction::Record(x) ==> x == cost && stage == SpawnStage::Spawning
                && event == SpawnEvent::Spawned(Some(SpawnResult::Yes)))
            &&& (next == SpawnStage::Spawning ==> action == SpawnAction::RequestSpawn)
            &&& (stage == SpawnStage::Confirming ==> c == cost)
        }),
{
}

/// The addon slots of a vehicle, none counting as zero.
pub open spec fn addon_slots(v: StoredVehicle) -> int {
    match v.addons {
        Some(n) => n as int,
        None => 0,
    }
}

/// Which vehicles each subcommand offers: buying an addon needs a free
/// addon slot, whether or not an addon is attached; attaching needs a slot
/// and no addon attached; detaching needs an attached addon; viewing,
/// buying a vehicle and spawning offer every vehicle.
pub proof fn law_vehicles_offered(v: StoredVehicle, other_addon: Option<String>)
    ensures
        offers_vehicle(Command::PurchaseAddon, v) <==> addon_slots(v) > 0,
        offers_vehicle(Command::PurchaseAddon, v) == offers_vehicle(
            Command::PurchaseAddon,
            StoredVehicle { addon: other_addon, ..v },
        ),
        offers_vehicle(Command::Attach, v) <==> v.addon is None && addon_slots(v) > 0,
        offers_vehicle(Command::Detach, v) <==> v.addon is Some,
        offers_vehicle(Command::Detach, v) == offers_vehicle(
            Command::Detach,
            StoredVehicle { addons: Some(0), ..v },
        ),
        offers_vehicle(Command::View, v),
        offers_vehicle(Command::PurchaseVehicle, v),
        offers_vehicle(Command::Spawn, v),
{
}

/// Which shop assets are offered: for a vehicle purchase exactly the
/// assets that fit no vehicle, for an addon exactly those made for the
/// chosen vehicle.
pub proof fn law_assets_offered(a: ShopAsset, vehicle: u128)
    ensures
        offers_asset(ShopFilter::Vehicles, a) <==> a.base is None,
        offers_asset(ShopFilter::AddonsFor(vehicle), a) <==> a.base == Some(vehicle),
        !(offers_asset(ShopFilter::Vehicles, a) && offers_asset(ShopFilter::AddonsFor(vehicle), a)),
{
}

/// Spawning where everything succeeds: a free vehicle is spawned without a
/// question and recorded at no cost; a paid one is spawned after the member
/// confirms and recorded at its price. Any missing information, failure or
/// refusal stops before anything is recorded.
pub proof fn law_spawn_flow(cost: i32, result: SpawnResult, found: bool, class: bool, state: bool)
    requires
        cost != 0,
    ensures
        ({
            let (s1, c1, a1) = spawn_step_spec(SpawnStage::FetchingInfo, 0, SpawnEvent::Info(true, true, true));
            let (s2, c2, a2) = spawn_step_spec(s1, c1, SpawnEvent::Priced(Some(0)));
            let (s3, c3, a3) = spawn_step_spec(s2, c2, SpawnEvent::Spawned(Some(SpawnResult::Yes)));
            &&& a1 == SpawnAction::FetchAsset
            &&& a2 == SpawnAction::RequestSpawn
            &&& a3 == SpawnAction::Record(0)
            &&& s3 == SpawnStage::Done
        }),
        ({
            let (s2, c2, a2) = spawn_step_spec(SpawnStage::Pricing, 0, SpawnEvent::Priced(Some(cost)));
            let (s3, c3, a3) = spawn_step_spec(s2, c2, SpawnEvent::Confirmed(crate::interaction::Confirmation::Yes));
            let (s4, c4, a4) = spawn_step_spec(s3, c3, SpawnEvent::Spawned(Some(SpawnResult::Yes)));
            &&& a2 == SpawnAction::Confirm(cost)
            &&& a3 == SpawnAction::RequestSpawn
            &&& a4 == SpawnAction::Record(cost)
            &&& spawn_step_spec(s2, c2, SpawnEvent::Confirmed(crate::interaction::Confirmation::No)).2
                == SpawnAction::Stop(SpawnStop::Cancelled)
        }),
        !(found && class && state) ==> spawn_step_spec(
            SpawnStage::FetchingInfo,
            0,
            SpawnEvent::Info(found, class, state),
        ).2 is Stop,
        result != SpawnResult::Yes ==> spawn_step_spec(SpawnStage::Spawning, cost, SpawnEvent::Spawned(Some(result))).2
            == SpawnAction::Stop(SpawnStop::Refused(result)),
        spawn_step_spec(SpawnStage::Spawning, cost, SpawnEvent::Spawned(None)).2 == SpawnAction::Stop(
            SpawnStop::RequestFailed,
        ),
        spawn_step_spec(SpawnStage::Pricing, 0, SpawnEvent::Priced(None)).2 == SpawnAction::Stop(
            SpawnStop::AssetFailed,
        ),
{
}

/// A purchase is of the kind of the last option named `vehicle` or
/// `addon`, and has no kind only when no option has either name.
pub proof fn law_purchase_kind(options: Seq<crate::interaction::CommandOption>)
    ensures
        purchase_kind_spec(options) is None <==> forall|i: int|
            0 <= i < options.len() ==> (#[trigger] options[i]).name@ != "vehicle"@ && options[i].name@
                != "addon"@,
        purchase_kind_spec(options) == Some(PurchaseKind::Vehicle) ==> exists|i: int|
            0 <= i < options.len() && (#[trigger] options[i]).name@ == "vehicle"@,
        purchase_kind_spec(options) == Some(PurchaseKind::Addon) ==> exists|i: int|
            0 <= i < options.len() && (#[trigger] options[i]).name@ == "addon"@,
        options.len() > 0 && options.last().name@ == "addon"@ ==> purchase_kind_spec(options) == Some(
            PurchaseKind::Addon,
        ),
    decreases options.len(),
{
    reveal_strlit("vehicle");
    reveal_strlit("addon");
    assert("vehicle"@.len() != "addon"@.len());
    if options.len() > 0 {
        let p = options.drop_last();
        law_purchase_kind(p);
        assert forall|i: int| 0 <= i < p.len() implies #[trigger] p[i] == options[i] by {}
        assert(options[options.len() - 1] == options.last());
        if purchase_kind_spec(options) is None {
            assert forall|i: int| 0 <= i < options.len() implies (#[trigger] options[i]).name@ != "vehicle"@
                && options[i].name@ != "addon"@ by {
                if i < p.len() {
                    assert(options[i] == p[i]);
                }
            }
        }
        if purchase_kind_spec(p) == Some(PurchaseKind::Vehicle) {
            let i = choose|i: int| 0 <= i < p.len() && (#[trigger] p[i]).name@ == "vehicle"@;
            assert(options[i] == p[i]);
        }
        if purchase_kind_spec(p) == Some(PurchaseKind::Addon) {
            let i = choose|i: int| 0 <= i < p.len() && (#[trigger] p[i]).name@ == "addon"@;
            assert(options[i] == p[i]);
        }
        if forall|i: int| 0 <= i < options.len() ==> (#[trigger] options[i]).name@ != "vehicle"@ && options[i].name@
            != "addon"@ {
            assert forall|i: int| 0 <= i < p.len() implies (#[trigger] p[i]).name@ != "vehicle"@ && p[i].name@
                != "addon"@ by {
                assert(options[i] == p[i]);
            }
        }
    }
}

/// The maps priced as developed include Altis, Stratis and Malden; the
/// remote ones include Tanoa and Takistan.
pub proof fn law_map_tiers()
    ensures
        developed_maps().contains("Altis"@),
        developed_maps().contains("Stratis"@),
        developed_maps().contains("Malden"@),
        remote_maps().contains("Tanoa"@),
        remote_maps().contains("takistan"@),
{
    assert(developed_maps()[0] == "Altis"@);
    assert(developed_maps()[1] == "Stratis"@);
    assert(developed_maps()[2] == "Malden"@);
    assert(remote_maps()[2] == "Tanoa"@);
    assert(remote_maps()[18] == "takistan"@);
}

} // verus!
