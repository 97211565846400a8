use synixe_bot::garage::{
    retrieve_failed_log, spawn_info_refusal, spawned_audit, transport_failed_log,
    transport_prompt,
};
use synixe_bot::garage::{
    garage_view, map_tier, offered_assets, offered_vehicles, purchase_audit, purchase_kind,
    purchase_order, spawn_needs_confirmation, spawn_refusal, vehicle_choice, vehicle_offered,
    AssetFilter, Command, MapTier, PurchaseKind, ShopAsset, ShopFilter, SpawnResult,
    StoredVehicle, VehicleValueType,
};
use synixe_bot::interaction::{CommandOption, OptionValue};

fn vehicle(name: &str, addon: Option<&str>, addons: Option<i32>, stored: bool) -> StoredVehicle {
    StoredVehicle {
        id: format!("id-{name}"),
        name: name.into(),
        plate: format!("P-{name}"),
        stored,
        addon: addon.map(Into::into),
        addons,
    }
}

#[test]
fn from_str() {
    assert_eq!(Command::from_str("view"), Some(Command::View));
    assert_eq!(Command::from_str("purchase_vehicle"), Some(Command::PurchaseVehicle));
    assert_eq!(Command::from_str("purchase_addon"), Some(Command::PurchaseAddon));
    assert_eq!(Command::from_str("attach"), Some(Command::Attach));
    assert_eq!(Command::from_str("detach"), Some(Command::Detach));
    assert_eq!(Command::from_str("spawn"), Some(Command::Spawn));
    assert_eq!(Command::from_str("Spawn"), None);
    assert_eq!(Command::from_str(""), None);
}

#[test]
fn search() {
    assert_eq!(AssetFilter::Vehicle(Some("hunter".into())).search(), Some("hunter".to_string()));
    assert_eq!(AssetFilter::Addon(None).search(), None);
    assert_eq!(AssetFilter::Addon(Some("x".into())).search(), Some("x".to_string()));
}

#[test]
fn vehicles_offered_per_command() {
    let free = vehicle("a", None, Some(1), true);
    let full = vehicle("b", Some("rack"), Some(1), true);
    let none = vehicle("c", None, None, false);
    assert!(vehicle_offered(Command::Attach, &free));
    assert!(!vehicle_offered(Command::Attach, &full));
    assert!(!vehicle_offered(Command::Attach, &none));
    assert!(vehicle_offered(Command::Detach, &full));
    assert!(!vehicle_offered(Command::Detach, &free));
    assert!(!vehicle_offered(Command::PurchaseAddon, &none));
    assert!(vehicle_offered(Command::Spawn, &none));
    let names: Vec<String> = offered_vehicles(vec![free, full, none], Command::Detach)
        .into_iter()
        .map(|v| v.name)
        .collect();
    assert_eq!(names, vec!["b"]);
    let c = vehicle_choice(&vehicle("Hunter", None, None, true), VehicleValueType::Plate);
    assert_eq!((c.label.as_str(), c.value.as_str()), ("Hunter - P-Hunter", "P-Hunter"));
    let c = vehicle_choice(&vehicle("Hunter", None, None, true), VehicleValueType::Id);
    assert_eq!(c.value, "id-Hunter");
}

#[test]
fn shop_filters() {
    let assets = vec![
        ShopAsset { id: "1".into(), name: "Car".into(), cost: 10, base: None },
        ShopAsset { id: "2".into(), name: "Rack".into(), cost: 5, base: Some(7) },
        ShopAsset { id: "3".into(), name: "Tow".into(), cost: 5, base: Some(8) },
    ];
    let v: Vec<String> = offered_assets(assets, ShopFilter::AddonsFor(7)).into_iter().map(|a| a.id).collect();
    assert_eq!(v, vec!["2"]);
    let assets = vec![ShopAsset { id: "1".into(), name: "Car".into(), cost: 10, base: None }];
    assert_eq!(offered_assets(assets, ShopFilter::Vehicles).len(), 1);
}

#[test]
fn garage_listing() {
    assert_eq!(garage_view(&vec![]), "No vehicle assests found");
    let v = vec![vehicle("Hunter", None, None, true), vehicle("Ifrit", None, None, false)];
    assert_eq!(
        garage_view(&v),
        "**Vehicle Assests**\n\n**Hunter**\nPlate: P-Hunter\nIn garage\n\n**Ifrit**\nPlate: P-Ifrit\nOut in the field\n\n"
    );
}

#[test]
fn spawning() {
    assert_eq!(spawn_refusal(SpawnResult::Yes), None);
    assert_eq!(spawn_refusal(SpawnResult::AreaBlocked), Some("Area blocked"));
    assert_eq!(spawn_refusal(SpawnResult::NoPlayers), Some("No players online"));
    assert_eq!(spawn_refusal(SpawnResult::NoSpawnArea), Some("No spawn area for this type of vehicle"));
    assert_eq!(spawn_refusal(SpawnResult::NoPlayersNear), Some("Unable to spawn vehicle"));
    assert!(spawn_needs_confirmation(100));
    assert!(!spawn_needs_confirmation(0));
}

#[test]
fn map_tiers() {
    assert_eq!(map_tier("Altis"), MapTier::Developed);
    assert_eq!(map_tier("Tanoa"), MapTier::Remote);
    assert_eq!(map_tier("altis"), MapTier::Standard);
    assert_eq!(map_tier("pja308"), MapTier::Developed);
}

fn text(name: &str, value: &str) -> CommandOption {
    CommandOption { name: name.into(), value: OptionValue::Text(value.into()) }
}

#[test]
fn purchases_read() {
    let id = "67E55044-10B1-426F-9247-BB680E5FE0C8";
    let vehicle_order = purchase_order(&vec![text("vehicle", id), text("color", "red")]).expect("valid");
    assert_eq!(vehicle_order.0, PurchaseKind::Vehicle);
    assert_eq!(vehicle_order.1, "67e55044-10b1-426f-9247-bb680e5fe0c8");
    assert_eq!(vehicle_order.2, None);
    assert_eq!(purchase_audit(&vehicle_order, "ABC-123", 5), "Vehicle `ABC-123` purchased by <@5>");

    let addon = purchase_order(&vec![text("vehicle", "car-1"), text("addon", id)]).expect("valid");
    assert_eq!(addon.0, PurchaseKind::Addon);
    assert_eq!(addon.2, Some("car-1".to_string()));
    assert_eq!(
        purchase_audit(&addon, "", 9),
        "Addon `67e55044-10b1-426f-9247-bb680e5fe0c8` purchased for `car-1` by <@9>"
    );

    assert_eq!(purchase_order(&vec![]), Err("Required option not provided: vehicle or addon".to_string()));
    assert_eq!(purchase_order(&vec![text("vehicle", "nope")]), Err("Invalid vehicle or addon UUID".to_string()));
    assert_eq!(purchase_order(&vec![text("addon", id)]), Err("Required option not provided: vehicle".to_string()));
    assert_eq!(purchase_kind(&vec![text("addon", "x"), text("vehicle", "y")]), Some(PurchaseKind::Vehicle));
    assert_eq!(purchase_kind(&vec![text("color", "x")]), None);
}

#[test]
fn spawn_texts() {
    assert_eq!(spawn_info_refusal(false, false, false), Some("Vehicle not found"));
    assert_eq!(spawn_info_refusal(true, false, true), Some("Vehicle class not found"));
    assert_eq!(spawn_info_refusal(true, true, false), Some("Vehicle state not found"));
    assert_eq!(spawn_info_refusal(true, true, true), None);
    assert_eq!(transport_prompt("$200"), "Transport Cost: $200\n Are you sure you want to spawn this vehicle?");
    assert_eq!(spawned_audit("ABC", 3), "Vehicle `ABC` spawned by <@3>");
    assert_eq!(retrieve_failed_log("ABC", "db"), "Failed to store retrieve action on vehicle ABC: db");
    assert_eq!(transport_failed_log("ABC", 200, "db"), "Failed to log transport cost on vehicle ABC for 200: db");
}
