use cyan_fleet_control::models::{
    Ship, ShipCargo, ShipFuel, ShipNav, ShipNavRoute, ShipNavRouteWaypoint, ShipNavStatus,
    TraitSymbol, Waypoint, WaypointTrait,
};
use cyan_fleet_control::resolver::{shipyards_of, system_of, systems_of};
use cyan_fleet_control::spacetraders::ShipWithNav;

fn ship_in(system: &str) -> ShipWithNav {
    let end = ShipNavRouteWaypoint { symbol: format!("{}1", system), kind: "Planet".to_string() };
    ShipWithNav::new(Ship {
        symbol: "SHIP-1".to_string(),
        nav: ShipNav {
            system_symbol: system.to_string(),
            waypoint_symbol: format!("{}1", system),
            route: ShipNavRoute {
                destination: end.clone(),
                departure: end,
                departure_time: "2023-05-01".to_string(),
                arrival: "2023-05-01".to_string(),
            },
            status: ShipNavStatus::Docked,
        },
        cargo: ShipCargo { capacity: 10, units: 0, inventory: vec![] },
        fuel: ShipFuel { current: 5, capacity: 10 },
    })
}

fn fleet_in(systems: &[&str]) -> Vec<ShipWithNav> {
    systems.iter().map(|system| ship_in(system)).collect()
}

fn waypoint(symbol: &str, traits: Vec<TraitSymbol>) -> Waypoint {
    Waypoint {
        symbol: symbol.to_string(),
        system_symbol: "X1-A".to_string(),
        orbitals: vec![],
        traits: traits
            .into_iter()
            .map(|symbol| WaypointTrait { symbol, name: "a trait".to_string() })
            .collect(),
    }
}

#[test]
fn ships_in_one_system_make_one_visible_system() {
    assert_eq!(systems_of(&fleet_in(&["X1-A", "X1-A", "X1-B"])), vec!["X1-A", "X1-B"]);
}

#[test]
fn no_ships_make_no_visible_system() {
    assert_eq!(systems_of(&fleet_in(&[])), Vec::<String>::new());
}

#[test]
fn one_ship_makes_one_visible_system() {
    assert_eq!(systems_of(&fleet_in(&["X1-A"])), vec!["X1-A"]);
}

#[test]
fn equal_systems_that_are_apart_stay_apart() {
    assert_eq!(systems_of(&fleet_in(&["X1-A", "X1-B", "X1-A"])), vec!["X1-A", "X1-B", "X1-A"]);
}

#[test]
fn a_long_run_collapses_to_one() {
    assert_eq!(
        systems_of(&fleet_in(&["X1-A", "X1-A", "X1-A", "X1-B", "X1-B", "X1-A", "X1-A"])),
        vec!["X1-A", "X1-B", "X1-A"]
    );
}

#[test]
fn shipyards_are_the_waypoints_with_the_trait() {
    let waypoints = vec![
        waypoint("X1-A1", vec![TraitSymbol::Marketplace]),
        waypoint("X1-A2", vec![TraitSymbol::Shipyard]),
        waypoint("X1-A3", vec![]),
        waypoint("X1-A4", vec![TraitSymbol::Other, TraitSymbol::Shipyard]),
    ];
    let yards: Vec<&str> =
        shipyards_of(&waypoints).into_iter().map(|yard| yard.symbol.as_str()).collect();
    assert_eq!(yards, vec!["X1-A2", "X1-A4"]);
}

#[test]
fn no_waypoints_make_no_shipyards() {
    assert!(shipyards_of(&vec![]).is_empty());
    assert!(shipyards_of(&vec![waypoint("X1-A1", vec![TraitSymbol::TradingHub])]).is_empty());
}

#[test]
fn the_system_stands_before_the_last_hyphen() {
    assert_eq!(system_of("X1-DF55-20250Z"), Some("X1-DF55".to_string()));
    assert_eq!(system_of("X1-A1"), Some("X1".to_string()));
}

#[test]
fn a_symbol_without_hyphen_names_no_system() {
    assert_eq!(system_of("X1"), None);
    assert_eq!(system_of(""), None);
}

#[test]
fn hyphens_at_the_ends_are_hyphens_too() {
    assert_eq!(system_of("-"), Some(String::new()));
    assert_eq!(system_of("X1-"), Some("X1".to_string()));
    assert_eq!(system_of("-X1"), Some(String::new()));
}

#[test]
fn the_system_of_a_symbol_with_wide_characters() {
    assert_eq!(system_of("Δ1-é5-ü"), Some("Δ1-é5".to_string()));
}
