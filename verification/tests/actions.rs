use cyan_fleet_control::models::{
    Contract, ContractPayment, ContractTerms, Ship, ShipCargo, ShipEngine, ShipFuel, ShipNav,
    ShipNavRoute, ShipNavRouteWaypoint, ShipNavStatus, ShipyardShip,
};
use cyan_fleet_control::spacetraders::{
    accept_request, Action, ShipWithNav, ShipyardShipWithWaypoint,
};

fn record(status: ShipNavStatus, destination: &str, capacity: i32, units: i32) -> ShipWithNav {
    let end = ShipNavRouteWaypoint { symbol: "X1-A1".to_string(), kind: "Planet".to_string() };
    ShipWithNav {
        ship: Ship {
            symbol: "SHIP-1".to_string(),
            nav: ShipNav {
                system_symbol: "X1-A".to_string(),
                waypoint_symbol: "X1-A1".to_string(),
                route: ShipNavRoute {
                    destination: end.clone(),
                    departure: end,
                    departure_time: "2023-05-01".to_string(),
                    arrival: "2023-05-01".to_string(),
                },
                status,
            },
            cargo: ShipCargo { capacity, units, inventory: vec![] },
            fuel: ShipFuel { current: 5, capacity: 10 },
        },
        destination: destination.to_string(),
    }
}

fn offer(kind: Option<&str>) -> ShipyardShipWithWaypoint {
    ShipyardShipWithWaypoint {
        ship: ShipyardShip {
            kind: kind.map(|k| k.to_string()),
            description: "a ship".to_string(),
            purchase_price: 1000,
            engine: ShipEngine { name: "Impulse".to_string(), condition: Some(100), speed: 2 },
            modules: vec![],
        },
        waypoint: "X1-A1".to_string(),
    }
}

fn contract(accepted: bool) -> Contract {
    Contract {
        id: "c1".to_string(),
        faction_symbol: "COSMIC".to_string(),
        kind: "Procurement".to_string(),
        terms: ContractTerms {
            deadline: "2023-06-01".to_string(),
            payment: ContractPayment { on_accepted: 100, on_fulfilled: 900 },
            deliver: None,
        },
        accepted,
        expiration: "2023-05-20".to_string(),
    }
}

#[test]
fn a_fetched_ship_has_no_destination() {
    let ship = record(ShipNavStatus::Docked, "", 10, 0).ship;
    let fresh = ShipWithNav::new(ship.clone());
    assert_eq!(fresh, ShipWithNav { ship, destination: String::new() });
    assert!(!fresh.can_begin_journey());
    assert_eq!(fresh.navigate_request(), None);
}

#[test]
fn a_ship_under_way_can_do_nothing() {
    let ship = record(ShipNavStatus::InTransit, "X1-A2", 10, 0);
    assert!(!ship.can_navigate());
    assert!(!ship.can_begin_journey());
    assert!(!ship.can_dock());
    assert!(!ship.can_extract());
    assert!(!ship.can_deliver());
    assert_eq!(ship.navigate_request(), None);
    assert_eq!(ship.dock_request(), None);
    assert_eq!(ship.extract_request(), None);
}

#[test]
fn a_ship_in_orbit_can_dock_and_leave() {
    let ship = record(ShipNavStatus::InOrbit, "X1-A2", 10, 0);
    assert!(ship.can_navigate());
    assert!(ship.can_begin_journey());
    assert!(ship.can_dock());
    assert!(!ship.can_extract());
    assert!(!ship.can_deliver());
    assert_eq!(ship.dock_request(), Some(Action::DockShip { ship_symbol: "SHIP-1".to_string() }));
    assert_eq!(
        ship.navigate_request(),
        Some(Action::NavigateShip {
            ship_symbol: "SHIP-1".to_string(),
            destination: "X1-A2".to_string()
        })
    );
    assert_eq!(ship.extract_request(), None);
}

#[test]
fn a_docked_ship_can_extract_deliver_and_leave() {
    let ship = record(ShipNavStatus::Docked, "X1-A2", 10, 9);
    assert!(ship.can_navigate());
    assert!(ship.can_begin_journey());
    assert!(!ship.can_dock());
    assert!(ship.can_extract());
    assert!(ship.can_deliver());
    assert_eq!(
        ship.extract_request(),
        Some(Action::ExtractResources { ship_symbol: "SHIP-1".to_string() })
    );
    assert_eq!(ship.dock_request(), None);
}

#[test]
fn a_docked_ship_with_a_full_hold_cannot_extract() {
    let ship = record(ShipNavStatus::Docked, "", 10, 10);
    assert!(!ship.can_extract());
    assert!(ship.can_deliver());
    assert_eq!(ship.extract_request(), None);
    let ship = record(ShipNavStatus::Docked, "", 10, 11);
    assert!(!ship.can_extract());
}

#[test]
fn no_journey_begins_where_the_ship_already_is() {
    let ship = record(ShipNavStatus::Docked, "X1-A1", 10, 0);
    assert!(ship.can_navigate());
    assert!(!ship.can_begin_journey());
    assert_eq!(ship.navigate_request(), None);
}

#[test]
fn no_journey_begins_without_a_destination() {
    let ship = record(ShipNavStatus::InOrbit, "", 10, 0);
    assert!(ship.can_navigate());
    assert!(!ship.can_begin_journey());
    assert_eq!(ship.navigate_request(), None);
}

#[test]
fn an_offer_is_bought_at_its_own_waypoint() {
    assert_eq!(
        offer(Some("SHIP_PROBE")).purchase_request(),
        Some(Action::PurchaseShip {
            ship_type: "SHIP_PROBE".to_string(),
            waypoint_symbol: "X1-A1".to_string()
        })
    );
}

#[test]
fn an_offer_without_a_type_cannot_be_bought() {
    assert_eq!(offer(None).purchase_request(), None);
}

#[test]
fn only_an_open_contract_is_accepted() {
    assert_eq!(
        accept_request(&contract(false)),
        Some(Action::AcceptContract { contract_id: "c1".to_string() })
    );
    assert_eq!(accept_request(&contract(true)), None);
}
