use cyan_fleet_control::engine::Engine;
use cyan_fleet_control::message_handler::{Message, Reply, Request};
use cyan_fleet_control::models::{
    Ship, ShipCargo, ShipFuel, ShipNav, ShipNavRoute, ShipNavRouteWaypoint, ShipNavStatus,
};
use cyan_fleet_control::AppData;

fn ship(symbol: &str, system: &str) -> Ship {
    let end = ShipNavRouteWaypoint { symbol: format!("{}1", system), kind: "Planet".to_string() };
    Ship {
        symbol: symbol.to_string(),
        nav: ShipNav {
            system_symbol: system.to_string(),
            waypoint_symbol: format!("{}1", system),
            route: ShipNavRoute {
                destination: end.clone(),
                departure: end,
                departure_time: "2023-05-01".to_string(),
                arrival: "2023-05-01".to_string(),
            },
            status: ShipNavStatus::InOrbit,
        },
        cargo: ShipCargo { capacity: 10, units: 0, inventory: vec![] },
        fuel: ShipFuel { current: 5, capacity: 10 },
    }
}

#[test]
fn a_new_engine_executes_nothing() {
    assert_eq!(Engine::new().executing(), None);
}

#[test]
fn a_turn_starts_with_its_line_and_its_requests() {
    let mut engine = Engine::new();
    let mut data = AppData::new("a token".to_string());
    assert_eq!(engine.start(&mut data), Some(vec![Request::Fleet]));
    assert_eq!(engine.executing(), Some(Message::GetFleet));
    assert_eq!(data.log(), &vec!["Handling message: GetFleet".to_string()]);
    assert!(data.ships().is_empty());
}

#[test]
fn no_turn_starts_while_one_is_under_way() {
    let mut engine = Engine::new();
    let mut data = AppData::new("a token".to_string());
    assert!(engine.start(&mut data).is_some());
    assert_eq!(engine.start(&mut data), None);
    assert_eq!(engine.start(&mut data), None);
    assert_eq!(engine.executing(), Some(Message::GetFleet));
    assert_eq!(data.log().len(), 1);
    assert!(engine.complete(&mut data, vec![Reply::Failed]));
    assert_eq!(engine.executing(), None);
    assert_eq!(engine.start(&mut data), Some(vec![]));
    assert_eq!(engine.executing(), Some(Message::GetWaypoints));
}

#[test]
fn nothing_completes_where_no_turn_is_under_way() {
    let mut engine = Engine::new();
    let mut data = AppData::new("a token".to_string());
    assert!(!engine.complete(&mut data, vec![Reply::Fleet(vec![ship("S0", "X1-A")])]));
    assert!(data.ships().is_empty());
    assert!(data.log().is_empty());
    assert_eq!(engine.start(&mut data), Some(vec![Request::Fleet]));
}

#[test]
fn a_failed_turn_does_not_halt_the_engine() {
    let mut engine = Engine::new();
    let mut data = AppData::new("a token".to_string());
    let mut kinds: Vec<Message> = Vec::new();
    for _ in 0..8 {
        assert!(engine.start(&mut data).is_some());
        kinds.extend(engine.executing());
        assert!(engine.complete(&mut data, vec![]));
    }
    let round = Message::all();
    assert_eq!(kinds[..4], round[..]);
    assert_eq!(kinds[4..], round[..]);
    assert_eq!(
        data.log(),
        &vec![
            "Handling message: GetFleet".to_string(),
            "Failed to update fleet".to_string(),
            "Handling message: GetWaypoints".to_string(),
            "Cannot fetch waypoints with 0 ships. Fetch ships first".to_string(),
            "Handling message: GetContracts".to_string(),
            "Failed to get contracts".to_string(),
            "Handling message: GetShipyards".to_string(),
            "Handling message: GetFleet".to_string(),
            "Failed to update fleet".to_string(),
            "Handling message: GetWaypoints".to_string(),
            "Cannot fetch waypoints with 0 ships. Fetch ships first".to_string(),
            "Handling message: GetContracts".to_string(),
            "Failed to get contracts".to_string(),
            "Handling message: GetShipyards".to_string(),
        ]
    );
}

#[test]
fn the_requests_of_a_turn_follow_from_the_turn_before() {
    let mut engine = Engine::new();
    let mut data = AppData::new("a token".to_string());
    assert_eq!(engine.start(&mut data), Some(vec![Request::Fleet]));
    let fleet = vec![ship("S0", "X1-A"), ship("S1", "X1-A"), ship("S2", "X1-B")];
    assert!(engine.complete(&mut data, vec![Reply::Fleet(fleet)]));
    assert_eq!(
        engine.start(&mut data),
        Some(vec![
            Request::Waypoints { system: "X1-A".to_string() },
            Request::Waypoints { system: "X1-B".to_string() },
        ])
    );
}
