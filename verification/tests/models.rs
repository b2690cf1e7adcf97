use cyan_fleet_control::models::{
    Contract, ContractDeliverGood, ContractPayment, ContractTerms, ShipCargo, TraitSymbol,
    Waypoint, WaypointTrait,
};

fn waypoint_with(traits: Vec<TraitSymbol>) -> Waypoint {
    Waypoint {
        symbol: "X1-A1".to_string(),
        system_symbol: "X1-A".to_string(),
        orbitals: vec![],
        traits: traits
            .into_iter()
            .map(|symbol| WaypointTrait { symbol, name: "a trait".to_string() })
            .collect(),
    }
}

fn contract(accepted: bool) -> Contract {
    Contract {
        id: "c1".to_string(),
        faction_symbol: "COSMIC".to_string(),
        kind: "Procurement".to_string(),
        terms: ContractTerms {
            deadline: "2023-06-01".to_string(),
            payment: ContractPayment { on_accepted: 100, on_fulfilled: 900 },
            deliver: None,
        },
        accepted,
        expiration: "2023-05-20".to_string(),
    }
}

#[test]
fn cargo_remaining_is_capacity_less_units() {
    let cargo = ShipCargo { capacity: 60, units: 15, inventory: vec![] };
    assert_eq!(cargo.remaining(), 45);
    assert!(cargo.has_room());
}

#[test]
fn a_full_hold_has_no_room() {
    let cargo = ShipCargo { capacity: 60, units: 60, inventory: vec![] };
    assert_eq!(cargo.remaining(), 0);
    assert!(!cargo.has_room());
}

#[test]
fn cargo_remaining_does_not_overflow() {
    let cargo = ShipCargo { capacity: i32::MAX, units: i32::MIN, inventory: vec![] };
    assert_eq!(cargo.remaining(), 4294967295);
    let cargo = ShipCargo { capacity: i32::MIN, units: i32::MAX, inventory: vec![] };
    assert_eq!(cargo.remaining(), -4294967295);
}

#[test]
fn payment_total_adds_both_parts() {
    let payment = ContractPayment { on_accepted: 100, on_fulfilled: 900 };
    assert_eq!(payment.total(), 1000);
}

#[test]
fn payment_total_does_not_overflow() {
    let payment = ContractPayment { on_accepted: i32::MAX, on_fulfilled: i32::MAX };
    assert_eq!(payment.total(), 4294967294);
}

#[test]
fn goods_remaining_is_required_less_fulfilled() {
    let good = ContractDeliverGood {
        trade_symbol: "IRON_ORE".to_string(),
        destination_symbol: "X1-A1".to_string(),
        units_required: 100,
        units_fulfilled: 40,
    };
    assert_eq!(good.remaining(), 60);
}

#[test]
fn only_an_open_contract_can_be_accepted() {
    assert!(contract(false).can_accept());
    assert!(!contract(true).can_accept());
}

#[test]
fn has_shipyard_looks_at_every_trait() {
    assert!(!waypoint_with(vec![]).has_shipyard());
    assert!(!waypoint_with(vec![TraitSymbol::Marketplace, TraitSymbol::Other]).has_shipyard());
    assert!(waypoint_with(vec![TraitSymbol::Shipyard]).has_shipyard());
    assert!(waypoint_with(vec![TraitSymbol::Marketplace, TraitSymbol::Shipyard]).has_shipyard());
    assert!(waypoint_with(vec![TraitSymbol::Shipyard, TraitSymbol::Other]).has_shipyard());
}

#[test]
fn trait_labels_name_the_kind_and_the_trait() {
    let label = |symbol: TraitSymbol| {
        WaypointTrait { symbol, name: "Orbital Works".to_string() }.label()
    };
    assert_eq!(label(TraitSymbol::Shipyard), Some("Shipyard: Orbital Works".to_string()));
    assert_eq!(label(TraitSymbol::TradingHub), Some("Trading hub: Orbital Works".to_string()));
    assert_eq!(label(TraitSymbol::Marketplace), Some("Marketplace: Orbital Works".to_string()));
    assert_eq!(label(TraitSymbol::BlackMarket), Some("Black market: Orbital Works".to_string()));
    assert_eq!(
        label(TraitSymbol::MineralDeposits),
        Some("Mineral deposits: Orbital Works".to_string())
    );
    assert_eq!(label(TraitSymbol::Other), None);
}
