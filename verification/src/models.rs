//! Snapshots of the remote records, held as plain values: what the fetch
//! operations bring back and what the store keeps. Each record has a view
//! that holds its texts as sequences of characters and its lists as
//! sequences.

use vstd::prelude::*;

verus! {

/// What a list of records stands for: the view of each, in the same order.
pub open spec fn views<T: View>(items: Seq<T>) -> Seq<T::V> {
    items.map_values(|item: T| item@)
}

/// What a list of borrowed records stands for: the view of each, in the same
/// order.
pub open spec fn borrowed_views<T: View>(items: Seq<&T>) -> Seq<T::V> {
    items.map_values(|item: &T| item@)
}

/// What a record that may be missing stands for.
pub open spec fn optional_view<T: View>(item: Option<T>) -> Option<T::V> {
    match item {
        Some(item) => Some(item@),
        None => None,
    }
}

/// What a list of records that may be missing stands for.
pub open spec fn optional_views<T: View>(items: Option<Vec<T>>) -> Option<Seq<T::V>> {
    match items {
        Some(items) => Some(views(items@)),
        None => None,
    }
}

/// Where a ship is in its journey.
#[derive(Debug, Clone, Copy, PartialEq, Eq, Structural)]
pub enum ShipNavStatus {
    InTransit,
    InOrbit,
    Docked,
}

/// One end of a route.
#[derive(Debug, Clone, PartialEq, Eq)]
pub struct ShipNavRouteWaypoint {
    pub symbol: String,
    pub kind: String,
}

/// What a [`ShipNavRouteWaypoint`] stands for.
pub struct ShipNavRouteWaypointView {
    pub symbol: Seq<char>,
    pub kind: Seq<char>,
}

impl View for ShipNavRouteWaypoint {
    type V = ShipNavRouteWaypointView;

    open spec fn view(&self) -> ShipNavRouteWaypointView {
        ShipNavRouteWaypointView { symbol: self.symbol@, kind: self.kind@ }
    }
}

/// The route a ship last took or is taking.
#[derive(Debug, Clone, PartialEq, Eq)]
pub struct ShipNavRoute {
    pub destination: ShipNavRouteWaypoint,
    pub departure: ShipNavRouteWaypoint,
    pub departure_time: String,
    pub arrival: String,
}

/// What a [`ShipNavRoute`] stands for.
pub struct ShipNavRouteView {
    pub destination: ShipNavRouteWaypointView,
    pub departure: ShipNavRouteWaypointView,
    pub departure_time: Seq<char>,
    pub arrival: Seq<char>,
}

impl View for ShipNavRoute {
    type V = ShipNavRouteView;

    open spec fn view(&self) -> ShipNavRouteView {
        ShipNavRouteView {
            destination: self.destination@,
            departure: self.departure@,
            departure_time: self.departure_time@,
            arrival: self.arrival@,
        }
    }
}

/// Where a ship is.
#[derive(Debug, Clone, PartialEq, Eq)]
pub struct ShipNav {
    pub system_symbol: String,
    pub waypoint_symbol: String,
    pub route: ShipNavRoute,
    pub status: ShipNavStatus,
}

/// What a [`ShipNav`] stands for.
pub struct ShipNavView {
    pub system_symbol: Seq<char>,
    pub waypoint_symbol: Seq<char>,
    pub route: ShipNavRouteView,
    pub status: ShipNavStatus,
}

impl View for ShipNav {
    type V = ShipNavView;

    open spec fn view(&self) -> ShipNavView {
        ShipNavView {
            system_symbol: self.system_symbol@,
            waypoint_symbol: self.waypoint_symbol@,
            route: self.route@,
            status: self.status,
        }
    }
}

/// One kind of goods in a hold.
#[derive(Debug, Clone, PartialEq, Eq)]
pub struct ShipCargoItem {
    pub name: String,
    pub units: i32,
}

/// What a [`ShipCargoItem`] stands for.
pub struct ShipCargoItemView {
    pub name: Seq<char>,
    pub units: i32,
}

impl View for ShipCargoItem {
    type V = ShipCargoItemView;

    open spec fn view(&self) -> ShipCargoItemView {
        ShipCargoItemView { name: self.name@, units: self.units }
    }
}

/// The hold of a ship.
#[derive(Debug, Clone, PartialEq, Eq)]
pub struct ShipCargo {
    pub capacity: i32,
    pub units: i32,
    pub inventory: Vec<ShipCargoItem>,
}

/// What a [`ShipCargo`] stands for.
pub struct ShipCargoView {
    pub capacity: i32,
    pub units: i32,
    pub inventory: Seq<ShipCargoItemView>,
}

impl View for ShipCargo {
    type V = ShipCargoView;

    open spec fn view(&self) -> ShipCargoView {
        ShipCargoView {
            capacity: self.capacity,
            units: self.units,
            inventory: views(self.inventory@),
        }
    }
}

impl ShipCargoView {
    /// The space that is left: capacity less the units held.
    pub open spec fn remaining(self) -> int {
        self.capacity - self.units
    }

    /// Whether the hold can take more.
    pub open spec fn has_room(self) -> bool {
        self.capacity > self.units
    }
}

impl ShipCargo {
    /// The space that is left: capacity less the units held. The difference of
    /// two 32-bit numbers always fits the result.
    pub fn remaining(&self) -> (left: i64)
        ensures
            left == self@.remaining(),
    {
        self.capacity as i64 - self.units as i64
    }

    /// Whether the hold can take more.
    pub fn has_room(&self) -> (room: bool)
        ensures
            room == self@.has_room(),
    {
        self.capacity > self.units
    }
}

/// The tank of a ship.
#[derive(Debug, Clone, Copy, PartialEq, Eq, Structural)]
pub struct ShipFuel {
    pub current: i32,
    pub capacity: i32,
}

/// A ship of the fleet, as the remote side last reported it.
#[derive(Debug, Clone, PartialEq, Eq)]
pub struct Ship {
    pub symbol: String,
    pub nav: ShipNav,
    pub cargo: ShipCargo,
    pub fuel: ShipFuel,
}

/// What a [`Ship`] stands for.
pub struct ShipView {
    pub symbol: Seq<char>,
    pub nav: ShipNavView,
    pub cargo: ShipCargoView,
    pub fuel: ShipFuel,
}

impl View for Ship {
    type V = ShipView;

    open spec fn view(&self) -> ShipView {
        ShipView { symbol: self.symbol@, nav: self.nav@, cargo: self.cargo@, fuel: self.fuel }
    }
}

/// What a waypoint offers, as far as the dashboard tells the kinds apart.
#[derive(Debug, Clone, Copy, PartialEq, Eq, Structural)]
pub enum TraitSymbol {
    Shipyard,
    TradingHub,
    Marketplace,
    BlackMarket,
    MineralDeposits,
    Other,
}

impl TraitSymbol {
    /// The words that the dashboard puts before the name of a trait of this
    /// kind; `None` for a kind that it does not show.
    pub open spec fn heading(self) -> Option<Seq<char>> {
        match self {
            TraitSymbol::Shipyard => Some("Shipyard: "@),
            TraitSymbol::TradingHub => Some("Trading hub: "@),
            TraitSymbol::Marketplace => Some("Marketplace: "@),
            TraitSymbol::BlackMarket => Some("Black market: "@),
            TraitSymbol::MineralDeposits => Some("Mineral deposits: "@),
            TraitSymbol::Other => None,
        }
    }
}

/// One trait of a waypoint.
#[derive(Debug, Clone, PartialEq, Eq)]
pub struct WaypointTrait {
    pub symbol: TraitSymbol,
    pub name: String,
}

/// What a [`WaypointTrait`] stands for.
pub struct WaypointTraitView {
    pub symbol: TraitSymbol,
    pub name: Seq<char>,
}

impl View for WaypointTrait {
    type V = WaypointTraitView;

    open spec fn view(&self) -> WaypointTraitView {
        WaypointTraitView { symbol: self.symbol, name: self.name@ }
    }
}

impl WaypointTraitView {
    /// The line that the dashboard shows for this trait: the heading of its
    /// kind and then its name; `None` for a kind that it does not show.
    pub open spec fn label(self) -> Option<Seq<char>> {
        match self.symbol.heading() {
            Some(heading) => Some(heading + self.name),
            None => None,
        }
    }
}

impl WaypointTrait {
    /// The line that the dashboard shows for this trait: see
    /// [`WaypointTraitView::label`].
    pub fn label(&self) -> (line: Option<String>)
        ensures
            optional_view(line) == self@.label(),
    {
        let heading = match self.symbol {
            TraitSymbol::Shipyard => "Shipyard: ",
            TraitSymbol::TradingHub => "Trading hub: ",
            TraitSymbol::Marketplace => "Marketplace: ",
            TraitSymbol::BlackMarket => "Black market: ",
            TraitSymbol::MineralDeposits => "Mineral deposits: ",
            TraitSymbol::Other => {
                return None;
            },
        };
        Some(String::from_str(heading).concat(self.name.as_str()))
    }
}

/// A location within a star system.
#[derive(Debug, Clone, PartialEq, Eq)]
pub struct Waypoint {
    pub symbol: String,
    pub system_symbol: String,
    pub orbitals: Vec<String>,
    pub traits: Vec<WaypointTrait>,
}

/// What a [`Waypoint`] stands for.
pub struct WaypointView {
    pub symbol: Seq<char>,
    pub system_symbol: Seq<char>,
    pub orbitals: Seq<Seq<char>>,
    pub traits: Seq<WaypointTraitView>,
}

impl View for Waypoint {
    type V = WaypointView;

    open spec fn view(&self) -> WaypointView {
        WaypointView {
            symbol: self.symbol@,
            system_symbol: self.system_symbol@,
            orbitals: views(self.orbitals@),
            traits: views(self.traits@),
        }
    }
}

impl WaypointView {
    /// Whether one of the waypoint's traits is a shipyard.
    pub open spec fn has_shipyard(self) -> bool {
        exists|i: int|
            0 <= i < self.traits.len() && (#[trigger] self.traits[i]).symbol
                == TraitSymbol::Shipyard
    }
}

impl Waypoint {
    /// Whether one of the waypoint's traits is a shipyard.
    pub fn has_shipyard(&self) -> (found: bool)
        ensures
            found == self@.has_shipyard(),
    {
        let mut i: usize = 0;
        while i < self.traits.len()
            invariant
                i <= self.traits.len(),
                forall|j: int|
                    0 <= j < i ==> (#[trigger] self@.traits[j]).symbol != TraitSymbol::Shipyard,
            decreases self.traits.len() - i,
        {
            assert(self@.traits[i as int] == self.traits@[i as int]@);
            if self.traits[i].symbol == TraitSymbol::Shipyard {
                return true;
            }
            i = i + 1;
        }
        false
    }
}

/// What a contract pays.
#[derive(Debug, Clone, Copy, PartialEq, Eq, Structural)]
pub struct ContractPayment {
    pub on_accepted: i32,
    pub on_fulfilled: i32,
}

impl ContractPayment {
    /// Both payments together.
    pub open spec fn spec_total(&self) -> int {
        self.on_fulfilled + self.on_accepted
    }

    /// Both payments together. The sum of two 32-bit numbers always fits the
    /// result.
    pub fn total(&self) -> (sum: i64)
        ensures
            sum == self.spec_total(),
    {
        self.on_fulfilled as i64 + self.on_accepted as i64
    }
}

/// Goods that a contract asks for.
#[derive(Debug, Clone, PartialEq, Eq)]
pub struct ContractDeliverGood {
    pub trade_symbol: String,
    pub destination_symbol: String,
    pub units_required: i32,
    pub units_fulfilled: i32,
}

/// What a [`ContractDeliverGood`] stands for.
pub struct ContractDeliverGoodView {
    pub trade_symbol: Seq<char>,
    pub destination_symbol: Seq<char>,
    pub units_required: i32,
    pub units_fulfilled: i32,
}

impl View for ContractDeliverGood {
    type V = ContractDeliverGoodView;

    open spec fn view(&self) -> ContractDeliverGoodView {
        ContractDeliverGoodView {
            trade_symbol: self.trade_symbol@,
            destination_symbol: self.destination_symbol@,
            units_required: self.units_required,
            units_fulfilled: self.units_fulfilled,
        }
    }
}

impl ContractDeliverGoodView {
    /// The units still owed: those required less those delivered.
    pub open spec fn remaining(self) -> int {
        self.units_required - self.units_fulfilled
    }
}

impl ContractDeliverGood {
    /// The units still owed: those required less those delivered. The
    /// difference of two 32-bit numbers always fits the result.
    pub fn remaining(&self) -> (left: i64)
        ensures
            left == self@.remaining(),
    {
        self.units_required as i64 - self.units_fulfilled as i64
    }
}

/// The terms of a contract.
#[derive(Debug, Clone, PartialEq, Eq)]
pub struct ContractTerms {
    pub deadline: String,
    pub payment: ContractPayment,
    pub deliver: Option<Vec<ContractDeliverGood>>,
}

/// What [`ContractTerms`] stand for.
pub struct ContractTermsView {
    pub deadline: Seq<char>,
    pub payment: ContractPayment,
    pub deliver: Option<Seq<ContractDeliverGoodView>>,
}

impl View for ContractTerms {
    type V = ContractTermsView;

    open spec fn view(&self) -> ContractTermsView {
        ContractTermsView {
            deadline: self.deadline@,
            payment: self.payment,
            deliver: optional_views(self.deliver),
        }
    }
}

/// A delivery obligation.
#[derive(Debug, Clone, PartialEq, Eq)]
pub struct Contract {
    pub id: String,
    pub faction_symbol: String,
    pub kind: String,
    pub terms: ContractTerms,
    pub accepted: bool,
    pub expiration: String,
}

/// What a [`Contract`] stands for.
pub struct ContractView {
    pub id: Seq<char>,
    pub faction_symbol: Seq<char>,
    pub kind: Seq<char>,
    pub terms: ContractTermsView,
    pub accepted: bool,
    pub expiration: Seq<char>,
}

impl View for Contract {
    type V = ContractView;

    open spec fn view(&self) -> ContractView {
        ContractView {
            id: self.id@,
            faction_symbol: self.faction_symbol@,
            kind: self.kind@,
            terms: self.terms@,
            accepted: self.accepted,
            expiration: self.expiration@,
        }
    }
}

impl ContractView {
    /// Whether the contract can still be accepted: it has not been yet.
    pub open spec fn can_accept(self) -> bool {
        !self.accepted
    }
}

impl Contract {
    /// Whether the contract can still be accepted: it has not been yet.
    pub fn can_accept(&self) -> (open: bool)
        ensures
            open == self@.can_accept(),
    {
        !self.accepted
    }
}

/// The engine of a ship on offer.
#[derive(Debug, Clone, PartialEq, Eq)]
pub struct ShipEngine {
    pub name: String,
    pub condition: Option<i32>,
    pub speed: i32,
}

/// What a [`ShipEngine`] stands for.
pub struct ShipEngineView {
    pub name: Seq<char>,
    pub condition: Option<i32>,
    pub speed: i32,
}

impl View for ShipEngine {
    type V = ShipEngineView;

    open spec fn view(&self) -> ShipEngineView {
        ShipEngineView { name: self.name@, condition: self.condition, speed: self.speed }
    }
}

/// A module of a ship on offer.
#[derive(Debug, Clone, PartialEq, Eq)]
pub struct ShipModule {
    pub name: String,
    pub capacity: Option<i32>,
    pub range: Option<i32>,
    pub requirements: String,
}

/// What a [`ShipModule`] stands for.
pub struct ShipModuleView {
    pub name: Seq<char>,
    pub capacity: Option<i32>,
    pub range: Option<i32>,
    pub requirements: Seq<char>,
}

impl View for ShipModule {
    type V = ShipModuleView;

    open spec fn view(&self) -> ShipModuleView {
        ShipModuleView {
            name: self.name@,
            capacity: self.capacity,
            range: self.range,
            requirements: self.requirements@,
        }
    }
}

/// A ship that a shipyard offers.
#[derive(Debug, Clone, PartialEq, Eq)]
pub struct ShipyardShip {
    pub kind: Option<String>,
    pub description: String,
    pub purchase_price: i32,
    pub engine: ShipEngine,
    pub modules: Vec<ShipModule>,
}

/// What a [`ShipyardShip`] stands for.
pub struct ShipyardShipView {
    pub kind: Option<Seq<char>>,
    pub description: Seq<char>,
    pub purchase_price: i32,
    pub engine: ShipEngineView,
    pub modules: Seq<ShipModuleView>,
}

impl View for ShipyardShip {
    type V = ShipyardShipView;

    open spec fn view(&self) -> ShipyardShipView {
        ShipyardShipView {
            kind: optional_view(self.kind),
            description: self.description@,
            purchase_price: self.purchase_price,
            engine: self.engine@,
            modules: views(self.modules@),
        }
    }
}

} // verus!
