//! The records that the dashboard adds to, and the rules by which it offers
//! an action on one of them.

use crate::models::{
    Contract, ContractView, Ship, ShipNavStatus, ShipView, ShipyardShip, ShipyardShipView,
};
use vstd::prelude::*;

verus! {

/// A call that the operator can trigger.
#[derive(Debug, Clone, PartialEq, Eq)]
pub enum Action {
    AcceptContract { contract_id: String },
    NavigateShip { ship_symbol: String, destination: String },
    DockShip { ship_symbol: String },
    ExtractResources { ship_symbol: String },
    DeliverContract { contract_id: String, ship_symbol: String, trade_symbol: String, units: i32 },
    PurchaseShip { ship_type: String, waypoint_symbol: String },
}

/// What an [`Action`] stands for.
pub enum ActionView {
    AcceptContract { contract_id: Seq<char> },
    NavigateShip { ship_symbol: Seq<char>, destination: Seq<char> },
    DockShip { ship_symbol: Seq<char> },
    ExtractResources { ship_symbol: Seq<char> },
    DeliverContract {
        contract_id: Seq<char>,
        ship_symbol: Seq<char>,
        trade_symbol: Seq<char>,
        units: i32,
    },
    PurchaseShip { ship_type: Seq<char>, waypoint_symbol: Seq<char> },
}

impl View for Action {
    type V = ActionView;

    open spec fn view(&self) -> ActionView {
        match *self {
            Action::AcceptContract { contract_id } => ActionView::AcceptContract {
                contract_id: contract_id@,
            },
            Action::NavigateShip { ship_symbol, destination } => ActionView::NavigateShip {
                ship_symbol: ship_symbol@,
                destination: destination@,
            },
            Action::DockShip { ship_symbol } => ActionView::DockShip { ship_symbol: ship_symbol@ },
            Action::ExtractResources { ship_symbol } => ActionView::ExtractResources {
                ship_symbol: ship_symbol@,
            },
            Action::DeliverContract {
                contract_id,
                ship_symbol,
                trade_symbol,
                units,
            } => ActionView::DeliverContract {
                contract_id: contract_id@,
                ship_symbol: ship_symbol@,
                trade_symbol: trade_symbol@,
                units,
            },
            Action::PurchaseShip { ship_type, waypoint_symbol } => ActionView::PurchaseShip {
                ship_type: ship_type@,
                waypoint_symbol: waypoint_symbol@,
            },
        }
    }
}

/// A ship of the fleet together with the destination that the operator has
/// selected for it; an empty destination means that none is selected.
#[derive(Debug, Clone, PartialEq, Eq)]
pub struct ShipWithNav {
    pub ship: Ship,
    pub destination: String,
}

/// What a [`ShipWithNav`] stands for.
pub struct ShipWithNavView {
    pub ship: ShipView,
    pub destination: Seq<char>,
}

impl View for ShipWithNav {
    type V = ShipWithNavView;

    open spec fn view(&self) -> ShipWithNavView {
        ShipWithNavView { ship: self.ship@, destination: self.destination@ }
    }
}

impl ShipWithNavView {
    /// A destination can be chosen unless the ship is under way.
    pub open spec fn can_navigate(self) -> bool {
        self.ship.nav.status != ShipNavStatus::InTransit
    }

    /// A journey can begin when a destination can be chosen, one is selected,
    /// and it is not where the ship already is.
    pub open spec fn can_begin_journey(self) -> bool {
        &&& self.can_navigate()
        &&& self.destination.len() > 0
        &&& self.destination != self.ship.nav.waypoint_symbol
    }

    /// A ship in orbit can dock.
    pub open spec fn can_dock(self) -> bool {
        self.ship.nav.status == ShipNavStatus::InOrbit
    }

    /// A docked ship with room in its hold can extract.
    pub open spec fn can_extract(self) -> bool {
        self.ship.nav.status == ShipNavStatus::Docked && self.ship.cargo.has_room()
    }

    /// A docked ship can deliver.
    pub open spec fn can_deliver(self) -> bool {
        self.ship.nav.status == ShipNavStatus::Docked
    }

    /// The navigation that the operator can trigger: to the selected
    /// destination, where a journey can begin.
    pub open spec fn navigate_request(self) -> Option<ActionView> {
        if self.can_begin_journey() {
            Some(
                ActionView::NavigateShip {
                    ship_symbol: self.ship.symbol,
                    destination: self.destination,
                },
            )
        } else {
            None
        }
    }

    /// The docking that the operator can trigger.
    pub open spec fn dock_request(self) -> Option<ActionView> {
        if self.can_dock() {
            Some(ActionView::DockShip { ship_symbol: self.ship.symbol })
        } else {
            None
        }
    }

    /// The extraction that the operator can trigger.
    pub open spec fn extract_request(self) -> Option<ActionView> {
        if self.can_extract() {
            Some(ActionView::ExtractResources { ship_symbol: self.ship.symbol })
        } else {
            None
        }
    }
}

/// Whether an action was built exactly where the rule allows one, and is the
/// one that the rule names.
pub open spec fn offers(built: Option<Action>, rule: Option<ActionView>) -> bool {
    match (built, rule) {
        (Some(action), Some(view)) => action@ == view,
        (None, None) => true,
        _ => false,
    }
}

impl ShipWithNav {
    /// A ship as it comes from a fleet fetch: with no destination selected.
    pub fn new(ship: Ship) -> (record: ShipWithNav)
        ensures
            record@ == (ShipWithNavView { ship: ship@, destination: Seq::<char>::empty() }),
    {
        ShipWithNav { ship, destination: String::new() }
    }

    /// See [`ShipWithNavView::can_navigate`].
    pub fn can_navigate(&self) -> (allowed: bool)
        ensures
            allowed == self@.can_navigate(),
    {
        match self.ship.nav.status {
            ShipNavStatus::InTransit => false,
            _ => true,
        }
    }

    /// See [`ShipWithNavView::can_begin_journey`].
    pub fn can_begin_journey(&self) -> (allowed: bool)
        ensures
            allowed == self@.can_begin_journey(),
    {
        self.can_navigate() && !self.destination.as_str().is_empty() && !(self.destination
            == self.ship.nav.waypoint_symbol)
    }

    /// See [`ShipWithNavView::can_dock`].
    pub fn can_dock(&self) -> (allowed: bool)
        ensures
            allowed == self@.can_dock(),
    {
        match self.ship.nav.status {
            ShipNavStatus::InOrbit => true,
            _ => false,
        }
    }

    /// See [`ShipWithNavView::can_extract`].
    pub fn can_extract(&self) -> (allowed: bool)
        ensures
            allowed == self@.can_extract(),
    {
        match self.ship.nav.status {
            ShipNavStatus::Docked => self.ship.cargo.has_room(),
            _ => false,
        }
    }

    /// See [`ShipWithNavView::can_deliver`].
    pub fn can_deliver(&self) -> (allowed: bool)
        ensures
            allowed == self@.can_deliver(),
    {
        match self.ship.nav.status {
            ShipNavStatus::Docked => true,
            _ => false,
        }
    }

    /// See [`ShipWithNavView::navigate_request`].
    pub fn navigate_request(&self) -> (request: Option<Action>)
        ensures
            offers(request, self@.navigate_request()),
    {
        if self.can_begin_journey() {
            Some(
                Action::NavigateShip {
                    ship_symbol: self.ship.symbol.clone(),
                    destination: self.destination.clone(),
                },
            )
        } else {
            None
        }
    }

    /// See [`ShipWithNavView::dock_request`].
    pub fn dock_request(&self) -> (request: Option<Action>)
        ensures
            offers(request, self@.dock_request()),
    {
        if self.can_dock() {
            Some(Action::DockShip { ship_symbol: self.ship.symbol.clone() })
        } else {
            None
        }
    }

    /// See [`ShipWithNavView::extract_request`].
    pub fn extract_request(&self) -> (request: Option<Action>)
        ensures
            offers(request, self@.extract_request()),
    {
        if self.can_extract() {
            Some(Action::ExtractResources { ship_symbol: self.ship.symbol.clone() })
        } else {
            None
        }
    }
}

/// A ship on offer together with the waypoint whose shipyard offers it.
#[derive(Debug, Clone, PartialEq, Eq)]
pub struct ShipyardShipWithWaypoint {
    pub ship: ShipyardShip,
    pub waypoint: String,
}

/// What a [`ShipyardShipWithWaypoint`] stands for.
pub struct ShipyardShipWithWaypointView {
    pub ship: ShipyardShipView,
    pub waypoint: Seq<char>,
}

impl View for ShipyardShipWithWaypoint {
    type V = ShipyardShipWithWaypointView;

    open spec fn view(&self) -> ShipyardShipWithWaypointView {
        ShipyardShipWithWaypointView { ship: self.ship@, waypoint: self.waypoint@ }
    }
}

impl ShipyardShipWithWaypointView {
    /// The purchase that the operator can trigger: of the offered type, at
    /// the waypoint of the offer. An offer that names no type cannot be bought.
    pub open spec fn purchase_request(self) -> Option<ActionView> {
        match self.ship.kind {
            Some(kind) => Some(
                ActionView::PurchaseShip { ship_type: kind, waypoint_symbol: self.waypoint },
            ),
            None => None,
        }
    }
}

impl ShipyardShipWithWaypoint {
    /// See [`ShipyardShipWithWaypointView::purchase_request`].
    pub fn purchase_request(&self) -> (request: Option<Action>)
        ensures
            offers(request, self@.purchase_request()),
    {
        match &self.ship.kind {
            Some(kind) => Some(
                Action::PurchaseShip {
                    ship_type: kind.clone(),
                    waypoint_symbol: self.waypoint.clone(),
                },
            ),
            None => None,
        }
    }
}

/// The acceptance that the operator can trigger on a contract: none once it
/// is accepted.
pub open spec fn spec_accept_request(contract: ContractView) -> Option<ActionView> {
    if contract.accepted {
        None
    } else {
        Some(ActionView::AcceptContract { contract_id: contract.id })
    }
}

/// See [`spec_accept_request`].
pub fn accept_request(contract: &Contract) -> (request: Option<Action>)
    ensures
        offers(request, spec_accept_request(contract@)),
{
    if contract.can_accept() {
        Some(Action::AcceptContract { contract_id: contract.id.clone() })
    } else {
        None
    }
}

} // verus!
