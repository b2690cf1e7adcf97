//! The lines that the background loop and the operator's actions write to the
//! activity log.

use crate::message_handler::Message;
use crate::spacetraders::{Action, ActionView};
use vstd::prelude::*;

verus! {

/// The line that opens the turn of an operation kind.
pub open spec fn handling_line(kind: Message) -> Seq<char> {
    match kind {
        Message::GetFleet => "Handling message: GetFleet"@,
        Message::GetWaypoints => "Handling message: GetWaypoints"@,
        Message::GetContracts => "Handling message: GetContracts"@,
        Message::GetShipyards => "Handling message: GetShipyards"@,
    }
}

/// The line for a fleet that was fetched.
pub open spec fn fleet_fetched_line() -> Seq<char> {
    "Fetching fleet"@
}

/// The line for a fleet that could not be fetched.
pub open spec fn fleet_failed_line() -> Seq<char> {
    "Failed to update fleet"@
}

/// The line for contracts that were fetched.
pub open spec fn contracts_fetched_line() -> Seq<char> {
    "Fetching contracts"@
}

/// The line for contracts that could not be fetched.
pub open spec fn contracts_failed_line() -> Seq<char> {
    "Failed to get contracts"@
}

/// The line for a waypoint fetch with no ship to scope it.
pub open spec fn no_ships_line() -> Seq<char> {
    "Cannot fetch waypoints with 0 ships. Fetch ships first"@
}

/// The line for a system whose waypoints were fetched.
pub open spec fn waypoints_fetched_line(system: Seq<char>) -> Seq<char> {
    "Fetched waypoints for system: "@ + system
}

/// The line for a system whose waypoints could not be fetched.
pub open spec fn waypoints_failed_line(system: Seq<char>) -> Seq<char> {
    "Failed to fetch waypoints for system: "@ + system
}

/// The line for the outcome of an action of the operator.
pub open spec fn action_line(action: ActionView, succeeded: bool) -> Seq<char> {
    match action {
        ActionView::AcceptContract { .. } => if succeeded {
            "Accepted contract"@
        } else {
            "Failed to accept contract :("@
        },
        ActionView::NavigateShip { .. } => if succeeded {
            "Ship navigating successfully"@
        } else {
            "Could not start navigation"@
        },
        ActionView::DockShip { .. } => if succeeded {
            "Ship docked successfully"@
        } else {
            "Could not dock ship"@
        },
        ActionView::ExtractResources { .. } => if succeeded {
            "Resources extracted successfully"@
        } else {
            "Could not extract resources"@
        },
        ActionView::DeliverContract { .. } => if succeeded {
            "Contract goods delivered successfully"@
        } else {
            "Could not deliver contract goods"@
        },
        ActionView::PurchaseShip { .. } => if succeeded {
            "Ship purchased successfully"@
        } else {
            "Could not purchase ship"@
        },
    }
}

/// See [`handling_line`].
pub fn handling(kind: Message) -> (line: String)
    ensures
        line@ == handling_line(kind),
{
    match kind {
        Message::GetFleet => String::from_str("Handling message: GetFleet"),
        Message::GetWaypoints => String::from_str("Handling message: GetWaypoints"),
        Message::GetContracts => String::from_str("Handling message: GetContracts"),
        Message::GetShipyards => String::from_str("Handling message: GetShipyards"),
    }
}

/// See [`waypoints_fetched_line`].
pub fn waypoints_fetched(system: &String) -> (line: String)
    ensures
        line@ == waypoints_fetched_line(system@),
{
    String::from_str("Fetched waypoints for system: ").concat(system.as_str())
}

/// See [`waypoints_failed_line`].
pub fn waypoints_failed(system: &String) -> (line: String)
    ensures
        line@ == waypoints_failed_line(system@),
{
    String::from_str("Failed to fetch waypoints for system: ").concat(system.as_str())
}

/// See [`action_line`].
pub fn action_outcome(action: &Action, succeeded: bool) -> (line: String)
    ensures
        line@ == action_line(action@, succeeded),
{
    let words = match action {
        Action::AcceptContract { .. } => if succeeded {
            "Accepted contract"
        } else {
            "Failed to accept contract :("
        },
        Action::NavigateShip { .. } => if succeeded {
            "Ship navigating successfully"
        } else {
            "Could not start navigation"
        },
        Action::DockShip { .. } => if succeeded {
            "Ship docked successfully"
        } else {
            "Could not dock ship"
        },
        Action::ExtractResources { .. } => if succeeded {
            "Resources extracted successfully"
        } else {
            "Could not extract resources"
        },
        Action::DeliverContract { .. } => if succeeded {
            "Contract goods delivered successfully"
        } else {
            "Could not deliver contract goods"
        },
        Action::PurchaseShip { .. } => if succeeded {
            "Ship purchased successfully"
        } else {
            "Could not purchase ship"
        },
    };
    String::from_str(words)
}

} // verus!
