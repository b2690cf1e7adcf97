//! The shared state store: the one place that the background loop writes its
//! results to and that the dashboard reads.

use crate::models::{
    borrowed_views, optional_view, optional_views, views, Contract, ContractView, Waypoint,
    WaypointView,
};
use crate::spacetraders::{
    Action, ActionView, ShipWithNav, ShipWithNavView, ShipyardShipWithWaypoint,
    ShipyardShipWithWaypointView,
};
use crate::text::{action_line, action_outcome};
use vstd::prelude::*;

verus! {

/// What the store holds.
pub struct AppDataView {
    pub label: Seq<char>,
    pub token: Option<Seq<char>>,
    pub contracts: Seq<ContractView>,
    pub ships: Seq<ShipWithNavView>,
    pub waypoints: Seq<WaypointView>,
    pub shipyard_waypoint: Option<WaypointView>,
    pub shipyard_ships: Option<Seq<ShipyardShipWithWaypointView>>,
    pub log: Seq<Seq<char>>,
}

impl AppDataView {
    /// The store of a process that has just started: the greeting for a
    /// label, no credential, and nothing fetched or logged.
    pub open spec fn initial() -> AppDataView {
        AppDataView {
            label: "Hello World!"@,
            token: None,
            contracts: Seq::empty(),
            ships: Seq::empty(),
            waypoints: Seq::empty(),
            shipyard_waypoint: None,
            shipyard_ships: None,
            log: Seq::empty(),
        }
    }

    /// The offers that the dashboard shows: those of the selected shipyard
    /// waypoint, or all of them while none is selected.
    pub open spec fn shown_listings(self) -> Seq<ShipyardShipWithWaypointView> {
        let all = match self.shipyard_ships {
            Some(listings) => listings,
            None => Seq::empty(),
        };
        match self.shipyard_waypoint {
            Some(selected) => all.filter(
                |listing: ShipyardShipWithWaypointView| listing.waypoint == selected.symbol,
            ),
            None => all,
        }
    }

    /// The same store with one more line at the end of its log.
    pub open spec fn logged(self, line: Seq<char>) -> AppDataView {
        AppDataView { log: self.log.push(line), ..self }
    }

    /// The same store after an action of the operator: the collections are
    /// as they were, and the log has one more line, which tells the outcome.
    pub open spec fn after_action(self, action: ActionView, succeeded: bool) -> AppDataView {
        self.logged(action_line(action, succeeded))
    }
}

/// Reading is repeatable: what a read returns is what the store stands
/// for, so two reads of a store that nothing has written to in between
/// return the same.
pub proof fn lemma_reads_agree(store: AppData, first: AppDataView, second: AppDataView)
    requires
        first == store@,
        second == store@,
    ensures
        first == second,
{
}

/// The shared state store.
pub struct AppData {
    label: String,
    token: Option<String>,
    contracts: Vec<Contract>,
    ships: Vec<ShipWithNav>,
    waypoints: Vec<Waypoint>,
    shipyard_waypoint: Option<Waypoint>,
    shipyard_ships: Option<Vec<ShipyardShipWithWaypoint>>,
    log: Vec<String>,
}

impl View for AppData {
    type V = AppDataView;

    closed spec fn view(&self) -> AppDataView {
        AppDataView {
            label: self.label@,
            token: optional_view(self.token),
            contracts: views(self.contracts@),
            ships: views(self.ships@),
            waypoints: views(self.waypoints@),
            shipyard_waypoint: optional_view(self.shipyard_waypoint),
            shipyard_ships: optional_views(self.shipyard_ships),
            log: views(self.log@),
        }
    }
}

impl Default for AppData {
    /// A store with the greeting for a label and nothing else in it.
    fn default() -> (store: AppData)
        ensures
            store@ == AppDataView::initial(),
    {
        let store = AppData {
            label: String::from_str("Hello World!"),
            token: None,
            contracts: Vec::new(),
            ships: Vec::new(),
            waypoints: Vec::new(),
            shipyard_waypoint: None,
            shipyard_ships: None,
            log: Vec::new(),
        };
        assert(store@.contracts =~= Seq::empty());
        assert(store@.ships =~= Seq::empty());
        assert(store@.waypoints =~= Seq::empty());
        assert(store@.log =~= Seq::empty());
        store
    }
}

impl AppData {
    /// The store of a process that has just started, holding the credential
    /// that every request is made with.
    pub fn new(token: String) -> (store: AppData)
        ensures
            store@ == (AppDataView { token: Some(token@), ..AppDataView::initial() }),
    {
        let mut store = AppData::default();
        store.token = Some(token);
        store
    }

    /// The label that the operator has typed.
    pub fn label(&self) -> (label: &String)
        ensures
            label@ == self@.label,
    {
        &self.label
    }

    /// The credential, if the store was made with one.
    pub fn token(&self) -> (token: &Option<String>)
        ensures
            optional_view(*token) == self@.token,
    {
        &self.token
    }

    /// The contracts that were last fetched.
    pub fn contracts(&self) -> (contracts: &Vec<Contract>)
        ensures
            views(contracts@) == self@.contracts,
    {
        &self.contracts
    }

    /// The fleet that was last fetched, each ship with its selected
    /// destination.
    pub fn ships(&self) -> (ships: &Vec<ShipWithNav>)
        ensures
            views(ships@) == self@.ships,
    {
        &self.ships
    }

    /// The waypoints that were last fetched.
    pub fn waypoints(&self) -> (waypoints: &Vec<Waypoint>)
        ensures
            views(waypoints@) == self@.waypoints,
    {
        &self.waypoints
    }

    /// The waypoint whose shipyard the operator has selected.
    pub fn shipyard_waypoint(&self) -> (waypoint: &Option<Waypoint>)
        ensures
            optional_view(*waypoint) == self@.shipyard_waypoint,
    {
        &self.shipyard_waypoint
    }

    /// The offers that were last fetched, each with the waypoint that it
    /// came from; `None` where there were none.
    pub fn shipyard_ships(&self) -> (listings: &Option<Vec<ShipyardShipWithWaypoint>>)
        ensures
            optional_views(*listings) == self@.shipyard_ships,
    {
        &self.shipyard_ships
    }

    /// The activity log, oldest line first.
    pub fn log(&self) -> (log: &Vec<String>)
        ensures
            views(log@) == self@.log,
    {
        &self.log
    }

    /// The offers that the dashboard shows: see
    /// [`AppDataView::shown_listings`].
    pub fn shown_listings(&self) -> (shown: Vec<&ShipyardShipWithWaypoint>)
        ensures
            borrowed_views(shown@) == self@.shown_listings(),
    {
        let mut shown: Vec<&ShipyardShipWithWaypoint> = Vec::new();
        match &self.shipyard_ships {
            None => {
                proof {
                    let none = Seq::<ShipyardShipWithWaypointView>::empty();
                    assert(borrowed_views(shown@) =~= none);
                    if self.shipyard_waypoint is Some {
                        let symbol = self@.shipyard_waypoint.unwrap().symbol;
                        let at = |listing: ShipyardShipWithWaypointView|
                            listing.waypoint == symbol;
                        none.lemma_filter_len(at);
                        assert(none.filter(at) =~= none);
                    }
                }
            },
            Some(listings) => {
                let ghost all = views(listings@);
                let mut i: usize = 0;
                match &self.shipyard_waypoint {
                    None => {
                        while i < listings.len()
                            invariant
                                i <= listings.len(),
                                all == views(listings@),
                                borrowed_views(shown@) == all.take(i as int),
                            decreases listings.len() - i,
                        {
                            let ghost before = borrowed_views(shown@);
                            shown.push(&listings[i]);
                            assert(all[i as int] == listings@[i as int]@);
                            assert(borrowed_views(shown@) =~= before.push(all[i as int]));
                            assert(before.push(all[i as int]) =~= all.take(i + 1));
                            i = i + 1;
                        }
                        assert(all.take(listings.len() as int) =~= all);
                    },
                    Some(selected) => {
                        let ghost symbol = self@.shipyard_waypoint.unwrap().symbol;
                        let ghost at = |listing: ShipyardShipWithWaypointView|
                            listing.waypoint == symbol;
                        assert(symbol == selected.symbol@);
                        proof {
                            all.take(0).lemma_filter_len(at);
                            assert(borrowed_views(shown@) =~= all.take(0).filter(at));
                        }
                        while i < listings.len()
                            invariant
                                i <= listings.len(),
                                all == views(listings@),
                                symbol == selected.symbol@,
                                at == |listing: ShipyardShipWithWaypointView|
                                    listing.waypoint == symbol,
                                borrowed_views(shown@) == all.take(i as int).filter(at),
                            decreases listings.len() - i,
                        {
                            proof {
                                assert(all.take(i + 1) =~= all.take(i as int).push(all[i as int]));
                                all.take(i as int).lemma_filter_push(all[i as int], at);
                            }
                            assert(all[i as int] == listings@[i as int]@);
                            if listings[i].waypoint == selected.symbol {
                                let ghost before = borrowed_views(shown@);
                                shown.push(&listings[i]);
                                assert(borrowed_views(shown@) =~= before.push(
                                    all[i as int],
                                ));
                                assert(borrowed_views(shown@) =~= all.take(
                                    i as int,
                                ).filter(at).push(all[i as int]));
                            }
                            i = i + 1;
                        }
                        assert(all.take(listings.len() as int) =~= all);
                    },
                }
            },
        }
        shown
    }

    /// Replaces the label.
    pub fn set_label(&mut self, label: String)
        ensures
            final(self)@ == (AppDataView { label: label@, ..old(self)@ }),
    {
        self.label = label;
    }

    /// Selects the waypoint whose shipyard the operator wants to see, or
    /// none.
    pub fn select_shipyard_waypoint(&mut self, waypoint: Option<Waypoint>)
        ensures
            final(self)@ == (AppDataView {
                shipyard_waypoint: optional_view(waypoint),
                ..old(self)@
            }),
    {
        self.shipyard_waypoint = waypoint;
    }

    /// Selects a destination for the ship at `index`. Says whether there is
    /// such a ship; where there is none, nothing changes.
    pub fn select_destination(&mut self, index: usize, destination: String) -> (found: bool)
        ensures
            found == (index < old(self)@.ships.len()),
            found ==> final(self)@ == (AppDataView {
                ships: old(self)@.ships.update(
                    index as int,
                    ShipWithNavView {
                        ship: old(self)@.ships[index as int].ship,
                        destination: destination@,
                    },
                ),
                ..old(self)@
            }),
            !found ==> final(self)@ == old(self)@,
    {
        if index >= self.ships.len() {
            return false;
        }
        let mut record = self.ships.remove(index);
        record.destination = destination;
        self.ships.insert(index, record);
        assert(self@.ships =~= old(self)@.ships.update(
            index as int,
            ShipWithNavView {
                ship: old(self)@.ships[index as int].ship,
                destination: destination@,
            },
        ));
        true
    }

    /// Appends one line to the activity log.
    pub fn log_line(&mut self, line: String)
        ensures
            final(self)@ == old(self)@.logged(line@),
    {
        self.log.push(line);
        assert(self@.log =~= old(self)@.log.push(line@));
    }

    /// Empties the activity log.
    pub fn clear_log(&mut self)
        ensures
            final(self)@ == (AppDataView { log: Seq::empty(), ..old(self)@ }),
    {
        self.log.clear();
        assert(self@.log =~= Seq::empty());
    }

    /// Records the outcome of an action of the operator: one line in the log,
    /// and nothing else. What the action did on the remote side shows with
    /// the next fetch.
    pub fn record_action(&mut self, action: &Action, succeeded: bool)
        ensures
            final(self)@ == old(self)@.after_action(action@, succeeded),
    {
        self.log_line(action_outcome(action, succeeded));
    }

    /// Replaces the fleet.
    pub(crate) fn replace_ships(&mut self, ships: Vec<ShipWithNav>)
        ensures
            final(self)@ == (AppDataView { ships: views(ships@), ..old(self)@ }),
    {
        self.ships = ships;
    }

    /// Replaces the waypoints.
    pub(crate) fn replace_waypoints(&mut self, waypoints: Vec<Waypoint>)
        ensures
            final(self)@ == (AppDataView { waypoints: views(waypoints@), ..old(self)@ }),
    {
        self.waypoints = waypoints;
    }

    /// Replaces the contracts.
    pub(crate) fn replace_contracts(&mut self, contracts: Vec<Contract>)
        ensures
            final(self)@ == (AppDataView { contracts: views(contracts@), ..old(self)@ }),
    {
        self.contracts = contracts;
    }

    /// Replaces the offers: with `None` where the list is empty.
    pub(crate) fn replace_shipyard_ships(&mut self, listings: Vec<ShipyardShipWithWaypoint>)
        ensures
            final(self)@ == (AppDataView {
                shipyard_ships: if listings@.len() == 0 {
                    None
                } else {
                    Some(views(listings@))
                },
                ..old(self)@
            }),
    {
        if listings.len() == 0 {
            self.shipyard_ships = None;
        } else {
            self.shipyard_ships = Some(listings);
        }
    }
}

} // verus!
