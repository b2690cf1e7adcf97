//! The four background operations: what each asks of the remote side, and
//! what it does to the store with the answers.

use crate::app::{AppData, AppDataView};
use crate::models::{
    borrowed_views, optional_views, views, Contract, ContractView, Ship, ShipView,
    ShipyardShip, ShipyardShipView, Waypoint, WaypointView,
};
use crate::resolver::{
    lemma_collapse_last, lemma_collapse_same_items, ship_systems, shipyard_waypoints,
    shipyards_of, systems_of, visible_systems,
};
use crate::spacetraders::{
    ShipWithNav, ShipWithNavView, ShipyardShipWithWaypoint, ShipyardShipWithWaypointView,
};
use crate::text::{
    contracts_failed_line, contracts_fetched_line, fleet_failed_line, fleet_fetched_line,
    handling, handling_line, no_ships_line, waypoints_failed, waypoints_failed_line,
    waypoints_fetched, waypoints_fetched_line,
};
use vstd::prelude::*;

verus! {

/// One kind of background operation.
#[derive(Debug, Clone, Copy, PartialEq, Eq, Structural)]
pub enum Message {
    GetFleet,
    GetWaypoints,
    GetContracts,
    GetShipyards,
}

impl Message {
    /// The kind that runs after this one: the four kinds follow each other in
    /// the order of their declaration, and the first follows the last.
    pub open spec fn successor(self) -> Message {
        match self {
            Message::GetFleet => Message::GetWaypoints,
            Message::GetWaypoints => Message::GetContracts,
            Message::GetContracts => Message::GetShipyards,
            Message::GetShipyards => Message::GetFleet,
        }
    }

    /// Every kind once, in the order of declaration.
    pub open spec fn every() -> Seq<Message> {
        seq![
            Message::GetFleet,
            Message::GetWaypoints,
            Message::GetContracts,
            Message::GetShipyards,
        ]
    }

    /// Every kind once, in the order of declaration.
    pub fn all() -> (kinds: Vec<Message>)
        ensures
            kinds@ == Message::every(),
    {
        let mut kinds: Vec<Message> = Vec::new();
        kinds.push(Message::GetFleet);
        kinds.push(Message::GetWaypoints);
        kinds.push(Message::GetContracts);
        kinds.push(Message::GetShipyards);
        assert(kinds@ =~= Message::every());
        kinds
    }
}

/// One request to the remote side.
#[derive(Debug, Clone, PartialEq, Eq)]
pub enum Request {
    Fleet,
    Waypoints { system: String },
    Contracts,
    Shipyard { system: String, waypoint: String },
}

/// What a [`Request`] stands for.
pub enum RequestView {
    Fleet,
    Waypoints { system: Seq<char> },
    Contracts,
    Shipyard { system: Seq<char>, waypoint: Seq<char> },
}

impl View for Request {
    type V = RequestView;

    open spec fn view(&self) -> RequestView {
        match *self {
            Request::Fleet => RequestView::Fleet,
            Request::Waypoints { system } => RequestView::Waypoints { system: system@ },
            Request::Contracts => RequestView::Contracts,
            Request::Shipyard { system, waypoint } => RequestView::Shipyard {
                system: system@,
                waypoint: waypoint@,
            },
        }
    }
}

/// The answer to one request: what was fetched, or that the request failed.
#[derive(Debug, Clone, PartialEq, Eq)]
pub enum Reply {
    Fleet(Vec<Ship>),
    Waypoints(Vec<Waypoint>),
    Contracts(Vec<Contract>),
    Shipyard(Option<Vec<ShipyardShip>>),
    Failed,
}

/// What a [`Reply`] stands for.
pub enum ReplyView {
    Fleet(Seq<ShipView>),
    Waypoints(Seq<WaypointView>),
    Contracts(Seq<ContractView>),
    Shipyard(Option<Seq<ShipyardShipView>>),
    Failed,
}

impl View for Reply {
    type V = ReplyView;

    open spec fn view(&self) -> ReplyView {
        match *self {
            Reply::Fleet(ships) => ReplyView::Fleet(views(ships@)),
            Reply::Waypoints(waypoints) => ReplyView::Waypoints(views(waypoints@)),
            Reply::Contracts(contracts) => ReplyView::Contracts(views(contracts@)),
            Reply::Shipyard(ships) => ReplyView::Shipyard(optional_views(ships)),
            Reply::Failed => ReplyView::Failed,
        }
    }
}

/// The answer to the request at `index`. A request without an answer has
/// failed.
pub open spec fn reply_at(replies: Seq<ReplyView>, index: int) -> ReplyView {
    if 0 <= index < replies.len() {
        replies[index]
    } else {
        ReplyView::Failed
    }
}

/// The waypoints that an answer brings: none unless it answers a waypoint
/// request with success.
pub open spec fn waypoints_of(reply: ReplyView) -> Seq<WaypointView> {
    match reply {
        ReplyView::Waypoints(waypoints) => waypoints,
        _ => Seq::empty(),
    }
}

/// The offers that an answer brings: none unless it answers a shipyard
/// request with success and the shipyard lists its ships.
pub open spec fn offers_of(reply: ReplyView) -> Seq<ShipyardShipView> {
    match reply {
        ReplyView::Shipyard(Some(ships)) => ships,
        _ => Seq::empty(),
    }
}

/// A fetched fleet as the store keeps it: every ship with no destination
/// selected.
pub open spec fn fleet_records(ships: Seq<ShipView>) -> Seq<ShipWithNavView> {
    ships.map_values(|ship: ShipView| ShipWithNavView { ship, destination: Seq::<char>::empty() })
}

/// The offers of one shipyard, each paired with the waypoint of that
/// shipyard.
pub open spec fn listings_at(offers: Seq<ShipyardShipView>, waypoint: Seq<char>) -> Seq<
    ShipyardShipWithWaypointView,
> {
    offers.map_values(|ship: ShipyardShipView| ShipyardShipWithWaypointView { ship, waypoint })
}

/// For each of the first `count` requests, the waypoints that its answer
/// brings.
pub open spec fn waypoint_parts(replies: Seq<ReplyView>, count: nat) -> Seq<Seq<WaypointView>> {
    Seq::new(count, |i: int| waypoints_of(reply_at(replies, i)))
}

/// For each system, the line that tells how its request went.
pub open spec fn waypoint_lines(systems: Seq<Seq<char>>, replies: Seq<ReplyView>) -> Seq<
    Seq<char>,
> {
    Seq::new(
        systems.len(),
        |i: int|
            if reply_at(replies, i) is Waypoints {
                waypoints_fetched_line(systems[i])
            } else {
                waypoints_failed_line(systems[i])
            },
    )
}

/// For each waypoint that bears a shipyard, the offers that its answer
/// brings, paired with that waypoint.
pub open spec fn listing_parts(yards: Seq<WaypointView>, replies: Seq<ReplyView>) -> Seq<
    Seq<ShipyardShipWithWaypointView>,
> {
    Seq::new(yards.len(), |i: int| listings_at(offers_of(reply_at(replies, i)), yards[i].symbol))
}

/// The requests that an operation of the given kind makes against a store,
/// in the order in which it makes them: one for the fleet, one for the
/// contracts, one for each visible system, one for each waypoint that bears
/// a shipyard.
pub open spec fn requests_for(kind: Message, store: AppDataView) -> Seq<RequestView> {
    match kind {
        Message::GetFleet => seq![RequestView::Fleet],
        Message::GetWaypoints => visible_systems(store.ships).map_values(
            |system: Seq<char>| RequestView::Waypoints { system },
        ),
        Message::GetContracts => seq![RequestView::Contracts],
        Message::GetShipyards => shipyard_waypoints(store.waypoints).map_values(
            |yard: WaypointView|
                RequestView::Shipyard { system: yard.system_symbol, waypoint: yard.symbol },
        ),
    }
}

impl AppDataView {
    /// The store after a fleet fetch. A fleet that came replaces the old one
    /// whole; a failure leaves it as it was. Either way the log tells.
    pub open spec fn after_fleet(self, reply: ReplyView) -> AppDataView {
        match reply {
            ReplyView::Fleet(ships) => AppDataView { ships: fleet_records(ships), ..self }.logged(
                fleet_fetched_line(),
            ),
            _ => self.logged(fleet_failed_line()),
        }
    }

    /// The store after a contract fetch. Contracts that came replace the old
    /// ones whole; a failure leaves them as they were. Either way the log
    /// tells.
    pub open spec fn after_contracts(self, reply: ReplyView) -> AppDataView {
        match reply {
            ReplyView::Contracts(contracts) => AppDataView { contracts, ..self }.logged(
                contracts_fetched_line(),
            ),
            _ => self.logged(contracts_failed_line()),
        }
    }

    /// The store after a waypoint fetch, `replies` answering the requests
    /// for the visible systems in their order. With no ship known there is
    /// nothing to ask: no waypoint is left and the log says why. Otherwise
    /// the waypoints of the systems that answered, one system after the
    /// other, replace the old ones, and the log has a line for each system.
    pub open spec fn after_waypoints(self, replies: Seq<ReplyView>) -> AppDataView {
        let systems = visible_systems(self.ships);
        if systems.len() == 0 {
            AppDataView { waypoints: Seq::empty(), ..self }.logged(no_ships_line())
        } else {
            AppDataView {
                waypoints: waypoint_parts(replies, systems.len()).flatten(),
                log: self.log + waypoint_lines(systems, replies),
                ..self
            }
        }
    }

    /// The store after a shipyard fetch, `replies` answering the requests
    /// for the waypoints that bear a shipyard in their order. The offers of
    /// the shipyards that answered, one shipyard after the other and each
    /// offer with its waypoint, replace the old ones; no offer at all leaves
    /// `None`. A shipyard that failed adds nothing, and the log is as it was.
    pub open spec fn after_shipyards(self, replies: Seq<ReplyView>) -> AppDataView {
        let listings = listing_parts(shipyard_waypoints(self.waypoints), replies).flatten();
        AppDataView {
            shipyard_ships: if listings.len() == 0 {
                None
            } else {
                Some(listings)
            },
            ..self
        }
    }

    /// The store after the fetch of one operation kind, `replies` answering
    /// its requests in their order.
    pub open spec fn after_fetch(self, kind: Message, replies: Seq<ReplyView>) -> AppDataView {
        match kind {
            Message::GetFleet => self.after_fleet(reply_at(replies, 0)),
            Message::GetWaypoints => self.after_waypoints(replies),
            Message::GetContracts => self.after_contracts(reply_at(replies, 0)),
            Message::GetShipyards => self.after_shipyards(replies),
        }
    }

    /// The store after the turn of one operation kind: the log gets the line
    /// that opens the turn, and then the operation does its part.
    pub open spec fn after_message(self, kind: Message, replies: Seq<ReplyView>) -> AppDataView {
        self.logged(handling_line(kind)).after_fetch(kind, replies)
    }
}

/// Takes the answer at `index` out of the list, leaving a failure in its
/// place; without such an answer, gives a failure.
fn take_reply(replies: &mut Vec<Reply>, index: usize) -> (reply: Reply)
    ensures
        reply@ == reply_at(views(old(replies)@), index as int),
        final(replies)@.len() == old(replies)@.len(),
        forall|j: int|
            0 <= j < old(replies)@.len() && j != index ==> final(replies)@[j] == old(replies)@[j],
{
    let mut reply = Reply::Failed;
    if index < replies.len() {
        replies.set_and_swap(index, &mut reply);
    }
    reply
}

/// Puts the offers of one shipyard behind the listings, each paired with the
/// waypoint of that shipyard.
fn pair_offers(
    listings: &mut Vec<ShipyardShipWithWaypoint>,
    offers: Vec<ShipyardShip>,
    waypoint: &String,
)
    ensures
        views(final(listings)@) == views(old(listings)@) + listings_at(
            views(offers@),
            waypoint@,
        ),
{
    let ghost before = views(listings@);
    let ghost offered = views(offers@);
    for ship in it: offers
        invariant
            views(it.seq()) == offered,
            views(listings@) == before + listings_at(offered.take(it.index()), waypoint@),
    {
        let ghost built = views(listings@);
        assert(ship@ == offered[it.index()]);
        listings.push(ShipyardShipWithWaypoint { ship, waypoint: waypoint.clone() });
        assert(views(listings@) =~= built.push(listings@.last()@));
        assert(offered.take(it.index() + 1) =~= offered.take(it.index()).push(ship@));
        assert(views(listings@) =~= before + listings_at(
            offered.take(it.index() + 1),
            waypoint@,
        ));
    }
    assert(offered.take(offered.len() as int) =~= offered);
}

/// The handler of the background operations.
pub struct MessageHandler;

impl MessageHandler {
    /// The systems in which a ship of the store is known: see
    /// [`visible_systems`].
    pub fn get_visible_systems(&self, data: &AppData) -> (systems: Vec<String>)
        ensures
            views(systems@) == visible_systems(data@.ships),
    {
        systems_of(data.ships())
    }

    /// The requests that the turn of `m` makes against the store: see
    /// [`requests_for`].
    pub fn requests(&self, m: &Message, data: &AppData) -> (requests: Vec<Request>)
        ensures
            views(requests@) == requests_for(*m, data@),
    {
        let mut requests: Vec<Request> = Vec::new();
        match m {
            Message::GetFleet => {
                requests.push(Request::Fleet);
                assert(views(requests@) =~= seq![RequestView::Fleet]);
            },
            Message::GetContracts => {
                requests.push(Request::Contracts);
                assert(views(requests@) =~= seq![RequestView::Contracts]);
            },
            Message::GetWaypoints => {
                let systems = self.get_visible_systems(data);
                let ghost wanted = requests_for(*m, data@);
                let mut i: usize = 0;
                while i < systems.len()
                    invariant
                        i <= systems.len(),
                        views(systems@) == visible_systems(data@.ships),
                        wanted == requests_for(Message::GetWaypoints, data@),
                        views(requests@) == wanted.take(i as int),
                    decreases systems.len() - i,
                {
                    let ghost before = views(requests@);
                    requests.push(Request::Waypoints { system: systems[i].clone() });
                    assert(views(systems@)[i as int] == systems@[i as int]@);
                    assert(requests@.last()@ == wanted[i as int]);
                    assert(views(requests@) =~= before.push(wanted[i as int]));
                    assert(before.push(wanted[i as int]) =~= wanted.take(i + 1));
                    i = i + 1;
                }
                assert(wanted.take(systems.len() as int) =~= wanted);
            },
            Message::GetShipyards => {
                let yards = shipyards_of(data.waypoints());
                let ghost wanted = requests_for(*m, data@);
                let mut i: usize = 0;
                while i < yards.len()
                    invariant
                        i <= yards.len(),
                        borrowed_views(yards@) == shipyard_waypoints(data@.waypoints),
                        wanted == requests_for(Message::GetShipyards, data@),
                        views(requests@) == wanted.take(i as int),
                    decreases yards.len() - i,
                {
                    let ghost before = views(requests@);
                    let yard = yards[i];
                    requests.push(
                        Request::Shipyard {
                            system: yard.system_symbol.clone(),
                            waypoint: yard.symbol.clone(),
                        },
                    );
                    assert(borrowed_views(yards@)[i as int] == yards@[i as int]@);
                    assert(requests@.last()@ == wanted[i as int]);
                    assert(views(requests@) =~= before.push(wanted[i as int]));
                    assert(before.push(wanted[i as int]) =~= wanted.take(i + 1));
                    i = i + 1;
                }
                assert(wanted.take(yards.len() as int) =~= wanted);
            },
        }
        requests
    }

    /// Writes the outcome of a fleet fetch to the store: see
    /// [`AppDataView::after_fleet`].
    pub fn handle_fleet(&self, data: &mut AppData, reply: Reply)
        ensures
            final(data)@ == old(data)@.after_fleet(reply@),
    {
        match reply {
            Reply::Fleet(ships) => {
                let ghost fetched = views(ships@);
                let mut records: Vec<ShipWithNav> = Vec::new();
                for ship in it: ships
                    invariant
                        views(it.seq()) == fetched,
                        views(records@) == fleet_records(fetched.take(it.index())),
                {
                    let ghost built = views(records@);
                    assert(ship@ == fetched[it.index()]);
                    records.push(ShipWithNav::new(ship));
                    assert(views(records@) =~= built.push(records@.last()@));
                    assert(fetched.take(it.index() + 1) =~= fetched.take(it.index()).push(ship@));
                    assert(views(records@) =~= fleet_records(fetched.take(it.index() + 1)));
                }
                assert(fetched.take(fetched.len() as int) =~= fetched);
                data.replace_ships(records);
                data.log_line(String::from_str("Fetching fleet"));
            },
            _ => {
                data.log_line(String::from_str("Failed to update fleet"));
            },
        }
    }

    /// Writes the outcome of a contract fetch to the store: see
    /// [`AppDataView::after_contracts`].
    pub fn handle_contracts(&self, data: &mut AppData, reply: Reply)
        ensures
            final(data)@ == old(data)@.after_contracts(reply@),
    {
        match reply {
            Reply::Contracts(contracts) => {
                data.replace_contracts(contracts);
                data.log_line(String::from_str("Fetching contracts"));
            },
            _ => {
                data.log_line(String::from_str("Failed to get contracts"));
            },
        }
    }

    /// Writes the outcome of a waypoint fetch to the store: see
    /// [`AppDataView::after_waypoints`].
    pub fn handle_waypoints(&self, data: &mut AppData, replies: Vec<Reply>)
        ensures
            final(data)@ == old(data)@.after_waypoints(views(replies@)),
    {
        let ghost before = data@;
        let ghost given = views(replies@);
        let systems = self.get_visible_systems(data);
        if systems.len() == 0 {
            let none: Vec<Waypoint> = Vec::new();
            assert(views(none@) =~= Seq::empty());
            data.replace_waypoints(none);
            data.log_line(
                String::from_str("Cannot fetch waypoints with 0 ships. Fetch ships first"),
            );
            return ;
        }
        let ghost names = views(systems@);
        let ghost parts = waypoint_parts(given, names.len());
        let ghost lines = waypoint_lines(names, given);
        let mut replies = replies;
        let mut gathered: Vec<Waypoint> = Vec::new();
        let mut i: usize = 0;
        assert(before.log + lines.take(0) =~= before.log);
        while i < systems.len()
            invariant
                i <= systems.len(),
                names == views(systems@),
                parts == waypoint_parts(given, names.len()),
                lines == waypoint_lines(names, given),
                replies@.len() == given.len(),
                forall|j: int| i <= j < given.len() ==> replies@[j]@ == given[j],
                views(gathered@) == parts.take(i as int).flatten(),
                data@ == (AppDataView { log: before.log + lines.take(i as int), ..before }),
            decreases systems.len() - i,
        {
            let ghost held = views(gathered@);
            let reply = take_reply(&mut replies, i);
            assert(reply@ == reply_at(given, i as int));
            assert(names[i as int] == systems@[i as int]@);
            match reply {
                Reply::Waypoints(mut found) => {
                    data.log_line(waypoints_fetched(&systems[i]));
                    let ghost brought = views(found@);
                    gathered.append(&mut found);
                    assert(views(gathered@) =~= held + brought);
                },
                _ => {
                    data.log_line(waypoints_failed(&systems[i]));
                },
            }
            proof {
                parts.take(i as int).lemma_flatten_push(parts[i as int]);
                assert(parts.take(i + 1) =~= parts.take(i as int).push(parts[i as int]));
                assert(lines.take(i + 1) =~= lines.take(i as int).push(lines[i as int]));
                assert(before.log + lines.take(i + 1) =~= (before.log + lines.take(
                    i as int,
                )).push(lines[i as int]));
            }
            i = i + 1;
        }
        assert(parts.take(systems.len() as int) =~= parts);
        assert(lines.take(systems.len() as int) =~= lines);
        data.replace_waypoints(gathered);
    }

    /// Writes the outcome of a shipyard fetch to the store: see
    /// [`AppDataView::after_shipyards`].
    pub fn handle_shipyards(&self, data: &mut AppData, replies: Vec<Reply>)
        ensures
            final(data)@ == old(data)@.after_shipyards(views(replies@)),
    {
        let ghost given = views(replies@);
        let ghost known = shipyard_waypoints(data@.waypoints);
        let ghost parts = listing_parts(known, given);
        let mut replies = replies;
        let mut listings: Vec<ShipyardShipWithWaypoint> = Vec::new();
        let yards = shipyards_of(data.waypoints());
        let mut i: usize = 0;
        assert(views(listings@) =~= parts.take(0).flatten());
        while i < yards.len()
            invariant
                i <= yards.len(),
                borrowed_views(yards@) == known,
                parts == listing_parts(known, given),
                replies@.len() == given.len(),
                forall|j: int| i <= j < given.len() ==> replies@[j]@ == given[j],
                views(listings@) == parts.take(i as int).flatten(),
            decreases yards.len() - i,
        {
            let reply = take_reply(&mut replies, i);
            assert(reply@ == reply_at(given, i as int));
            assert(known[i as int] == yards@[i as int]@);
            let ghost built = views(listings@);
            match reply {
                Reply::Shipyard(Some(offers)) => {
                    pair_offers(&mut listings, offers, &yards[i].symbol);
                },
                _ => {
                    assert(parts[i as int] =~= Seq::empty());
                },
            }
            proof {
                assert(views(listings@) =~= built + parts[i as int]);
                parts.take(i as int).lemma_flatten_push(parts[i as int]);
                assert(parts.take(i + 1) =~= parts.take(i as int).push(parts[i as int]));
            }
            i = i + 1;
        }
        assert(parts.take(yards.len() as int) =~= parts);
        data.replace_shipyard_ships(listings);
    }

    /// Runs the turn of one operation kind on the store, `replies` answering
    /// the requests of [`MessageHandler::requests`] in their order: see
    /// [`AppDataView::after_message`]. A request that `replies` has no
    /// answer for, or an answer of another kind, counts as failed; answers
    /// beyond the requests are ignored.
    pub fn handle_message(&self, m: &Message, data: &mut AppData, replies: Vec<Reply>)
        ensures
            final(data)@ == old(data)@.after_message(*m, views(replies@)),
    {
        data.log_line(handling(*m));
        self.handle_replies(m, data, replies);
    }

    /// Writes the outcome of the fetch of one operation kind to the store,
    /// without the line that opens a turn: see [`AppDataView::after_fetch`].
    pub fn handle_replies(&self, m: &Message, data: &mut AppData, replies: Vec<Reply>)
        ensures
            final(data)@ == old(data)@.after_fetch(*m, views(replies@)),
    {
        let mut replies = replies;
        match m {
            Message::GetFleet => {
                let reply = take_reply(&mut replies, 0);
                self.handle_fleet(data, reply);
            },
            Message::GetWaypoints => {
                self.handle_waypoints(data, replies);
            },
            Message::GetContracts => {
                let reply = take_reply(&mut replies, 0);
                self.handle_contracts(data, reply);
            },
            Message::GetShipyards => {
                self.handle_shipyards(data, replies);
            },
        }
    }
}

/// Every item of a concatenation stands in one of its parts.
pub proof fn lemma_flatten_item<A>(parts: Seq<Seq<A>>, k: int)
    requires
        0 <= k < parts.flatten().len(),
    ensures
        exists|i: int, j: int|
            0 <= i < parts.len() && 0 <= j < parts[i].len() && #[trigger] parts[i][j]
                == parts.flatten()[k],
    decreases parts.len(),
{
    if parts.len() > 0 {
        let first = parts.first();
        let rest = parts.drop_first();
        if k < first.len() {
            assert(parts[0][k] == parts.flatten()[k]);
        } else {
            lemma_flatten_item(rest, k - first.len());
            let (i, j) = choose|i: int, j: int|
                0 <= i < rest.len() && 0 <= j < rest[i].len() && #[trigger] rest[i][j]
                    == rest.flatten()[k - first.len()];
            assert(parts[i + 1][j] == parts.flatten()[k]);
        }
    }
}

/// With no ship known, the turn of the waypoint fetch makes no request,
/// leaves no waypoint in the store, and adds to the log the line that opens
/// the turn and one line that says why nothing was fetched.
pub proof fn lemma_no_ships_no_waypoints(store: AppDataView, replies: Seq<ReplyView>)
    requires
        store.ships.len() == 0,
    ensures
        requests_for(Message::GetWaypoints, store).len() == 0,
        store.after_waypoints(replies) == (AppDataView {
            waypoints: Seq::empty(),
            log: store.log.push(no_ships_line()),
            ..store
        }),
        store.after_message(Message::GetWaypoints, replies) == (AppDataView {
            waypoints: Seq::empty(),
            log: store.log.push(handling_line(Message::GetWaypoints)).push(no_ships_line()),
            ..store
        }),
{
    lemma_collapse_last(ship_systems(store.ships));
}

/// With a ship known, the waypoint fetch asks for at least one system, and
/// for each system that it asks for the log gets exactly one line.
pub proof fn lemma_ships_make_waypoint_requests(store: AppDataView, replies: Seq<ReplyView>)
    requires
        store.ships.len() > 0,
    ensures
        requests_for(Message::GetWaypoints, store).len() > 0,
        store.after_waypoints(replies).log.len() == store.log.len() + requests_for(
            Message::GetWaypoints,
            store,
        ).len(),
{
    lemma_collapse_last(ship_systems(store.ships));
}

/// A contract fetch that fails leaves the contracts, and all else but the
/// log, exactly as they were; the log gets the line that opens the turn and
/// one line that tells of the failure.
pub proof fn lemma_failed_contracts_stay(store: AppDataView, replies: Seq<ReplyView>)
    requires
        !(reply_at(replies, 0) is Contracts),
    ensures
        store.after_contracts(reply_at(replies, 0)) == store.logged(contracts_failed_line()),
        store.after_message(Message::GetContracts, replies) == (AppDataView {
            log: store.log.push(handling_line(Message::GetContracts)).push(
                contracts_failed_line(),
            ),
            ..store
        }),
{
}

/// A fleet fetch that fails leaves the fleet, and all else but the log,
/// exactly as they were; the log gets the line that opens the turn and one
/// line that tells of the failure.
pub proof fn lemma_failed_fleet_stays(store: AppDataView, replies: Seq<ReplyView>)
    requires
        !(reply_at(replies, 0) is Fleet),
    ensures
        store.after_message(Message::GetFleet, replies) == (AppDataView {
            log: store.log.push(handling_line(Message::GetFleet)).push(fleet_failed_line()),
            ..store
        }),
{
}

/// The waypoint fetch asks exactly the systems in which a ship is known: a
/// system is named by one of its requests if and only if some ship of the
/// store is in it.
pub proof fn lemma_waypoint_requests_scope(store: AppDataView, system: Seq<char>)
    ensures
        requests_for(Message::GetWaypoints, store).contains(RequestView::Waypoints { system })
            <==> exists|i: int|
            0 <= i < store.ships.len() && (#[trigger] store.ships[i]).ship.nav.system_symbol
                == system,
{
    let all = ship_systems(store.ships);
    let visible = visible_systems(store.ships);
    let requests = requests_for(Message::GetWaypoints, store);
    lemma_collapse_same_items(all);
    assert(visible.contains(system) <==> all.contains(system));
    if requests.contains(RequestView::Waypoints { system }) {
        let r = choose|r: int|
            0 <= r < requests.len() && requests[r] == (RequestView::Waypoints { system });
        assert(visible[r] == system);
        assert(visible.contains(system));
        let i = choose|i: int| 0 <= i < all.len() && all[i] == system;
        assert(store.ships[i].ship.nav.system_symbol == system);
    }
    if exists|i: int|
        0 <= i < store.ships.len() && (#[trigger] store.ships[i]).ship.nav.system_symbol
            == system {
        let i = choose|i: int|
            0 <= i < store.ships.len() && (#[trigger] store.ships[i]).ship.nav.system_symbol
                == system;
        assert(all[i] == system);
        assert(all.contains(system));
        let r = choose|r: int| 0 <= r < visible.len() && visible[r] == system;
        assert(requests[r] == (RequestView::Waypoints { system }));
    }
}

/// The shipyard fetch asks only waypoints that bear a shipyard: each of its
/// requests names one of them.
pub proof fn lemma_shipyard_request_names_a_shipyard(store: AppDataView, r: int)
    requires
        0 <= r < requests_for(Message::GetShipyards, store).len(),
    ensures
        exists|i: int|
            0 <= i < store.waypoints.len() && (#[trigger] store.waypoints[i]).has_shipyard()
                && requests_for(Message::GetShipyards, store)[r] == (RequestView::Shipyard {
                system: store.waypoints[i].system_symbol,
                waypoint: store.waypoints[i].symbol,
            }),
{
    let bears = |waypoint: WaypointView| waypoint.has_shipyard();
    let yards = shipyard_waypoints(store.waypoints);
    store.waypoints.lemma_filter_pred(bears, r);
    assert(yards.contains(yards[r]));
    store.waypoints.lemma_filter_contains_rev(bears, yards[r]);
    let i = choose|i: int| 0 <= i < store.waypoints.len() && store.waypoints[i] == yards[r];
    assert(store.waypoints[i].has_shipyard());
}

/// The shipyard fetch asks every waypoint that bears a shipyard: each of
/// them is named by one of its requests.
pub proof fn lemma_shipyard_is_asked(store: AppDataView, i: int)
    requires
        0 <= i < store.waypoints.len(),
        store.waypoints[i].has_shipyard(),
    ensures
        requests_for(Message::GetShipyards, store).contains(
            RequestView::Shipyard {
                system: store.waypoints[i].system_symbol,
                waypoint: store.waypoints[i].symbol,
            },
        ),
{
    let bears = |waypoint: WaypointView| waypoint.has_shipyard();
    let yards = shipyard_waypoints(store.waypoints);
    let requests = requests_for(Message::GetShipyards, store);
    store.waypoints.lemma_filter_contains(bears, i);
    let r = choose|r: int| 0 <= r < yards.len() && yards[r] == store.waypoints[i];
    assert(requests[r] == (RequestView::Shipyard {
        system: store.waypoints[i].system_symbol,
        waypoint: store.waypoints[i].symbol,
    }));
}

/// Where exactly one known waypoint bears a shipyard, the shipyard fetch
/// makes exactly one request, the one for that waypoint, and every offer in
/// the store after the fetch is paired with that waypoint.
pub proof fn lemma_one_shipyard_one_request(store: AppDataView, replies: Seq<ReplyView>, k: int)
    requires
        0 <= k < store.waypoints.len(),
        forall|i: int|
            0 <= i < store.waypoints.len() ==> ((#[trigger] store.waypoints[i]).has_shipyard()
                <==> i == k),
    ensures
        requests_for(Message::GetShipyards, store) == seq![
            RequestView::Shipyard {
                system: store.waypoints[k].system_symbol,
                waypoint: store.waypoints[k].symbol,
            },
        ],
        match store.after_shipyards(replies).shipyard_ships {
            Some(listings) => forall|j: int|
                0 <= j < listings.len() ==> (#[trigger] listings[j]).waypoint
                    == store.waypoints[k].symbol,
            None => true,
        },
{
    let bears = |waypoint: WaypointView| waypoint.has_shipyard();
    let known = store.waypoints;
    let front = known.take(k);
    let one = seq![known[k]];
    let back = known.skip(k + 1);
    assert(known =~= front + one + back);
    assert(front.all(|waypoint: WaypointView| !bears(waypoint))) by {
        assert forall|i: int| 0 <= i < front.len() implies !bears(#[trigger] front[i]) by {
            assert(front[i] == known[i]);
        }
    }
    assert(back.all(|waypoint: WaypointView| !bears(waypoint))) by {
        assert forall|i: int| 0 <= i < back.len() implies !bears(#[trigger] back[i]) by {
            assert(back[i] == known[i + k + 1]);
        }
    }
    front.lemma_all_neg_filter_empty(bears);
    back.lemma_all_neg_filter_empty(bears);
    assert(one =~= Seq::<WaypointView>::empty().push(known[k]));
    Seq::<WaypointView>::empty().lemma_filter_len(bears);
    Seq::<WaypointView>::empty().lemma_filter_push(known[k], bears);
    Seq::filter_distributes_over_add(front, one, bears);
    Seq::filter_distributes_over_add(front + one, back, bears);
    let yards = shipyard_waypoints(known);
    assert(yards =~= one);
    assert(requests_for(Message::GetShipyards, store) =~= seq![
        RequestView::Shipyard { system: known[k].system_symbol, waypoint: known[k].symbol },
    ]);
    let parts = listing_parts(yards, replies);
    parts.lemma_flatten_one_element();
    assert(parts.flatten() =~= parts[0]);
}

/// After a shipyard fetch every offer in the store is paired with a waypoint
/// that bears a shipyard.
pub proof fn lemma_offers_come_from_shipyards(store: AppDataView, replies: Seq<ReplyView>, k: int)
    requires
        store.after_shipyards(replies).shipyard_ships is Some,
        0 <= k < store.after_shipyards(replies).shipyard_ships.unwrap().len(),
    ensures
        exists|i: int|
            0 <= i < store.waypoints.len() && (#[trigger] store.waypoints[i]).has_shipyard()
                && store.waypoints[i].symbol == store.after_shipyards(
                replies,
            ).shipyard_ships.unwrap()[k].waypoint,
{
    let bears = |waypoint: WaypointView| waypoint.has_shipyard();
    let yards = shipyard_waypoints(store.waypoints);
    let parts = listing_parts(yards, replies);
    lemma_flatten_item(parts, k);
    let (y, j) = choose|y: int, j: int|
        0 <= y < parts.len() && 0 <= j < parts[y].len() && #[trigger] parts[y][j]
            == parts.flatten()[k];
    assert(parts[y][j].waypoint == yards[y].symbol);
    store.waypoints.lemma_filter_pred(bears, y);
    assert(yards.contains(yards[y]));
    store.waypoints.lemma_filter_contains_rev(bears, yards[y]);
    let i = choose|i: int| 0 <= i < store.waypoints.len() && store.waypoints[i] == yards[y];
    assert(store.waypoints[i].has_shipyard());
}

/// The turn of a kind writes to the collection of that kind and to the log,
/// and to nothing else; and the log only grows: what was logged before the
/// turn is still there, in its place.
pub proof fn lemma_turn_keeps_the_rest(store: AppDataView, kind: Message, replies: Seq<ReplyView>)
    ensures
        ({
            let after = store.after_message(kind, replies);
            &&& after.label == store.label
            &&& after.token == store.token
            &&& after.shipyard_waypoint == store.shipyard_waypoint
            &&& kind != Message::GetFleet ==> after.ships == store.ships
            &&& kind != Message::GetWaypoints ==> after.waypoints == store.waypoints
            &&& kind != Message::GetContracts ==> after.contracts == store.contracts
            &&& kind != Message::GetShipyards ==> after.shipyard_ships == store.shipyard_ships
            &&& after.log.len() > store.log.len()
            &&& after.log.take(store.log.len() as int) == store.log
            &&& after.log[store.log.len() as int] == handling_line(kind)
        }),
{
    let after = store.after_message(kind, replies);
    assert(after.log.take(store.log.len() as int) =~= store.log);
}

} // verus!
