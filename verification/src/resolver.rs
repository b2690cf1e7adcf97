//! What a fetch asks for, derived from what was fetched before: the systems
//! in which a ship is known, and the waypoints that bear a shipyard.

use crate::models::{borrowed_views, views, Waypoint, WaypointView};
use crate::spacetraders::{ShipWithNav, ShipWithNavView};
use vstd::prelude::*;

verus! {

/// A sequence with every run of equal neighbours collapsed to its first
/// item. Equal items that are apart stay apart.
pub open spec fn collapse<A>(items: Seq<A>) -> Seq<A>
    decreases items.len(),
{
    if items.len() == 0 {
        items
    } else if items.len() >= 2 && items[items.len() - 2] == items.last() {
        collapse(items.drop_last())
    } else {
        collapse(items.drop_last()).push(items.last())
    }
}

/// The system of each ship, in the order of the fleet.
pub open spec fn ship_systems(ships: Seq<ShipWithNavView>) -> Seq<Seq<char>> {
    ships.map_values(|record: ShipWithNavView| record.ship.nav.system_symbol)
}

/// The systems in which a ship is known, in the order of the fleet, ships
/// that follow each other in one system counted once.
pub open spec fn visible_systems(ships: Seq<ShipWithNavView>) -> Seq<Seq<char>> {
    collapse(ship_systems(ships))
}

/// The waypoints that bear a shipyard, in the order in which they are known.
pub open spec fn shipyard_waypoints(waypoints: Seq<WaypointView>) -> Seq<WaypointView> {
    waypoints.filter(|waypoint: WaypointView| waypoint.has_shipyard())
}

/// Where the last hyphen of a symbol stands, if the symbol holds one.
pub open spec fn last_hyphen(symbol: Seq<char>) -> Option<int>
    decreases symbol.len(),
{
    if symbol.len() == 0 {
        None
    } else if symbol.last() == '-' {
        Some(symbol.len() - 1)
    } else {
        last_hyphen(symbol.drop_last())
    }
}

/// The system that a waypoint symbol names: what stands before its last
/// hyphen. A symbol without a hyphen names none.
pub open spec fn system_part(symbol: Seq<char>) -> Option<Seq<char>> {
    match last_hyphen(symbol) {
        Some(cut) => Some(symbol.take(cut)),
        None => None,
    }
}

/// The last hyphen is a hyphen with none behind it, and a symbol has none
/// only where no hyphen stands in it.
pub proof fn lemma_last_hyphen(symbol: Seq<char>)
    ensures
        match last_hyphen(symbol) {
            Some(cut) => 0 <= cut < symbol.len() && symbol[cut] == '-' && forall|i: int|
                cut < i < symbol.len() ==> symbol[i] != '-',
            None => forall|i: int| 0 <= i < symbol.len() ==> symbol[i] != '-',
        },
    decreases symbol.len(),
{
    if symbol.len() > 0 && symbol.last() != '-' {
        let front = symbol.drop_last();
        lemma_last_hyphen(front);
        assert(forall|i: int| 0 <= i < front.len() ==> front[i] == symbol[i]);
    }
}

/// A collapsed sequence is empty only where the sequence is, and ends with
/// the item that the sequence ends with.
pub proof fn lemma_collapse_last<A>(items: Seq<A>)
    ensures
        collapse(items).len() == 0 <==> items.len() == 0,
        items.len() > 0 ==> collapse(items).last() == items.last(),
        collapse(items).len() <= items.len(),
    decreases items.len(),
{
    if items.len() > 0 {
        lemma_collapse_last(items.drop_last());
    }
}

/// No two neighbours in a collapsed sequence are equal.
pub proof fn lemma_collapse_no_equal_neighbours<A>(items: Seq<A>)
    ensures
        forall|i: int|
            0 < i < collapse(items).len() ==> collapse(items)[i - 1] != #[trigger] collapse(
                items,
            )[i],
    decreases items.len(),
{
    if items.len() > 0 {
        lemma_collapse_no_equal_neighbours(items.drop_last());
        lemma_collapse_last(items.drop_last());
    }
}

/// Collapsing neither loses an item nor invents one: a value occurs in the
/// collapsed sequence exactly if it occurs in the sequence.
pub proof fn lemma_collapse_same_items<A>(items: Seq<A>)
    ensures
        forall|item: A| #[trigger] collapse(items).contains(item) <==> items.contains(item),
    decreases items.len(),
{
    if items.len() > 0 {
        let front = items.drop_last();
        lemma_collapse_same_items(front);
        assert forall|item: A| #[trigger] collapse(items).contains(item) <==> items.contains(
            item,
        ) by {
            if items.contains(item) {
                let i = choose|i: int| 0 <= i < items.len() && items[i] == item;
                if i < items.len() - 1 {
                    assert(front[i] == item);
                    assert(front.contains(item));
                    assert(collapse(front).contains(item));
                    let j = choose|j: int|
                        0 <= j < collapse(front).len() && collapse(front)[j] == item;
                    assert(collapse(items)[j] == item);
                } else if items.len() >= 2 && items[items.len() - 2] == items.last() {
                    assert(front[items.len() - 2] == item);
                    assert(front.contains(item));
                } else {
                    assert(collapse(items)[collapse(items).len() - 1] == item);
                }
            }
            if collapse(items).contains(item) {
                let j = choose|j: int|
                    0 <= j < collapse(items).len() && collapse(items)[j] == item;
                if j < collapse(front).len() {
                    assert(collapse(front)[j] == item);
                    assert(collapse(front).contains(item));
                    let i = choose|i: int| 0 <= i < front.len() && front[i] == item;
                    assert(items[i] == item);
                } else {
                    assert(items[items.len() - 1] == item);
                }
            }
        }
    }
}

/// The systems in which a ship is known: see [`visible_systems`].
pub fn systems_of(ships: &Vec<ShipWithNav>) -> (systems: Vec<String>)
    ensures
        views(systems@) == visible_systems(views(ships@)),
{
    let mut systems: Vec<String> = Vec::new();
    let ghost all = ship_systems(views(ships@));
    let mut i: usize = 0;
    while i < ships.len()
        invariant
            i <= ships.len(),
            all == ship_systems(views(ships@)),
            all.len() == ships.len(),
            views(systems@) == collapse(all.take(i as int)),
        decreases ships.len() - i,
    {
        let system = &ships[i].ship.nav.system_symbol;
        proof {
            assert(all.take(i + 1).drop_last() =~= all.take(i as int));
            assert(all.take(i + 1).last() == system@);
            if i > 0 {
                lemma_collapse_last(all.take(i as int));
                assert(all.take(i as int).last() == all[i - 1]);
                assert(all.take(i + 1)[i - 1] == all[i - 1]);
            }
        }
        let repeated = i > 0 && ships[i - 1].ship.nav.system_symbol == *system;
        if !repeated {
            systems.push(system.clone());
            assert(views(systems@) =~= collapse(all.take(i as int)).push(system@));
        }
        i = i + 1;
    }
    assert(all.take(ships.len() as int) =~= all);
    systems
}

/// The waypoints that bear a shipyard: see [`shipyard_waypoints`].
pub fn shipyards_of(waypoints: &Vec<Waypoint>) -> (yards: Vec<&Waypoint>)
    ensures
        borrowed_views(yards@) == shipyard_waypoints(views(waypoints@)),
{
    let mut yards: Vec<&Waypoint> = Vec::new();
    let ghost known = views(waypoints@);
    let ghost bears = |waypoint: WaypointView| waypoint.has_shipyard();
    let mut i: usize = 0;
    proof {
        known.take(0).lemma_filter_len(bears);
        assert(borrowed_views(yards@) =~= known.take(0).filter(bears));
    }
    while i < waypoints.len()
        invariant
            i <= waypoints.len(),
            known == views(waypoints@),
            bears == |waypoint: WaypointView| waypoint.has_shipyard(),
            borrowed_views(yards@) == known.take(i as int).filter(bears),
        decreases waypoints.len() - i,
    {
        proof {
            assert(known[i as int] == waypoints@[i as int]@);
            assert(known.take(i + 1) =~= known.take(i as int).push(known[i as int]));
            known.take(i as int).lemma_filter_push(known[i as int], bears);
        }
        if waypoints[i].has_shipyard() {
            let ghost before = borrowed_views(yards@);
            yards.push(&waypoints[i]);
            assert(borrowed_views(yards@) =~= before.push(known[i as int]));
        }
        i = i + 1;
    }
    assert(known.take(waypoints.len() as int) =~= known);
    yards
}

/// The system that a waypoint symbol names: see [`system_part`].
pub fn system_of(symbol: &str) -> (system: Option<String>)
    ensures
        system is Some == system_part(symbol@) is Some,
        system is Some ==> system.unwrap()@ == system_part(symbol@).unwrap(),
{
    let length = symbol.unicode_len();
    let mut end: usize = length;
    assert(symbol@.take(length as int) =~= symbol@);
    while end > 0
        invariant
            end <= length,
            length == symbol@.len(),
            last_hyphen(symbol@) == last_hyphen(symbol@.take(end as int)),
        decreases end,
    {
        let c = symbol.get_char(end - 1);
        proof {
            assert(symbol@.take(end as int).last() == c);
            assert(symbol@.take(end as int).drop_last() =~= symbol@.take(end - 1));
        }
        if c == '-' {
            let part = symbol.substring_char(0, end - 1);
            assert(part@ =~= symbol@.take(end - 1));
            return Some(String::from_str(part));
        }
        end = end - 1;
    }
    None
}

} // verus!
