//! The station roster: every selectable endpoint of a station, and
//! the resolution of a requested station id to its stream URL.

use vstd::prelude::*;
use vstd::seq_lib::group_to_multiset_ensures;
use vstd::seq_lib::to_multiset_insert;
use vstd::seq_lib::to_multiset_remove;

use crate::error::RadioError;
use crate::models::{CodeRadioMessage, Mount, Remote, spec_remote_of_mount};

verus! {

/// The full roster of a message's station: the remotes, then the
/// mounts taken as remotes.
pub open spec fn spec_roster(message: CodeRadioMessage) -> Seq<Remote> {
    message.station.remotes@ + message.station.mounts@.map_values(
        |mount: Mount| spec_remote_of_mount(mount),
    )
}

/// Station entries in non-decreasing id order.
pub open spec fn spec_sorted_by_id(stations: Seq<Remote>) -> bool {
    forall|i: int, j: int|
        0 <= i < j < stations.len() ==> #[trigger] stations[i].id <= #[trigger] stations[j].id
}

/// Whether some roster entry carries the given id.
pub open spec fn spec_roster_has_id(roster: Seq<Remote>, id: i64) -> bool {
    exists|k: int| 0 <= k < roster.len() && #[trigger] roster[k].id == id
}

/// Copy a message's roster out as owned values, remotes first.
fn roster_of_message(message: &CodeRadioMessage) -> (roster: Vec<Remote>)
    ensures
        roster@ == spec_roster(*message),
{
    let remotes = &message.station.remotes;
    let mounts = &message.station.mounts;
    let mounts_as_remotes = Ghost(
        mounts@.map_values(|mount: Mount| spec_remote_of_mount(mount)),
    );
    let mut roster: Vec<Remote> = Vec::new();
    let mut i: usize = 0;
    while i < remotes.len()
        invariant
            i <= remotes@.len(),
            roster@ == remotes@.take(i as int),
        decreases remotes@.len() - i,
    {
        roster.push(remotes[i].clone());
        assert(remotes@.take(i + 1 as int) =~= remotes@.take(i as int).push(remotes@[i as int]));
        i = i + 1;
    }
    assert(roster@ =~= remotes@);
    let mut j: usize = 0;
    while j < mounts.len()
        invariant
            j <= mounts@.len(),
            mounts_as_remotes@ == mounts@.map_values(|mount: Mount| spec_remote_of_mount(mount)),
            roster@ == remotes@ + mounts_as_remotes@.take(j as int),
        decreases mounts@.len() - j,
    {
        roster.push(Remote::from(mounts[j].clone()));
        assert(mounts_as_remotes@.take(j + 1 as int) =~= mounts_as_remotes@.take(j as int).push(
            mounts_as_remotes@[j as int],
        ));
        assert(roster@ =~= remotes@ + mounts_as_remotes@.take(j + 1 as int));
        j = j + 1;
    }
    assert(mounts_as_remotes@.take(j as int) =~= mounts_as_remotes@);
    roster
}

/// The index before which `id` belongs in a sorted roster: everything
/// before it is at most `id`, everything from it on is greater.
fn sorted_insert_position(stations: &Vec<Remote>, id: i64) -> (position: usize)
    requires
        spec_sorted_by_id(stations@),
    ensures
        position <= stations@.len(),
        forall|k: int| 0 <= k < position ==> #[trigger] stations@[k].id <= id,
        forall|k: int| position <= k < stations@.len() ==> #[trigger] stations@[k].id > id,
{
    let mut position: usize = 0;
    while position < stations.len() && stations[position].id <= id
        invariant
            position <= stations@.len(),
            spec_sorted_by_id(stations@),
            forall|k: int| 0 <= k < position ==> #[trigger] stations@[k].id <= id,
        decreases stations@.len() - position,
    {
        position = position + 1;
    }
    position
}

/// All of a station's selectable endpoints, remotes and mounts alike,
/// sorted by id. Entries that share an id all stay in the roster.
pub fn get_stations_from_message(message: &CodeRadioMessage) -> (stations: Vec<Remote>)
    ensures
        stations@.to_multiset() == spec_roster(*message).to_multiset(),
        spec_sorted_by_id(stations@),
{
    let mut roster = roster_of_message(message);
    let mut stations: Vec<Remote> = Vec::new();
    proof {
        broadcast use group_to_multiset_ensures;

        assert(stations@.to_multiset().add(roster@.to_multiset()) =~= spec_roster(
            *message,
        ).to_multiset());
    }
    while roster.len() > 0
        invariant
            spec_sorted_by_id(stations@),
            stations@.to_multiset().add(roster@.to_multiset()) == spec_roster(
                *message,
            ).to_multiset(),
        decreases roster@.len(),
    {
        let ghost old_roster = roster@;
        let ghost old_stations = stations@;
        let next = roster.remove(0);
        let position = sorted_insert_position(&stations, next.id);
        stations.insert(position, next);
        proof {
            broadcast use group_to_multiset_ensures;
            broadcast use to_multiset_insert;
            broadcast use to_multiset_remove;

            assert(roster@ == old_roster.remove(0));
            assert(stations@ == old_stations.insert(position as int, next));
            assert(old_roster.to_multiset().count(next) > 0);
            assert(stations@.to_multiset().add(roster@.to_multiset()) =~= old_stations.to_multiset(
            ).add(old_roster.to_multiset()));
            assert forall|i: int, j: int| 0 <= i < j < stations@.len() implies #[trigger] stations@[i].id
                <= #[trigger] stations@[j].id by {
                if j < position {
                    assert(stations@[i] == old_stations[i] && stations@[j] == old_stations[j]);
                } else if i > position {
                    assert(stations@[i] == old_stations[i - 1] && stations@[j] == old_stations[j
                        - 1]);
                } else if i == position && j > position {
                    assert(stations@[j] == old_stations[j - 1]);
                } else if j == position && i < position {
                    assert(stations@[i] == old_stations[i]);
                } else if i < position && j > position {
                    assert(stations@[i] == old_stations[i] && stations@[j] == old_stations[j - 1]);
                }
            }
        }
    }
    stations
}

/// The first station of the roster carrying the given id, if any.
pub fn find_station_by_id<'a>(stations: &'a Vec<Remote>, id: i64) -> (found: Option<&'a Remote>)
    ensures
        match found {
            Some(station) => station.id == id && stations@.contains(*station),
            None => !spec_roster_has_id(stations@, id),
        },
{
    let mut i: usize = 0;
    while i < stations.len()
        invariant
            i <= stations@.len(),
            forall|k: int| 0 <= k < i ==> #[trigger] stations@[k].id != id,
        decreases stations@.len() - i,
    {
        if stations[i].id == id {
            return Some(&stations[i]);
        }
        i = i + 1;
    }
    None
}

/// The first station of the roster carrying the given name, if any.
pub fn find_station_by_name<'a>(stations: &'a Vec<Remote>, name: &String) -> (found: Option<
    &'a Remote,
>)
    ensures
        match found {
            Some(station) => station.name@ == name@ && stations@.contains(*station),
            None => forall|k: int| 0 <= k < stations@.len() ==> #[trigger] stations@[k].name@ != name@,
        },
{
    let mut i: usize = 0;
    while i < stations.len()
        invariant
            i <= stations@.len(),
            forall|k: int| 0 <= k < i ==> #[trigger] stations@[k].name@ != name@,
        decreases stations@.len() - i,
    {
        if stations[i].name == *name {
            return Some(&stations[i]);
        }
        i = i + 1;
    }
    None
}

/// Resolve the stream URL for a session's start, once, from the first
/// received message: a requested station id is looked up in the
/// roster and is a fatal error when absent; with no request the
/// station's primary listen URL is used.
pub fn resolve_listen_url(message: &CodeRadioMessage, requested_station_id: Option<i64>) -> (resolved:
    Result<String, RadioError>)
    ensures
        match requested_station_id {
            None => resolved matches Ok(url) && url@ == message.station.listen_url@,
            Some(id) => {
                &&& (resolved matches Ok(url) ==> exists|k: int|
                    0 <= k < spec_roster(*message).len() && #[trigger] spec_roster(*message)[k].id
                        == id && spec_roster(*message)[k].url@ == url@)
                &&& (resolved matches Err(error) ==> error matches RadioError::StationNotFound {
                    station_id,
                } && station_id == id)
                &&& ((resolved matches Ok(url)) <==> spec_roster_has_id(spec_roster(*message), id))
            },
        },
{
    match requested_station_id {
        None => Ok(message.station.listen_url.clone()),
        Some(id) => {
            let stations = get_stations_from_message(message);
            match find_station_by_id(&stations, id) {
                Some(station) => {
                    proof {
                        broadcast use group_to_multiset_ensures;

                        assert(stations@.to_multiset().count(*station) > 0);
                        assert(spec_roster(*message).contains(*station));
                        let k = choose|k: int|
                            0 <= k < spec_roster(*message).len() && spec_roster(*message)[k]
                                == *station;
                        assert(spec_roster(*message)[k].id == id);
                    }
                    Ok(station.url.clone())
                },
                None => {
                    proof {
                        broadcast use group_to_multiset_ensures;

                        if spec_roster_has_id(spec_roster(*message), id) {
                            let k = choose|k: int|
                                0 <= k < spec_roster(*message).len() && #[trigger] spec_roster(
                                    *message,
                                )[k].id == id;
                            assert(spec_roster(*message).contains(spec_roster(*message)[k]));
                            assert(stations@.to_multiset().count(spec_roster(*message)[k]) > 0);
                            assert(stations@.contains(spec_roster(*message)[k]));
                            let j = choose|j: int|
                                0 <= j < stations@.len() && stations@[j] == spec_roster(*message)[k];
                            assert(stations@[j].id == id);
                            assert(false);
                        }
                    }
                    Err(RadioError::StationNotFound { station_id: id })
                },
            }
        },
    }
}

} // verus!
