//! Finding players on a bus: all of them, one by name, the first, or the one
//! that is playing.
//!
//! Each operation asks the bus anew and keeps nothing between calls. What the
//! bus answers cannot be foreseen, so every operation that asks comes with a
//! companion that takes the answer as an argument and says exactly what is
//! made of it: [`bind_all`] for [`all`], [`bind_first`] for [`first`],
//! [`bind_playing`] and [`chosen`] for [`currently_playing`].

use crate::bus::{directory, listed_names, read_text_property};
use crate::error::DiscoveryError;
use crate::handle::{build_handle, can_bind, Handle, Interface};
use crate::names::{
    first_player, is_first_player, is_player, is_player_name, no_player,
    no_player_leaves_nothing, player_names, texts,
};
use crate::playing::{first_playing, is_first_playing, none_playing, Reading};
use crate::shared::PlaybackStatus;
use vstd::prelude::*;
use zbus::blocking::Connection;

verus! {

/// The destinations of a row of handles.
pub open spec fn targets(handles: Seq<Handle>) -> Seq<Seq<char>> {
    handles.map_values(|handle: Handle| handle.target())
}

/// Whether every player among `names` can be given a handle for `interface`.
pub open spec fn all_bindable(names: Seq<Seq<char>>, interface: Interface) -> bool {
    forall|k: int|
        0 <= k < names.len() && is_player_name(#[trigger] names[k]) ==> can_bind(
            names[k],
            interface,
        )
}

/// Asks the registry of the bus for the names that are registered now.
fn registered_names(conn: &Connection) -> (res: Result<Vec<String>, DiscoveryError>)
    ensures
        res matches Err(e) ==> e is Discovery,
{
    let dir = match directory(conn) {
        Ok(dir) => dir,
        Err(e) => {
            return Err(DiscoveryError::Discovery(e));
        },
    };
    match listed_names(&dir) {
        Ok(names) => Ok(names),
        Err(e) => Err(DiscoveryError::Discovery(e)),
    }
}

/// Makes a handle for every player among `names`, in the order of `names`.
///
/// One name that cannot be bound fails the whole call, and the names after it
/// are not looked at. With no player among the names the result is the empty
/// row, which is no error.
pub fn bind_all(conn: &Connection, names: &Vec<String>, interface: Interface) -> (res: Result<
    Vec<Handle>,
    DiscoveryError,
>)
    ensures
        res is Ok <==> all_bindable(texts(names@), interface),
        no_player(texts(names@)) ==> (res matches Ok(handles) && handles.len() == 0),
        res matches Ok(handles) ==> {
            &&& targets(handles@) == player_names(texts(names@))
            &&& forall|i: int|
                0 <= i < handles.len() ==> (#[trigger] handles[i]).role() == interface
                    && handles[i].wf()
        },
        res matches Err(e) ==> e is Construction,
{
    let mut handles: Vec<Handle> = Vec::new();
    let ghost pred = |name: Seq<char>| is_player_name(name);
    proof {
        reveal(Seq::filter);
        assert(texts(names@).take(0).filter(pred) == Seq::<Seq<char>>::empty());
        assert(targets(handles@) == Seq::<Seq<char>>::empty());
    }
    for i in 0..names.len()
        invariant
            pred == (|name: Seq<char>| is_player_name(name)),
            targets(handles@) == texts(names@).take(i as int).filter(pred),
            forall|k: int|
                0 <= k < i && is_player_name(#[trigger] texts(names@)[k]) ==> can_bind(
                    texts(names@)[k],
                    interface,
                ),
            forall|j: int|
                0 <= j < handles.len() ==> (#[trigger] handles[j]).role() == interface
                    && handles[j].wf(),
    {
        let ghost before = texts(names@).take(i as int);
        let ghost bound = targets(handles@);
        proof {
            assert(texts(names@).take(i + 1) == before.push(names[i as int]@));
            before.lemma_filter_push(names[i as int]@, pred);
            assert(texts(names@)[i as int] == names[i as int]@);
        }
        if is_player(names[i].as_str()) {
            match build_handle(conn, names[i].as_str(), interface) {
                Ok(handle) => {
                    handles.push(handle);
                    proof {
                        assert(targets(handles@) == bound.push(names[i as int]@));
                    }
                },
                Err(e) => {
                    return Err(e);
                },
            }
        }
    }
    proof {
        assert(texts(names@).take(names.len() as int) == texts(names@));
        no_player_leaves_nothing(texts(names@));
    }
    Ok(handles)
}

/// A handle for every player that is registered on the bus, in the order in
/// which the registry lists them.
///
/// It fails with [`DiscoveryError::Discovery`] when the registry cannot be
/// asked, and with [`DiscoveryError::Construction`] when a player's name
/// cannot be bound. What is returned for a given answer of the registry is
/// stated by [`bind_all`].
pub fn all(conn: &Connection, interface: Interface) -> (res: Result<Vec<Handle>, DiscoveryError>)
    ensures
        res matches Ok(handles) ==> forall|i: int|
            0 <= i < handles.len() ==> {
                &&& (#[trigger] handles[i]).wf()
                &&& is_player_name(handles[i].target())
                &&& handles[i].role() == interface
            },
        res matches Err(e) ==> e is Discovery || e is Construction,
{
    let names = match registered_names(conn) {
        Ok(names) => names,
        Err(e) => {
            return Err(e);
        },
    };
    let res = bind_all(conn, &names, interface);
    proof {
        if res is Ok {
            let handles = res->Ok_0;
            assert forall|i: int| 0 <= i < handles.len() implies is_player_name(
                (#[trigger] handles[i]).target(),
            ) && handles[i].wf() by {
                texts(names@).lemma_filter_pred(|name: Seq<char>| is_player_name(name), i);
                assert(targets(handles@)[i] == handles[i].target());
            }
        }
    }
    res
}

/// A handle for `interface` of the player at `name`.
///
/// The registry is not asked: the handle is made for the name as it is given,
/// whether or not a peer owns it. It fails exactly when the handle cannot be
/// addressed at `name`, and then with [`DiscoveryError::Construction`].
pub fn by_name(conn: &Connection, name: &str, interface: Interface) -> (res: Result<
    Handle,
    DiscoveryError,
>)
    ensures
        res is Ok <==> can_bind(name@, interface),
        res matches Ok(handle) ==> {
            &&& handle.wf()
            &&& handle.target() == name@
            &&& handle.role() == interface
        },
        res matches Err(e) ==> e is Construction,
{
    build_handle(conn, name, interface)
}

/// A handle for the first player among `names`.
///
/// "First" is first in the order of `names`: they are not sorted. Only that
/// one name is bound.
pub fn bind_first(conn: &Connection, names: &Vec<String>, interface: Interface) -> (res: Result<
    Handle,
    DiscoveryError,
>)
    ensures
        no_player(texts(names@)) ==> (res matches Err(e) && e is NotFound),
        forall|at: int|
            is_first_player(texts(names@), at) && can_bind(texts(names@)[at], interface) ==> {
                &&& res matches Ok(handle)
                &&& handle.target() == texts(names@)[at]
                &&& handle.role() == interface
            },
        forall|at: int|
            is_first_player(texts(names@), at) && !can_bind(texts(names@)[at], interface) ==> {
                &&& res matches Err(e)
                &&& e is Construction
            },
{
    match first_player(names) {
        None => Err(DiscoveryError::NotFound),
        Some(found) => {
            proof {
                assert(texts(names@)[found as int] == names[found as int]@);
                assert forall|at: int| is_first_player(texts(names@), at) implies at == found by {
                    crate::names::first_player_is_unique(texts(names@), at, found as int);
                }
            }
            build_handle(conn, names[found].as_str(), interface)
        },
    }
}

/// A handle for the first player that is registered on the bus.
///
/// It fails with [`DiscoveryError::Discovery`] when the registry cannot be
/// asked, with [`DiscoveryError::NotFound`] when no player is registered, and
/// with [`DiscoveryError::Construction`] when the first player's name cannot
/// be bound. What is returned for a given answer of the registry is stated by
/// [`bind_first`].
pub fn first(conn: &Connection, interface: Interface) -> (res: Result<Handle, DiscoveryError>)
    ensures
        res matches Ok(handle) ==> {
            &&& handle.wf()
            &&& is_player_name(handle.target())
            &&& handle.role() == interface
        },
        res matches Err(e) ==> e is Discovery || e is NotFound || e is Construction,
{
    let names = match registered_names(conn) {
        Ok(names) => names,
        Err(e) => {
            return Err(e);
        },
    };
    let res = bind_first(conn, &names, interface);
    proof {
        if !no_player(texts(names@)) {
            let k = choose|k: int|
                0 <= k < texts(names@).len() && is_player_name(#[trigger] texts(names@)[k]);
            least_player(texts(names@), k);
        }
    }
    res
}

/// The two ways to the first player agree. Where every player among `names`
/// can be bound and there is one, the first player exists, can be bound, and
/// is the head of the players: what [`bind_first`] returns a handle for is what
/// the first handle of [`bind_all`] is for.
pub proof fn first_agrees_with_all(names: Seq<Seq<char>>, interface: Interface)
    requires
        all_bindable(names, interface),
        player_names(names).len() > 0,
    ensures
        exists|at: int|
            {
                &&& #[trigger] is_first_player(names, at)
                &&& can_bind(names[at], interface)
                &&& names[at] == player_names(names)[0]
            },
{
    no_player_leaves_nothing(names);
    let k = choose|k: int| 0 <= k < names.len() && is_player_name(#[trigger] names[k]);
    least_player(names, k);
    let at = choose|at: int| is_first_player(names, at);
    crate::names::first_player_heads_the_players(names, at);
}

/// Where a player stands at `upto`, some position is that of the first player.
proof fn least_player(names: Seq<Seq<char>>, upto: int)
    requires
        0 <= upto < names.len(),
        is_player_name(names[upto]),
    ensures
        exists|at: int| is_first_player(names, at),
    decreases upto,
{
    if exists|k: int| 0 <= k < upto && is_player_name(#[trigger] names[k]) {
        let k = choose|k: int| 0 <= k < upto && is_player_name(#[trigger] names[k]);
        least_player(names, k);
    } else {
        assert(is_first_player(names, upto));
    }
}

/// Reads the playback status of the player behind `handle`, on the interface
/// that the handle stands for. What the player answers cannot be foreseen;
/// what is made of each answer is stated by [`Reading::of`].
pub fn read_status(handle: &Handle) -> Reading {
    Reading::of(read_text_property(handle.proxy(), "PlaybackStatus"))
}

/// Tells whether the player behind `handle` reports `playback_status` now. A
/// read that fails counts as "no". What is made of each reading is stated by
/// [`Reading::has_status`].
pub fn is_playback_status(handle: &Handle, playback_status: PlaybackStatus) -> bool {
    read_status(handle).has_status(playback_status)
}

/// Whether `readings` is what a scan leaves that stops at the first player
/// that is playing: a reading for each handle up to that one, none of them
/// playing but the last, and that one only if the scan stopped early.
pub open spec fn stops_at_first_playing(readings: Seq<Reading>, handles: nat) -> bool {
    &&& readings.len() <= handles
    &&& forall|k: int| 0 <= k < readings.len() - 1 ==> !(#[trigger] readings[k]).is_playing()
    &&& readings.len() < handles ==> readings.len() > 0 && readings.last().is_playing()
}

/// What a scan leaves decides the selection. Either its last reading says
/// "playing", and then that one is the first that does: the player that is
/// selected is the earliest that was playing when it was asked. Or no reading
/// says "playing", and then every handle was asked: nobody is passed by
/// unasked before the scan gives up.
pub proof fn scan_selects_where_it_stopped(readings: Seq<Reading>, handles: nat)
    requires
        stops_at_first_playing(readings, handles),
    ensures
        readings.len() > 0 && readings.last().is_playing() ==> is_first_playing(
            readings,
            readings.len() - 1,
        ),
        !(readings.len() > 0 && readings.last().is_playing()) ==> none_playing(readings)
            && readings.len() == handles,
{
}

/// Asks the players behind `handles` for their playback status, one after the
/// other in the order of `handles`, and stops after the first that is
/// playing: no player after that one is asked.
pub fn read_until_playing(handles: &Vec<Handle>) -> (readings: Vec<Reading>)
    ensures
        stops_at_first_playing(readings@, handles@.len()),
{
    let mut readings: Vec<Reading> = Vec::new();
    let mut i: usize = 0;
    while i < handles.len()
        invariant
            i <= handles.len(),
            readings.len() == i,
            forall|k: int| 0 <= k < readings.len() ==> !(#[trigger] readings@[k]).is_playing(),
        decreases handles.len() - i,
    {
        let reading = read_status(&handles[i]);
        let playing = reading.has_status(PlaybackStatus::Playing);
        readings.push(reading);
        if playing {
            return readings;
        }
        i += 1;
    }
    readings
}

/// The handle that a row of readings selects: a copy of the handle at the
/// position of the first reading that says "playing".
///
/// The reading at a position belongs to the handle at that position. Where no
/// reading says "playing", or the first that does belongs to no handle, the
/// result is [`DiscoveryError::NoActivePlayer`]; so it is for no handles at
/// all.
pub fn chosen(handles: &Vec<Handle>, readings: &Vec<Reading>) -> (res: Result<
    Handle,
    DiscoveryError,
>)
    ensures
        forall|at: int|
            is_first_playing(readings@, at) && at < handles.len() ==> {
                &&& res matches Ok(handle)
                &&& handle.target() == handles[at].target()
                &&& handle.role() == handles[at].role()
            },
        forall|at: int|
            is_first_playing(readings@, at) && at >= handles.len() ==> {
                &&& res matches Err(e)
                &&& e is NoActivePlayer
            },
        none_playing(readings@) ==> (res matches Err(e) && e is NoActivePlayer),
        res matches Err(e) ==> e is NoActivePlayer,
{
    match first_playing(readings) {
        Some(found) => {
            proof {
                assert forall|at: int| is_first_playing(readings@, at) implies at == found by {
                    crate::playing::first_playing_is_unique(readings@, at, found as int);
                }
            }
            if found < handles.len() {
                Ok(handles[found].clone())
            } else {
                Err(DiscoveryError::NoActivePlayer)
            }
        },
        None => Err(DiscoveryError::NoActivePlayer),
    }
}

/// A handle for the player among `names` that is playing: the first one, in
/// the order of `names`, whose playback status reads as "Playing".
///
/// Every player among `names` is bound first, as [`bind_all`] does, and a
/// name that cannot be bound fails the call before any player is asked. With
/// no player among `names` nobody is asked and the result is
/// [`DiscoveryError::NoActivePlayer`]. A player whose status cannot be read
/// is passed over.
pub fn bind_playing(conn: &Connection, names: &Vec<String>, interface: Interface) -> (res: Result<
    Handle,
    DiscoveryError,
>)
    ensures
        !all_bindable(texts(names@), interface) ==> (res matches Err(e) && e is Construction),
        no_player(texts(names@)) ==> (res matches Err(e) && e is NoActivePlayer),
        res matches Ok(handle) ==> {
            &&& handle.wf()
            &&& player_names(texts(names@)).contains(handle.target())
            &&& handle.role() == interface
        },
        res matches Err(e) ==> e is Construction || e is NoActivePlayer,
        res matches Err(e) && e is Construction ==> !all_bindable(texts(names@), interface),
{
    let handles = match bind_all(conn, names, interface) {
        Ok(handles) => handles,
        Err(e) => {
            return Err(e);
        },
    };
    let readings = read_until_playing(&handles);
    let res = chosen(&handles, &readings);
    proof {
        no_player_leaves_nothing(texts(names@));
        if res is Ok {
            let handle = res->Ok_0;
            assert(!none_playing(readings@));
            let k = choose|k: int|
                0 <= k < readings@.len() && (#[trigger] readings@[k]).is_playing();
            least_playing(readings@, k);
            let at = choose|at: int| is_first_playing(readings@, at);
            assert(targets(handles@)[at] == handles[at].target());
        }
    }
    res
}

/// Where a reading at `upto` says "playing", some position is that of the
/// first such reading.
proof fn least_playing(readings: Seq<Reading>, upto: int)
    requires
        0 <= upto < readings.len(),
        readings[upto].is_playing(),
    ensures
        exists|at: int| is_first_playing(readings, at),
    decreases upto,
{
    if exists|k: int| 0 <= k < upto && (#[trigger] readings[k]).is_playing() {
        let k = choose|k: int| 0 <= k < upto && (#[trigger] readings[k]).is_playing();
        least_playing(readings, k);
    } else {
        assert(is_first_playing(readings, upto));
    }
}

/// A handle for the player that is playing now: the first one, in the order
/// in which the registry lists the players, whose playback status reads as
/// "Playing" when it is asked.
///
/// It fails with [`DiscoveryError::Discovery`] when the registry cannot be
/// asked, and with [`DiscoveryError::NoActivePlayer`] when no player is
/// playing or none is registered. A player whose status cannot be read does
/// not fail the call: it counts as not playing. What is returned for a given
/// answer of the registry and given readings is stated by [`bind_playing`] and
/// [`chosen`].
pub fn currently_playing(conn: &Connection, interface: Interface) -> (res: Result<
    Handle,
    DiscoveryError,
>)
    ensures
        res matches Ok(handle) ==> {
            &&& handle.wf()
            &&& is_player_name(handle.target())
            &&& handle.role() == interface
        },
        res matches Err(e) ==> e is Discovery || e is Construction || e is NoActivePlayer,
{
    let names = match registered_names(conn) {
        Ok(names) => names,
        Err(e) => {
            return Err(e);
        },
    };
    let res = bind_playing(conn, &names, interface);
    proof {
        if res is Ok {
            let handle = res->Ok_0;
            let kept = player_names(texts(names@));
            let w = choose|w: int| 0 <= w < kept.len() && kept[w] == handle.target();
            texts(names@).lemma_filter_pred(|name: Seq<char>| is_player_name(name), w);
        }
    }
    res
}

} // verus!
