//! Which of the names registered on a bus belong to media players.
//!
//! A registry hands out its names in some order. That order is kept: the
//! players are the names that begin with [`BASE_PATH`], in the order in which
//! the registry listed them, and the first player is the first such name.

use crate::text::starts_with;
use vstd::prelude::*;

verus! {

/// The prefix that every MPRIS2 player's service name begins with.
pub const BASE_PATH: &'static str = "org.mpris.MediaPlayer2.";

/// A name is a player's name when it begins with [`BASE_PATH`].
pub open spec fn is_player_name(name: Seq<char>) -> bool {
    BASE_PATH@.is_prefix_of(name)
}

/// The characters of each name.
pub open spec fn texts(names: Seq<String>) -> Seq<Seq<char>> {
    names.map_values(|name: String| name@)
}

/// The players among `names`, in the order of `names`.
pub open spec fn player_names(names: Seq<Seq<char>>) -> Seq<Seq<char>> {
    names.filter(|name: Seq<char>| is_player_name(name))
}

/// Whether `at` is the position of the first player in `names`.
pub open spec fn is_first_player(names: Seq<Seq<char>>, at: int) -> bool {
    &&& 0 <= at < names.len()
    &&& is_player_name(names[at])
    &&& forall|k: int| 0 <= k < at ==> !is_player_name(#[trigger] names[k])
}

/// Whether `names` holds no player at all.
pub open spec fn no_player(names: Seq<Seq<char>>) -> bool {
    forall|k: int| 0 <= k < names.len() ==> !is_player_name(#[trigger] names[k])
}

/// Tells whether `name` is a player's name.
pub fn is_player(name: &str) -> (r: bool)
    ensures
        r == is_player_name(name@),
{
    starts_with(name, BASE_PATH)
}

/// Keeps the players among `names`, in their order.
pub fn players(names: &Vec<String>) -> (kept: Vec<String>)
    ensures
        texts(kept@) == player_names(texts(names@)),
{
    let mut kept: Vec<String> = Vec::new();
    let ghost pred = |name: Seq<char>| is_player_name(name);
    proof {
        reveal(Seq::filter);
        assert(texts(names@).take(0).filter(pred) == Seq::<Seq<char>>::empty());
        assert(texts(kept@) == Seq::<Seq<char>>::empty());
    }
    for i in 0..names.len()
        invariant
            pred == (|name: Seq<char>| is_player_name(name)),
            texts(kept@) == texts(names@).take(i as int).filter(pred),
    {
        let ghost before = texts(names@).take(i as int);
        let ghost kept_before = texts(kept@);
        proof {
            assert(texts(names@).take(i + 1) == before.push(names[i as int]@));
            before.lemma_filter_push(names[i as int]@, pred);
        }
        if is_player(names[i].as_str()) {
            kept.push(names[i].clone());
            proof {
                assert(texts(kept@) == kept_before.push(names[i as int]@));
            }
        }
    }
    proof {
        assert(texts(names@).take(names.len() as int) == texts(names@));
    }
    kept
}

/// Finds the first player among `names`.
pub fn first_player(names: &Vec<String>) -> (found: Option<usize>)
    ensures
        match found {
            Some(at) => is_first_player(texts(names@), at as int),
            None => no_player(texts(names@)),
        },
{
    for i in 0..names.len()
        invariant
            forall|k: int| 0 <= k < i ==> !is_player_name(#[trigger] texts(names@)[k]),
    {
        if is_player(names[i].as_str()) {
            return Some(i);
        }
    }
    None
}

/// The positions in `names` at which a player stands, in increasing order.
pub open spec fn player_positions(names: Seq<Seq<char>>) -> Seq<int>
    decreases names.len(),
{
    if names.len() == 0 {
        Seq::empty()
    } else {
        let before = player_positions(names.drop_last());
        if is_player_name(names.last()) {
            before.push(names.len() - 1)
        } else {
            before
        }
    }
}

/// The players are listed in the order of the registry, each once for each
/// position at which the registry lists it, and nothing else is listed: the
/// `i`-th player is the name at the `i`-th player position, the positions
/// increase, and every position that holds a player's name is among them.
pub proof fn players_keep_registry_order(names: Seq<Seq<char>>)
    ensures
        player_positions(names).len() == player_names(names).len(),
        forall|i: int|
            0 <= i < player_positions(names).len() ==> {
                &&& 0 <= #[trigger] player_positions(names)[i] < names.len()
                &&& names[player_positions(names)[i]] == player_names(names)[i]
            },
        forall|i: int, j: int|
            0 <= i < j < player_positions(names).len() ==> #[trigger] player_positions(names)[i]
                < #[trigger] player_positions(names)[j],
        forall|k: int|
            0 <= k < names.len() && is_player_name(#[trigger] names[k]) ==> player_positions(
                names,
            ).contains(k),
    decreases names.len(),
{
    let pred = |name: Seq<char>| is_player_name(name);
    if names.len() == 0 {
        reveal(Seq::filter);
    } else {
        let front = names.drop_last();
        let at = player_positions(names);
        players_keep_registry_order(front);
        assert(front.push(names.last()) == names);
        front.lemma_filter_push(names.last(), pred);
        assert forall|k: int| 0 <= k < names.len() && is_player_name(
            #[trigger] names[k],
        ) implies at.contains(k) by {
            if k < names.len() - 1 {
                assert(front[k] == names[k]);
                let w = choose|w: int|
                    0 <= w < player_positions(front).len() && player_positions(front)[w] == k;
                assert(at[w] == k);
            } else {
                assert(at[at.len() - 1] == k);
            }
        }
    }
}

/// The number of players is the number of registered names that begin with
/// the prefix.
pub proof fn players_are_counted(names: Seq<Seq<char>>)
    ensures
        player_names(names).len() == Set::new(
            |k: int| 0 <= k < names.len() && is_player_name(names[k]),
        ).len(),
    decreases names.len(),
{
    let pred = |name: Seq<char>| is_player_name(name);
    let here = Set::new(|k: int| 0 <= k < names.len() && is_player_name(names[k]));
    if names.len() == 0 {
        reveal(Seq::filter);
        assert(here == Set::<int>::empty());
    } else {
        let front = names.drop_last();
        let there = Set::new(|k: int| 0 <= k < front.len() && is_player_name(front[k]));
        players_are_counted(front);
        assert(front.push(names.last()) == names);
        front.lemma_filter_push(names.last(), pred);
        assert(there.subset_of(Set::new(|k: int| 0 <= k < front.len())));
        vstd::set_lib::lemma_int_range(0, front.len() as int);
        assert(Set::new(|k: int| 0 <= k < front.len()) == vstd::set_lib::set_int_range(
            0,
            front.len() as int,
        ));
        vstd::set_lib::lemma_len_subset(there, vstd::set_lib::set_int_range(0, front.len() as int));
        if is_player_name(names.last()) {
            assert(here == there.insert(names.len() - 1));
        } else {
            assert(here == there);
        }
    }
}

/// Where the registry lists no player, no player is kept, and the other way
/// round.
pub proof fn no_player_leaves_nothing(names: Seq<Seq<char>>)
    ensures
        no_player(names) <==> player_names(names).len() == 0,
{
    players_keep_registry_order(names);
    if no_player(names) {
        if player_names(names).len() > 0 {
            assert(is_player_name(names[player_positions(names)[0]])) by {
                names.lemma_filter_pred(|name: Seq<char>| is_player_name(name), 0);
            }
        }
    } else {
        let k = choose|k: int| 0 <= k < names.len() && is_player_name(#[trigger] names[k]);
        assert(player_positions(names).contains(k));
    }
}

/// The first player stands at the head of the players: picking the first
/// matching name and taking the first of all the matching names agree.
pub proof fn first_player_heads_the_players(names: Seq<Seq<char>>, at: int)
    requires
        is_first_player(names, at),
    ensures
        player_names(names).len() > 0,
        player_names(names)[0] == names[at],
{
    players_keep_registry_order(names);
    no_player_leaves_nothing(names);
    let positions = player_positions(names);
    assert(positions.contains(at));
    let w = choose|w: int| 0 <= w < positions.len() && positions[w] == at;
    let head = positions[0];
    names.lemma_filter_pred(|name: Seq<char>| is_player_name(name), 0);
    if w != 0 {
        assert(positions[0] < positions[w]);
        assert(is_player_name(names[head]));
    }
}

/// At most one position is that of the first player.
pub proof fn first_player_is_unique(names: Seq<Seq<char>>, at: int, other: int)
    requires
        is_first_player(names, at),
        is_first_player(names, other),
    ensures
        at == other,
{
    if at < other {
        assert(!is_player_name(names[at]));
    } else if other < at {
        assert(!is_player_name(names[other]));
    }
}

} // verus!
