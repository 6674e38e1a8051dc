//! Which of a row of players is playing.
//!
//! Each player is asked for its playback status once, in order. What comes
//! back is a [`Reading`]: a text, or the fact that the read failed. A player
//! counts as playing when its reading is the text "Playing"; a failed read and
//! any other text count as not playing. The player that is selected is the
//! first one that is playing.

use crate::shared::PlaybackStatus;
use vstd::prelude::*;

verus! {

/// What one read of a player's playback status gave.
#[derive(Debug)]
pub enum Reading {
    /// The text that the player reported.
    Status(String),
    /// The read failed: the peer is gone, has no such property, or sent
    /// something that is no string.
    Failed,
}

impl Reading {
    /// The state that the reading stands for, if it stands for one.
    pub open spec fn status(self) -> Option<PlaybackStatus> {
        match self {
            Reading::Status(text) => PlaybackStatus::named(text@),
            Reading::Failed => None,
        }
    }

    /// Whether the reading says that the player is in `state`.
    pub open spec fn shows(self, state: PlaybackStatus) -> bool {
        self.status() == Some(state)
    }

    /// Whether the reading says that the player is playing.
    pub open spec fn is_playing(self) -> bool {
        self.shows(PlaybackStatus::Playing)
    }

    /// The reading that the outcome of a read makes: the text that was read,
    /// or the fact that the read failed, whatever it failed with.
    pub fn of(outcome: Result<String, zbus::Error>) -> (reading: Reading)
        ensures
            match outcome {
                Ok(text) => reading == Reading::Status(text),
                Err(_) => reading == Reading::Failed,
            },
    {
        match outcome {
            Ok(text) => Reading::Status(text),
            Err(_) => Reading::Failed,
        }
    }

    /// The state that the reading stands for; `None` for a failed read and
    /// for a text that names no state.
    pub fn classify(&self) -> (state: Option<PlaybackStatus>)
        ensures
            state == self.status(),
    {
        match self {
            Reading::Status(text) => PlaybackStatus::parse(text.as_str()),
            Reading::Failed => None,
        }
    }

    /// Tells whether the reading says that the player is in `state`.
    pub fn has_status(&self, state: PlaybackStatus) -> (r: bool)
        ensures
            r == self.shows(state),
    {
        match self.classify() {
            Some(found) => found == state,
            None => false,
        }
    }
}

impl Clone for Reading {
    fn clone(&self) -> (copy: Reading)
        ensures
            copy == *self,
    {
        match self {
            Reading::Status(text) => Reading::Status(text.clone()),
            Reading::Failed => Reading::Failed,
        }
    }
}

/// Whether `at` is the position of the first reading that says "playing".
pub open spec fn is_first_playing(readings: Seq<Reading>, at: int) -> bool {
    &&& 0 <= at < readings.len()
    &&& readings[at].is_playing()
    &&& forall|k: int| 0 <= k < at ==> !(#[trigger] readings[k]).is_playing()
}

/// Whether no reading says "playing".
pub open spec fn none_playing(readings: Seq<Reading>) -> bool {
    forall|k: int| 0 <= k < readings.len() ==> !(#[trigger] readings[k]).is_playing()
}

/// Finds the first reading that says "playing".
pub fn first_playing(readings: &Vec<Reading>) -> (found: Option<usize>)
    ensures
        match found {
            Some(at) => is_first_playing(readings@, at as int),
            None => none_playing(readings@),
        },
{
    for i in 0..readings.len()
        invariant
            forall|k: int| 0 <= k < i ==> !(#[trigger] readings@[k]).is_playing(),
    {
        if readings[i].has_status(PlaybackStatus::Playing) {
            return Some(i);
        }
    }
    None
}

/// The readings with every failed one replaced by a report of "Stopped".
pub open spec fn failures_as_stopped(readings: Seq<Reading>, stopped: String) -> Seq<Reading> {
    readings.map_values(
        |reading: Reading|
            match reading {
                Reading::Failed => Reading::Status(stopped),
                other => other,
            },
    )
}

/// A failed read never makes the selection fail, and never selects: it weighs
/// exactly as much as a player that reports "Stopped". The first playing
/// reading is at the same position, and none is playing in the one row exactly
/// when none is in the other.
pub proof fn failed_read_counts_as_not_playing(readings: Seq<Reading>, stopped: String, at: int)
    requires
        stopped@ == PlaybackStatus::Stopped.name(),
    ensures
        !Reading::Failed.is_playing(),
        is_first_playing(readings, at) <==> is_first_playing(
            failures_as_stopped(readings, stopped),
            at,
        ),
        none_playing(readings) <==> none_playing(failures_as_stopped(readings, stopped)),
{
    let calm = failures_as_stopped(readings, stopped);
    PlaybackStatus::Stopped.name_is_read_back();
    assert forall|k: int| 0 <= k < readings.len() implies (#[trigger] calm[k]).is_playing()
        == readings[k].is_playing() by {}
    if is_first_playing(readings, at) {
        assert forall|k: int| 0 <= k < at implies !(#[trigger] calm[k]).is_playing() by {
            assert(!readings[k].is_playing());
        }
    }
    if is_first_playing(calm, at) {
        assert forall|k: int| 0 <= k < at implies !(#[trigger] readings[k]).is_playing() by {
            assert(!calm[k].is_playing());
        }
    }
    if none_playing(readings) {
        assert forall|k: int| 0 <= k < calm.len() implies !(#[trigger] calm[k]).is_playing() by {
            assert(!readings[k].is_playing());
        }
    }
    if none_playing(calm) {
        assert forall|k: int| 0 <= k < readings.len() implies !(
        #[trigger] readings[k]).is_playing() by {
            assert(!calm[k].is_playing());
        }
    }
}

/// At most one position is that of the first playing reading.
pub proof fn first_playing_is_unique(readings: Seq<Reading>, at: int, other: int)
    requires
        is_first_playing(readings, at),
        is_first_playing(readings, other),
    ensures
        at == other,
{
    if at < other {
        assert(!readings[at].is_playing());
    } else if other < at {
        assert(!readings[other].is_playing());
    }
}

} // verus!
