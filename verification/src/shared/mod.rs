//! The values that the protocol's interfaces exchange.

pub mod loop_status;
pub mod playback_status;
pub mod playlist_ordering;
pub mod playlist_struct;
pub mod type_alias;

pub use crate::names::BASE_PATH;
pub use loop_status::LoopStatus;
pub use playback_status::PlaybackStatus;
pub use playlist_ordering::{orderings_among, PlaylistOrdering};
pub use playlist_struct::{MaybePlaylist, Playlist};
pub use type_alias::{TimeInUs, TrackId, TrackIdExt, Uri, NO_TRACK};
use vstd::prelude::*;

verus! {

/// Wrapper struct that allows to implement traits using foreign types
#[derive(Debug)]
pub struct W<T>(pub T);

impl<T: Clone> Clone for W<T> {
    /// A wrapper around a clone of what is wrapped.
    fn clone(&self) -> (copy: W<T>)
        ensures
            cloned(self.0, copy.0),
    {
        W(self.0.clone())
    }
}

impl<T: Copy> Copy for W<T> {

}

impl<T> core::ops::Deref for W<T> {
    type Target = T;

    /// What is wrapped.
    fn deref(&self) -> (inner: &T)
        ensures
            *inner == self.0,
    {
        &self.0
    }
}

} // verus!
