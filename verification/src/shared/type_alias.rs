//! The small types of the protocol: track identifiers, times and addresses.

use crate::bus::{is_object_path, parses_as_object_path};
use crate::text::same_text;
use vstd::prelude::*;

verus! {

/// The identifier that stands for "no track".
pub const NO_TRACK: &'static str = "/org/mpris/MediaPlayer2/TrackList/NoTrack";

/// Time in microseconds.
pub type TimeInUs = i64;

/// A unique resource identifier.
pub type Uri<'a> = &'a str;

/// Unique track identifier.
///
/// If the media player implements the TrackList interface and allows
/// the same track to appear multiple times in the tracklist,
/// this must be unique within the scope of the tracklist.
///
/// It is an object path of the bus, although clients should not assume that
/// any object is actually exported at that path. Paths that start with
/// `/org/mpris` are reserved for the protocol, which gives
/// `/org/mpris/MediaPlayer2/TrackList/NoTrack` the meaning "no track".
#[derive(Debug)]
pub struct TrackId {
    path: String,
}

impl TrackId {
    /// The path that the identifier is.
    pub closed spec fn path(&self) -> Seq<char> {
        self.path@
    }

    /// An identifier is well-formed when it is an object path.
    pub open spec fn wf(&self) -> bool {
        is_object_path(self.path())
    }

    /// The identifier that `path` is; nothing if `path` is no object path.
    pub fn new(path: &str) -> (id: Option<TrackId>)
        ensures
            id is Some <==> is_object_path(path@),
            id matches Some(track) ==> track.path() == path@ && track.wf(),
    {
        if parses_as_object_path(path) {
            Some(TrackId { path: path.to_owned() })
        } else {
            None
        }
    }

    /// The path that the identifier is.
    pub fn as_str(&self) -> (path: &str)
        ensures
            path@ == self.path(),
    {
        self.path.as_str()
    }
}

impl Clone for TrackId {
    fn clone(&self) -> (copy: TrackId)
        ensures
            copy.path() == self.path(),
            self.wf() ==> copy.wf(),
    {
        TrackId { path: self.path.clone() }
    }
}

/// What can be asked of a track identifier.
pub trait TrackIdExt {
    /// Whether the identifier is the one that stands for "no track".
    spec fn stands_for_no_track(&self) -> bool;

    /// Tells whether the identifier is the one that stands for "no track".
    fn is_no_track(&self) -> (r: bool)
        ensures
            r == self.stands_for_no_track(),
    ;
}

impl TrackIdExt for TrackId {
    open spec fn stands_for_no_track(&self) -> bool {
        self.path() == NO_TRACK@
    }

    fn is_no_track(&self) -> (r: bool) {
        same_text(self.as_str(), NO_TRACK)
    }
}

} // verus!
