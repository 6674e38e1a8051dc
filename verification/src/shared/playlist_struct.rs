//! A playlist as a player describes it.

use crate::bus::{is_object_path, parses_as_object_path};
use crate::shared::W;
use vstd::prelude::*;

verus! {

/// A playlist: its identifier, which is an object path, the name that the
/// player shows for it, and the address of its icon or contents.
#[derive(Debug)]
pub struct Playlist {
    playlist_id: String,
    name: String,
    uri: String,
}

impl Playlist {
    /// The object path that identifies the playlist.
    pub closed spec fn id(&self) -> Seq<char> {
        self.playlist_id@
    }

    /// The name of the playlist.
    pub closed spec fn title(&self) -> Seq<char> {
        self.name@
    }

    /// The address that comes with the playlist.
    pub closed spec fn address(&self) -> Seq<char> {
        self.uri@
    }

    /// A playlist is well-formed when its identifier is an object path.
    pub open spec fn wf(&self) -> bool {
        is_object_path(self.id())
    }

    /// The playlist with these three parts; nothing if `playlist_id` is no
    /// object path.
    pub fn new(playlist_id: &str, name: &str, uri: &str) -> (made: Option<Playlist>)
        ensures
            made is Some <==> is_object_path(playlist_id@),
            made matches Some(playlist) ==> {
                &&& playlist.wf()
                &&& playlist.id() == playlist_id@
                &&& playlist.title() == name@
                &&& playlist.address() == uri@
            },
    {
        if parses_as_object_path(playlist_id) {
            Some(
                Playlist {
                    playlist_id: playlist_id.to_owned(),
                    name: name.to_owned(),
                    uri: uri.to_owned(),
                },
            )
        } else {
            None
        }
    }

    /// The object path that identifies the playlist.
    pub fn playlist_id(&self) -> (id: &str)
        ensures
            id@ == self.id(),
    {
        self.playlist_id.as_str()
    }

    /// The name of the playlist.
    pub fn name(&self) -> (name: &str)
        ensures
            name@ == self.title(),
    {
        self.name.as_str()
    }

    /// The address that comes with the playlist.
    pub fn uri(&self) -> (uri: &str)
        ensures
            uri@ == self.address(),
    {
        self.uri.as_str()
    }
}

impl Clone for Playlist {
    fn clone(&self) -> (copy: Playlist)
        ensures
            copy.id() == self.id(),
            copy.title() == self.title(),
            copy.address() == self.address(),
    {
        Playlist {
            playlist_id: self.playlist_id.clone(),
            name: self.name.clone(),
            uri: self.uri.clone(),
        }
    }
}

/// What a player sends for "the active playlist, if there is one": a flag and
/// a playlist, of which the playlist means something only if the flag is set.
#[derive(Debug)]
pub struct MaybePlaylist {
    /// Whether there is an active playlist.
    pub has_value: bool,
    /// The active playlist, if `has_value`; else a filler.
    pub playlist: Playlist,
}

impl W<Option<Playlist>> {
    /// The active playlist that `sent` stands for: the playlist if the flag is
    /// set, and nothing otherwise, whatever the filler holds.
    pub fn from_maybe(sent: MaybePlaylist) -> (r: W<Option<Playlist>>)
        ensures
            r.0 is Some <==> sent.has_value,
            r.0 matches Some(playlist) ==> playlist == sent.playlist,
    {
        if sent.has_value {
            W(Some(sent.playlist))
        } else {
            W(None)
        }
    }
}

} // verus!
