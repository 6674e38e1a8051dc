//! Handles: bound references to one interface of one player.
//!
//! A handle is addressed at a destination name, on the one object path that
//! every MPRIS2 player exports, and at one of the protocol's interfaces. To
//! make one is a local matter: nothing is sent, and no peer needs to own the
//! name. So a handle for a name that nobody owns can be made, and fails only
//! when it is first used.

use crate::bus::{
    is_bus_name, is_interface_name, is_object_path, open_proxy, parses_as_bus_name,
    parses_as_interface_name, parses_as_object_path, same_proxy,
};
use crate::error::DiscoveryError;
use crate::text::same_text;
use vstd::prelude::*;
use zbus::blocking::{Connection, Proxy};

verus! {

/// The object path at which every MPRIS2 player exports its interfaces.
pub const DEFAULT_PATH: &'static str = "/org/mpris/MediaPlayer2";

/// The interfaces of the protocol that a handle can stand for.
#[derive(PartialEq, Eq, Structural, Debug, Hash, Copy, Clone)]
pub enum Interface {
    /// The player as an application: its identity, raise, quit.
    MediaPlayer2,
    /// Playback control and the state of playback.
    Player,
    /// The player's playlists.
    Playlists,
    /// The tracks that are queued.
    TrackList,
}

impl Interface {
    /// The name of the interface on the bus.
    pub open spec fn name(self) -> Seq<char> {
        match self {
            Interface::MediaPlayer2 => "org.mpris.MediaPlayer2"@,
            Interface::Player => "org.mpris.MediaPlayer2.Player"@,
            Interface::Playlists => "org.mpris.MediaPlayer2.Playlists"@,
            Interface::TrackList => "org.mpris.MediaPlayer2.TrackList"@,
        }
    }

    /// The interface that `text` is the name of, if it is the name of one.
    pub open spec fn named(text: Seq<char>) -> Option<Interface> {
        if text == "org.mpris.MediaPlayer2"@ {
            Some(Interface::MediaPlayer2)
        } else if text == "org.mpris.MediaPlayer2.Player"@ {
            Some(Interface::Player)
        } else if text == "org.mpris.MediaPlayer2.Playlists"@ {
            Some(Interface::Playlists)
        } else if text == "org.mpris.MediaPlayer2.TrackList"@ {
            Some(Interface::TrackList)
        } else {
            None
        }
    }

    /// Reads an interface from its name on the bus; `None` for any other
    /// text.
    pub fn parse(text: &str) -> (r: Option<Interface>)
        ensures
            r == Interface::named(text@),
    {
        if same_text(text, "org.mpris.MediaPlayer2") {
            Some(Interface::MediaPlayer2)
        } else if same_text(text, "org.mpris.MediaPlayer2.Player") {
            Some(Interface::Player)
        } else if same_text(text, "org.mpris.MediaPlayer2.Playlists") {
            Some(Interface::Playlists)
        } else if same_text(text, "org.mpris.MediaPlayer2.TrackList") {
            Some(Interface::TrackList)
        } else {
            None
        }
    }

    /// Each interface is what its own name names.
    pub proof fn name_is_read_back(self)
        ensures
            Interface::named(self.name()) == Some(self),
    {
        reveal_strlit("org.mpris.MediaPlayer2");
        reveal_strlit("org.mpris.MediaPlayer2.Player");
        reveal_strlit("org.mpris.MediaPlayer2.Playlists");
        reveal_strlit("org.mpris.MediaPlayer2.TrackList");
        assert("org.mpris.MediaPlayer2"@.len() == 22);
        assert("org.mpris.MediaPlayer2.Player"@.len() == 29);
        assert("org.mpris.MediaPlayer2.Playlists"@.len() == 32);
        assert("org.mpris.MediaPlayer2.TrackList"@[23] == 'T');
        assert("org.mpris.MediaPlayer2.Playlists"@[23] == 'P');
    }

    /// The name of the interface on the bus.
    pub fn as_str(self) -> (r: &'static str)
        ensures
            r@ == self.name(),
    {
        match self {
            Interface::MediaPlayer2 => "org.mpris.MediaPlayer2",
            Interface::Player => "org.mpris.MediaPlayer2.Player",
            Interface::Playlists => "org.mpris.MediaPlayer2.Playlists",
            Interface::TrackList => "org.mpris.MediaPlayer2.TrackList",
        }
    }
}

/// Whether a handle for `interface` can be addressed at `destination`: the
/// destination is a bus name, and the fixed path and the interface's name are
/// what the bus takes for a path and an interface name.
pub open spec fn can_bind(destination: Seq<char>, interface: Interface) -> bool {
    &&& is_bus_name(destination)
    &&& is_object_path(DEFAULT_PATH@)
    &&& is_interface_name(interface.name())
}

/// Tells whether `name` is a bus name, and so whether a handle can be
/// addressed at it as far as the name goes.
pub fn is_valid_destination(name: &str) -> (r: bool)
    ensures
        r == is_bus_name(name@),
{
    parses_as_bus_name(name)
}

/// Tells whether a handle for `interface` can be addressed at `destination`.
/// No connection is needed to tell.
pub fn addressable(destination: &str, interface: Interface) -> (r: bool)
    ensures
        r == can_bind(destination@, interface),
{
    parses_as_bus_name(destination) && parses_as_object_path(DEFAULT_PATH)
        && parses_as_interface_name(interface.as_str())
}

/// A name that is no bus name is never bound, whatever the interface; and of
/// two names that are bus names either both can be bound or neither: whether a
/// peer owns the name plays no part.
pub proof fn binding_goes_by_the_name(name: Seq<char>, other: Seq<char>, interface: Interface)
    ensures
        !is_bus_name(name) ==> !can_bind(name, interface),
        is_bus_name(name) && is_bus_name(other) ==> can_bind(name, interface) == can_bind(
            other,
            interface,
        ),
{
}

/// A bound reference to one interface of the player at one destination.
pub struct Handle {
    destination: String,
    interface: Interface,
    proxy: Proxy<'static>,
}

impl Handle {
    /// The name that the handle is addressed at.
    pub closed spec fn target(&self) -> Seq<char> {
        self.destination@
    }

    /// The interface that the handle stands for.
    pub closed spec fn role(&self) -> Interface {
        self.interface
    }

    /// The proxy through which the handle's remote calls go.
    pub closed spec fn channel(&self) -> Proxy<'static> {
        self.proxy
    }

    /// A handle is well-formed when it can be addressed where it is
    /// addressed. Every handle that this library hands out is.
    pub open spec fn wf(&self) -> bool {
        can_bind(self.target(), self.role())
    }

    /// The name that the handle is addressed at.
    pub fn destination(&self) -> (name: &str)
        ensures
            name@ == self.target(),
    {
        self.destination.as_str()
    }

    /// The interface that the handle stands for.
    pub fn interface(&self) -> (interface: Interface)
        ensures
            interface == self.role(),
    {
        self.interface
    }

    /// The proxy through which the handle's remote calls go.
    pub fn proxy(&self) -> (proxy: &Proxy<'static>)
        ensures
            *proxy == self.channel(),
    {
        &self.proxy
    }

    /// Gives up the handle for the proxy through which its remote calls go.
    pub fn into_proxy(self) -> (proxy: Proxy<'static>)
        ensures
            proxy == self.channel(),
    {
        self.proxy
    }
}

impl Clone for Handle {
    /// Another handle for the same interface at the same destination.
    fn clone(&self) -> (copy: Handle)
        ensures
            copy.target() == self.target(),
            copy.role() == self.role(),
    {
        Handle {
            destination: self.destination.clone(),
            interface: self.interface,
            proxy: same_proxy(&self.proxy),
        }
    }
}

/// Makes a handle for `interface` of the player at `destination_name`, bound
/// to `conn`.
///
/// It fails with [`DiscoveryError::Construction`], and only so, exactly when
/// the handle cannot be addressed there. The registry is not asked, and no
/// peer needs to own the name.
pub fn build_handle(conn: &Connection, destination_name: &str, interface: Interface) -> (res:
    Result<Handle, DiscoveryError>)
    ensures
        res is Ok <==> can_bind(destination_name@, interface),
        res matches Ok(handle) ==> {
            &&& handle.wf()
            &&& handle.target() == destination_name@
            &&& handle.role() == interface
        },
        res matches Err(e) ==> e is Construction,
{
    let destination = destination_name.to_owned();
    match open_proxy(conn, destination_name.to_owned(), DEFAULT_PATH, interface.as_str()) {
        Ok(proxy) => Ok(Handle { destination, interface, proxy }),
        Err(e) => Err(DiscoveryError::Construction(e)),
    }
}

} // verus!
