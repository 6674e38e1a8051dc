//! Discovery against a bus that lives in this process: a connection whose
//! peer answers for the registry and for the players.

use mpris_client::blocking::discovery::{
    all, bind_all, bind_first, bind_playing, by_name, chosen, currently_playing, first,
    is_playback_status, read_status, read_until_playing,
};
use mpris_client::error::DiscoveryError;
use mpris_client::handle::{build_handle, Interface};
use mpris_client::playing::Reading;
use mpris_client::shared::PlaybackStatus;
use std::collections::HashMap;
use std::fmt::Write;
use std::future::Future;
use std::pin::Pin;
use std::sync::{Arc, Mutex};
use zbus::blocking::connection::Builder;
use zbus::blocking::Connection;
use zbus::connection::socket::Channel;
use zbus::fdo;
use zbus::message::{Header, Message};
use zbus::names::{InterfaceName, MemberName};
use zbus::object_server::{DispatchResult2, SignalEmitter};
use zbus::zvariant::{OwnedValue, Value};
use zbus::{Guid, ObjectServer};

/// The registry of the bus: it answers `ListNames` with its names.
struct Registry {
    names: Vec<String>,
}

impl zbus::object_server::Interface for Registry {
    fn name() -> InterfaceName<'static> {
        InterfaceName::from_static_str_unchecked("org.freedesktop.DBus")
    }

    fn get<'a, 'b, 'c, 'd, 'e, 'f, 'g, 'h, 'z>(
        &'a self,
        _property_name: &'b str,
        _server: &'c ObjectServer,
        _connection: &'d zbus::Connection,
        _header: Option<&'e Header<'f>>,
        _emitter: &'g SignalEmitter<'h>,
    ) -> Pin<Box<dyn Future<Output = Option<fdo::Result<OwnedValue>>> + Send + 'z>>
    where
        'a: 'z,
        'b: 'z,
        'c: 'z,
        'd: 'z,
        'e: 'z,
        'f: 'z,
        'g: 'z,
        'h: 'z,
        Self: 'z,
    {
        Box::pin(async move { None })
    }

    fn get_all<'a, 'b, 'c, 'd, 'e, 'f, 'g, 'z>(
        &'a self,
        _object_server: &'b ObjectServer,
        _connection: &'c zbus::Connection,
        _header: Option<&'d Header<'e>>,
        _emitter: &'f SignalEmitter<'g>,
    ) -> Pin<Box<dyn Future<Output = fdo::Result<HashMap<String, OwnedValue>>> + Send + 'z>>
    where
        'a: 'z,
        'b: 'z,
        'c: 'z,
        'd: 'z,
        'e: 'z,
        'f: 'z,
        'g: 'z,
        Self: 'z,
    {
        Box::pin(async move { Ok(HashMap::new()) })
    }

    fn set_mut<'a, 'b, 'c, 'd, 'e, 'f, 'g, 'h, 'i, 'j, 'z>(
        &'a mut self,
        _property_name: &'b str,
        _value: &'c Value<'d>,
        _object_server: &'e ObjectServer,
        _connection: &'f zbus::Connection,
        _header: Option<&'g Header<'h>>,
        _emitter: &'i SignalEmitter<'j>,
    ) -> Pin<Box<dyn Future<Output = Option<fdo::Result<()>>> + Send + 'z>>
    where
        'a: 'z,
        'b: 'z,
        'c: 'z,
        'd: 'z,
        'e: 'z,
        'f: 'z,
        'g: 'z,
        'h: 'z,
        'i: 'z,
        'j: 'z,
        Self: 'z,
    {
        Box::pin(async move { None })
    }

    fn call<'call>(
        &'call self,
        _server: &'call ObjectServer,
        connection: &'call zbus::Connection,
        msg: &'call Message,
        name: MemberName<'call>,
    ) -> DispatchResult2<'call> {
        if name.as_str() == "ListNames" {
            let names = self.names.clone();
            DispatchResult2::new_async(connection, msg, async move {
                Ok::<Vec<String>, fdo::Error>(names)
            })
        } else {
            DispatchResult2::NotFound
        }
    }

    fn call_mut<'call>(
        &'call mut self,
        _server: &'call ObjectServer,
        _connection: &'call zbus::Connection,
        _msg: &'call Message,
        _name: MemberName<'call>,
    ) -> DispatchResult2<'call> {
        DispatchResult2::NotFound
    }

    fn introspect_to_writer(&self, _writer: &mut dyn Write, _level: usize) {}
}

/// The players of the bus, all behind the one object path: each is known by
/// the destination that a call is addressed to. A player with no status fails
/// every read of its properties. Every destination that is asked is noted.
struct Players {
    statuses: HashMap<String, Option<String>>,
    asked: Arc<Mutex<Vec<String>>>,
}

impl Players {
    fn status_for(&self, header: Option<&Header<'_>>) -> fdo::Result<String> {
        let destination = match header.and_then(|header| header.destination()) {
            Some(destination) => destination.to_string(),
            None => String::new(),
        };
        match self.statuses.get(&destination) {
            Some(Some(status)) => Ok(status.clone()),
            _ => Err(fdo::Error::Failed(format!("{} does not answer", destination))),
        }
    }
}

impl zbus::object_server::Interface for Players {
    fn name() -> InterfaceName<'static> {
        InterfaceName::from_static_str_unchecked("org.mpris.MediaPlayer2.Player")
    }

    fn get<'a, 'b, 'c, 'd, 'e, 'f, 'g, 'h, 'z>(
        &'a self,
        property_name: &'b str,
        _server: &'c ObjectServer,
        _connection: &'d zbus::Connection,
        header: Option<&'e Header<'f>>,
        _emitter: &'g SignalEmitter<'h>,
    ) -> Pin<Box<dyn Future<Output = Option<fdo::Result<OwnedValue>>> + Send + 'z>>
    where
        'a: 'z,
        'b: 'z,
        'c: 'z,
        'd: 'z,
        'e: 'z,
        'f: 'z,
        'g: 'z,
        'h: 'z,
        Self: 'z,
    {
        let answer = if property_name == "PlaybackStatus" {
            Some(self.status_for(header).map(|status| Value::from(status).try_to_owned().unwrap()))
        } else {
            None
        };
        Box::pin(async move { answer })
    }

    fn get_all<'a, 'b, 'c, 'd, 'e, 'f, 'g, 'z>(
        &'a self,
        _object_server: &'b ObjectServer,
        _connection: &'c zbus::Connection,
        header: Option<&'d Header<'e>>,
        _emitter: &'f SignalEmitter<'g>,
    ) -> Pin<Box<dyn Future<Output = fdo::Result<HashMap<String, OwnedValue>>> + Send + 'z>>
    where
        'a: 'z,
        'b: 'z,
        'c: 'z,
        'd: 'z,
        'e: 'z,
        'f: 'z,
        'g: 'z,
        Self: 'z,
    {
        if let Some(destination) = header.and_then(|header| header.destination()) {
            self.asked.lock().unwrap().push(destination.to_string());
        }
        let answer = self.status_for(header).map(|status| {
            let mut all = HashMap::new();
            all.insert("PlaybackStatus".to_string(), Value::from(status).try_to_owned().unwrap());
            all
        });
        Box::pin(async move { answer })
    }

    fn set_mut<'a, 'b, 'c, 'd, 'e, 'f, 'g, 'h, 'i, 'j, 'z>(
        &'a mut self,
        _property_name: &'b str,
        _value: &'c Value<'d>,
        _object_server: &'e ObjectServer,
        _connection: &'f zbus::Connection,
        _header: Option<&'g Header<'h>>,
        _emitter: &'i SignalEmitter<'j>,
    ) -> Pin<Box<dyn Future<Output = Option<fdo::Result<()>>> + Send + 'z>>
    where
        'a: 'z,
        'b: 'z,
        'c: 'z,
        'd: 'z,
        'e: 'z,
        'f: 'z,
        'g: 'z,
        'h: 'z,
        'i: 'z,
        'j: 'z,
        Self: 'z,
    {
        Box::pin(async move { None })
    }

    fn call<'call>(
        &'call self,
        _server: &'call ObjectServer,
        _connection: &'call zbus::Connection,
        _msg: &'call Message,
        _name: MemberName<'call>,
    ) -> DispatchResult2<'call> {
        DispatchResult2::NotFound
    }

    fn call_mut<'call>(
        &'call mut self,
        _server: &'call ObjectServer,
        _connection: &'call zbus::Connection,
        _msg: &'call Message,
        _name: MemberName<'call>,
    ) -> DispatchResult2<'call> {
        DispatchResult2::NotFound
    }

    fn introspect_to_writer(&self, _writer: &mut dyn Write, _level: usize) {}
}

/// A bus in this process. `conn` is the client's end; the peer's end answers
/// while `_peer` lives.
struct Bus {
    conn: Connection,
    _peer: Connection,
    asked: Arc<Mutex<Vec<String>>>,
}

impl Bus {
    fn asked(&self) -> Vec<String> {
        self.asked.lock().unwrap().clone()
    }
}

/// A bus whose registry lists `names` (or cannot be asked, for `None`) and
/// whose players report `statuses`.
fn bus(names: Option<&[&str]>, statuses: &[(&str, Option<&str>)]) -> Bus {
    let (near, far) = Channel::pair();
    let guid = Guid::generate();
    let asked = Arc::new(Mutex::new(Vec::new()));
    let players = Players {
        statuses: statuses
            .iter()
            .map(|(name, status)| (name.to_string(), status.map(|status| status.to_string())))
            .collect(),
        asked: asked.clone(),
    };
    let mut peer = Builder::authenticated_socket(far, guid.clone())
        .unwrap()
        .p2p()
        .serve_at("/org/mpris/MediaPlayer2", players)
        .unwrap();
    if let Some(names) = names {
        let registry = Registry { names: names.iter().map(|name| name.to_string()).collect() };
        peer = peer.serve_at("/org/freedesktop/DBus", registry).unwrap();
    }
    let peer = peer.build().unwrap();
    let conn = Builder::authenticated_socket(near, guid).unwrap().p2p().build().unwrap();
    Bus { conn, _peer: peer, asked }
}

const VLC: &str = "org.mpris.MediaPlayer2.vlc";
const SPOTIFY: &str = "org.mpris.MediaPlayer2.spotify";
const MPV: &str = "org.mpris.MediaPlayer2.mpv";
const NOTIFICATIONS: &str = "org.freedesktop.Notifications";

#[test]
fn all_returns_the_players_in_registry_order() {
    let bus = bus(Some(&[VLC, NOTIFICATIONS, SPOTIFY]), &[]);
    let handles = all(&bus.conn, Interface::Player).unwrap();
    assert_eq!(handles.len(), 2);
    assert_eq!(handles[0].destination(), VLC);
    assert_eq!(handles[1].destination(), SPOTIFY);
    assert_eq!(handles[0].interface(), Interface::Player);
    assert_eq!(handles[1].interface(), Interface::Player);
    assert!(bus.asked().is_empty());
}

#[test]
fn all_binds_each_handle_to_its_name_path_and_interface() {
    let bus = bus(Some(&[SPOTIFY, VLC]), &[]);
    let handles = all(&bus.conn, Interface::Playlists).unwrap();
    assert_eq!(handles.len(), 2);
    assert_eq!(handles[0].proxy().destination().as_str(), SPOTIFY);
    assert_eq!(handles[1].proxy().destination().as_str(), VLC);
    for handle in &handles {
        assert_eq!(handle.proxy().path().as_str(), "/org/mpris/MediaPlayer2");
        assert_eq!(handle.proxy().interface().as_str(), "org.mpris.MediaPlayer2.Playlists");
    }
}

#[test]
fn the_playing_player_is_returned() {
    let bus = bus(
        Some(&[VLC, NOTIFICATIONS, SPOTIFY]),
        &[(VLC, Some("Paused")), (SPOTIFY, Some("Playing"))],
    );
    let handle = currently_playing(&bus.conn, Interface::Player).unwrap();
    assert_eq!(handle.destination(), SPOTIFY);
    assert_eq!(handle.interface(), Interface::Player);
    assert_eq!(handle.proxy().destination().as_str(), SPOTIFY);
    assert_eq!(bus.asked(), vec![VLC.to_string(), SPOTIFY.to_string()]);
}

#[test]
fn an_empty_registry_has_no_player() {
    let bus = bus(Some(&[]), &[]);
    assert!(all(&bus.conn, Interface::Player).unwrap().is_empty());
    assert!(matches!(first(&bus.conn, Interface::Player), Err(DiscoveryError::NotFound)));
    assert!(matches!(
        currently_playing(&bus.conn, Interface::Player),
        Err(DiscoveryError::NoActivePlayer)
    ));
}

#[test]
fn a_registry_of_other_names_has_no_player() {
    let bus = bus(Some(&[NOTIFICATIONS, "org.freedesktop.DBus", ":1.5"]), &[]);
    assert!(all(&bus.conn, Interface::MediaPlayer2).unwrap().is_empty());
    assert!(matches!(first(&bus.conn, Interface::MediaPlayer2), Err(DiscoveryError::NotFound)));
    assert!(matches!(
        currently_playing(&bus.conn, Interface::Player),
        Err(DiscoveryError::NoActivePlayer)
    ));
    assert!(bus.asked().is_empty());
}

#[test]
fn a_malformed_name_fails_whatever_is_registered() {
    for names in [&[][..], &[VLC, SPOTIFY][..]] {
        let bus = bus(Some(names), &[(VLC, Some("Playing"))]);
        let result = by_name(&bus.conn, "not a valid bus name", Interface::Player);
        assert!(matches!(result, Err(DiscoveryError::Construction(zbus::Error::Names(..)))));
        let result = build_handle(&bus.conn, "", Interface::Player);
        assert!(matches!(result, Err(DiscoveryError::Construction(..))));
    }
}

#[test]
fn by_name_does_not_ask_the_registry() {
    let bus = bus(None, &[]);
    let handle = by_name(&bus.conn, "com.example.application", Interface::Player).unwrap();
    assert_eq!(handle.destination(), "com.example.application");
    assert_eq!(handle.interface(), Interface::Player);
    assert_eq!(handle.proxy().destination().as_str(), "com.example.application");
    assert_eq!(handle.proxy().path().as_str(), "/org/mpris/MediaPlayer2");
    assert_eq!(handle.proxy().interface().as_str(), "org.mpris.MediaPlayer2.Player");
    let proxy = handle.into_proxy();
    assert_eq!(proxy.destination().as_str(), "com.example.application");
    assert_eq!(proxy.interface().as_str(), "org.mpris.MediaPlayer2.Player");
    assert!(bus.asked().is_empty());
}

#[test]
fn an_unregistered_name_fails_only_when_it_is_used() {
    let bus = bus(Some(&[VLC]), &[(VLC, Some("Playing"))]);
    let handle = by_name(&bus.conn, "ru.deltadelete.something", Interface::Player).unwrap();
    assert!(matches!(read_status(&handle), Reading::Failed));
    assert!(!is_playback_status(&handle, PlaybackStatus::Playing));
}

#[test]
fn first_is_the_first_in_registry_order() {
    let bus = bus(Some(&[NOTIFICATIONS, SPOTIFY, MPV, VLC]), &[]);
    let head = first(&bus.conn, Interface::MediaPlayer2).unwrap();
    assert_eq!(head.destination(), SPOTIFY);
    assert_eq!(head.interface(), Interface::MediaPlayer2);
    let handles = all(&bus.conn, Interface::MediaPlayer2).unwrap();
    assert_eq!(head.destination(), handles[0].destination());
    assert_eq!(
        head.proxy().destination().as_str(),
        handles[0].proxy().destination().as_str()
    );
}

#[test]
fn the_earliest_playing_player_wins_and_the_rest_is_not_asked() {
    let bus = bus(
        Some(&[MPV, VLC, SPOTIFY]),
        &[(MPV, Some("Stopped")), (VLC, Some("Playing")), (SPOTIFY, Some("Playing"))],
    );
    let handle = currently_playing(&bus.conn, Interface::Player).unwrap();
    assert_eq!(handle.destination(), VLC);
    assert_eq!(bus.asked(), vec![MPV.to_string(), VLC.to_string()]);
}

#[test]
fn a_player_that_cannot_be_read_is_passed_over() {
    let bus = bus(Some(&[VLC, SPOTIFY]), &[(VLC, None), (SPOTIFY, Some("Playing"))]);
    let handle = currently_playing(&bus.conn, Interface::Player).unwrap();
    assert_eq!(handle.destination(), SPOTIFY);
}

#[test]
fn players_that_cannot_be_read_are_not_playing() {
    let bus = bus(Some(&[VLC, SPOTIFY]), &[(VLC, None), (SPOTIFY, None)]);
    assert!(matches!(
        currently_playing(&bus.conn, Interface::Player),
        Err(DiscoveryError::NoActivePlayer)
    ));
    assert_eq!(bus.asked(), vec![VLC.to_string(), SPOTIFY.to_string()]);
}

#[test]
fn nobody_playing_is_no_active_player() {
    let bus = bus(
        Some(&[VLC, SPOTIFY]),
        &[(VLC, Some("Paused")), (SPOTIFY, Some("Stopped"))],
    );
    assert!(matches!(
        currently_playing(&bus.conn, Interface::Player),
        Err(DiscoveryError::NoActivePlayer)
    ));
}

#[test]
fn a_status_that_is_no_state_is_not_playing() {
    let bus = bus(
        Some(&[VLC, SPOTIFY]),
        &[(VLC, Some("playing")), (SPOTIFY, Some("Buffering"))],
    );
    assert!(matches!(
        currently_playing(&bus.conn, Interface::Player),
        Err(DiscoveryError::NoActivePlayer)
    ));
}

#[test]
fn the_status_is_read_on_the_handles_own_interface() {
    let bus = bus(Some(&[VLC]), &[(VLC, Some("Playing"))]);
    assert!(matches!(
        currently_playing(&bus.conn, Interface::MediaPlayer2),
        Err(DiscoveryError::NoActivePlayer)
    ));
    let handle = currently_playing(&bus.conn, Interface::Player).unwrap();
    assert_eq!(handle.destination(), VLC);
}

#[test]
fn a_registry_that_cannot_be_asked_is_a_discovery_error() {
    let bus = bus(None, &[(VLC, Some("Playing"))]);
    assert!(matches!(all(&bus.conn, Interface::Player), Err(DiscoveryError::Discovery(..))));
    assert!(matches!(first(&bus.conn, Interface::Player), Err(DiscoveryError::Discovery(..))));
    assert!(matches!(
        currently_playing(&bus.conn, Interface::Player),
        Err(DiscoveryError::Discovery(..))
    ));
    assert!(bus.asked().is_empty());
}

#[test]
fn readings_are_taken_in_order() {
    let bus = bus(None, &[(VLC, Some("Paused")), (SPOTIFY, Some("Playing")), (MPV, None)]);
    let names = vec![MPV.to_string(), VLC.to_string(), SPOTIFY.to_string(), VLC.to_string()];
    let handles = bind_all(&bus.conn, &names, Interface::Player).unwrap();
    assert_eq!(handles.len(), 4);

    assert!(matches!(read_status(&handles[0]), Reading::Failed));
    assert!(matches!(read_status(&handles[1]), Reading::Status(text) if text == "Paused"));
    assert!(matches!(read_status(&handles[2]), Reading::Status(text) if text == "Playing"));
    assert!(is_playback_status(&handles[1], PlaybackStatus::Paused));
    assert!(!is_playback_status(&handles[1], PlaybackStatus::Playing));
    assert!(is_playback_status(&handles[2], PlaybackStatus::Playing));
    assert!(!is_playback_status(&handles[0], PlaybackStatus::Stopped));

    let readings = read_until_playing(&handles);
    assert_eq!(readings.len(), 3);
    assert!(matches!(readings[0], Reading::Failed));
    assert!(matches!(&readings[1], Reading::Status(text) if text == "Paused"));
    assert!(matches!(&readings[2], Reading::Status(text) if text == "Playing"));

    let handle = chosen(&handles, &readings).unwrap();
    assert_eq!(handle.destination(), SPOTIFY);
    assert_eq!(handle.proxy().destination().as_str(), SPOTIFY);
    let copy = handle.clone();
    assert_eq!(copy.destination(), SPOTIFY);
    assert_eq!(copy.interface(), Interface::Player);
    assert!(is_playback_status(&copy, PlaybackStatus::Playing));
}

#[test]
fn given_names_are_bound_without_the_registry() {
    let bus = bus(None, &[(SPOTIFY, Some("Playing"))]);
    let names = vec![VLC.to_string(), NOTIFICATIONS.to_string(), SPOTIFY.to_string()];
    let handles = bind_all(&bus.conn, &names, Interface::Player).unwrap();
    assert_eq!(handles.len(), 2);
    assert_eq!(handles[0].destination(), VLC);
    assert_eq!(handles[1].destination(), SPOTIFY);
    let head = bind_first(&bus.conn, &names, Interface::Player).unwrap();
    assert_eq!(head.destination(), handles[0].destination());
    let playing = bind_playing(&bus.conn, &names, Interface::Player).unwrap();
    assert_eq!(playing.destination(), SPOTIFY);

    let none: Vec<String> = Vec::new();
    assert!(bind_all(&bus.conn, &none, Interface::Player).unwrap().is_empty());
    assert!(matches!(
        bind_first(&bus.conn, &none, Interface::Player),
        Err(DiscoveryError::NotFound)
    ));
    assert!(matches!(
        bind_playing(&bus.conn, &none, Interface::Player),
        Err(DiscoveryError::NoActivePlayer)
    ));
    assert!(read_until_playing(&Vec::new()).is_empty());
}

#[test]
fn one_name_that_cannot_be_bound_fails_the_whole_row() {
    let bus = bus(None, &[(VLC, Some("Playing"))]);
    let names = vec![VLC.to_string(), "org.mpris.MediaPlayer2.not a name".to_string()];
    assert!(matches!(
        bind_all(&bus.conn, &names, Interface::Player),
        Err(DiscoveryError::Construction(..))
    ));
    assert!(matches!(
        bind_playing(&bus.conn, &names, Interface::Player),
        Err(DiscoveryError::Construction(..))
    ));
    assert!(bus.asked().is_empty());
    assert_eq!(bind_first(&bus.conn, &names, Interface::Player).unwrap().destination(), VLC);

    let names = vec!["org.mpris.MediaPlayer2.not a name".to_string(), VLC.to_string()];
    assert!(matches!(
        bind_first(&bus.conn, &names, Interface::Player),
        Err(DiscoveryError::Construction(..))
    ));
}
