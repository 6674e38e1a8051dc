//! The calls into `zbus` that the library relies on.
//!
//! Nothing in this file is proved. Each item states what the library takes
//! for granted about one function or type of `zbus`; everything else in the
//! crate is verified against these statements.

use vstd::prelude::*;
use zbus::blocking::fdo::DBusProxy;
use zbus::blocking::{Connection, Proxy};
use zbus::names::{BusName, InterfaceName};
use zbus::zvariant::ObjectPath;

verus! {

/// `zbus::blocking::Connection`: an established session with a bus.
#[verifier::external_type_specification]
#[verifier::external_body]
pub struct ExConnection(zbus::blocking::Connection);

/// `zbus::blocking::Proxy`: a reference to one interface of one object of one
/// peer.
#[verifier::external_type_specification]
#[verifier::external_body]
pub struct ExProxy<'a>(zbus::blocking::Proxy<'a>);

/// `zbus::blocking::fdo::DBusProxy`: the proxy for the bus's own directory
/// service.
#[verifier::external_type_specification]
#[verifier::external_body]
pub struct ExDBusProxy<'p>(zbus::blocking::fdo::DBusProxy<'p>);

/// `zbus::Error`: what a call into `zbus` fails with.
#[verifier::external_type_specification]
#[verifier::external_body]
pub struct ExError(zbus::Error);

/// Whether `zbus::names::BusName::try_from` accepts `name` as a bus name.
pub uninterp spec fn is_bus_name(name: Seq<char>) -> bool;

/// Whether `zbus::zvariant::ObjectPath::try_from` accepts `path` as an object
/// path.
pub uninterp spec fn is_object_path(path: Seq<char>) -> bool;

/// Whether `zbus::names::InterfaceName::try_from` accepts `name` as an
/// interface name.
pub uninterp spec fn is_interface_name(name: Seq<char>) -> bool;

/// `BusName::try_from(&str)`: succeeds exactly on the strings that are bus
/// names, whatever else is going on; the check reads the string and nothing
/// else.
#[verifier::external_body]
pub(crate) fn parses_as_bus_name(name: &str) -> (r: bool)
    ensures
        r == is_bus_name(name@),
{
    BusName::try_from(name).is_ok()
}

/// `ObjectPath::try_from(&str)`: succeeds exactly on the strings that are
/// object paths; the check reads the string and nothing else.
#[verifier::external_body]
pub(crate) fn parses_as_object_path(path: &str) -> (r: bool)
    ensures
        r == is_object_path(path@),
{
    ObjectPath::try_from(path).is_ok()
}

/// `InterfaceName::try_from(&str)`: succeeds exactly on the strings that are
/// interface names; the check reads the string and nothing else.
#[verifier::external_body]
pub(crate) fn parses_as_interface_name(name: &str) -> (r: bool)
    ensures
        r == is_interface_name(name@),
{
    InterfaceName::try_from(name).is_ok()
}

/// `zbus::blocking::fdo::DBusProxy::new`: a proxy for the directory service of
/// the bus behind `conn`. Nothing is claimed of the outcome.
#[verifier::external_body]
pub(crate) fn directory(conn: &Connection) -> Result<DBusProxy<'static>, zbus::Error> {
    DBusProxy::new(conn)
}

/// `DBusProxy::list_names`: asks the bus for the names that are registered on
/// it now, in the order of the reply. Nothing is claimed of the outcome: it
/// depends on the bus.
#[verifier::external_body]
pub(crate) fn listed_names(dir: &DBusProxy<'static>) -> Result<Vec<String>, zbus::Error> {
    match dir.list_names() {
        Ok(names) => Ok(names.iter().map(|name| name.to_string()).collect()),
        Err(e) => Err(zbus::Error::from(e)),
    }
}

/// `zbus::blocking::Proxy::new`: parses the destination, the path and the
/// interface, in this order, and fails on the first that is malformed. With
/// all three well-formed it returns a proxy: nothing is sent to the bus, so
/// neither the connection's state nor the peers on the bus have a say.
#[verifier::external_body]
pub(crate) fn open_proxy(
    conn: &Connection,
    destination: String,
    path: &'static str,
    interface: &'static str,
) -> (res: Result<Proxy<'static>, zbus::Error>)
    ensures
        res.is_ok() == (is_bus_name(destination@) && is_object_path(path@) && is_interface_name(interface@)),
{
    Proxy::new(conn, destination, path, interface)
}

/// `Proxy::get_property::<String>`: reads a property of the remote object as
/// a string. Nothing is claimed of the outcome: it depends on the peer.
#[verifier::external_body]
pub(crate) fn read_text_property(proxy: &Proxy<'static>, property: &str) -> Result<
    String,
    zbus::Error,
> {
    proxy.get_property::<String>(property)
}

/// `Proxy::clone`: another reference to the same remote interface.
#[verifier::external_body]
pub(crate) fn same_proxy(proxy: &Proxy<'static>) -> Proxy<'static> {
    proxy.clone()
}

} // verus!
