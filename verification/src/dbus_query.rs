//! Descriptions of D-Bus connections and property queries.
use crate::text::owned;
use vstd::prelude::*;

verus! {

/// Which D-Bus bus a query goes to.
#[derive(PartialEq, Eq, Structural, Clone, Copy, Debug)]
pub enum DbusConnectionType {
    System,
    Session,
}

/// A read of one property of one object on a bus.
#[derive(Debug)]
pub struct DbusPropertyQuery<'a> {
    pub connection_type: DbusConnectionType,
    pub destination: &'a str,
    pub path: &'a str,
    pub interface: &'a str,
    pub property: &'a str,
}

/// The environment variable that names the address for a connection of
/// this type is not set.
#[derive(Debug)]
pub struct BusAddressUnknown {
    pub variable: String,
}

/// The well-known address of the system bus.
pub open spec fn default_system_bus_address() -> Seq<char> {
    "unix:path=/var/run/dbus/system_bus_socket"@
}

/// The bus address for a connection type, given the values of the
/// environment variables `DBUS_SESSION_BUS_ADDRESS` and
/// `DBUS_SYSTEM_BUS_ADDRESS`: a `System` connection takes the first and
/// fails without it; a `Session` connection takes the second or else the
/// well-known system bus address.
pub fn get_address(
    connection_type: &DbusConnectionType,
    session_bus_variable: Option<String>,
    system_bus_variable: Option<String>,
) -> (r: Result<String, BusAddressUnknown>)
    ensures
        match connection_type {
            DbusConnectionType::System => match session_bus_variable {
                Some(v) => r matches Ok(a) && a@ == v@,
                None => r matches Err(e) && e.variable@ == "DBUS_SESSION_BUS_ADDRESS"@,
            },
            DbusConnectionType::Session => r matches Ok(a) && a@ == match system_bus_variable {
                Some(v) => v@,
                None => default_system_bus_address(),
            },
        },
{
    match connection_type {
        DbusConnectionType::System => match session_bus_variable {
            Some(v) => Ok(v),
            None => Err(BusAddressUnknown { variable: owned("DBUS_SESSION_BUS_ADDRESS") }),
        },
        DbusConnectionType::Session => match system_bus_variable {
            Some(v) => Ok(v),
            None => Ok(owned("unix:path=/var/run/dbus/system_bus_socket")),
        },
    }
}

} // verus!
