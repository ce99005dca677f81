//! What the window shows of the tunnel: its state, where it leads, and
//! what the connect button does.

use vstd::prelude::*;
use vstd::string::StringExecFns;

verus! {

/// The state of the tunnel as the window shows it.
#[derive(Clone, Copy, Debug, PartialEq, Eq, Structural)]
pub enum ConnectionState {
    Disconnected,
    Connecting,
    Connected,
    Disconnecting,
    Error,
}

/// What the connect button asks of the daemon.
#[derive(Clone, Copy, Debug, PartialEq, Eq, Structural)]
pub enum TunnelCommand {
    Connect,
    Disconnect,
}

/// Where the tunnel leads, as far as the window shows it.
#[derive(Debug)]
pub struct GeoLocation {
    pub country: String,
    pub city: Option<String>,
    pub hostname: Option<String>,
}

/// The texts and the state that the window shows.
#[derive(Debug)]
pub struct StatusView {
    pub conn: ConnectionState,
    pub location: String,
    pub relay_hostname: String,
}

/// The text between country and city.
pub open spec fn separator() -> Seq<char> {
    ", "@
}

/// The place as a text: country and city, separated by a comma; the
/// country alone where no city is known; nothing where no place is known.
pub open spec fn location_text(location: Option<&GeoLocation>) -> Seq<char> {
    match location {
        Some(place) => match place.city {
            Some(city) => place.country@ + separator() + city@,
            None => place.country@,
        },
        None => Seq::empty(),
    }
}

/// The host name of the relay, or nothing where none is known.
pub open spec fn hostname_text(location: Option<&GeoLocation>) -> Seq<char> {
    match location {
        Some(place) => match place.hostname {
            Some(hostname) => hostname@,
            None => Seq::empty(),
        },
        None => Seq::empty(),
    }
}

/// The connect button connects a disconnected tunnel and disconnects any
/// other.
pub fn toggle_command(conn: ConnectionState) -> (command: TunnelCommand)
    ensures
        command == if conn == ConnectionState::Disconnected {
            TunnelCommand::Connect
        } else {
            TunnelCommand::Disconnect
        },
{
    match conn {
        ConnectionState::Disconnected => TunnelCommand::Connect,
        _ => TunnelCommand::Disconnect,
    }
}

/// What the window shows for a tunnel state and the place it leads to.
pub fn status_view(conn: ConnectionState, location: Option<&GeoLocation>) -> (view: StatusView)
    ensures
        view.conn == conn,
        view.location@ == location_text(location),
        view.relay_hostname@ == hostname_text(location),
{
    let place = match location {
        Some(place) => place,
        None => {
            return StatusView { conn, location: String::new(), relay_hostname: String::new() };
        },
    };
    let relay_hostname = match &place.hostname {
        Some(hostname) => hostname.clone(),
        None => String::new(),
    };
    let mut text = place.country.clone();
    match &place.city {
        Some(city) => {
            text.append(", ");
            text.append(city.as_str());
        },
        None => {},
    }
    StatusView { conn, location: text, relay_hostname }
}

} // verus!
