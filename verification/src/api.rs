//! The relay list as the public relay service describes it.

use std::collections::BTreeMap;
use vstd::prelude::*;

verus! {

/// Where a relay stands.
#[derive(Debug, Clone)]
pub struct Location {
    pub country: String,
    pub city: String,
}

/// All relays, together with the locations that they refer to by code.
#[derive(Debug, Clone)]
pub struct RelayList {
    pub locations: BTreeMap<String, Location>,
    pub wireguard: WireguardList,
}

/// The relays that speak WireGuard.
#[derive(Debug, Clone)]
pub struct WireguardList {
    pub relays: Vec<Relay>,
}

/// One relay: its host name and the code of its location.
#[derive(Debug, Clone)]
pub struct Relay {
    pub hostname: String,
    pub location: String,
}

} // verus!
