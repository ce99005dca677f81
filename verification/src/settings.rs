//! The daemon's settings as the window shows and changes them.

use vstd::prelude::*;

verus! {

/// A place to pick relays from: a country, a city in a country, or one
/// relay in a city. Countries and cities go by their codes.
#[derive(Debug)]
pub enum RelayLocation {
    Country(String),
    City(String, String),
    Hostname(String, String, String),
}

/// Which relays may be used.
#[derive(Debug)]
pub enum LocationSetting {
    /// Any relay.
    Any,
    /// The relays of one place.
    Location(RelayLocation),
    /// The relays of a list that the user made.
    CustomList,
}

/// How the daemon picks its relay.
#[derive(Debug)]
pub enum RelaySettings {
    /// From the relay list, within a location setting.
    Normal(LocationSetting),
    /// A tunnel endpoint that the user configured by hand.
    Custom,
}

/// The settings that the window shows.
#[derive(Debug)]
pub struct Settings {
    pub relay_settings: RelaySettings,
    pub allow_lan: bool,
    pub enable_ipv6: bool,
    pub daita_enabled: bool,
    pub daita_use_multihop_if_necessary: bool,
}

/// The selection in the relay list: codes of country and city and the host
/// name of the relay, each empty where nothing is selected at that level.
#[derive(Debug)]
pub struct SelectedRelay {
    pub country: String,
    pub city: String,
    pub relay: String,
}

/// The state of the settings view.
#[derive(Debug)]
pub struct SettingsView {
    pub selected: SelectedRelay,
    pub allow_lan: bool,
    pub enable_ipv6: bool,
    pub daita_enabled: bool,
    pub daita_direct_only: bool,
}

/// The location cannot be set while the tunnel endpoint is configured by
/// hand.
#[derive(Clone, Copy, Debug, PartialEq, Eq, Structural)]
pub enum SettingsError {
    CustomRelay,
}

/// The place that the settings select, if they select one.
pub open spec fn selected_location(settings: &RelaySettings) -> Option<RelayLocation> {
    match settings {
        RelaySettings::Normal(LocationSetting::Location(location)) => Some(*location),
        _ => None,
    }
}

pub open spec fn selected_country(settings: &RelaySettings) -> Seq<char> {
    match selected_location(settings) {
        Some(RelayLocation::Country(country)) => country@,
        Some(RelayLocation::City(country, _)) => country@,
        Some(RelayLocation::Hostname(country, _, _)) => country@,
        None => Seq::empty(),
    }
}

pub open spec fn selected_city(settings: &RelaySettings) -> Seq<char> {
    match selected_location(settings) {
        Some(RelayLocation::City(_, city)) => city@,
        Some(RelayLocation::Hostname(_, city, _)) => city@,
        _ => Seq::empty(),
    }
}

pub open spec fn selected_hostname(settings: &RelaySettings) -> Seq<char> {
    match selected_location(settings) {
        Some(RelayLocation::Hostname(_, _, hostname)) => hostname@,
        _ => Seq::empty(),
    }
}

/// The selection that the relay list shows for the settings.
pub fn selected_relay(settings: &RelaySettings) -> (selected: SelectedRelay)
    ensures
        selected.country@ == selected_country(settings),
        selected.city@ == selected_city(settings),
        selected.relay@ == selected_hostname(settings),
{
    match settings {
        RelaySettings::Normal(LocationSetting::Location(location)) => match location {
            RelayLocation::Country(country) => SelectedRelay {
                country: country.clone(),
                city: String::new(),
                relay: String::new(),
            },
            RelayLocation::City(country, city) => SelectedRelay {
                country: country.clone(),
                city: city.clone(),
                relay: String::new(),
            },
            RelayLocation::Hostname(country, city, hostname) => SelectedRelay {
                country: country.clone(),
                city: city.clone(),
                relay: hostname.clone(),
            },
        },
        _ => SelectedRelay { country: String::new(), city: String::new(), relay: String::new() },
    }
}

/// The state of the settings view for the daemon's settings. The view
/// offers "direct only" where the daemon has "use multihop if necessary".
pub fn settings_view(settings: &Settings) -> (view: SettingsView)
    ensures
        view.selected.country@ == selected_country(&settings.relay_settings),
        view.selected.city@ == selected_city(&settings.relay_settings),
        view.selected.relay@ == selected_hostname(&settings.relay_settings),
        view.allow_lan == settings.allow_lan,
        view.enable_ipv6 == settings.enable_ipv6,
        view.daita_enabled == settings.daita_enabled,
        view.daita_direct_only == !settings.daita_use_multihop_if_necessary,
{
    SettingsView {
        selected: selected_relay(&settings.relay_settings),
        allow_lan: settings.allow_lan,
        enable_ipv6: settings.enable_ipv6,
        daita_enabled: settings.daita_enabled,
        daita_direct_only: !settings.daita_use_multihop_if_necessary,
    }
}

/// The location setting that selects a place. It is refused exactly where
/// the current settings configure the tunnel endpoint by hand.
pub fn select_location(current: &RelaySettings, location: RelayLocation) -> (r: Result<
    LocationSetting,
    SettingsError,
>)
    ensures
        match r {
            Ok(setting) => current is Normal && setting == LocationSetting::Location(location),
            Err(e) => current is Custom && e == SettingsError::CustomRelay,
        },
{
    match current {
        RelaySettings::Normal(_) => Ok(LocationSetting::Location(location)),
        RelaySettings::Custom => Err(SettingsError::CustomRelay),
    }
}

} // verus!
