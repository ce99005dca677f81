use std::collections::BTreeMap;

use globe_map::api::{Location, Relay, RelayList, WireguardList};

#[test]
fn relay_list_holds_its_parts() {
    let mut locations = BTreeMap::new();
    locations.insert(
        "se-got".to_string(),
        Location { country: "Sweden".to_string(), city: "Gothenburg".to_string() },
    );
    let list = RelayList {
        locations,
        wireguard: WireguardList {
            relays: vec![Relay {
                hostname: "se-got-wg-001".to_string(),
                location: "se-got".to_string(),
            }],
        },
    };
    let copy = list.clone();
    assert_eq!(copy.wireguard.relays.len(), 1);
    assert_eq!(copy.wireguard.relays[0].hostname, "se-got-wg-001");
    let place = &copy.locations[&copy.wireguard.relays[0].location];
    assert_eq!(place.country, "Sweden");
    assert_eq!(place.city, "Gothenburg");
}
