use relay_list::domain::{IpAddress, OpenVpnEndpoint, OpenVpnEndpointData, PortRange,
    RelayEndpointData, TransportProtocol};
use relay_list::wire::{BaseRelay, BridgeSection, LocationEntry, OpenVpnSection, QuicParameters,
    RelayFeatures, ServerRelayList, WireLocation, WireguardSection, WireguardWireRelay};

fn location(code: &str, city: &str, country: &str, latitude: f64, longitude: f64) -> LocationEntry {
    LocationEntry {
        code: code.to_string(),
        location: WireLocation {
            city: city.to_string(),
            country: country.to_string(),
            latitude: latitude.to_bits(),
            longitude: longitude.to_bits(),
        },
    }
}

fn base_relay(hostname: &str, location: &str) -> BaseRelay {
    BaseRelay {
        hostname: hostname.to_string(),
        active: true,
        owned: true,
        location: location.to_string(),
        provider: "provider0".to_string(),
        ipv4_addr_in: 0x0a00_0001,
        ipv6_addr_in: None,
        weight: 100,
        include_in_country: true,
    }
}

fn wireguard_relay(hostname: &str, location: &str) -> WireguardWireRelay {
    WireguardWireRelay {
        relay: base_relay(hostname, location),
        public_key: vec![7u8; 32],
        daita: false,
        shadowsocks_extra_addr_in: vec![],
        features: RelayFeatures { daita: false, quic: None },
    }
}

fn empty_openvpn() -> OpenVpnSection {
    OpenVpnSection { ports: OpenVpnEndpointData { ports: vec![] }, relays: vec![] }
}

fn empty_wireguard() -> WireguardSection {
    WireguardSection {
        port_ranges: vec![],
        ipv4_gateway: 0x0a40_0001,
        ipv6_gateway: 0xfc00_0000_0000_0000_0000_0000_0000_0001,
        shadowsocks_port_ranges: vec![],
        relays: vec![],
    }
}

fn empty_bridge() -> BridgeSection {
    BridgeSection { shadowsocks: vec![], relays: vec![] }
}

fn payload(locations: Vec<LocationEntry>) -> ServerRelayList {
    ServerRelayList {
        locations,
        openvpn: empty_openvpn(),
        wireguard: empty_wireguard(),
        bridge: empty_bridge(),
    }
}

#[test]
fn single_openvpn_relay_lands_in_its_city() {
    let mut wire = payload(vec![location("se-sto", "Stockholm", "Sweden", 59.33, 18.06)]);
    wire.openvpn.relays.push(base_relay("SE1", "se-sto"));
    let list = wire.into_relay_list(None);
    assert_eq!(list.countries.len(), 1);
    let country = &list.countries[0];
    assert_eq!(country.code, "se");
    assert_eq!(country.name, "Sweden");
    assert_eq!(country.cities.len(), 1);
    let city = &country.cities[0];
    assert_eq!(city.code, "sto");
    assert_eq!(city.name, "Stockholm");
    assert_eq!(city.latitude, 59.33f64.to_bits());
    assert_eq!(city.longitude, 18.06f64.to_bits());
    assert_eq!(city.relays.len(), 1);
    let relay = &city.relays[0];
    assert_eq!(relay.hostname, "se1");
    assert_eq!(relay.endpoint_data, RelayEndpointData::Openvpn);
    assert_eq!(relay.location.country, "Sweden");
    assert_eq!(relay.location.country_code, "se");
    assert_eq!(relay.location.city, "Stockholm");
    assert_eq!(relay.location.city_code, "sto");
    assert!(!relay.overridden_ipv4);
    assert!(!relay.overridden_ipv6);
}

#[test]
fn location_codes_are_case_normalized() {
    let mut wire = payload(vec![location("SE-STO", "Stockholm", "Sweden", 59.33, 18.06)]);
    wire.openvpn.relays.push(base_relay("SE1", "sE-StO"));
    let list = wire.into_relay_list(None);
    assert_eq!(list.countries[0].code, "se");
    assert_eq!(list.countries[0].cities[0].code, "sto");
    assert_eq!(list.countries[0].cities[0].relays.len(), 1);
}

#[test]
fn bad_rows_are_dropped_and_the_call_succeeds() {
    let mut wire = payload(vec![location("se-sto", "Stockholm", "Sweden", 59.33, 18.06)]);
    // No separator, unknown country, unknown city: all dropped silently.
    wire.openvpn.relays.push(base_relay("bad1", "sesto"));
    wire.openvpn.relays.push(base_relay("bad2", "no-sto"));
    wire.openvpn.relays.push(base_relay("bad3", "se-got"));
    wire.openvpn.relays.push(base_relay("good", "se-sto"));
    let list = wire.into_relay_list(None);
    assert_eq!(list.countries.len(), 1);
    assert_eq!(list.countries[0].cities.len(), 1);
    let relays = &list.countries[0].cities[0].relays;
    assert_eq!(relays.len(), 1);
    assert_eq!(relays[0].hostname, "good");
}

#[test]
fn countries_come_out_sorted_by_code() {
    // Raw keys in map-key order "SE-sto", "ab-x": the produced countries are
    // sorted ascending by their case-normalized codes, as an ordered map
    // keyed by them would hand them out.
    let wire = payload(vec![
        location("SE-sto", "Stockholm", "Sweden", 59.33, 18.06),
        location("ab-x", "Xton", "Abland", 1.0, 2.0),
    ]);
    let list = wire.into_relay_list(None);
    let codes: Vec<&str> = list.countries.iter().map(|c| c.code.as_str()).collect();
    assert_eq!(codes, vec!["ab", "se"]);
}

#[test]
fn skeleton_entry_without_separator_is_skipped() {
    let wire = payload(vec![
        location("sesto", "Stockholm", "Sweden", 59.33, 18.06),
        location("de-ber", "Berlin", "Germany", 52.52, 13.40),
    ]);
    let list = wire.into_relay_list(None);
    assert_eq!(list.countries.len(), 1);
    assert_eq!(list.countries[0].code, "de");
}

#[test]
fn countries_without_relays_are_retained() {
    let wire = payload(vec![location("se-sto", "Stockholm", "Sweden", 59.33, 18.06)]);
    let list = wire.into_relay_list(None);
    assert_eq!(list.countries.len(), 1);
    assert_eq!(list.countries[0].cities[0].relays.len(), 0);
}

#[test]
fn country_name_first_seen_wins() {
    let wire = payload(vec![
        location("se-sto", "Stockholm", "Sweden", 59.33, 18.06),
        location("se-got", "Gothenburg", "Sverige", 57.71, 11.97),
    ]);
    let list = wire.into_relay_list(None);
    assert_eq!(list.countries.len(), 1);
    assert_eq!(list.countries[0].name, "Sweden");
    assert_eq!(list.countries[0].cities.len(), 2);
    assert_eq!(list.countries[0].cities[0].name, "Stockholm");
    assert_eq!(list.countries[0].cities[1].name, "Gothenburg");
}

#[test]
fn duplicate_city_codes_bind_to_the_first_city() {
    let mut wire = payload(vec![
        location("se-sto", "Stockholm", "Sweden", 59.33, 18.06),
        location("se-sto", "Stockholm Again", "Sweden", 59.33, 18.06),
    ]);
    wire.openvpn.relays.push(base_relay("se1", "se-sto"));
    let list = wire.into_relay_list(None);
    let cities = &list.countries[0].cities;
    assert_eq!(cities.len(), 2);
    assert_eq!(cities[0].relays.len(), 1);
    assert_eq!(cities[1].relays.len(), 0);
}

#[test]
fn per_city_relay_order_is_openvpn_then_wireguard_then_bridge() {
    let mut wire = payload(vec![location("se-sto", "Stockholm", "Sweden", 59.33, 18.06)]);
    wire.bridge.relays.push(base_relay("br1", "se-sto"));
    wire.wireguard.relays.push(wireguard_relay("wg1", "se-sto"));
    wire.openvpn.relays.push(base_relay("ov2", "se-sto"));
    wire.openvpn.relays.push(base_relay("ov1", "se-sto"));
    let list = wire.into_relay_list(None);
    let relays = &list.countries[0].cities[0].relays;
    let hostnames: Vec<&str> = relays.iter().map(|r| r.hostname.as_str()).collect();
    assert_eq!(hostnames, vec!["ov2", "ov1", "wg1", "br1"]);
    assert_eq!(relays[0].endpoint_data, RelayEndpointData::Openvpn);
    assert!(matches!(relays[2].endpoint_data, RelayEndpointData::Wireguard(_)));
    assert_eq!(relays[3].endpoint_data, RelayEndpointData::Bridge);
}

#[test]
fn transforming_the_same_payload_twice_is_identical() {
    let build = || {
        let mut wire = payload(vec![
            location("se-sto", "Stockholm", "Sweden", 59.33, 18.06),
            location("de-ber", "Berlin", "Germany", 52.52, 13.40),
        ]);
        wire.openvpn.relays.push(base_relay("se1", "se-sto"));
        wire.wireguard.relays.push(wireguard_relay("de1", "de-ber"));
        wire
    };
    let first = build().into_relay_list(Some("tag".to_string()));
    let second = build().into_relay_list(Some("tag".to_string()));
    assert_eq!(first, second);
}

#[test]
fn legacy_daita_flag_alone_resolves_to_true() {
    let mut wire = payload(vec![location("se-sto", "Stockholm", "Sweden", 59.33, 18.06)]);
    let mut relay = wireguard_relay("wg1", "se-sto");
    relay.daita = true;
    relay.features.daita = false;
    wire.wireguard.relays.push(relay);
    let list = wire.into_relay_list(None);
    match &list.countries[0].cities[0].relays[0].endpoint_data {
        RelayEndpointData::Wireguard(data) => assert!(data.daita),
        other => panic!("unexpected endpoint data: {:?}", other),
    }
}

#[test]
fn daita_marker_alone_resolves_to_true() {
    let mut wire = payload(vec![location("se-sto", "Stockholm", "Sweden", 59.33, 18.06)]);
    let mut relay = wireguard_relay("wg1", "se-sto");
    relay.daita = false;
    relay.features.daita = true;
    wire.wireguard.relays.push(relay);
    let list = wire.into_relay_list(None);
    match &list.countries[0].cities[0].relays[0].endpoint_data {
        RelayEndpointData::Wireguard(data) => assert!(data.daita),
        other => panic!("unexpected endpoint data: {:?}", other),
    }
}

#[test]
fn neither_daita_source_resolves_to_false() {
    let mut wire = payload(vec![location("se-sto", "Stockholm", "Sweden", 59.33, 18.06)]);
    wire.wireguard.relays.push(wireguard_relay("wg1", "se-sto"));
    let list = wire.into_relay_list(None);
    match &list.countries[0].cities[0].relays[0].endpoint_data {
        RelayEndpointData::Wireguard(data) => assert!(!data.daita),
        other => panic!("unexpected endpoint data: {:?}", other),
    }
}

#[test]
fn extra_shadowsocks_addresses_are_deduplicated_in_order() {
    let a = IpAddress::V4(0x0a000001);
    let b = IpAddress::V4(0x0a000002);
    let mut wire = payload(vec![location("se-sto", "Stockholm", "Sweden", 59.33, 18.06)]);
    let mut relay = wireguard_relay("wg1", "se-sto");
    relay.shadowsocks_extra_addr_in = vec![b, a, b, a, a];
    wire.wireguard.relays.push(relay);
    let list = wire.into_relay_list(None);
    match &list.countries[0].cities[0].relays[0].endpoint_data {
        RelayEndpointData::Wireguard(data) => {
            assert_eq!(data.shadowsocks_extra_addr_in, vec![b, a]);
        },
        other => panic!("unexpected endpoint data: {:?}", other),
    }
}

#[test]
fn quic_parameters_pass_through_verbatim() {
    let mut wire = payload(vec![location("se-sto", "Stockholm", "Sweden", 59.33, 18.06)]);
    let mut relay = wireguard_relay("wg1", "se-sto");
    relay.features.quic = Some(QuicParameters {
        addr_in: vec![IpAddress::V6(1), IpAddress::V4(2)],
        token: "token0".to_string(),
        domain: "proxy.example.net".to_string(),
    });
    wire.wireguard.relays.push(relay);
    let list = wire.into_relay_list(None);
    match &list.countries[0].cities[0].relays[0].endpoint_data {
        RelayEndpointData::Wireguard(data) => {
            let quic = data.quic.as_ref().expect("quic parameters expected");
            assert_eq!(quic.addr_in, vec![IpAddress::V6(1), IpAddress::V4(2)]);
            assert_eq!(quic.token, "token0");
            assert_eq!(quic.domain, "proxy.example.net");
        },
        other => panic!("unexpected endpoint data: {:?}", other),
    }
}

#[test]
fn wireguard_metadata_is_emitted_once_and_mapped_to_inclusive_ranges() {
    let mut wire = payload(vec![]);
    wire.wireguard.port_ranges = vec![(53, 53), (4000, 33433)];
    wire.wireguard.shadowsocks_port_ranges = vec![(100, 200)];
    wire.wireguard.relays.push(wireguard_relay("wg1", "se-sto"));
    wire.wireguard.relays.push(wireguard_relay("wg2", "se-sto"));
    let list = wire.into_relay_list(None);
    assert_eq!(
        list.wireguard.port_ranges,
        vec![PortRange { first: 53, last: 53 }, PortRange { first: 4000, last: 33433 }]
    );
    assert_eq!(list.wireguard.shadowsocks_port_ranges, vec![PortRange { first: 100, last: 200 }]);
    assert_eq!(list.wireguard.ipv4_gateway, wire_gateway_v4());
    assert!(list.wireguard.udp2tcp_ports.is_empty());
}

fn wire_gateway_v4() -> u32 {
    0x0a40_0001
}

#[test]
fn openvpn_ports_and_bridge_shadowsocks_pass_through() {
    let mut wire = payload(vec![]);
    wire.openvpn.ports.ports.push(OpenVpnEndpoint { port: 1194, protocol: TransportProtocol::Udp });
    wire.openvpn.ports.ports.push(OpenVpnEndpoint { port: 443, protocol: TransportProtocol::Tcp });
    wire.bridge.shadowsocks.push(relay_list::domain::ShadowsocksEndpointData {
        port: 443,
        cipher: "aes-256-gcm".to_string(),
        password: "password0".to_string(),
        protocol: TransportProtocol::Tcp,
    });
    let list = wire.into_relay_list(None);
    assert_eq!(list.openvpn.ports.len(), 2);
    assert_eq!(list.openvpn.ports[0].port, 1194);
    assert_eq!(list.bridge.shadowsocks.len(), 1);
    assert_eq!(list.bridge.shadowsocks[0].cipher, "aes-256-gcm");
}

#[test]
fn coordinates_are_carried_as_opaque_bit_patterns() {
    let entry = location("se-sto", "Stockholm", "Sweden", 59.33, 18.06);
    assert_eq!(f64::from_bits(entry.location.latitude), 59.33);
    assert_eq!(f64::from_bits(entry.location.longitude), 18.06);
}
