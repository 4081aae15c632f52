//! The hierarchical, protocol-agnostic relay model handed to
//! relay-selection and UI layers: countries contain cities, cities contain
//! relays, and each relay carries its protocol-specific endpoint data.
//!
//! Coordinates are carried as opaque 64-bit patterns and IP addresses as
//! their integer values: the engine copies them through without ever
//! interpreting them, and callers convert at the boundary.

use vstd::prelude::*;

verus! {

/// An IP address, v4 or v6, as its integer value.
#[derive(Debug, Clone, Copy, PartialEq, Eq, Structural)]
pub enum IpAddress {
    V4(u32),
    V6(u128),
}

/// A transport protocol for an OpenVPN or Shadowsocks endpoint.
#[derive(Debug, Clone, Copy, PartialEq, Eq, Structural)]
pub enum TransportProtocol {
    Udp,
    Tcp,
}

/// One port on which OpenVPN endpoints listen.
#[derive(Debug, Clone, Copy, PartialEq, Eq, Structural)]
pub struct OpenVpnEndpoint {
    pub port: u16,
    pub protocol: TransportProtocol,
}

/// Protocol-wide OpenVPN metadata, passed through from the wire payload.
#[derive(Debug, Clone, PartialEq)]
pub struct OpenVpnEndpointData {
    pub ports: Vec<OpenVpnEndpoint>,
}

/// Mathematical model of [`OpenVpnEndpointData`].
#[verifier::ext_equal]
pub struct OpenVpnEndpointDataModel {
    pub ports: Seq<OpenVpnEndpoint>,
}

impl DeepView for OpenVpnEndpointData {
    type V = OpenVpnEndpointDataModel;

    open spec fn deep_view(&self) -> OpenVpnEndpointDataModel {
        OpenVpnEndpointDataModel { ports: self.ports@ }
    }
}

/// One Shadowsocks bridge configuration, passed through verbatim.
#[derive(Debug, Clone, PartialEq)]
pub struct ShadowsocksEndpointData {
    pub port: u16,
    pub cipher: String,
    pub password: String,
    pub protocol: TransportProtocol,
}

/// Mathematical model of [`ShadowsocksEndpointData`].
#[verifier::ext_equal]
pub struct ShadowsocksEndpointDataModel {
    pub port: u16,
    pub cipher: Seq<char>,
    pub password: Seq<char>,
    pub protocol: TransportProtocol,
}

impl DeepView for ShadowsocksEndpointData {
    type V = ShadowsocksEndpointDataModel;

    open spec fn deep_view(&self) -> ShadowsocksEndpointDataModel {
        ShadowsocksEndpointDataModel {
            port: self.port,
            cipher: self.cipher@,
            password: self.password@,
            protocol: self.protocol,
        }
    }
}

/// Protocol-wide bridge metadata: the Shadowsocks configurations.
#[derive(Debug, Clone, PartialEq)]
pub struct BridgeEndpointData {
    pub shadowsocks: Vec<ShadowsocksEndpointData>,
}

/// Mathematical model of [`BridgeEndpointData`].
#[verifier::ext_equal]
pub struct BridgeEndpointDataModel {
    pub shadowsocks: Seq<ShadowsocksEndpointDataModel>,
}

impl DeepView for BridgeEndpointData {
    type V = BridgeEndpointDataModel;

    open spec fn deep_view(&self) -> BridgeEndpointDataModel {
        BridgeEndpointDataModel { shadowsocks: self.shadowsocks.deep_view() }
    }
}

/// An inclusive range of ports.
#[derive(Debug, Clone, Copy, PartialEq, Eq, Structural)]
pub struct PortRange {
    pub first: u16,
    pub last: u16,
}

/// Protocol-wide WireGuard metadata: gateways and the usable port ranges.
#[derive(Debug, Clone, PartialEq)]
pub struct WireguardEndpointData {
    pub port_ranges: Vec<PortRange>,
    pub ipv4_gateway: u32,
    pub ipv6_gateway: u128,
    pub shadowsocks_port_ranges: Vec<PortRange>,
    pub udp2tcp_ports: Vec<u16>,
}

/// Mathematical model of [`WireguardEndpointData`].
#[verifier::ext_equal]
pub struct WireguardEndpointDataModel {
    pub port_ranges: Seq<PortRange>,
    pub ipv4_gateway: u32,
    pub ipv6_gateway: u128,
    pub shadowsocks_port_ranges: Seq<PortRange>,
    pub udp2tcp_ports: Seq<u16>,
}

impl DeepView for WireguardEndpointData {
    type V = WireguardEndpointDataModel;

    open spec fn deep_view(&self) -> WireguardEndpointDataModel {
        WireguardEndpointDataModel {
            port_ranges: self.port_ranges@,
            ipv4_gateway: self.ipv4_gateway,
            ipv6_gateway: self.ipv6_gateway,
            shadowsocks_port_ranges: self.shadowsocks_port_ranges@,
            udp2tcp_ports: self.udp2tcp_ports@,
        }
    }
}

/// Parameters for the QUIC obfuscator offered by some WireGuard relays.
#[derive(Debug, Clone, PartialEq)]
pub struct Quic {
    /// Ingress addresses of the obfuscator (zero, one or two).
    pub addr_in: Vec<IpAddress>,
    /// Authorization token.
    pub token: String,
    /// Hostname under which the obfuscator is reachable.
    pub domain: String,
}

/// Mathematical model of [`Quic`].
#[verifier::ext_equal]
pub struct QuicModel {
    pub addr_in: Seq<IpAddress>,
    pub token: Seq<char>,
    pub domain: Seq<char>,
}

impl DeepView for Quic {
    type V = QuicModel;

    open spec fn deep_view(&self) -> QuicModel {
        QuicModel { addr_in: self.addr_in@, token: self.token@, domain: self.domain@ }
    }
}

/// Per-relay WireGuard endpoint data after feature resolution.
#[derive(Debug, Clone, PartialEq)]
pub struct WireguardRelayEndpointData {
    pub public_key: Vec<u8>,
    /// Whether the relay supports DAITA, merged from the legacy flag and the
    /// newer capability marker.
    pub daita: bool,
    /// Extra Shadowsocks ingress addresses, deduplicated, first seen first.
    pub shadowsocks_extra_addr_in: Vec<IpAddress>,
    pub quic: Option<Quic>,
}

/// Mathematical model of [`WireguardRelayEndpointData`].
#[verifier::ext_equal]
pub struct WireguardRelayEndpointDataModel {
    pub public_key: Seq<u8>,
    pub daita: bool,
    pub shadowsocks_extra_addr_in: Seq<IpAddress>,
    pub quic: Option<QuicModel>,
}

impl DeepView for WireguardRelayEndpointData {
    type V = WireguardRelayEndpointDataModel;

    open spec fn deep_view(&self) -> WireguardRelayEndpointDataModel {
        WireguardRelayEndpointDataModel {
            public_key: self.public_key@,
            daita: self.daita,
            shadowsocks_extra_addr_in: self.shadowsocks_extra_addr_in@,
            quic: self.quic.deep_view(),
        }
    }
}

/// The protocol a relay serves, with protocol-specific data where there is
/// any.
#[derive(Debug, Clone, PartialEq)]
pub enum RelayEndpointData {
    Openvpn,
    Bridge,
    Wireguard(WireguardRelayEndpointData),
}

/// Mathematical model of [`RelayEndpointData`].
#[verifier::ext_equal]
pub enum RelayEndpointDataModel {
    Openvpn,
    Bridge,
    Wireguard(WireguardRelayEndpointDataModel),
}

impl DeepView for RelayEndpointData {
    type V = RelayEndpointDataModel;

    open spec fn deep_view(&self) -> RelayEndpointDataModel {
        match self {
            RelayEndpointData::Openvpn => RelayEndpointDataModel::Openvpn,
            RelayEndpointData::Bridge => RelayEndpointDataModel::Bridge,
            RelayEndpointData::Wireguard(d) => RelayEndpointDataModel::Wireguard(d.deep_view()),
        }
    }
}

/// A relay's place in the hierarchy, flattened: names, codes and coordinates
/// copied from the country and city the relay was attached to.
#[derive(Debug, Clone, PartialEq)]
pub struct Location {
    pub country: String,
    pub country_code: String,
    pub city: String,
    pub city_code: String,
    pub latitude: u64,
    pub longitude: u64,
}

/// Mathematical model of [`Location`].
#[verifier::ext_equal]
pub struct LocationModel {
    pub country: Seq<char>,
    pub country_code: Seq<char>,
    pub city: Seq<char>,
    pub city_code: Seq<char>,
    pub latitude: u64,
    pub longitude: u64,
}

impl DeepView for Location {
    type V = LocationModel;

    open spec fn deep_view(&self) -> LocationModel {
        LocationModel {
            country: self.country@,
            country_code: self.country_code@,
            city: self.city@,
            city_code: self.city_code@,
            latitude: self.latitude,
            longitude: self.longitude,
        }
    }
}

/// One relay of the output model.
#[derive(Debug, Clone, PartialEq)]
pub struct Relay {
    pub hostname: String,
    pub ipv4_addr_in: u32,
    pub ipv6_addr_in: Option<u128>,
    /// Set by a later, separate override step; always false here.
    pub overridden_ipv4: bool,
    /// Set by a later, separate override step; always false here.
    pub overridden_ipv6: bool,
    pub include_in_country: bool,
    pub active: bool,
    pub owned: bool,
    pub provider: String,
    pub weight: u64,
    pub endpoint_data: RelayEndpointData,
    pub location: Location,
}

/// Mathematical model of [`Relay`].
#[verifier::ext_equal]
pub struct RelayModel {
    pub hostname: Seq<char>,
    pub ipv4_addr_in: u32,
    pub ipv6_addr_in: Option<u128>,
    pub overridden_ipv4: bool,
    pub overridden_ipv6: bool,
    pub include_in_country: bool,
    pub active: bool,
    pub owned: bool,
    pub provider: Seq<char>,
    pub weight: u64,
    pub endpoint_data: RelayEndpointDataModel,
    pub location: LocationModel,
}

impl DeepView for Relay {
    type V = RelayModel;

    open spec fn deep_view(&self) -> RelayModel {
        RelayModel {
            hostname: self.hostname@,
            ipv4_addr_in: self.ipv4_addr_in,
            ipv6_addr_in: self.ipv6_addr_in,
            overridden_ipv4: self.overridden_ipv4,
            overridden_ipv6: self.overridden_ipv6,
            include_in_country: self.include_in_country,
            active: self.active,
            owned: self.owned,
            provider: self.provider@,
            weight: self.weight,
            endpoint_data: self.endpoint_data.deep_view(),
            location: self.location.deep_view(),
        }
    }
}

/// A city: code, name, coordinates and the relays attached to it, in
/// attachment order.
#[derive(Debug, Clone, PartialEq)]
pub struct City {
    pub name: String,
    pub code: String,
    pub latitude: u64,
    pub longitude: u64,
    pub relays: Vec<Relay>,
}

/// Mathematical model of [`City`].
#[verifier::ext_equal]
pub struct CityModel {
    pub name: Seq<char>,
    pub code: Seq<char>,
    pub latitude: u64,
    pub longitude: u64,
    pub relays: Seq<RelayModel>,
}

impl DeepView for City {
    type V = CityModel;

    open spec fn deep_view(&self) -> CityModel {
        CityModel {
            name: self.name@,
            code: self.code@,
            latitude: self.latitude,
            longitude: self.longitude,
            relays: self.relays.deep_view(),
        }
    }
}

/// A country: its lowercase code, its name as first seen, and its cities in
/// insertion order.
#[derive(Debug, Clone, PartialEq)]
pub struct Country {
    pub name: String,
    pub code: String,
    pub cities: Vec<City>,
}

/// Mathematical model of [`Country`].
#[verifier::ext_equal]
pub struct CountryModel {
    pub name: Seq<char>,
    pub code: Seq<char>,
    pub cities: Seq<CityModel>,
}

impl DeepView for Country {
    type V = CountryModel;

    open spec fn deep_view(&self) -> CountryModel {
        CountryModel { name: self.name@, code: self.code@, cities: self.cities.deep_view() }
    }
}

/// The produced relay list: the cache validator of the payload it was built
/// from, protocol-wide metadata for each protocol, and the country tree.
#[derive(Debug, Clone, PartialEq)]
pub struct RelayList {
    pub etag: Option<String>,
    pub countries: Vec<Country>,
    pub openvpn: OpenVpnEndpointData,
    pub bridge: BridgeEndpointData,
    pub wireguard: WireguardEndpointData,
}

/// Mathematical model of [`RelayList`].
#[verifier::ext_equal]
pub struct RelayListModel {
    pub etag: Option<Seq<char>>,
    pub countries: Seq<CountryModel>,
    pub openvpn: OpenVpnEndpointDataModel,
    pub bridge: BridgeEndpointDataModel,
    pub wireguard: WireguardEndpointDataModel,
}

impl DeepView for RelayList {
    type V = RelayListModel;

    open spec fn deep_view(&self) -> RelayListModel {
        RelayListModel {
            etag: self.etag.deep_view(),
            countries: self.countries.deep_view(),
            openvpn: self.openvpn.deep_view(),
            bridge: self.bridge.deep_view(),
            wireguard: self.wireguard.deep_view(),
        }
    }
}

} // verus!
