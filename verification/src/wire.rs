//! The wire format of the relay-list endpoint: a flat map of location codes
//! plus three per-protocol relay sections. Values of these types are
//! transient; they are built from one response body and consumed exactly
//! once into the domain model.

use vstd::prelude::*;

use crate::domain::{IpAddress, OpenVpnEndpointData, OpenVpnEndpointDataModel,
    ShadowsocksEndpointData, ShadowsocksEndpointDataModel};

verus! {

/// One value of the `locations` map: the display names of a point of
/// presence and its coordinates (carried as opaque bit patterns).
#[derive(Debug, Clone, PartialEq)]
pub struct WireLocation {
    pub city: String,
    pub country: String,
    pub latitude: u64,
    pub longitude: u64,
}

/// Mathematical model of [`WireLocation`].
#[verifier::ext_equal]
pub struct WireLocationModel {
    pub city: Seq<char>,
    pub country: Seq<char>,
    pub latitude: u64,
    pub longitude: u64,
}

impl DeepView for WireLocation {
    type V = WireLocationModel;

    open spec fn deep_view(&self) -> WireLocationModel {
        WireLocationModel {
            city: self.city@,
            country: self.country@,
            latitude: self.latitude,
            longitude: self.longitude,
        }
    }
}

/// One entry of the `locations` map: the compound location code and its
/// value. Entries are handed over in the map's key order.
#[derive(Debug, Clone, PartialEq)]
pub struct LocationEntry {
    pub code: String,
    pub location: WireLocation,
}

/// Mathematical model of [`LocationEntry`].
#[verifier::ext_equal]
pub struct LocationEntryModel {
    pub code: Seq<char>,
    pub location: WireLocationModel,
}

impl DeepView for LocationEntry {
    type V = LocationEntryModel;

    open spec fn deep_view(&self) -> LocationEntryModel {
        LocationEntryModel { code: self.code@, location: self.location.deep_view() }
    }
}

/// The fields shared by the relay records of every protocol section.
#[derive(Debug, Clone, PartialEq)]
pub struct BaseRelay {
    pub hostname: String,
    pub active: bool,
    pub owned: bool,
    /// Compound location code naming the country and city of the relay.
    pub location: String,
    pub provider: String,
    pub ipv4_addr_in: u32,
    pub ipv6_addr_in: Option<u128>,
    pub weight: u64,
    pub include_in_country: bool,
}

/// Mathematical model of [`BaseRelay`].
#[verifier::ext_equal]
pub struct BaseRelayModel {
    pub hostname: Seq<char>,
    pub active: bool,
    pub owned: bool,
    pub location: Seq<char>,
    pub provider: Seq<char>,
    pub ipv4_addr_in: u32,
    pub ipv6_addr_in: Option<u128>,
    pub weight: u64,
    pub include_in_country: bool,
}

impl DeepView for BaseRelay {
    type V = BaseRelayModel;

    open spec fn deep_view(&self) -> BaseRelayModel {
        BaseRelayModel {
            hostname: self.hostname@,
            active: self.active,
            owned: self.owned,
            location: self.location@,
            provider: self.provider@,
            ipv4_addr_in: self.ipv4_addr_in,
            ipv6_addr_in: self.ipv6_addr_in,
            weight: self.weight,
            include_in_country: self.include_in_country,
        }
    }
}

/// The OpenVPN section: protocol-wide port configuration plus the relays.
#[derive(Debug, Clone, PartialEq)]
pub struct OpenVpnSection {
    pub ports: OpenVpnEndpointData,
    pub relays: Vec<BaseRelay>,
}

/// Mathematical model of [`OpenVpnSection`].
#[verifier::ext_equal]
pub struct OpenVpnSectionModel {
    pub ports: OpenVpnEndpointDataModel,
    pub relays: Seq<BaseRelayModel>,
}

impl DeepView for OpenVpnSection {
    type V = OpenVpnSectionModel;

    open spec fn deep_view(&self) -> OpenVpnSectionModel {
        OpenVpnSectionModel { ports: self.ports.deep_view(), relays: self.relays.deep_view() }
    }
}

/// Parameters of the QUIC obfuscator advertised for a relay, passed through
/// verbatim.
#[derive(Debug, Clone, PartialEq)]
pub struct QuicParameters {
    /// Ingress addresses (the server advertises zero, one or two).
    pub addr_in: Vec<IpAddress>,
    /// Authorization token.
    pub token: String,
    /// Hostname under which the obfuscator is reachable.
    pub domain: String,
}

/// Mathematical model of [`QuicParameters`].
#[verifier::ext_equal]
pub struct QuicParametersModel {
    pub addr_in: Seq<IpAddress>,
    pub token: Seq<char>,
    pub domain: Seq<char>,
}

impl DeepView for QuicParameters {
    type V = QuicParametersModel;

    open spec fn deep_view(&self) -> QuicParametersModel {
        QuicParametersModel {
            addr_in: self.addr_in@,
            token: self.token@,
            domain: self.domain@,
        }
    }
}

/// The newer per-relay capability record of the WireGuard section.
#[derive(Debug, Clone, PartialEq)]
pub struct RelayFeatures {
    /// Whether the content-free DAITA capability marker is present.
    pub daita: bool,
    /// QUIC obfuscation parameters, when advertised.
    pub quic: Option<QuicParameters>,
}

/// Mathematical model of [`RelayFeatures`].
#[verifier::ext_equal]
pub struct RelayFeaturesModel {
    pub daita: bool,
    pub quic: Option<QuicParametersModel>,
}

impl DeepView for RelayFeatures {
    type V = RelayFeaturesModel;

    open spec fn deep_view(&self) -> RelayFeaturesModel {
        RelayFeaturesModel { daita: self.daita, quic: self.quic.deep_view() }
    }
}

/// One relay record of the WireGuard section: the base fields plus key
/// material and capability data.
#[derive(Debug, Clone, PartialEq)]
pub struct WireguardWireRelay {
    pub relay: BaseRelay,
    pub public_key: Vec<u8>,
    /// The legacy DAITA flag, superseded by the capability marker.
    pub daita: bool,
    pub shadowsocks_extra_addr_in: Vec<IpAddress>,
    pub features: RelayFeatures,
}

/// Mathematical model of [`WireguardWireRelay`].
#[verifier::ext_equal]
pub struct WireguardWireRelayModel {
    pub relay: BaseRelayModel,
    pub public_key: Seq<u8>,
    pub daita: bool,
    pub shadowsocks_extra_addr_in: Seq<IpAddress>,
    pub features: RelayFeaturesModel,
}

impl DeepView for WireguardWireRelay {
    type V = WireguardWireRelayModel;

    open spec fn deep_view(&self) -> WireguardWireRelayModel {
        WireguardWireRelayModel {
            relay: self.relay.deep_view(),
            public_key: self.public_key@,
            daita: self.daita,
            shadowsocks_extra_addr_in: self.shadowsocks_extra_addr_in@,
            features: self.features.deep_view(),
        }
    }
}

/// The WireGuard section: gateways, port ranges and the relays.
#[derive(Debug, Clone, PartialEq)]
pub struct WireguardSection {
    pub port_ranges: Vec<(u16, u16)>,
    pub ipv4_gateway: u32,
    pub ipv6_gateway: u128,
    /// Shadowsocks port ranges available on all WireGuard relays; the wire
    /// default is the empty list.
    pub shadowsocks_port_ranges: Vec<(u16, u16)>,
    pub relays: Vec<WireguardWireRelay>,
}

/// Mathematical model of [`WireguardSection`].
#[verifier::ext_equal]
pub struct WireguardSectionModel {
    pub port_ranges: Seq<(u16, u16)>,
    pub ipv4_gateway: u32,
    pub ipv6_gateway: u128,
    pub shadowsocks_port_ranges: Seq<(u16, u16)>,
    pub relays: Seq<WireguardWireRelayModel>,
}

impl DeepView for WireguardSection {
    type V = WireguardSectionModel;

    open spec fn deep_view(&self) -> WireguardSectionModel {
        WireguardSectionModel {
            port_ranges: self.port_ranges@,
            ipv4_gateway: self.ipv4_gateway,
            ipv6_gateway: self.ipv6_gateway,
            shadowsocks_port_ranges: self.shadowsocks_port_ranges@,
            relays: self.relays.deep_view(),
        }
    }
}

/// The bridge section: Shadowsocks configurations plus the relays.
#[derive(Debug, Clone, PartialEq)]
pub struct BridgeSection {
    pub shadowsocks: Vec<ShadowsocksEndpointData>,
    pub relays: Vec<BaseRelay>,
}

/// Mathematical model of [`BridgeSection`].
#[verifier::ext_equal]
pub struct BridgeSectionModel {
    pub shadowsocks: Seq<ShadowsocksEndpointDataModel>,
    pub relays: Seq<BaseRelayModel>,
}

impl DeepView for BridgeSection {
    type V = BridgeSectionModel;

    open spec fn deep_view(&self) -> BridgeSectionModel {
        BridgeSectionModel {
            shadowsocks: self.shadowsocks.deep_view(),
            relays: self.relays.deep_view(),
        }
    }
}

/// A full wire payload, as decoded from one `200` response body.
#[derive(Debug, Clone, PartialEq)]
pub struct ServerRelayList {
    pub locations: Vec<LocationEntry>,
    pub openvpn: OpenVpnSection,
    pub wireguard: WireguardSection,
    pub bridge: BridgeSection,
}

/// Mathematical model of [`ServerRelayList`].
#[verifier::ext_equal]
pub struct ServerRelayListModel {
    pub locations: Seq<LocationEntryModel>,
    pub openvpn: OpenVpnSectionModel,
    pub wireguard: WireguardSectionModel,
    pub bridge: BridgeSectionModel,
}

impl DeepView for ServerRelayList {
    type V = ServerRelayListModel;

    open spec fn deep_view(&self) -> ServerRelayListModel {
        ServerRelayListModel {
            locations: self.locations.deep_view(),
            openvpn: self.openvpn.deep_view(),
            wireguard: self.wireguard.deep_view(),
            bridge: self.bridge.deep_view(),
        }
    }
}

} // verus!
