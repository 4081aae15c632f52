//! Topology construction: building the country/city skeleton from the
//! locations map, attaching each protocol section's relays, resolving
//! per-relay WireGuard capabilities, and assembling the final relay list.
//!
//! The pass is total: a row that cannot be resolved (bad location code,
//! unknown country, no matching city) is dropped and never fails the call.

use vstd::prelude::*;

use crate::codes::{lex_lt, lower_of, spec_split_location_code, split_location_code, str_lt,
    to_lowercase};
use crate::domain::{BridgeEndpointData, BridgeEndpointDataModel, City, CityModel, Country,
    CountryModel, IpAddress, Location, LocationModel, OpenVpnEndpointData, PortRange, Quic,
    QuicModel, Relay, RelayEndpointData, RelayEndpointDataModel, RelayList, RelayListModel,
    RelayModel, WireguardEndpointData, WireguardEndpointDataModel, WireguardRelayEndpointData,
    WireguardRelayEndpointDataModel};
use crate::wire::{BaseRelay, BaseRelayModel, BridgeSection, BridgeSectionModel, LocationEntry,
    LocationEntryModel, OpenVpnSection, QuicParametersModel, RelayFeatures, ServerRelayList,
    ServerRelayListModel, WireguardSection, WireguardSectionModel, WireguardWireRelay,
    WireguardWireRelayModel, WireLocationModel};

verus! {

// ---------------------------------------------------------------------------
// Looking countries and cities up by code
// ---------------------------------------------------------------------------

/// The index of the first country carrying `code`, if any.
pub open spec fn spec_find_country(t: Seq<CountryModel>, code: Seq<char>) -> Option<int>
    decreases t.len(),
{
    if t.len() == 0 {
        None
    } else if t[0].code == code {
        Some(0)
    } else {
        match spec_find_country(t.skip(1), code) {
            Some(i) => Some(i + 1),
            None => None,
        }
    }
}

/// The index of the first city carrying `code`, if any. When a country holds
/// several cities with one code, relays always bind to the first one.
pub open spec fn spec_find_city(cities: Seq<CityModel>, code: Seq<char>) -> Option<int>
    decreases cities.len(),
{
    if cities.len() == 0 {
        None
    } else if cities[0].code == code {
        Some(0)
    } else {
        match spec_find_city(cities.skip(1), code) {
            Some(i) => Some(i + 1),
            None => None,
        }
    }
}

/// `spec_find_country` returns the first match, and `None` only when no
/// country carries the code.
pub proof fn lemma_find_country(t: Seq<CountryModel>, code: Seq<char>)
    ensures
        match spec_find_country(t, code) {
            Some(i) => {
                &&& 0 <= i < t.len()
                &&& t[i].code == code
                &&& forall|j: int| 0 <= j < i ==> t[j].code != code
            },
            None => forall|j: int| 0 <= j < t.len() ==> t[j].code != code,
        },
    decreases t.len(),
{
    if t.len() > 0 && t[0].code != code {
        let rest = t.skip(1);
        lemma_find_country(rest, code);
        match spec_find_country(rest, code) {
            Some(i) => {
                assert(rest[i] == t[i + 1]);
                assert forall|j: int| 0 <= j < i + 1 implies t[j].code != code by {
                    if j > 0 {
                        assert(rest[j - 1] == t[j]);
                    }
                }
            },
            None => {
                assert forall|j: int| 0 <= j < t.len() implies t[j].code != code by {
                    if j > 0 {
                        assert(rest[j - 1] == t[j]);
                    }
                }
            },
        }
    }
}

/// `spec_find_city` returns the first match, and `None` only when no city
/// carries the code.
pub proof fn lemma_find_city(cities: Seq<CityModel>, code: Seq<char>)
    ensures
        match spec_find_city(cities, code) {
            Some(i) => {
                &&& 0 <= i < cities.len()
                &&& cities[i].code == code
                &&& forall|j: int| 0 <= j < i ==> cities[j].code != code
            },
            None => forall|j: int| 0 <= j < cities.len() ==> cities[j].code != code,
        },
    decreases cities.len(),
{
    if cities.len() > 0 && cities[0].code != code {
        let rest = cities.skip(1);
        lemma_find_city(rest, code);
        match spec_find_city(rest, code) {
            Some(i) => {
                assert(rest[i] == cities[i + 1]);
                assert forall|j: int| 0 <= j < i + 1 implies cities[j].code != code by {
                    if j > 0 {
                        assert(rest[j - 1] == cities[j]);
                    }
                }
            },
            None => {
                assert forall|j: int| 0 <= j < cities.len() implies cities[j].code != code by {
                    if j > 0 {
                        assert(rest[j - 1] == cities[j]);
                    }
                }
            },
        }
    }
}

fn find_country_index(countries: &Vec<Country>, code: &String) -> (r: Option<usize>)
    ensures
        match r {
            Some(i) => i < countries.len() && spec_find_country(countries.deep_view(), code@)
                == Some(i as int),
            None => spec_find_country(countries.deep_view(), code@) is None,
        },
{
    let ghost t = countries.deep_view();
    let mut i: usize = 0;
    while i < countries.len()
        invariant
            i <= countries.len(),
            t == countries.deep_view(),
            t.len() == countries.len(),
            forall|k: int| 0 <= k < i ==> t[k].code != code@,
        decreases countries.len() - i,
    {
        if countries[i].code == *code {
            proof {
                assert(t[i as int] == countries@[i as int].deep_view());
                assert(t[i as int].code == code@);
                lemma_find_country(t, code@);
                match spec_find_country(t, code@) {
                    Some(m) => {
                        if m < i {
                            assert(t[m].code != code@);
                        }
                        if m > i {
                            assert(t[i as int].code != code@);
                        }
                    },
                    None => {
                        assert(t[i as int].code != code@);
                    },
                }
            }
            return Some(i);
        }
        i = i + 1;
    }
    proof {
        lemma_find_country(t, code@);
    }
    None
}

fn find_city_index(cities: &Vec<City>, code: &String) -> (r: Option<usize>)
    ensures
        match r {
            Some(i) => i < cities.len() && spec_find_city(cities.deep_view(), code@) == Some(
                i as int,
            ),
            None => spec_find_city(cities.deep_view(), code@) is None,
        },
{
    let ghost t = cities.deep_view();
    let mut i: usize = 0;
    while i < cities.len()
        invariant
            i <= cities.len(),
            t == cities.deep_view(),
            t.len() == cities.len(),
            forall|k: int| 0 <= k < i ==> t[k].code != code@,
        decreases cities.len() - i,
    {
        if cities[i].code == *code {
            proof {
                assert(t[i as int] == cities@[i as int].deep_view());
                assert(t[i as int].code == code@);
                lemma_find_city(t, code@);
                match spec_find_city(t, code@) {
                    Some(m) => {
                        if m < i {
                            assert(t[m].code != code@);
                        }
                        if m > i {
                            assert(t[i as int].code != code@);
                        }
                    },
                    None => {
                        assert(t[i as int].code != code@);
                    },
                }
            }
            return Some(i);
        }
        i = i + 1;
    }
    proof {
        lemma_find_city(t, code@);
    }
    None
}

// ---------------------------------------------------------------------------
// Skeleton construction from the locations map
// ---------------------------------------------------------------------------

/// Where a new country belongs in a table kept sorted ascending by code:
/// before the first country whose code is greater. The produced country
/// list is thereby always in the order of an ordered map keyed by the
/// codes.
pub open spec fn spec_insert_position(t: Seq<CountryModel>, code: Seq<char>) -> int
    decreases t.len(),
{
    if t.len() == 0 {
        0
    } else if lex_lt(code, t[0].code) {
        0
    } else {
        1 + spec_insert_position(t.skip(1), code)
    }
}

/// The insert position is in bounds, everything before it is not greater
/// than the new code, and the entry at it (if any) is greater.
pub proof fn lemma_insert_position(t: Seq<CountryModel>, code: Seq<char>)
    ensures
        0 <= spec_insert_position(t, code) <= t.len(),
        forall|j: int| 0 <= j < spec_insert_position(t, code) ==> !lex_lt(code, t[j].code),
        spec_insert_position(t, code) < t.len() ==> lex_lt(
            code,
            t[spec_insert_position(t, code)].code,
        ),
    decreases t.len(),
{
    if t.len() > 0 && !lex_lt(code, t[0].code) {
        let rest = t.skip(1);
        lemma_insert_position(rest, code);
        let p = spec_insert_position(t, code);
        assert(p == 1 + spec_insert_position(rest, code));
        assert forall|j: int| 0 <= j < p implies !lex_lt(code, t[j].code) by {
            if j > 0 {
                assert(rest[j - 1] == t[j]);
            }
        }
        if p < t.len() {
            assert(rest[p - 1] == t[p]);
        }
    }
}

fn find_insert_position(countries: &Vec<Country>, code: &String) -> (r: usize)
    ensures
        r <= countries.len(),
        r as int == spec_insert_position(countries.deep_view(), code@),
{
    let ghost t = countries.deep_view();
    let mut i: usize = 0;
    while i < countries.len()
        invariant
            i <= countries.len(),
            t == countries.deep_view(),
            t.len() == countries.len(),
            forall|k: int| 0 <= k < i ==> !lex_lt(code@, t[k].code),
        decreases countries.len() - i,
    {
        if str_lt(code.as_str(), countries[i].code.as_str()) {
            proof {
                assert(t[i as int] == countries@[i as int].deep_view());
                assert(lex_lt(code@, t[i as int].code));
                lemma_insert_position(t, code@);
                let p = spec_insert_position(t, code@);
                if p < i {
                    assert(!lex_lt(code@, t[p].code));
                    assert(lex_lt(code@, t[p].code));
                }
                if p > i {
                    assert(!lex_lt(code@, t[i as int].code));
                }
            }
            return i;
        }
        i = i + 1;
    }
    proof {
        lemma_insert_position(t, code@);
        let p = spec_insert_position(t, code@);
        if p < countries.len() {
            assert(lex_lt(code@, t[p].code));
            assert(!lex_lt(code@, t[p].code));
        }
    }
    countries.len()
}

/// A freshly inserted city: named after the wire location, no relays yet.
pub open spec fn spec_new_city(code: Seq<char>, loc: WireLocationModel) -> CityModel {
    CityModel {
        name: loc.city,
        code: code,
        latitude: loc.latitude,
        longitude: loc.longitude,
        relays: Seq::empty(),
    }
}

/// One step of skeleton construction. A code without a separator is skipped;
/// otherwise the country is inserted on first sight, at its place in the
/// code order (its name is the one first seen), and a city is appended to
/// it unconditionally: city codes are not deduplicated here.
pub open spec fn spec_add_location(t: Seq<CountryModel>, e: LocationEntryModel) -> Seq<
    CountryModel,
> {
    match spec_split_location_code(e.code) {
        None => t,
        Some(parts) => {
            let country_code = lower_of(parts.0);
            let city_code = lower_of(parts.1);
            let city = spec_new_city(city_code, e.location);
            match spec_find_country(t, country_code) {
                None => t.insert(
                    spec_insert_position(t, country_code),
                    CountryModel {
                        name: e.location.country,
                        code: country_code,
                        cities: seq![city],
                    },
                ),
                Some(i) => t.update(i, CountryModel { cities: t[i].cities.push(city), ..t[i] }),
            }
        },
    }
}

/// The country/city skeleton that a sequence of location entries builds, in
/// order.
pub open spec fn spec_build_skeleton(entries: Seq<LocationEntryModel>) -> Seq<CountryModel>
    decreases entries.len(),
{
    if entries.len() == 0 {
        Seq::empty()
    } else {
        spec_add_location(spec_build_skeleton(entries.drop_last()), entries.last())
    }
}

/// Builds the country/city skeleton from the locations map, given as the
/// map's entries in key order. Entries whose code lacks a separator are
/// dropped; they can never receive a relay.
pub fn build_skeleton(locations: Vec<LocationEntry>) -> (countries: Vec<Country>)
    ensures
        countries.deep_view() == spec_build_skeleton(locations.deep_view()),
{
    let ghost entries = locations.deep_view();
    let mut countries: Vec<Country> = Vec::new();
    let mut i: usize = 0;
    while i < locations.len()
        invariant
            i <= locations.len(),
            entries == locations.deep_view(),
            entries.len() == locations.len(),
            countries.deep_view() == spec_build_skeleton(entries.take(i as int)),
        decreases locations.len() - i,
    {
        let ghost pre = countries.deep_view();
        let entry = &locations[i];
        proof {
            assert(entries[i as int] == locations@[i as int].deep_view());
        }
        match split_location_code(entry.code.as_str()) {
            None => {
                // Bad location code: the entry is skipped.
                proof {
                    assert(spec_add_location(pre, entries[i as int]) == pre);
                }
            },
            Some(parts) => {
                let country_code = to_lowercase(parts.0.as_str());
                let city_code = to_lowercase(parts.1.as_str());
                let ghost cc = country_code@;
                let ghost cyc = city_code@;
                let ghost city_model = spec_new_city(cyc, entries[i as int].location);
                let city = City {
                    name: entry.location.city.clone(),
                    code: city_code,
                    latitude: entry.location.latitude,
                    longitude: entry.location.longitude,
                    relays: Vec::new(),
                };
                proof {
                    assert(city.deep_view() =~~= city_model);
                }
                match find_country_index(&countries, &country_code) {
                    None => {
                        let mut cities: Vec<City> = Vec::new();
                        cities.push(city);
                        proof {
                            assert(cities.deep_view() =~~= seq![city_model]);
                        }
                        let pos = find_insert_position(&countries, &country_code);
                        countries.insert(
                            pos,
                            Country {
                                name: entry.location.country.clone(),
                                code: country_code,
                                cities,
                            },
                        );
                        proof {
                            assert(countries.deep_view() =~~= pre.insert(
                                spec_insert_position(pre, cc),
                                CountryModel {
                                    name: entries[i as int].location.country,
                                    code: cc,
                                    cities: seq![city_model],
                                },
                            ));
                            assert(countries.deep_view() =~~= spec_add_location(
                                pre,
                                entries[i as int],
                            ));
                        }
                    },
                    Some(idx) => {
                        let mut country = countries.remove(idx);
                        country.cities.push(city);
                        countries.insert(idx, country);
                        proof {
                            assert(countries.deep_view() =~~= pre.update(
                                idx as int,
                                CountryModel {
                                    cities: pre[idx as int].cities.push(city_model),
                                    ..pre[idx as int]
                                },
                            ));
                            assert(countries.deep_view() =~~= spec_add_location(
                                pre,
                                entries[i as int],
                            ));
                        }
                    },
                }
            },
        }
        i = i + 1;
        proof {
            assert(entries.take(i as int).drop_last() =~= entries.take(i as int - 1));
            assert(entries.take(i as int).last() == entries[i as int - 1]);
        }
    }
    proof {
        assert(entries.take(locations.len() as int) =~= entries);
    }
    countries
}

// ---------------------------------------------------------------------------
// Relay attachment
// ---------------------------------------------------------------------------

/// A base relay record with its hostname and location code lower-cased.
pub open spec fn spec_lowercased_relay(b: BaseRelayModel) -> BaseRelayModel {
    BaseRelayModel { hostname: lower_of(b.hostname), location: lower_of(b.location), ..b }
}

/// The flattened location value a relay receives when it is attached: names,
/// codes and coordinates copied from the resolved country and city.
pub open spec fn spec_relay_location(c: CountryModel, city: CityModel) -> LocationModel {
    LocationModel {
        country: c.name,
        country_code: c.code,
        city: city.name,
        city_code: city.code,
        latitude: city.latitude,
        longitude: city.longitude,
    }
}

/// The domain relay built from an already lower-cased base record, a
/// resolved location and endpoint data. The override flags start false; a
/// later, separate step may set them.
pub open spec fn spec_mullvad_relay(
    b: BaseRelayModel,
    loc: LocationModel,
    ep: RelayEndpointDataModel,
) -> RelayModel {
    RelayModel {
        hostname: b.hostname,
        ipv4_addr_in: b.ipv4_addr_in,
        ipv6_addr_in: b.ipv6_addr_in,
        overridden_ipv4: false,
        overridden_ipv6: false,
        include_in_country: b.include_in_country,
        active: b.active,
        owned: b.owned,
        provider: b.provider,
        weight: b.weight,
        endpoint_data: ep,
        location: loc,
    }
}

/// One attachment step: lower-case the record, split its location code,
/// look the country up by code and the city by first matching code, and
/// append the relay there. On any failure the table is returned unchanged:
/// the relay is dropped, never the call failed.
pub open spec fn spec_attach_relay(
    t: Seq<CountryModel>,
    base: BaseRelayModel,
    ep: RelayEndpointDataModel,
) -> Seq<CountryModel> {
    let lowered = spec_lowercased_relay(base);
    match spec_split_location_code(lowered.location) {
        None => t,
        Some(parts) => match spec_find_country(t, parts.0) {
            None => t,
            Some(i) => match spec_find_city(t[i].cities, parts.1) {
                None => t,
                Some(j) => {
                    let relay = spec_mullvad_relay(
                        lowered,
                        spec_relay_location(t[i], t[i].cities[j]),
                        ep,
                    );
                    t.update(
                        i,
                        CountryModel {
                            cities: t[i].cities.update(
                                j,
                                CityModel { relays: t[i].cities[j].relays.push(relay), ..t[i].cities[j] },
                            ),
                            ..t[i]
                        },
                    )
                },
            },
        },
    }
}

/// Attaching a whole sequence of (base record, endpoint data) pairs, in
/// order.
pub open spec fn spec_attach_all(
    t: Seq<CountryModel>,
    rs: Seq<(BaseRelayModel, RelayEndpointDataModel)>,
) -> Seq<CountryModel>
    decreases rs.len(),
{
    if rs.len() == 0 {
        t
    } else {
        spec_attach_relay(spec_attach_all(t, rs.drop_last()), rs.last().0, rs.last().1)
    }
}

impl BaseRelay {
    /// Lower-cases the hostname and the location code; every other field is
    /// left unchanged.
    pub fn convert_to_lowercase(&mut self)
        ensures
            final(self).deep_view() == spec_lowercased_relay(old(self).deep_view()),
    {
        let hostname = to_lowercase(self.hostname.as_str());
        let location = to_lowercase(self.location.as_str());
        self.hostname = hostname;
        self.location = location;
        proof {
            assert(self.deep_view() =~~= spec_lowercased_relay(old(self).deep_view()));
        }
    }
}

/// Builds the domain relay for an already lower-cased wire record, copying
/// the base fields and initializing both override flags to false.
pub fn into_mullvad_relay(relay: BaseRelay, location: Location, endpoint_data: RelayEndpointData) -> (r:
    Relay)
    ensures
        r.deep_view() == spec_mullvad_relay(
            relay.deep_view(),
            location.deep_view(),
            endpoint_data.deep_view(),
        ),
{
    let ghost rm = relay.deep_view();
    let ghost lm = location.deep_view();
    let ghost em = endpoint_data.deep_view();
    let r = Relay {
        hostname: relay.hostname,
        ipv4_addr_in: relay.ipv4_addr_in,
        ipv6_addr_in: relay.ipv6_addr_in,
        overridden_ipv4: false,
        overridden_ipv6: false,
        include_in_country: relay.include_in_country,
        active: relay.active,
        owned: relay.owned,
        provider: relay.provider,
        weight: relay.weight,
        endpoint_data,
        location,
    };
    proof {
        assert(r.deep_view() =~~= spec_mullvad_relay(rm, lm, em));
    }
    r
}

/// Attaches one relay record to the table, or drops it when its location
/// code lacks a separator, names no known country, or matches no city of
/// that country.
pub fn attach_relay(
    countries: &mut Vec<Country>,
    relay: BaseRelay,
    endpoint_data: RelayEndpointData,
)
    ensures
        final(countries).deep_view() == spec_attach_relay(
            old(countries).deep_view(),
            relay.deep_view(),
            endpoint_data.deep_view(),
        ),
{
    let ghost t = old(countries).deep_view();
    let ghost base0 = relay.deep_view();
    let ghost ep = endpoint_data.deep_view();
    let mut relay = relay;
    relay.convert_to_lowercase();
    match split_location_code(relay.location.as_str()) {
        None => {
            // Bad location code: the relay is dropped.
        },
        Some(parts) => {
            let country_code = parts.0;
            let city_code = parts.1;
            match find_country_index(countries, &country_code) {
                None => {
                    // Unknown country: the relay is dropped.
                },
                Some(i) => {
                    let mut country = countries.remove(i);
                    match find_city_index(&country.cities, &city_code) {
                        None => {
                            // No matching city in the country: dropped.
                            countries.insert(i, country);
                            proof {
                                assert(countries.deep_view() =~~= t);
                            }
                        },
                        Some(j) => {
                            let ghost cm = t[i as int];
                            let ghost cym = t[i as int].cities[j as int];
                            proof {
                                assert(country.deep_view() =~~= cm);
                                assert(country.cities.deep_view()[j as int] == cym);
                            }
                            let mut city = country.cities.remove(j);
                            let location = Location {
                                country: country.name.clone(),
                                country_code: country.code.clone(),
                                city: city.name.clone(),
                                city_code: city.code.clone(),
                                latitude: city.latitude,
                                longitude: city.longitude,
                            };
                            proof {
                                assert(city.deep_view() =~~= cym);
                                assert(location.deep_view() =~~= spec_relay_location(cm, cym));
                            }
                            let new_relay = into_mullvad_relay(relay, location, endpoint_data);
                            city.relays.push(new_relay);
                            proof {
                                assert(city.deep_view() =~~= CityModel {
                                    relays: cym.relays.push(
                                        spec_mullvad_relay(
                                            spec_lowercased_relay(base0),
                                            spec_relay_location(cm, cym),
                                            ep,
                                        ),
                                    ),
                                    ..cym
                                });
                            }
                            country.cities.insert(j, city);
                            countries.insert(i, country);
                            proof {
                                assert(countries.deep_view() =~~= spec_attach_relay(t, base0, ep));
                            }
                        },
                    }
                },
            }
        },
    }
}

// ---------------------------------------------------------------------------
// WireGuard feature resolution
// ---------------------------------------------------------------------------

/// The resolved DAITA capability: on if the capability marker is present,
/// else whatever the legacy flag says.
pub open spec fn spec_resolve_daita(marker_present: bool, legacy: bool) -> bool {
    marker_present || legacy
}

/// Merges the legacy DAITA flag with the newer capability marker: the
/// marker's presence forces the capability on; otherwise the legacy flag
/// decides. This shim can be removed once the legacy flag is retired
/// server-side.
pub fn resolve_daita(marker_present: bool, legacy: bool) -> (r: bool)
    ensures
        r == spec_resolve_daita(marker_present, legacy),
{
    if marker_present {
        true
    } else {
        legacy
    }
}

/// Deduplication keeping the first occurrence of each address, in order.
pub open spec fn spec_dedup(s: Seq<IpAddress>) -> Seq<IpAddress>
    decreases s.len(),
{
    if s.len() == 0 {
        Seq::empty()
    } else {
        let d = spec_dedup(s.drop_last());
        if d.contains(s.last()) {
            d
        } else {
            d.push(s.last())
        }
    }
}

fn contains_address(v: &Vec<IpAddress>, a: IpAddress) -> (r: bool)
    ensures
        r == v@.contains(a),
{
    let mut i: usize = 0;
    while i < v.len()
        invariant
            i <= v.len(),
            forall|k: int| 0 <= k < i ==> v@[k] != a,
        decreases v.len() - i,
    {
        if v[i] == a {
            proof {
                assert(v@[i as int] == a);
            }
            return true;
        }
        i = i + 1;
    }
    false
}

/// Drops repeated addresses, keeping the first occurrence of each and the
/// order of first occurrences.
pub fn dedup_addresses(addrs: Vec<IpAddress>) -> (r: Vec<IpAddress>)
    ensures
        r@ == spec_dedup(addrs@),
{
    let mut out: Vec<IpAddress> = Vec::new();
    let mut i: usize = 0;
    while i < addrs.len()
        invariant
            i <= addrs.len(),
            out@ == spec_dedup(addrs@.take(i as int)),
        decreases addrs.len() - i,
    {
        let a = addrs[i];
        if !contains_address(&out, a) {
            out.push(a);
        }
        i = i + 1;
        proof {
            assert(addrs@.take(i as int).drop_last() =~= addrs@.take(i as int - 1));
            assert(addrs@.take(i as int).last() == addrs@[i as int - 1]);
        }
    }
    proof {
        assert(addrs@.take(addrs.len() as int) =~= addrs@);
    }
    out
}

/// QUIC parameters are passed through verbatim.
pub open spec fn spec_quic(q: QuicParametersModel) -> QuicModel {
    QuicModel { addr_in: q.addr_in, token: q.token, domain: q.domain }
}

/// The per-relay WireGuard endpoint data: key passed through, DAITA merged
/// from both capability sources, extra Shadowsocks addresses deduplicated,
/// QUIC parameters present exactly when the capability record carries them.
pub open spec fn spec_wireguard_endpoint(wr: WireguardWireRelayModel) -> WireguardRelayEndpointDataModel {
    WireguardRelayEndpointDataModel {
        public_key: wr.public_key,
        daita: spec_resolve_daita(wr.features.daita, wr.daita),
        shadowsocks_extra_addr_in: spec_dedup(wr.shadowsocks_extra_addr_in),
        quic: match wr.features.quic {
            Some(q) => Some(spec_quic(q)),
            None => None,
        },
    }
}

/// Splits a WireGuard wire record into its base record and the resolved
/// endpoint data.
fn wireguard_relay_parts(wr: WireguardWireRelay) -> (r: (BaseRelay, RelayEndpointData))
    ensures
        r.0.deep_view() == wr.deep_view().relay,
        r.1.deep_view() == RelayEndpointDataModel::Wireguard(spec_wireguard_endpoint(wr.deep_view())),
{
    let ghost wrm = wr.deep_view();
    let WireguardWireRelay { relay, public_key, daita, shadowsocks_extra_addr_in, features } = wr;
    let RelayFeatures { daita: marker_present, quic } = features;
    let quic = match quic {
        Some(q) => Some(Quic { addr_in: q.addr_in, token: q.token, domain: q.domain }),
        None => None,
    };
    let endpoint = RelayEndpointData::Wireguard(
        WireguardRelayEndpointData {
            public_key,
            daita: resolve_daita(marker_present, daita),
            shadowsocks_extra_addr_in: dedup_addresses(shadowsocks_extra_addr_in),
            quic,
        },
    );
    proof {
        assert(endpoint.deep_view() =~~= RelayEndpointDataModel::Wireguard(
            spec_wireguard_endpoint(wrm),
        ));
    }
    (relay, endpoint)
}

// ---------------------------------------------------------------------------
// Protocol-wide metadata
// ---------------------------------------------------------------------------

/// The inclusive range denoted by one `(low, high)` tuple.
pub open spec fn spec_range_from_pair(pair: (u16, u16)) -> PortRange {
    PortRange { first: pair.0, last: pair.1 }
}

/// All tuples turned into inclusive ranges, in order.
pub open spec fn spec_ranges(pairs: Seq<(u16, u16)>) -> Seq<PortRange> {
    pairs.map_values(|p: (u16, u16)| spec_range_from_pair(p))
}

/// Turns one `(low, high)` tuple into the inclusive port range it denotes.
pub fn inclusive_range_from_pair(pair: (u16, u16)) -> (r: PortRange)
    ensures
        r == spec_range_from_pair(pair),
{
    PortRange { first: pair.0, last: pair.1 }
}

/// Turns each `(low, high)` tuple of a list into an inclusive port range,
/// in order.
pub fn inclusive_range_from_pair_set(set: &Vec<(u16, u16)>) -> (r: Vec<PortRange>)
    ensures
        r@ == spec_ranges(set@),
{
    let mut out: Vec<PortRange> = Vec::new();
    let mut i: usize = 0;
    while i < set.len()
        invariant
            i <= set.len(),
            out@ =~= spec_ranges(set@).take(i as int),
        decreases set.len() - i,
    {
        out.push(inclusive_range_from_pair(set[i]));
        i = i + 1;
        proof {
            assert(out@ =~= spec_ranges(set@).take(i as int));
        }
    }
    proof {
        assert(spec_ranges(set@).take(set.len() as int) =~= spec_ranges(set@));
    }
    out
}

/// The protocol-wide WireGuard metadata of a section: gateways passed
/// through, both port-range lists turned into inclusive ranges, and no
/// udp2tcp ports.
pub open spec fn spec_wireguard_data(w: WireguardSectionModel) -> WireguardEndpointDataModel {
    WireguardEndpointDataModel {
        port_ranges: spec_ranges(w.port_ranges),
        ipv4_gateway: w.ipv4_gateway,
        ipv6_gateway: w.ipv6_gateway,
        shadowsocks_port_ranges: spec_ranges(w.shadowsocks_port_ranges),
        udp2tcp_ports: Seq::empty(),
    }
}

/// The bridge metadata: the Shadowsocks configuration list, verbatim.
pub open spec fn spec_bridge_data(b: BridgeSectionModel) -> BridgeEndpointDataModel {
    BridgeEndpointDataModel { shadowsocks: b.shadowsocks }
}

// ---------------------------------------------------------------------------
// The three protocol sections
// ---------------------------------------------------------------------------

/// OpenVPN relays paired with their endpoint data.
pub open spec fn spec_openvpn_pairs(rs: Seq<BaseRelayModel>) -> Seq<
    (BaseRelayModel, RelayEndpointDataModel),
> {
    rs.map_values(|r: BaseRelayModel| (r, RelayEndpointDataModel::Openvpn))
}

/// Bridge relays paired with their endpoint data.
pub open spec fn spec_bridge_pairs(rs: Seq<BaseRelayModel>) -> Seq<
    (BaseRelayModel, RelayEndpointDataModel),
> {
    rs.map_values(|r: BaseRelayModel| (r, RelayEndpointDataModel::Bridge))
}

/// WireGuard relays paired with their resolved endpoint data.
pub open spec fn spec_wireguard_pairs(rs: Seq<WireguardWireRelayModel>) -> Seq<
    (BaseRelayModel, RelayEndpointDataModel),
> {
    rs.map_values(
        |r: WireguardWireRelayModel|
            (r.relay, RelayEndpointDataModel::Wireguard(spec_wireguard_endpoint(r))),
    )
}

impl OpenVpnSection {
    /// Consumes the section, attaching its relays in input order, and
    /// returns the protocol-wide port metadata unchanged.
    pub fn extract_relays(self, countries: &mut Vec<Country>) -> (r: OpenVpnEndpointData)
        ensures
            final(countries).deep_view() == spec_attach_all(
                old(countries).deep_view(),
                spec_openvpn_pairs(self.relays.deep_view()),
            ),
            r.deep_view() == self.ports.deep_view(),
    {
        let ghost t0 = countries.deep_view();
        let OpenVpnSection { ports, relays } = self;
        let mut remaining = relays;
        let ghost orig = remaining.deep_view();
        let ghost mut k: int = 0;
        proof {
            assert(orig.skip(0) =~= orig);
            assert(spec_openvpn_pairs(orig.take(0)) =~= Seq::empty());
        }
        while remaining.len() > 0
            invariant
                0 <= k <= orig.len(),
                remaining.deep_view() == orig.skip(k),
                countries.deep_view() == spec_attach_all(t0, spec_openvpn_pairs(orig.take(k))),
            decreases remaining.len(),
        {
            let ghost rem_pre = remaining.deep_view();
            proof {
                assert(rem_pre.len() > 0);
                assert(k < orig.len());
            }
            let relay = remaining.remove(0);
            proof {
                assert(relay.deep_view() == rem_pre[0]);
                assert(rem_pre[0] == orig.skip(k)[0]);
                assert(orig.skip(k)[0] == orig[k]);
                assert(remaining.deep_view() =~= orig.skip(k).skip(1));
                assert(orig.skip(k).skip(1) =~= orig.skip(k + 1));
            }
            attach_relay(countries, relay, RelayEndpointData::Openvpn);
            proof {
                k = k + 1;
                let pairs = spec_openvpn_pairs(orig.take(k));
                assert(pairs.drop_last() =~= spec_openvpn_pairs(orig.take(k - 1)));
                assert(pairs.last() == (orig[k - 1], RelayEndpointDataModel::Openvpn));
                assert(countries.deep_view() == spec_attach_all(t0, pairs));
            }
        }
        proof {
            assert(orig.take(orig.len() as int) =~= orig);
        }
        ports
    }
}

impl WireguardSection {
    /// The protocol-wide WireGuard metadata, emitted exactly once,
    /// independent of the relay count.
    pub fn endpoint_data(&self) -> (r: WireguardEndpointData)
        ensures
            r.deep_view() == spec_wireguard_data(self.deep_view()),
    {
        let r = WireguardEndpointData {
            port_ranges: inclusive_range_from_pair_set(&self.port_ranges),
            ipv4_gateway: self.ipv4_gateway,
            ipv6_gateway: self.ipv6_gateway,
            shadowsocks_port_ranges: inclusive_range_from_pair_set(&self.shadowsocks_port_ranges),
            udp2tcp_ports: Vec::new(),
        };
        proof {
            assert(r.deep_view() =~~= spec_wireguard_data(self.deep_view()));
        }
        r
    }

    /// Consumes the section, resolving each relay's capabilities and
    /// attaching it in input order, and returns the protocol-wide metadata.
    pub fn extract_relays(self, countries: &mut Vec<Country>) -> (r: WireguardEndpointData)
        ensures
            final(countries).deep_view() == spec_attach_all(
                old(countries).deep_view(),
                spec_wireguard_pairs(self.relays.deep_view()),
            ),
            r.deep_view() == spec_wireguard_data(self.deep_view()),
    {
        let ghost t0 = countries.deep_view();
        let endpoint_data = self.endpoint_data();
        let WireguardSection { relays, .. } = self;
        let mut remaining = relays;
        let ghost orig = remaining.deep_view();
        let ghost mut k: int = 0;
        proof {
            assert(orig.skip(0) =~= orig);
            assert(spec_wireguard_pairs(orig.take(0)) =~= Seq::empty());
        }
        while remaining.len() > 0
            invariant
                0 <= k <= orig.len(),
                remaining.deep_view() == orig.skip(k),
                countries.deep_view() == spec_attach_all(t0, spec_wireguard_pairs(orig.take(k))),
            decreases remaining.len(),
        {
            let ghost rem_pre = remaining.deep_view();
            proof {
                assert(rem_pre.len() > 0);
                assert(k < orig.len());
            }
            let wire_relay = remaining.remove(0);
            proof {
                assert(wire_relay.deep_view() == rem_pre[0]);
                assert(rem_pre[0] == orig.skip(k)[0]);
                assert(orig.skip(k)[0] == orig[k]);
                assert(remaining.deep_view() =~= orig.skip(k).skip(1));
                assert(orig.skip(k).skip(1) =~= orig.skip(k + 1));
            }
            let (relay, endpoint) = wireguard_relay_parts(wire_relay);
            attach_relay(countries, relay, endpoint);
            proof {
                k = k + 1;
                let pairs = spec_wireguard_pairs(orig.take(k));
                assert(pairs.drop_last() =~= spec_wireguard_pairs(orig.take(k - 1)));
                assert(pairs.last() == (
                    orig[k - 1].relay,
                    RelayEndpointDataModel::Wireguard(spec_wireguard_endpoint(orig[k - 1])),
                ));
                assert(countries.deep_view() == spec_attach_all(t0, pairs));
            }
        }
        proof {
            assert(orig.take(orig.len() as int) =~= orig);
        }
        endpoint_data
    }
}

impl BridgeSection {
    /// Consumes the section, attaching its relays in input order, and
    /// returns the Shadowsocks configuration list verbatim.
    pub fn extract_relays(self, countries: &mut Vec<Country>) -> (r: BridgeEndpointData)
        ensures
            final(countries).deep_view() == spec_attach_all(
                old(countries).deep_view(),
                spec_bridge_pairs(self.relays.deep_view()),
            ),
            r.deep_view() == spec_bridge_data(self.deep_view()),
    {
        let ghost t0 = countries.deep_view();
        let BridgeSection { shadowsocks, relays } = self;
        let mut remaining = relays;
        let ghost orig = remaining.deep_view();
        let ghost mut k: int = 0;
        proof {
            assert(orig.skip(0) =~= orig);
            assert(spec_bridge_pairs(orig.take(0)) =~= Seq::empty());
        }
        while remaining.len() > 0
            invariant
                0 <= k <= orig.len(),
                remaining.deep_view() == orig.skip(k),
                countries.deep_view() == spec_attach_all(t0, spec_bridge_pairs(orig.take(k))),
            decreases remaining.len(),
        {
            let ghost rem_pre = remaining.deep_view();
            proof {
                assert(rem_pre.len() > 0);
                assert(k < orig.len());
            }
            let relay = remaining.remove(0);
            proof {
                assert(relay.deep_view() == rem_pre[0]);
                assert(rem_pre[0] == orig.skip(k)[0]);
                assert(orig.skip(k)[0] == orig[k]);
                assert(remaining.deep_view() =~= orig.skip(k).skip(1));
                assert(orig.skip(k).skip(1) =~= orig.skip(k + 1));
            }
            attach_relay(countries, relay, RelayEndpointData::Bridge);
            proof {
                k = k + 1;
                let pairs = spec_bridge_pairs(orig.take(k));
                assert(pairs.drop_last() =~= spec_bridge_pairs(orig.take(k - 1)));
                assert(pairs.last() == (orig[k - 1], RelayEndpointDataModel::Bridge));
                assert(countries.deep_view() == spec_attach_all(t0, pairs));
            }
        }
        proof {
            assert(orig.take(orig.len() as int) =~= orig);
        }
        BridgeEndpointData { shadowsocks }
    }
}

// ---------------------------------------------------------------------------
// Validator normalization and final assembly
// ---------------------------------------------------------------------------

/// The validator normalization rule: a raw tag beginning with a quote (a
/// strong validator) gets the two-character weak marker prepended; any other
/// tag is stored unchanged.
pub open spec fn spec_normalize_etag(tag: Seq<char>) -> Seq<char> {
    if tag.len() > 0 && tag[0] == '"' {
        seq!['W', '/'] + tag
    } else {
        tag
    }
}

/// Applies the validator normalization rule to a raw tag.
pub fn normalize_etag(tag: String) -> (r: String)
    ensures
        r@ == spec_normalize_etag(tag@),
{
    if tag.as_str().unicode_len() > 0 && tag.as_str().get_char(0) == '"' {
        let mut out = String::from_str("W/");
        out.append(tag.as_str());
        proof {
            reveal_strlit("W/");
            assert(out@ =~= seq!['W', '/'] + tag@);
        }
        out
    } else {
        tag
    }
}

/// The whole transformation: the skeleton built from the locations map, the
/// OpenVPN, then the WireGuard, then the bridge relays attached to it, the
/// validator normalized, and the protocol-wide metadata passed through.
pub open spec fn spec_into_relay_list(w: ServerRelayListModel, etag: Option<Seq<char>>) -> RelayListModel {
    let skeleton = spec_build_skeleton(w.locations);
    let after_openvpn = spec_attach_all(skeleton, spec_openvpn_pairs(w.openvpn.relays));
    let after_wireguard = spec_attach_all(after_openvpn, spec_wireguard_pairs(w.wireguard.relays));
    let countries = spec_attach_all(after_wireguard, spec_bridge_pairs(w.bridge.relays));
    RelayListModel {
        etag: match etag {
            Some(t) => Some(spec_normalize_etag(t)),
            None => None,
        },
        countries: countries,
        openvpn: w.openvpn.ports,
        bridge: spec_bridge_data(w.bridge),
        wireguard: spec_wireguard_data(w.wireguard),
    }
}

impl ServerRelayList {
    /// Consumes one wire payload into the domain relay list. Every row-level
    /// problem drops that row alone; the transformation itself always
    /// succeeds.
    pub fn into_relay_list(self, etag: Option<String>) -> (r: RelayList)
        ensures
            r.deep_view() == spec_into_relay_list(self.deep_view(), etag.deep_view()),
    {
        let ghost w = self.deep_view();
        let ghost etag0 = etag.deep_view();
        let ServerRelayList { locations, openvpn, wireguard, bridge } = self;
        let mut countries = build_skeleton(locations);
        let openvpn_data = openvpn.extract_relays(&mut countries);
        let wireguard_data = wireguard.extract_relays(&mut countries);
        let bridge_data = bridge.extract_relays(&mut countries);
        let etag = match etag {
            Some(tag) => Some(normalize_etag(tag)),
            None => None,
        };
        let r = RelayList {
            etag,
            countries,
            openvpn: openvpn_data,
            bridge: bridge_data,
            wireguard: wireguard_data,
        };
        proof {
            assert(r.deep_view() =~~= spec_into_relay_list(w, etag0));
        }
        r
    }
}

} // verus!
