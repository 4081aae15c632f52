//! The structural laws of the transformation, stated and proved over the
//! specification model: every relay sits under exactly one city of exactly
//! one country, country codes are case-normalized, pairwise distinct and
//! sorted ascending, unresolvable rows never reach the output, and the
//! pass is deterministic.

use vstd::prelude::*;

use crate::client::{spec_response_result, ErrorModel, STATUS_NOT_MODIFIED, STATUS_OK};
use crate::codes::{lemma_lex_total, lemma_lex_trans, lex_lt, lower_of,
    spec_split_location_code};
use crate::domain::{CityModel, CountryModel, RelayEndpointDataModel, RelayListModel};
use crate::topology::{lemma_find_city, lemma_find_country, spec_add_location, spec_attach_all,
    spec_attach_relay, spec_bridge_pairs, spec_build_skeleton, spec_find_city, spec_find_country,
    spec_insert_position, spec_into_relay_list, spec_lowercased_relay, spec_new_city,
    spec_normalize_etag, spec_openvpn_pairs, spec_wireguard_pairs, lemma_insert_position};
use crate::wire::{BaseRelayModel, BridgeSectionModel, LocationEntryModel, OpenVpnSectionModel,
    ServerRelayListModel, WireguardSectionModel};

verus! {

// ---------------------------------------------------------------------------
// Well-formedness of the country table
// ---------------------------------------------------------------------------

/// Country codes are pairwise distinct. The stored codes are the
/// case-normalized lookup keys (every lookup happens under the lower-cased
/// form), so their distinctness is distinctness of the raw country codes up
/// to case.
pub open spec fn codes_distinct(t: Seq<CountryModel>) -> bool {
    forall|i: int, j: int| 0 <= i < j < t.len() ==> t[i].code != t[j].code
}

/// Country codes are in strictly ascending lexicographic order: the order
/// in which an ordered map keyed by the codes hands its entries out.
pub open spec fn codes_sorted(t: Seq<CountryModel>) -> bool {
    forall|i: int, j: int|
        #![trigger t[i], t[j]]
        0 <= i < j < t.len() ==> lex_lt(t[i].code, t[j].code)
}

/// Every relay names, in its flattened location, exactly the codes of its
/// enclosing country and city — and its city is the first of that code in
/// the country, so no other city can be the one it resolved to.
pub open spec fn relays_well_placed(t: Seq<CountryModel>) -> bool {
    forall|i: int, j: int, k: int|
        0 <= i < t.len() && 0 <= j < t[i].cities.len() && 0 <= k
            < t[i].cities[j].relays.len() ==> {
            &&& (#[trigger] t[i].cities[j].relays[k]).location.country_code == t[i].code
            &&& t[i].cities[j].relays[k].location.city_code == t[i].cities[j].code
            &&& forall|j2: int|
                0 <= j2 < j ==> (#[trigger] t[i].cities[j2]).code != t[i].cities[j].code
        }
}

/// The invariant every construction step preserves.
pub open spec fn table_well_formed(t: Seq<CountryModel>) -> bool {
    &&& codes_distinct(t)
    &&& codes_sorted(t)
    &&& relays_well_placed(t)
}

/// One skeleton step keeps the table well-formed.
pub proof fn lemma_add_location_wf(t: Seq<CountryModel>, e: LocationEntryModel)
    requires
        table_well_formed(t),
    ensures
        table_well_formed(spec_add_location(t, e)),
{
    let t2 = spec_add_location(t, e);
    match spec_split_location_code(e.code) {
        None => {},
        Some(parts) => {
            let cc = lower_of(parts.0);
            lemma_find_country(t, cc);
            match spec_find_country(t, cc) {
                None => {
                    lemma_insert_position(t, cc);
                    let p = spec_insert_position(t, cc);
                    let newc = CountryModel {
                        name: e.location.country,
                        code: cc,
                        cities: seq![spec_new_city(lower_of(parts.1), e.location)],
                    };
                    t.insert_ensures(p, newc);
                    assert(t2 == t.insert(p, newc));
                    assert forall|i: int, j: int| 0 <= i < j < t2.len() implies t2[i].code
                        != t2[j].code by {
                        if i == p {
                            assert(t2[j] == t[j - 1]);
                        } else if j == p {
                            assert(t2[i] == t[i]);
                        } else {
                            let i0: int = if i < p { i } else { i - 1 };
                            let j0: int = if j < p { j } else { j - 1 };
                            assert(t2[i].code == t[i0].code);
                            assert(t2[j].code == t[j0].code);
                            assert(t[i0].code != t[j0].code);
                        }
                    }
                    assert forall|i: int, j: int|
                        #![trigger t2[i], t2[j]]
                        0 <= i < j < t2.len() implies lex_lt(t2[i].code, t2[j].code) by {
                        if j == p {
                            assert(t2[i] == t[i]);
                            assert(!lex_lt(cc, t[i].code));
                            assert(t[i].code != cc);
                            lemma_lex_total(t[i].code, cc);
                        } else if i == p {
                            assert(t2[j] == t[j - 1]);
                            assert(lex_lt(cc, t[p].code));
                            if j - 1 > p {
                                assert(lex_lt(t[p].code, t[j - 1].code));
                                lemma_lex_trans(cc, t[p].code, t[j - 1].code);
                            }
                        } else {
                            let i0: int = if i < p { i } else { i - 1 };
                            let j0: int = if j < p { j } else { j - 1 };
                            assert(t2[i].code == t[i0].code);
                            assert(t2[j].code == t[j0].code);
                            assert(lex_lt(t[i0].code, t[j0].code));
                        }
                    }
                    assert forall|i: int, j: int, k: int|
                        0 <= i < t2.len() && 0 <= j < t2[i].cities.len() && 0 <= k
                            < t2[i].cities[j].relays.len() implies {
                            &&& (#[trigger] t2[i].cities[j].relays[k]).location.country_code
                                == t2[i].code
                            &&& t2[i].cities[j].relays[k].location.city_code
                                == t2[i].cities[j].code
                            &&& forall|j2: int|
                                0 <= j2 < j ==> (#[trigger] t2[i].cities[j2]).code
                                    != t2[i].cities[j].code
                        } by {
                        if i < p {
                            assert(t2[i] == t[i]);
                            assert(0 <= k < t[i].cities[j].relays.len());
                        } else if i == p {
                            assert(t2[i].cities[j].relays.len() == 0);
                        } else {
                            assert(t2[i] == t[i - 1]);
                            assert(0 <= k < t[i - 1].cities[j].relays.len());
                        }
                    }
                },
                Some(ci) => {
                    let updated = CountryModel {
                        cities: t[ci].cities.push(
                            spec_new_city(lower_of(parts.1), e.location),
                        ),
                        ..t[ci]
                    };
                    assert(t2 == t.update(ci, updated));
                    assert forall|i: int, j: int| 0 <= i < j < t2.len() implies t2[i].code
                        != t2[j].code by {
                        assert(t2[i].code == t[i].code);
                        assert(t2[j].code == t[j].code);
                    }
                    assert forall|i: int, j: int|
                        #![trigger t2[i], t2[j]]
                        0 <= i < j < t2.len() implies lex_lt(t2[i].code, t2[j].code) by {
                        assert(t2[i].code == t[i].code);
                        assert(t2[j].code == t[j].code);
                        assert(lex_lt(t[i].code, t[j].code));
                    }
                    assert forall|i: int, j: int, k: int|
                        0 <= i < t2.len() && 0 <= j < t2[i].cities.len() && 0 <= k
                            < t2[i].cities[j].relays.len() implies {
                            &&& (#[trigger] t2[i].cities[j].relays[k]).location.country_code
                                == t2[i].code
                            &&& t2[i].cities[j].relays[k].location.city_code
                                == t2[i].cities[j].code
                            &&& forall|j2: int|
                                0 <= j2 < j ==> (#[trigger] t2[i].cities[j2]).code
                                    != t2[i].cities[j].code
                        } by {
                        if i != ci {
                            assert(t2[i] == t[i]);
                            assert(0 <= k < t[i].cities[j].relays.len());
                        } else {
                            if j < t[ci].cities.len() {
                                assert(t2[i].cities[j] == t[ci].cities[j]);
                                assert(0 <= k < t[ci].cities[j].relays.len());
                                assert forall|j2: int| 0 <= j2 < j implies (
                                #[trigger] t2[i].cities[j2]).code != t2[i].cities[j].code by {
                                    assert(t2[i].cities[j2] == t[ci].cities[j2]);
                                }
                            } else {
                                assert(t2[i].cities[j].relays.len() == 0);
                            }
                        }
                    }
                },
            }
        },
    }
}

/// The skeleton a locations map builds is well-formed.
pub proof fn lemma_skeleton_wf(entries: Seq<LocationEntryModel>)
    ensures
        table_well_formed(spec_build_skeleton(entries)),
    decreases entries.len(),
{
    if entries.len() == 0 {
        let t = spec_build_skeleton(entries);
        assert(t.len() == 0);
    } else {
        lemma_skeleton_wf(entries.drop_last());
        lemma_add_location_wf(spec_build_skeleton(entries.drop_last()), entries.last());
    }
}

/// One attachment step keeps the table well-formed: codes never change, and
/// a relay is only ever appended to the country found by its (unique) code
/// and to the first city matching its city code, carrying exactly those
/// codes in its flattened location.
pub proof fn lemma_attach_relay_wf(
    t: Seq<CountryModel>,
    base: BaseRelayModel,
    ep: RelayEndpointDataModel,
)
    requires
        table_well_formed(t),
    ensures
        table_well_formed(spec_attach_relay(t, base, ep)),
{
    let t2 = spec_attach_relay(t, base, ep);
    let lowered = spec_lowercased_relay(base);
    match spec_split_location_code(lowered.location) {
        None => {},
        Some(parts) => {
            lemma_find_country(t, parts.0);
            match spec_find_country(t, parts.0) {
                None => {},
                Some(ci) => {
                    lemma_find_city(t[ci].cities, parts.1);
                    match spec_find_city(t[ci].cities, parts.1) {
                        None => {},
                        Some(cj) => {
                            assert forall|i: int, j: int| 0 <= i < j < t2.len() implies t2[i].code
                                != t2[j].code by {
                                assert(t2[i].code == t[i].code);
                                assert(t2[j].code == t[j].code);
                            }
                            assert forall|i: int, j: int|
                                #![trigger t2[i], t2[j]]
                                0 <= i < j < t2.len() implies lex_lt(t2[i].code, t2[j].code) by {
                                assert(t2[i].code == t[i].code);
                                assert(t2[j].code == t[j].code);
                                assert(lex_lt(t[i].code, t[j].code));
                            }
                            assert forall|i: int, j: int, k: int|
                                0 <= i < t2.len() && 0 <= j < t2[i].cities.len() && 0 <= k
                                    < t2[i].cities[j].relays.len() implies {
                                    &&& (
                                    #[trigger] t2[i].cities[j].relays[k]).location.country_code
                                        == t2[i].code
                                    &&& t2[i].cities[j].relays[k].location.city_code
                                        == t2[i].cities[j].code
                                    &&& forall|j2: int|
                                        0 <= j2 < j ==> (#[trigger] t2[i].cities[j2]).code
                                            != t2[i].cities[j].code
                                } by {
                                if i != ci {
                                    assert(t2[i] == t[i]);
                                    assert(0 <= k < t[i].cities[j].relays.len());
                                } else {
                                    assert(t2[i].cities.len() == t[ci].cities.len());
                                    assert forall|j2: int| 0 <= j2 < t[ci].cities.len() implies (
                                    #[trigger] t2[i].cities[j2]).code
                                        == t[ci].cities[j2].code by {
                                        if j2 != cj {
                                            assert(t2[i].cities[j2] == t[ci].cities[j2]);
                                        }
                                    }
                                    if j != cj {
                                        assert(t2[i].cities[j] == t[ci].cities[j]);
                                        assert(0 <= k < t[ci].cities[j].relays.len());
                                    } else {
                                        if k < t[ci].cities[cj].relays.len() {
                                            assert(t2[i].cities[j].relays[k]
                                                == t[ci].cities[cj].relays[k]);
                                        } else {
                                            assert(t2[i].cities[j].relays[k].location.country_code
                                                == t[ci].code);
                                            assert(t2[i].cities[j].relays[k].location.city_code
                                                == t[ci].cities[cj].code);
                                        }
                                    }
                                }
                            }
                        },
                    }
                },
            }
        },
    }
}

/// Attaching any sequence of relays keeps the table well-formed.
pub proof fn lemma_attach_all_wf(
    t: Seq<CountryModel>,
    rs: Seq<(BaseRelayModel, RelayEndpointDataModel)>,
)
    requires
        table_well_formed(t),
    ensures
        table_well_formed(spec_attach_all(t, rs)),
    decreases rs.len(),
{
    if rs.len() > 0 {
        lemma_attach_all_wf(t, rs.drop_last());
        lemma_attach_relay_wf(spec_attach_all(t, rs.drop_last()), rs.last().0, rs.last().1);
    }
}

/// Every relay of the produced list belongs to exactly one city of exactly
/// one country: the country codes — the case-normalized lookup keys — are
/// pairwise distinct and sorted strictly ascending (the order of the
/// original ordered map), every relay's flattened location names exactly
/// its enclosing country and city, and its city is the first of that code,
/// so no other city could have received it.
pub proof fn lemma_relay_placement(w: ServerRelayListModel, etag: Option<Seq<char>>)
    ensures
        table_well_formed(spec_into_relay_list(w, etag).countries),
{
    let t0 = spec_build_skeleton(w.locations);
    lemma_skeleton_wf(w.locations);
    let t1 = spec_attach_all(t0, spec_openvpn_pairs(w.openvpn.relays));
    lemma_attach_all_wf(t0, spec_openvpn_pairs(w.openvpn.relays));
    let t2 = spec_attach_all(t1, spec_wireguard_pairs(w.wireguard.relays));
    lemma_attach_all_wf(t1, spec_wireguard_pairs(w.wireguard.relays));
    let t3 = spec_attach_all(t2, spec_bridge_pairs(w.bridge.relays));
    lemma_attach_all_wf(t2, spec_bridge_pairs(w.bridge.relays));
    assert(spec_into_relay_list(w, etag).countries == t3);
}

// ---------------------------------------------------------------------------
// Unresolvable relays never appear
// ---------------------------------------------------------------------------

/// Two tables with the same country codes and the same city codes: all that
/// resolution can see. Attachment only appends relays, so it preserves this.
pub open spec fn same_shape(a: Seq<CountryModel>, b: Seq<CountryModel>) -> bool {
    &&& a.len() == b.len()
    &&& forall|i: int| 0 <= i < a.len() ==> (#[trigger] b[i]).code == a[i].code
    &&& forall|i: int| 0 <= i < a.len() ==> (#[trigger] b[i]).cities.len() == a[i].cities.len()
    &&& forall|i: int, j: int|
        0 <= i < a.len() && 0 <= j < a[i].cities.len() ==> (#[trigger] b[i].cities[j]).code
            == a[i].cities[j].code
}

/// Whether a relay's location code resolves against a table: it splits at a
/// separator, its country part names a country, and that country holds a
/// city with its city part as code.
pub open spec fn spec_resolves(t: Seq<CountryModel>, location: Seq<char>) -> bool {
    match spec_split_location_code(lower_of(location)) {
        None => false,
        Some(parts) => match spec_find_country(t, parts.0) {
            None => false,
            Some(i) => spec_find_city(t[i].cities, parts.1) is Some,
        },
    }
}

proof fn lemma_find_country_shape(a: Seq<CountryModel>, b: Seq<CountryModel>, code: Seq<char>)
    requires
        same_shape(a, b),
    ensures
        spec_find_country(a, code) == spec_find_country(b, code),
    decreases a.len(),
{
    if a.len() > 0 {
        assert(b[0].code == a[0].code);
        if a[0].code != code {
            let ra = a.skip(1);
            let rb = b.skip(1);
            assert forall|i: int| 0 <= i < ra.len() implies (#[trigger] rb[i]).code
                == ra[i].code by {
                assert(ra[i] == a[i + 1] && rb[i] == b[i + 1]);
            }
            assert forall|i: int| 0 <= i < ra.len() implies (#[trigger] rb[i]).cities.len()
                == ra[i].cities.len() by {
                assert(ra[i] == a[i + 1] && rb[i] == b[i + 1]);
            }
            assert forall|i: int, j: int|
                0 <= i < ra.len() && 0 <= j < ra[i].cities.len() implies (
            #[trigger] rb[i].cities[j]).code == ra[i].cities[j].code by {
                assert(ra[i] == a[i + 1] && rb[i] == b[i + 1]);
            }
            lemma_find_country_shape(ra, rb, code);
        }
    }
}

proof fn lemma_find_city_codes(a: Seq<CityModel>, b: Seq<CityModel>, code: Seq<char>)
    requires
        a.len() == b.len(),
        forall|j: int| 0 <= j < a.len() ==> (#[trigger] b[j]).code == a[j].code,
    ensures
        spec_find_city(a, code) == spec_find_city(b, code),
    decreases a.len(),
{
    if a.len() > 0 {
        assert(b[0].code == a[0].code);
        if a[0].code != code {
            let ra = a.skip(1);
            let rb = b.skip(1);
            assert forall|j: int| 0 <= j < ra.len() implies (#[trigger] rb[j]).code
                == ra[j].code by {
                assert(ra[j] == a[j + 1] && rb[j] == b[j + 1]);
            }
            lemma_find_city_codes(ra, rb, code);
        }
    }
}

/// Resolution only looks at the shape.
proof fn lemma_resolves_shape(a: Seq<CountryModel>, b: Seq<CountryModel>, location: Seq<char>)
    requires
        same_shape(a, b),
    ensures
        spec_resolves(a, location) == spec_resolves(b, location),
{
    match spec_split_location_code(lower_of(location)) {
        None => {},
        Some(parts) => {
            lemma_find_country_shape(a, b, parts.0);
            match spec_find_country(a, parts.0) {
                None => {},
                Some(i) => {
                    lemma_find_country(a, parts.0);
                    assert forall|j: int| 0 <= j < a[i].cities.len() implies (
                    #[trigger] b[i].cities[j]).code == a[i].cities[j].code by {}
                    lemma_find_city_codes(a[i].cities, b[i].cities, parts.1);
                },
            }
        },
    }
}

/// One attachment step never changes the shape.
proof fn lemma_attach_shape(t: Seq<CountryModel>, base: BaseRelayModel, ep: RelayEndpointDataModel)
    ensures
        same_shape(t, spec_attach_relay(t, base, ep)),
{
    let t2 = spec_attach_relay(t, base, ep);
    let lowered = spec_lowercased_relay(base);
    match spec_split_location_code(lowered.location) {
        None => {},
        Some(parts) => {
            lemma_find_country(t, parts.0);
            match spec_find_country(t, parts.0) {
                None => {},
                Some(ci) => {
                    lemma_find_city(t[ci].cities, parts.1);
                    match spec_find_city(t[ci].cities, parts.1) {
                        None => {},
                        Some(cj) => {
                            assert forall|i: int| 0 <= i < t.len() implies (
                            #[trigger] t2[i]).code == t[i].code by {}
                            assert forall|i: int| 0 <= i < t.len() implies (
                            #[trigger] t2[i]).cities.len() == t[i].cities.len() by {}
                            assert forall|i: int, j: int|
                                0 <= i < t.len() && 0 <= j < t[i].cities.len() implies (
                            #[trigger] t2[i].cities[j]).code == t[i].cities[j].code by {
                                if i == ci && j != cj {
                                    assert(t2[i].cities[j] == t[i].cities[j]);
                                }
                            }
                        },
                    }
                },
            }
        },
    }
}

/// Attaching a whole sequence never changes the shape.
proof fn lemma_attach_all_shape(
    t: Seq<CountryModel>,
    rs: Seq<(BaseRelayModel, RelayEndpointDataModel)>,
)
    ensures
        same_shape(t, spec_attach_all(t, rs)),
    decreases rs.len(),
{
    if rs.len() == 0 {
    } else {
        let mid = spec_attach_all(t, rs.drop_last());
        lemma_attach_all_shape(t, rs.drop_last());
        lemma_attach_shape(mid, rs.last().0, rs.last().1);
    }
}

/// A relay that does not resolve leaves the table exactly as it was.
proof fn lemma_attach_unresolvable(
    t: Seq<CountryModel>,
    base: BaseRelayModel,
    ep: RelayEndpointDataModel,
)
    requires
        !spec_resolves(t, base.location),
    ensures
        spec_attach_relay(t, base, ep) == t,
{
}

/// Attaching a sequence in two runs is attaching it in one.
proof fn lemma_attach_all_append(
    t: Seq<CountryModel>,
    s1: Seq<(BaseRelayModel, RelayEndpointDataModel)>,
    s2: Seq<(BaseRelayModel, RelayEndpointDataModel)>,
)
    ensures
        spec_attach_all(t, s1 + s2) == spec_attach_all(spec_attach_all(t, s1), s2),
    decreases s2.len(),
{
    if s2.len() == 0 {
        assert(s1 + s2 =~= s1);
    } else {
        lemma_attach_all_append(t, s1, s2.drop_last());
        assert((s1 + s2).drop_last() =~= s1 + s2.drop_last());
        assert((s1 + s2).last() == s2.last());
    }
}

/// Dropping one unresolvable pair from the input leaves the fold unchanged.
pub proof fn lemma_attach_all_skips_unresolvable(
    t: Seq<CountryModel>,
    rs: Seq<(BaseRelayModel, RelayEndpointDataModel)>,
    idx: int,
)
    requires
        0 <= idx < rs.len(),
        !spec_resolves(t, rs[idx].0.location),
    ensures
        spec_attach_all(t, rs) == spec_attach_all(t, rs.remove(idx)),
{
    let s1 = rs.take(idx);
    let x = rs[idx];
    let s2 = rs.skip(idx + 1);
    assert(rs =~= s1 + seq![x] + s2);
    assert(rs.remove(idx) =~= s1 + s2);
    let t1 = spec_attach_all(t, s1);
    lemma_attach_all_append(t, s1 + seq![x], s2);
    lemma_attach_all_append(t, s1, seq![x]);
    assert(seq![x].drop_last() =~= Seq::<(BaseRelayModel, RelayEndpointDataModel)>::empty());
    assert(spec_attach_all(t1, seq![x]) == spec_attach_relay(
        spec_attach_all(t1, seq![x].drop_last()),
        x.0,
        x.1,
    ));
    assert(spec_attach_all(t1, seq![x]) == spec_attach_relay(t1, x.0, x.1));
    lemma_attach_all_shape(t, s1);
    lemma_resolves_shape(t, t1, x.0.location);
    lemma_attach_unresolvable(t1, x.0, x.1);
    lemma_attach_all_append(t, s1, s2);
    assert(spec_attach_all(t, rs) == spec_attach_all(t1, s2));
    assert(spec_attach_all(t, rs.remove(idx)) == spec_attach_all(t1, s2));
}

/// An OpenVPN relay whose location code does not resolve against the
/// skeleton — it lacks a separator, or its country or city is unknown —
/// never appears: dropping it from the payload leaves the whole output
/// unchanged, and the transformation succeeds either way (it is total).
pub proof fn lemma_unresolvable_openvpn_relay_dropped(
    w: ServerRelayListModel,
    etag: Option<Seq<char>>,
    idx: int,
)
    requires
        0 <= idx < w.openvpn.relays.len(),
        !spec_resolves(spec_build_skeleton(w.locations), w.openvpn.relays[idx].location),
    ensures
        spec_into_relay_list(
            ServerRelayListModel {
                openvpn: OpenVpnSectionModel {
                    relays: w.openvpn.relays.remove(idx),
                    ..w.openvpn
                },
                ..w
            },
            etag,
        ) == spec_into_relay_list(w, etag),
{
    let t0 = spec_build_skeleton(w.locations);
    let pairs = spec_openvpn_pairs(w.openvpn.relays);
    assert(pairs[idx].0 == w.openvpn.relays[idx]);
    lemma_attach_all_skips_unresolvable(t0, pairs, idx);
    assert(spec_openvpn_pairs(w.openvpn.relays.remove(idx)) =~= pairs.remove(
        idx,
    ));
}

/// The same, for a WireGuard relay.
pub proof fn lemma_unresolvable_wireguard_relay_dropped(
    w: ServerRelayListModel,
    etag: Option<Seq<char>>,
    idx: int,
)
    requires
        0 <= idx < w.wireguard.relays.len(),
        !spec_resolves(spec_build_skeleton(w.locations), w.wireguard.relays[idx].relay.location),
    ensures
        spec_into_relay_list(
            ServerRelayListModel {
                wireguard: WireguardSectionModel {
                    relays: w.wireguard.relays.remove(idx),
                    ..w.wireguard
                },
                ..w
            },
            etag,
        ) == spec_into_relay_list(w, etag),
{
    let t0 = spec_build_skeleton(w.locations);
    let t1 = spec_attach_all(t0, spec_openvpn_pairs(w.openvpn.relays));
    let pairs = spec_wireguard_pairs(w.wireguard.relays);
    assert(pairs[idx].0 == w.wireguard.relays[idx].relay);
    lemma_attach_all_shape(t0, spec_openvpn_pairs(w.openvpn.relays));
    lemma_resolves_shape(t0, t1, w.wireguard.relays[idx].relay.location);
    lemma_attach_all_skips_unresolvable(t1, pairs, idx);
    assert(spec_wireguard_pairs(w.wireguard.relays.remove(idx)) =~= pairs.remove(
        idx,
    ));
}

/// The same, for a bridge relay.
pub proof fn lemma_unresolvable_bridge_relay_dropped(
    w: ServerRelayListModel,
    etag: Option<Seq<char>>,
    idx: int,
)
    requires
        0 <= idx < w.bridge.relays.len(),
        !spec_resolves(spec_build_skeleton(w.locations), w.bridge.relays[idx].location),
    ensures
        spec_into_relay_list(
            ServerRelayListModel {
                bridge: BridgeSectionModel {
                    relays: w.bridge.relays.remove(idx),
                    ..w.bridge
                },
                ..w
            },
            etag,
        ) == spec_into_relay_list(w, etag),
{
    let t0 = spec_build_skeleton(w.locations);
    let t1 = spec_attach_all(t0, spec_openvpn_pairs(w.openvpn.relays));
    let t2 = spec_attach_all(t1, spec_wireguard_pairs(w.wireguard.relays));
    let pairs = spec_bridge_pairs(w.bridge.relays);
    assert(pairs[idx].0 == w.bridge.relays[idx]);
    lemma_attach_all_shape(t0, spec_openvpn_pairs(w.openvpn.relays));
    lemma_resolves_shape(t0, t1, w.bridge.relays[idx].location);
    lemma_attach_all_shape(t1, spec_wireguard_pairs(w.wireguard.relays));
    lemma_resolves_shape(t1, t2, w.bridge.relays[idx].location);
    lemma_attach_all_skips_unresolvable(t2, pairs, idx);
    assert(spec_bridge_pairs(w.bridge.relays.remove(idx)) =~= pairs.remove(idx));
}

/// A location code without a separator never resolves, against any table.
pub proof fn lemma_no_separator_never_resolves(t: Seq<CountryModel>, location: Seq<char>)
    requires
        spec_split_location_code(lower_of(location)) is None,
    ensures
        !spec_resolves(t, location),
{
}

// ---------------------------------------------------------------------------
// Determinism
// ---------------------------------------------------------------------------

/// The transformation is a pure function of the wire payload and the raw
/// validator: transforming equal payloads yields structurally identical
/// output — country order, per-country city order and per-city relay order
/// included. Together with the contract of
/// [`crate::wire::ServerRelayList::into_relay_list`], whose result is
/// exactly this function of its input, running the pass twice on one
/// payload gives identical relay lists.
pub proof fn lemma_transform_deterministic(
    w1: ServerRelayListModel,
    w2: ServerRelayListModel,
    etag1: Option<Seq<char>>,
    etag2: Option<Seq<char>>,
)
    requires
        w1 == w2,
        etag1 == etag2,
    ensures
        spec_into_relay_list(w1, etag1) == spec_into_relay_list(w2, etag2),
{
}

// ---------------------------------------------------------------------------
// The conditional fetch
// ---------------------------------------------------------------------------

/// A not-modified response yields "no update" — also in the defensive case
/// in which no precondition was sent, whatever validator or body came with
/// it.
pub proof fn lemma_not_modified_yields_none(
    response_etag: Option<Seq<char>>,
    body: Result<ServerRelayListModel, Seq<char>>,
)
    ensures
        spec_response_result(STATUS_NOT_MODIFIED, response_etag, body)
            == Result::<Option<RelayListModel>, ErrorModel>::Ok(None),
{
}

/// A fresh, well-decoded response yields a list, and its validator reflects
/// the response's validator with the weak-prefix rule applied exactly when
/// the raw tag begins with a quote; without a validator header the list
/// carries none.
pub proof fn lemma_fresh_yields_list(w: ServerRelayListModel, tag: Seq<char>)
    ensures
        spec_response_result(STATUS_OK, Some(tag), Result::Ok(w))
            == Result::<Option<RelayListModel>, ErrorModel>::Ok(
            Some(spec_into_relay_list(w, Some(tag))),
        ),
        spec_into_relay_list(w, Some(tag)).etag == Some(
            spec_normalize_etag(tag),
        ),
        tag.len() > 0 && tag[0] == '"' ==> spec_normalize_etag(tag) == seq![
            'W',
            '/',
        ] + tag,
        !(tag.len() > 0 && tag[0] == '"') ==> spec_normalize_etag(tag) == tag,
        spec_into_relay_list(w, None).etag is None,
{
}

} // verus!
