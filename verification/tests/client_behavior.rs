use relay_list::client::{Error, RelayListProxy, RELAY_LIST_TIMEOUT_SECS, STATUS_NOT_MODIFIED,
    STATUS_OK};
use relay_list::codes::{split_location_code, str_lt, to_lowercase};
use relay_list::domain::{OpenVpnEndpointData, PortRange};
use relay_list::topology::{inclusive_range_from_pair, inclusive_range_from_pair_set,
    normalize_etag, resolve_daita};
use relay_list::wire::{BridgeSection, OpenVpnSection, ServerRelayList, WireguardSection};

fn empty_payload() -> ServerRelayList {
    ServerRelayList {
        locations: vec![],
        openvpn: OpenVpnSection { ports: OpenVpnEndpointData { ports: vec![] }, relays: vec![] },
        wireguard: WireguardSection {
            port_ranges: vec![],
            ipv4_gateway: 0x0a40_0001,
            ipv6_gateway: 1,
            shadowsocks_port_ranges: vec![],
            relays: vec![],
        },
        bridge: BridgeSection { shadowsocks: vec![], relays: vec![] },
    }
}

#[test]
fn request_plan_names_the_endpoint_and_the_fixed_timeout() {
    let proxy = RelayListProxy::new();
    let plan = proxy.request_plan(&None);
    assert_eq!(plan.path, "app/v1/relays");
    assert_eq!(plan.if_none_match, None);
    assert_eq!(plan.timeout_secs, 15);
    assert_eq!(plan.timeout_secs, RELAY_LIST_TIMEOUT_SECS);
}

#[test]
fn request_plan_attaches_the_prior_validator() {
    let proxy = RelayListProxy::new();
    let plan = proxy.request_plan(&Some("\"abc\"".to_string()));
    assert_eq!(plan.if_none_match, Some("\"abc\"".to_string()));
}

#[test]
fn not_modified_yields_no_update() {
    let proxy = RelayListProxy::new();
    let result = proxy.interpret_response(STATUS_NOT_MODIFIED, None, Err(String::new()));
    assert_eq!(result, Ok(None));
}

#[test]
fn not_modified_without_precondition_still_yields_no_update() {
    // Defensive: no etag was supplied, yet the server answered 304.
    let proxy = RelayListProxy::new();
    let result = proxy.interpret_response(
        STATUS_NOT_MODIFIED,
        Some("\"abc\"".to_string()),
        Err(String::new()),
    );
    assert_eq!(result, Ok(None));
}

#[test]
fn fresh_response_yields_the_list_with_its_validator() {
    let proxy = RelayListProxy::new();
    let result = proxy.interpret_response(STATUS_OK, Some("abc".to_string()), Ok(empty_payload()));
    let list = result.expect("fetch should succeed").expect("a list is expected");
    assert_eq!(list.etag, Some("abc".to_string()));
    assert!(list.countries.is_empty());
}

#[test]
fn strong_validator_receives_the_weak_prefix() {
    let proxy = RelayListProxy::new();
    let result = proxy.interpret_response(
        STATUS_OK,
        Some("\"abc\"".to_string()),
        Ok(empty_payload()),
    );
    let list = result.expect("fetch should succeed").expect("a list is expected");
    assert_eq!(list.etag, Some("W/\"abc\"".to_string()));
}

#[test]
fn fresh_response_without_validator_yields_none_stored() {
    let proxy = RelayListProxy::new();
    let result = proxy.interpret_response(STATUS_OK, None, Ok(empty_payload()));
    let list = result.expect("fetch should succeed").expect("a list is expected");
    assert_eq!(list.etag, None);
}

#[test]
fn unexpected_status_is_surfaced_with_the_observed_code() {
    let proxy = RelayListProxy::new();
    let result = proxy.interpret_response(500, None, Err(String::new()));
    assert_eq!(result, Err(Error::UnexpectedStatus(500)));
    let result = proxy.interpret_response(204, None, Err(String::new()));
    assert_eq!(result, Err(Error::UnexpectedStatus(204)));
}

#[test]
fn undecodable_fresh_body_is_a_decode_error() {
    let proxy = RelayListProxy::new();
    let result = proxy.interpret_response(STATUS_OK, None, Err("bad json".to_string()));
    assert_eq!(result, Err(Error::Decode("bad json".to_string())));
}

#[test]
fn normalize_etag_prepends_the_weak_marker_only_for_quoted_tags() {
    assert_eq!(normalize_etag("\"v1\"".to_string()), "W/\"v1\"");
    assert_eq!(normalize_etag("W/\"v1\"".to_string()), "W/\"v1\"");
    assert_eq!(normalize_etag("plain".to_string()), "plain");
    assert_eq!(normalize_etag(String::new()), "");
}

#[test]
fn split_location_code_splits_at_the_first_separator() {
    assert_eq!(
        split_location_code("se-sto"),
        Some(("se".to_string(), "sto".to_string()))
    );
    assert_eq!(
        split_location_code("se-sto-extra"),
        Some(("se".to_string(), "sto-extra".to_string()))
    );
    assert_eq!(split_location_code("sesto"), None);
    assert_eq!(split_location_code(""), None);
    assert_eq!(split_location_code("-sto"), Some((String::new(), "sto".to_string())));
}

#[test]
fn to_lowercase_is_unicode_lower_casing() {
    assert_eq!(to_lowercase("SE1-Abc"), "se1-abc");
    assert_eq!(to_lowercase("already"), "already");
    assert_eq!(to_lowercase("\u{c9}COLE"), "\u{e9}cole");
    assert_eq!(to_lowercase(""), "");
}

#[test]
fn str_lt_is_the_lexicographic_order() {
    assert!(str_lt("ab", "b"));
    assert!(!str_lt("b", "ab"));
    assert!(str_lt("a", "ab"));
    assert!(!str_lt("ab", "ab"));
    assert!(str_lt("", "a"));
}

#[test]
fn resolve_daita_is_the_disjunction_of_both_sources() {
    assert!(!resolve_daita(false, false));
    assert!(resolve_daita(true, false));
    assert!(resolve_daita(false, true));
    assert!(resolve_daita(true, true));
}

#[test]
fn inclusive_ranges_come_from_pairs() {
    assert_eq!(inclusive_range_from_pair((53, 53)), PortRange { first: 53, last: 53 });
    assert_eq!(
        inclusive_range_from_pair_set(&vec![(53, 53), (4000, 33433)]),
        vec![PortRange { first: 53, last: 53 }, PortRange { first: 4000, last: 33433 }]
    );
}
