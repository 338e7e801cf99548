use pasta_td::stun::{build_stun_request, parse_stun_response, select_stun_addrs, SockAddr};
use pasta_td::text::to_hex;
use pasta_td::stun_env::{stun_servers_for, stun_trace_on};

const V6_LOCALHOST: u128 = 1;
const V4_LOCALHOST: u32 = 0x7f00_0001;

#[test]
fn select_stun_addrs_filters_by_family() {
    let input = vec![
        SockAddr::V6 { ip: V6_LOCALHOST, port: 3478, flowinfo: 0, scope_id: 0 },
        SockAddr::V4 { ip: V4_LOCALHOST, port: 3478 },
    ];

    let v4 = select_stun_addrs(&input, true);
    assert_eq!(v4.len(), 1);
    assert!(v4[0].is_ipv4());

    let v6 = select_stun_addrs(&input, false);
    assert_eq!(v6.len(), 1);
    assert!(v6[0].is_ipv6());
}

#[test]
fn select_stun_addrs_accepts_ipv4_mapped_ipv6_for_v4() {
    let mapped: u128 = 0x0000_0000_0000_0000_0000_ffff_0102_0304;
    let input = vec![SockAddr::V6 { ip: mapped, port: 3478, flowinfo: 0, scope_id: 0 }];
    let v4 = select_stun_addrs(&input, true);
    assert_eq!(v4, vec![SockAddr::V4 { ip: 0x0102_0304, port: 3478 }]);
}

#[test]
fn select_stun_addrs_drops_repeats() {
    let a = SockAddr::V4 { ip: 0x0a00_0001, port: 3478 };
    let b = SockAddr::V4 { ip: 0x0a00_0002, port: 19302 };
    let input = vec![a, b, a, b, a];
    assert_eq!(select_stun_addrs(&input, true), vec![a, b]);
    assert!(select_stun_addrs(&input, false).is_empty());
}

#[test]
fn binding_request_has_header_and_transaction_id() {
    let txid = [1u8, 2, 3, 4, 5, 6, 7, 8, 9, 10, 11, 12];
    let buf = build_stun_request(txid);
    assert_eq!(&buf[0..8], &[0x00, 0x01, 0x00, 0x00, 0x21, 0x12, 0xA4, 0x42]);
    assert_eq!(&buf[8..20], &txid);
}

fn xor_mapped_response(txid: [u8; 12]) -> Vec<u8> {
    let mut d = vec![0x01, 0x01, 0x00, 0x0c, 0x21, 0x12, 0xA4, 0x42];
    d.extend_from_slice(&txid);
    // XOR-MAPPED-ADDRESS for 1.2.3.4:5000
    d.extend_from_slice(&[0x00, 0x20, 0x00, 0x08, 0x00, 0x01, 0x32, 0x9A, 0x20, 0x10, 0xA7, 0x46]);
    d
}

#[test]
fn parses_xor_mapped_address_response() {
    let txid = [9u8; 12];
    let d = xor_mapped_response(txid);
    let (got_txid, addr) = parse_stun_response(&d).expect("a binding success response");
    assert_eq!(got_txid, txid);
    assert_eq!(addr, SockAddr::V4 { ip: 0x0102_0304, port: 5000 });
}

#[test]
fn rejects_response_without_magic_cookie() {
    let mut d = xor_mapped_response([9u8; 12]);
    d[4] = 0;
    assert!(parse_stun_response(&d).is_none());
}

#[test]
fn rejects_short_datagram() {
    assert!(parse_stun_response(&[0x01, 0x01, 0x00]).is_none());
}

#[test]
fn hex_is_lower_case_two_digits_per_byte() {
    assert_eq!(to_hex(&[0x00, 0xab, 0x7f, 0x10]), "00ab7f10");
    assert_eq!(to_hex(&[]), "");
}

#[test]
fn stun_setting_lists_disables_or_defaults() {
    let d4 = stun_servers_for(None, true);
    assert_eq!(d4.len(), 10);
    assert_eq!(d4[0], "stun.cloudflare.com:3478");
    let d6 = stun_servers_for(None, false);
    assert_eq!(d6.len(), 7);
    assert_eq!(d6[1], "stun.l.google.com:19302");
    assert!(stun_servers_for(Some(String::new()), true).is_empty());
    assert!(stun_servers_for(Some("  NO ".to_string()), true).is_empty());
    assert!(stun_servers_for(Some("false".to_string()), false).is_empty());
    assert!(stun_servers_for(Some("0".to_string()), true).is_empty());
    assert_eq!(
        stun_servers_for(Some(" a.example:3478, ,b.example:1 ".to_string()), true),
        vec!["a.example:3478".to_string(), "b.example:1".to_string()]
    );
    assert_eq!(stun_servers_for(Some(" , ,".to_string()), false).len(), 7);
}

#[test]
fn stun_trace_is_on_for_any_value() {
    assert!(!stun_trace_on(None));
    assert!(stun_trace_on(Some(String::new())));
    assert!(stun_trace_on(Some("0".to_string())));
}

#[test]
fn stun_defaults_not_empty() {
    // The unspecified binds 0.0.0.0:5000 and [::]:5000.
    let v4 = SockAddr::V4 { ip: 0, port: 5000 };
    let v6 = SockAddr::V6 { ip: 0, port: 5000, flowinfo: 0, scope_id: 0 };
    assert!(!stun_servers_for(None, matches!(v4, SockAddr::V4 { .. })).is_empty());
    assert!(!stun_servers_for(None, matches!(v6, SockAddr::V4 { .. })).is_empty());
}
