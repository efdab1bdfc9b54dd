use route_fabric::ident::{
    dec_string, format_net_ident, heartbeat_ident, RouterAddr, ToAddrString,
};
use route_fabric::message::Protocol;
use route_fabric::service::{
    heartbeat_addrs, route_addr_strings, Registration, RegistrationHandshake,
};

#[test]
fn registration_completes_only_after_every_ack() {
    // Two routers configured: registration is complete only once both have
    // acknowledged.
    let mut hs = RegistrationHandshake::new(2);
    assert!(!hs.complete());
    assert!(!hs.on_ack());
    assert!(!hs.complete());
    assert!(hs.on_ack());
    assert!(hs.complete());
}

#[test]
fn zero_routers_complete_immediately() {
    let hs = RegistrationHandshake::new(0);
    assert!(hs.complete());
}

#[test]
fn heartbeat_addresses_share_one_port_in_configuration_order() {
    let routers = vec![
        RouterAddr { ip0: 127, ip1: 0, ip2: 0, ip3: 1, port: 5562 },
        RouterAddr { ip0: 10, ip1: 0, ip2: 0, ip3: 2, port: 5562 },
    ];
    let hb = heartbeat_addrs(&routers, 5563);
    assert_eq!(hb, vec![
        String::from("tcp://127.0.0.1:5563"),
        String::from("tcp://10.0.0.2:5563"),
    ]);
    let main = route_addr_strings(&routers);
    assert_eq!(main, vec![
        String::from("tcp://127.0.0.1:5562"),
        String::from("tcp://10.0.0.2:5562"),
    ]);
}

#[test]
fn router_renders_its_own_address() {
    let addr = RouterAddr { ip0: 192, ip1: 168, ip2: 0, ip3: 255, port: 65535 };
    assert_eq!(addr.to_addr_string(), "tcp://192.168.0.255:65535");
}

#[test]
fn net_ident_with_component() {
    assert_eq!(
        format_net_ident(Some("router"), 123, "myhost"),
        "router#123@myhost"
    );
}

#[test]
fn net_ident_without_component() {
    assert_eq!(format_net_ident(None, 42, "myhost"), "42@myhost");
}

#[test]
fn heartbeat_identity_prefixes_the_service_identity() {
    assert_eq!(heartbeat_ident("router#123@myhost"), "hb#router#123@myhost");
}

#[test]
fn decimal_rendering() {
    assert_eq!(dec_string(0), "0");
    assert_eq!(dec_string(10), "10");
    assert_eq!(dec_string(65535), "65535");
    assert_eq!(dec_string(u64::MAX), "18446744073709551615");
}

#[test]
fn registration_carries_the_claim() {
    let reg = Registration::new(
        Protocol::SessionSrv,
        String::from("worker#1@host"),
        vec![0, 1, 2],
    );
    assert_eq!(reg.protocol, Protocol::SessionSrv);
    assert_eq!(reg.endpoint, "worker#1@host");
    assert_eq!(reg.shards, vec![0, 1, 2]);
}
