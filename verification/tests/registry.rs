use route_fabric::registry::{millis_of, ServerReg};
use route_fabric::{PING_INTERVAL, SERVER_TTL};

#[test]
fn new_entry_schedules_first_ping_and_expiry() {
    let reg = ServerReg::new_at(String::from("router-1"), 0);
    assert_eq!(reg.endpoint, "router-1");
    assert!(!reg.alive);
    assert_eq!(reg.ping_at, 2000);
    assert_eq!(reg.expires, 6000);
}

#[test]
fn liveness_timeline() {
    // A ServerReg created at t=0: at t=2000 one ping is sent and the next is
    // due at 4000; at t=6001 with no inbound traffic the entry is expired.
    let mut reg = ServerReg::new_at(String::from("router-1"), 0);
    assert!(!reg.ping(1999));
    assert_eq!(reg.ping_at, 2000);
    assert!(reg.ping(2000));
    assert_eq!(reg.ping_at, 4000);
    assert!(!reg.expired(5999));
    assert!(reg.expired(6000));
    assert!(reg.expired(6001));
}

#[test]
fn ping_advances_by_whole_intervals() {
    let mut reg = ServerReg::new_at(String::from("router-1"), 0);
    let mut due = reg.ping_at;
    for n in 1..5i64 {
        assert!(reg.ping(due));
        assert_eq!(reg.ping_at, due + PING_INTERVAL);
        assert_eq!(reg.ping_at, 2000 + n * PING_INTERVAL);
        due = reg.ping_at;
    }
}

#[test]
fn refresh_marks_alive_and_extends_expiry() {
    let mut reg = ServerReg::new_at(String::from("router-1"), 0);
    reg.refresh(3000);
    assert!(reg.alive);
    assert_eq!(reg.expires, 3000 + SERVER_TTL);
    assert!(reg.ping_at < reg.expires);
    assert!(!reg.expired(8999));
    assert!(reg.expired(9000));
}

#[test]
fn clock_wall_time_is_sane() {
    // 2020-01-01 in milliseconds; the wall clock reads later than that.
    let now = ServerReg::clock_time();
    assert!(now > 1_577_836_800_000);
}

#[test]
fn new_by_clock_keeps_the_deadline_gap() {
    let reg = ServerReg::new(String::from("router-2"));
    assert!(!reg.alive);
    assert_eq!(reg.expires - reg.ping_at, SERVER_TTL - PING_INTERVAL);
}

#[test]
fn entries_compare_by_endpoint_alone() {
    let a = ServerReg::new_at(String::from("router-1"), 0);
    let b = ServerReg::new_at(String::from("router-1"), 5000);
    let c = ServerReg::new_at(String::from("router-2"), 0);
    assert!(a == b);
    assert!(a != c);
}

#[test]
fn millis_combines_seconds_and_remainder() {
    assert_eq!(millis_of(1, 500), 1500);
    assert_eq!(millis_of(0, 0), 0);
    assert_eq!(millis_of(-1, 250), -750);
    assert_eq!(millis_of(i64::MAX / 1000 + 1, 0), i64::MAX);
}
