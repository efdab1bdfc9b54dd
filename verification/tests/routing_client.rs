use route_fabric::routing::{request_frames, route_hash_for, route_inproc_addr};
use route_fabric::{Error, hostname_token};

#[test]
fn request_is_tag_then_header() {
    let frames = request_frames(b"header-bytes".to_vec());
    assert_eq!(frames.len(), 2);
    assert_eq!(frames[0].data, b"RQ".to_vec());
    assert!(frames[0].more);
    assert_eq!(frames[1].data, b"header-bytes".to_vec());
    assert!(!frames[1].more);
}

#[test]
fn single_request_reply_turn() {
    // A request with body "ping" and route key "alpha": the shard hash is
    // the FNV-1a hash of the key, and the dispatcher's reply carries "pong"
    // behind the preserved hop and the reply tag.
    let hash = route_hash_for(&Some(b"alpha".to_vec()));
    assert_eq!(hash, Some(0x8ac625bb85ed202b));
    let request = request_frames(b"ping".to_vec());
    assert_eq!(request[1].data, b"ping".to_vec());

    let mut env = route_fabric::envelope::Envelope::new(
        vec![b"client-1".to_vec()],
        route_fabric::message::Msg::new(),
    );
    let mut out: Vec<route_fabric::message::Frame> = Vec::new();
    env.reply_complete(&mut out, b"pong".to_vec());
    assert_eq!(out[0].data, b"client-1".to_vec());
    assert_eq!(out[1].data, Vec::<u8>::new());
    assert_eq!(out[2].data, b"RP".to_vec());
    assert_eq!(out[3].data, b"pong".to_vec());
    assert!(!out[3].more);
}

#[test]
fn broker_queue_address_is_fixed() {
    assert_eq!(route_inproc_addr(), "inproc://route-broker");
}

#[test]
fn hostname_is_last_token_of_first_line() {
    assert_eq!(hostname_token(&b"myhost\n".to_vec()), Ok(b"myhost".to_vec()));
    assert_eq!(hostname_token(&b"myhost".to_vec()), Ok(b"myhost".to_vec()));
    assert_eq!(
        hostname_token(&b"alias real-host\nsecond line".to_vec()),
        Ok(b"real-host".to_vec())
    );
    assert_eq!(hostname_token(&b"padded \t\n".to_vec()), Ok(b"padded".to_vec()));
}

#[test]
fn blank_hostname_output_is_a_sys_error() {
    assert_eq!(hostname_token(&b"".to_vec()), Err(Error::Sys));
    assert_eq!(hostname_token(&b"   \t  \n".to_vec()), Err(Error::Sys));
    assert_eq!(hostname_token(&b"\nhidden".to_vec()), Err(Error::Sys));
}

#[test]
fn routed_header_installs_the_shard_hash() {
    let msg = route_fabric::routing::routed_header(
        String::from("msg-1"),
        b"ping".to_vec(),
        route_fabric::message::Protocol::SessionSrv,
        &Some(b"alpha".to_vec()),
    );
    assert_eq!(msg.message_id, "msg-1");
    assert_eq!(msg.body, b"ping".to_vec());
    assert_eq!(msg.route_info.route_hash, Some(0x8ac625bb85ed202b));
    let keyless = route_fabric::routing::routed_header(
        String::from("msg-2"),
        Vec::new(),
        route_fabric::message::Protocol::Net,
        &None,
    );
    assert_eq!(keyless.route_info.route_hash, None);
}
