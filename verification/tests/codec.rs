use route_fabric::codec::{decode, encode, WireEnvelope};
use route_fabric::Error;

#[test]
fn decode_splits_hops_tag_and_body() {
    let frames: Vec<Vec<u8>> = vec![
        b"H1".to_vec(),
        b"H2".to_vec(),
        Vec::new(),
        b"RQ".to_vec(),
        b"body".to_vec(),
    ];
    let w = decode(&frames).unwrap();
    assert_eq!(w.hops, vec![b"H1".to_vec(), b"H2".to_vec()]);
    assert_eq!(w.tag, Some(b"RQ".to_vec()));
    assert_eq!(w.body, b"body".to_vec());
}

#[test]
fn encode_after_decode_reproduces_frames() {
    let frames: Vec<Vec<u8>> = vec![
        b"H1".to_vec(),
        b"H2".to_vec(),
        b"H3".to_vec(),
        Vec::new(),
        b"RP".to_vec(),
        b"pong".to_vec(),
    ];
    let w = decode(&frames).unwrap();
    assert_eq!(encode(&w), frames);
}

#[test]
fn roundtrip_without_tag_frame() {
    let frames: Vec<Vec<u8>> = vec![b"H1".to_vec(), Vec::new(), b"body".to_vec()];
    let w = decode(&frames).unwrap();
    assert_eq!(w.hops, vec![b"H1".to_vec()]);
    assert_eq!(w.tag, None);
    assert_eq!(w.body, b"body".to_vec());
    assert_eq!(encode(&w), frames);
}

#[test]
fn roundtrip_with_no_hops_and_empty_body() {
    let frames: Vec<Vec<u8>> = vec![Vec::new(), b"RQ".to_vec(), Vec::new()];
    let w = decode(&frames).unwrap();
    assert!(w.hops.is_empty());
    assert_eq!(w.tag, Some(b"RQ".to_vec()));
    assert!(w.body.is_empty());
    assert_eq!(encode(&w), frames);
}

#[test]
fn too_many_hops_is_max_hops_error() {
    let mut frames: Vec<Vec<u8>> = (1..=9u8).map(|i| vec![i]).collect();
    frames.push(Vec::new());
    frames.push(b"RQ".to_vec());
    frames.push(b"body".to_vec());
    assert_eq!(decode(&frames), Err(Error::MaxHops));
}

#[test]
fn eight_hops_still_decodes() {
    let mut frames: Vec<Vec<u8>> = (1..=8u8).map(|i| vec![i]).collect();
    frames.push(Vec::new());
    frames.push(b"RQ".to_vec());
    frames.push(b"body".to_vec());
    let w = decode(&frames).unwrap();
    assert_eq!(w.hops.len(), 8);
    assert_eq!(encode(&w), frames);
}

#[test]
fn missing_delimiter_is_parse_failure() {
    let frames: Vec<Vec<u8>> = vec![b"H1".to_vec(), b"H2".to_vec()];
    assert_eq!(decode(&frames), Err(Error::ParseFailure));
}

#[test]
fn trailing_frames_are_parse_failure() {
    let frames: Vec<Vec<u8>> = vec![
        b"H1".to_vec(),
        Vec::new(),
        b"RQ".to_vec(),
        b"body".to_vec(),
        b"extra".to_vec(),
    ];
    assert_eq!(decode(&frames), Err(Error::ParseFailure));
}

#[test]
fn two_frames_after_delimiter_need_a_tag() {
    let frames: Vec<Vec<u8>> = vec![
        b"H1".to_vec(),
        Vec::new(),
        b"XX".to_vec(),
        b"body".to_vec(),
    ];
    assert_eq!(decode(&frames), Err(Error::ParseFailure));
}

#[test]
fn missing_body_is_parse_failure() {
    let frames: Vec<Vec<u8>> = vec![b"H1".to_vec(), Vec::new()];
    assert_eq!(decode(&frames), Err(Error::ParseFailure));
}

#[test]
fn encode_lays_out_hops_delimiter_tag_body() {
    let w = WireEnvelope {
        hops: vec![b"A".to_vec()],
        tag: Some(b"RP".to_vec()),
        body: b"x".to_vec(),
    };
    assert_eq!(
        encode(&w),
        vec![b"A".to_vec(), Vec::new(), b"RP".to_vec(), b"x".to_vec()]
    );
}
