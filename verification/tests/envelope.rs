use route_fabric::envelope::{Envelope, IngestOutcome};
use route_fabric::message::{Frame, Msg};
use route_fabric::Error;

fn frames_of(out: &Vec<Frame>) -> Vec<(Vec<u8>, bool)> {
    out.iter().map(|f| (f.data.clone(), f.more)).collect()
}

#[test]
fn reply_preserves_hop_order() {
    let hops: Vec<Vec<u8>> = vec![b"H1".to_vec(), b"H2".to_vec(), b"H3".to_vec()];
    let mut env = Envelope::new(hops, Msg::new());
    let mut out: Vec<Frame> = Vec::new();
    env.reply_complete(&mut out, b"body".to_vec());
    assert_eq!(
        frames_of(&out),
        vec![
            (b"H1".to_vec(), true),
            (b"H2".to_vec(), true),
            (b"H3".to_vec(), true),
            (Vec::new(), true),
            (b"RP".to_vec(), true),
            (b"body".to_vec(), false),
        ]
    );
}

#[test]
fn reply_header_emitted_once() {
    let hops: Vec<Vec<u8>> = vec![b"H1".to_vec()];
    let mut env = Envelope::new(hops, Msg::new());
    let mut out: Vec<Frame> = Vec::new();
    env.reply(&mut out, b"part1".to_vec());
    env.reply_complete(&mut out, b"part2".to_vec());
    assert_eq!(
        frames_of(&out),
        vec![
            (b"H1".to_vec(), true),
            (Vec::new(), true),
            (b"RP".to_vec(), true),
            (b"part1".to_vec(), true),
            (b"part2".to_vec(), false),
        ]
    );
}

#[test]
fn add_hop_rejects_ninth_hop() {
    let mut env = Envelope::default();
    for i in 0..8u8 {
        assert!(env.add_hop(vec![i + 1]).is_ok());
    }
    assert!(env.max_hops());
    assert_eq!(env.add_hop(vec![9]), Err(Error::MaxHops));
    assert_eq!(env.hops().len(), 8);
}

#[test]
fn overflow_drops_envelope_and_next_request_proceeds() {
    let mut env = Envelope::default();
    for i in 0..8u8 {
        assert_eq!(env.ingest_frame(vec![i + 1]), IngestOutcome::Hop);
    }
    // The ninth non-empty hop frame overflows: the envelope is dropped whole.
    assert_eq!(env.ingest_frame(vec![9]), IngestOutcome::Overflow);
    assert_eq!(env.hops().len(), 0);
    assert!(!env.started());
    // The next request is processed normally on the same envelope.
    assert_eq!(env.ingest_frame(b"H1".to_vec()), IngestOutcome::Hop);
    assert_eq!(env.ingest_frame(Vec::new()), IngestOutcome::Delimiter);
    let mut out: Vec<Frame> = Vec::new();
    env.reply_complete(&mut out, b"pong".to_vec());
    assert_eq!(
        frames_of(&out),
        vec![
            (b"H1".to_vec(), true),
            (Vec::new(), true),
            (b"RP".to_vec(), true),
            (b"pong".to_vec(), false),
        ]
    );
}

#[test]
fn reset_matches_fresh_envelope() {
    let mut msg = Msg::new();
    msg.message_id = String::from("id-1");
    msg.body = b"payload".to_vec();
    let mut env = Envelope::new(vec![b"H1".to_vec()], msg);
    let mut out: Vec<Frame> = Vec::new();
    env.reply_complete(&mut out, b"done".to_vec());
    env.reset();
    let fresh = Envelope::default();
    assert_eq!(env.hops(), fresh.hops());
    assert_eq!(env.started(), fresh.started());
    assert_eq!(env.body(), fresh.body());
    assert_eq!(env.message_id(), fresh.message_id());
    // Repopulating the reset envelope reproduces a freshly constructed one.
    let mut msg2 = Msg::new();
    msg2.body = b"next".to_vec();
    env.populate(vec![b"H2".to_vec()], msg2.clone());
    let built = Envelope::new(vec![b"H2".to_vec()], msg2);
    assert_eq!(env.hops(), built.hops());
    assert_eq!(env.started(), built.started());
    assert_eq!(env.body(), built.body());
    assert_eq!(env.message_id(), built.message_id());
}

#[test]
fn delimiter_leaves_envelope_unchanged() {
    let mut env = Envelope::default();
    assert_eq!(env.ingest_frame(b"H1".to_vec()), IngestOutcome::Hop);
    assert_eq!(env.ingest_frame(Vec::new()), IngestOutcome::Delimiter);
    assert_eq!(env.hops(), &vec![b"H1".to_vec()]);
}
