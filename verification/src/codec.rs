//! Whole-message codec for the wire envelope.
//!
//! A message on the wire is a frame sequence
//! `[hop_1] ... [hop_k] [""] [tag] [body]`: up to `MAX_HOPS` non-empty hop
//! frames, one empty delimiter frame, the request or reply tag, and the
//! serialized header. The tag between the delimiter and the body is optional
//! on ingress and is skipped, never mistaken for a hop or for the body.
//! Decoding and encoding are exact inverses on well-formed envelopes.

use vstd::prelude::*;

use crate::Error;
use crate::MAX_HOPS;
use crate::message::{rp_tag, rq_tag};

verus! {

/// A wire envelope split into its parts: the hop stack, the optional tag
/// frame, and the body frame.
#[derive(Debug, PartialEq, Eq)]
pub struct WireEnvelope {
    pub hops: Vec<Vec<u8>>,
    pub tag: Option<Vec<u8>>,
    pub body: Vec<u8>,
}

/// Mathematical model of a `WireEnvelope`.
#[verifier::ext_equal]
pub ghost struct WireEnvelopeView {
    pub hops: Seq<Seq<u8>>,
    pub tag: Option<Seq<u8>>,
    pub body: Seq<u8>,
}

impl View for WireEnvelope {
    type V = WireEnvelopeView;

    open spec fn view(&self) -> WireEnvelopeView {
        WireEnvelopeView {
            hops: self.hops.deep_view(),
            tag: self.tag.deep_view(),
            body: self.body@,
        }
    }
}

/// True of the two frame payloads that mark a request or a reply.
pub open spec fn is_tag(f: Seq<u8>) -> bool {
    f == rq_tag() || f == rp_tag()
}

/// The number of non-empty frames before the first empty delimiter frame.
pub open spec fn lead_hops(frames: Seq<Seq<u8>>) -> int
    decreases frames.len(),
{
    if frames.len() == 0 {
        0
    } else if frames[0].len() == 0 {
        0
    } else {
        1 + lead_hops(frames.drop_first())
    }
}

/// What decoding a frame sequence yields: the parts of the envelope, or
/// `MaxHops` when more than `MAX_HOPS` hops precede the delimiter, or
/// `ParseFailure` when the delimiter or the body frame is missing or frames
/// trail the body.
pub open spec fn decode_spec(frames: Seq<Seq<u8>>) -> Result<WireEnvelopeView, Error> {
    let k = lead_hops(frames);
    if k > MAX_HOPS {
        Err(Error::MaxHops)
    } else if k == frames.len() {
        Err(Error::ParseFailure)
    } else {
        let rest = frames.len() - k - 1;
        if rest == 2 && is_tag(frames[k + 1]) {
            Ok(WireEnvelopeView { hops: frames.take(k), tag: Some(frames[k + 1]), body: frames.last() })
        } else if rest == 1 {
            Ok(WireEnvelopeView { hops: frames.take(k), tag: None, body: frames.last() })
        } else {
            Err(Error::ParseFailure)
        }
    }
}

/// The frame sequence an envelope's parts occupy on the wire.
pub open spec fn encode_spec(w: WireEnvelopeView) -> Seq<Seq<u8>> {
    match w.tag {
        Some(t) => w.hops.push(Seq::empty()).push(t).push(w.body),
        None => w.hops.push(Seq::empty()).push(w.body),
    }
}

/// A well-formed envelope: a bounded stack of non-empty hops, and a tag frame
/// that, when present, is one of the two tags.
pub open spec fn wf_wire(w: WireEnvelopeView) -> bool {
    &&& w.hops.len() <= MAX_HOPS
    &&& forall|i: int| 0 <= i < w.hops.len() ==> #[trigger] w.hops[i].len() > 0
    &&& match w.tag {
        Some(t) => is_tag(t),
        None => true,
    }
}

/// Leading non-empty frames are counted up to the first empty frame: if every
/// frame of `h` is non-empty and `rest` opens with an empty frame, the count
/// of `h + rest` is exactly `h.len()`.
proof fn lemma_lead_hops_prefix(h: Seq<Seq<u8>>, rest: Seq<Seq<u8>>)
    requires
        forall|i: int| 0 <= i < h.len() ==> #[trigger] h[i].len() > 0,
        rest.len() > 0,
        rest[0].len() == 0,
    ensures
        lead_hops(h + rest) == h.len(),
    decreases h.len(),
{
    if h.len() == 0 {
        assert(h + rest =~= rest);
    } else {
        let s = h + rest;
        assert(s[0] == h[0]);
        assert(s.drop_first() =~= h.drop_first() + rest);
        lemma_lead_hops_prefix(h.drop_first(), rest);
    }
}

/// Basic facts about the hop count: it never exceeds the frame count, every
/// frame before it is non-empty, and the frame at it — when one exists — is
/// the empty delimiter.
proof fn lemma_lead_hops_props(frames: Seq<Seq<u8>>)
    ensures
        0 <= lead_hops(frames) <= frames.len(),
        forall|i: int| 0 <= i < lead_hops(frames) ==> #[trigger] frames[i].len() > 0,
        lead_hops(frames) < frames.len() ==> frames[lead_hops(frames)].len() == 0,
    decreases frames.len(),
{
    if frames.len() == 0 {
    } else if frames[0].len() == 0 {
    } else {
        lemma_lead_hops_props(frames.drop_first());
        assert forall|i: int| 0 <= i < lead_hops(frames) implies #[trigger] frames[i].len() > 0 by {
            if i > 0 {
                assert(frames.drop_first()[i - 1].len() > 0);
            }
        }
    }
}

/// The hop count is pinned down by its characteristic properties: `k` leading
/// non-empty frames followed by the end of the sequence or an empty frame.
proof fn lemma_lead_hops_unique(frames: Seq<Seq<u8>>, k: int)
    requires
        0 <= k <= frames.len(),
        forall|i: int| 0 <= i < k ==> #[trigger] frames[i].len() > 0,
        k < frames.len() ==> frames[k].len() == 0,
    ensures
        lead_hops(frames) == k,
    decreases frames.len(),
{
    if k == frames.len() {
        if frames.len() > 0 {
            assert(frames[0].len() > 0);
            lemma_lead_hops_unique(frames.drop_first(), k - 1);
        }
    } else {
        assert(frames.take(k) + frames.skip(k) =~= frames);
        lemma_lead_hops_prefix(frames.take(k), frames.skip(k));
    }
}

/// Encoding a well-formed envelope and decoding the frames yields the same
/// envelope back.
pub proof fn lemma_encode_then_decode(w: WireEnvelopeView)
    requires
        wf_wire(w),
    ensures
        decode_spec(encode_spec(w)) == Ok::<WireEnvelopeView, Error>(w),
{
    let frames = encode_spec(w);
    let k = w.hops.len() as int;
    match w.tag {
        Some(t) => {
            assert(frames =~= w.hops + seq![Seq::<u8>::empty(), t, w.body]);
            lemma_lead_hops_prefix(w.hops, seq![Seq::<u8>::empty(), t, w.body]);
            assert(frames.take(k) =~~= w.hops);
            assert(decode_spec(frames) == Ok::<WireEnvelopeView, Error>(WireEnvelopeView {
                hops: frames.take(k),
                tag: Some(frames[k + 1]),
                body: frames.last(),
            }));
        },
        None => {
            assert(frames =~= w.hops + seq![Seq::<u8>::empty(), w.body]);
            lemma_lead_hops_prefix(w.hops, seq![Seq::<u8>::empty(), w.body]);
            assert(frames.take(k) =~~= w.hops);
        },
    }
}

/// Decoding a frame sequence and re-encoding the parts reproduces the frame
/// sequence exactly, byte for byte and frame for frame.
pub proof fn lemma_decode_then_encode(frames: Seq<Seq<u8>>)
    requires
        decode_spec(frames) is Ok,
    ensures
        encode_spec(decode_spec(frames)->Ok_0) == frames,
{
    let w = decode_spec(frames)->Ok_0;
    lemma_lead_hops_props(frames);
    assert(encode_spec(w) =~~= frames);
}

/// Every decoded envelope is well formed.
pub proof fn lemma_decode_wf(frames: Seq<Seq<u8>>)
    requires
        decode_spec(frames) is Ok,
    ensures
        wf_wire(decode_spec(frames)->Ok_0),
{
    lemma_lead_hops_props(frames);
}

/// True when `t` is one of the two tag frames.
pub fn is_tag_frame(t: &Vec<u8>) -> (r: bool)
    ensures
        r == is_tag(t@),
{
    let r = t.len() == 2 && t[0] == 82 && (t[1] == 81 || t[1] == 80);
    proof {
        if r {
            if t@[1] == 81 {
                assert(t@ =~= rq_tag());
            } else {
                assert(t@ =~= rp_tag());
            }
        }
        if is_tag(t@) {
            assert(t@.len() == 2 && t@[0] == 82 && (t@[1] == 81 || t@[1] == 80));
        }
    }
    r
}

/// Splits an inbound frame sequence into hop stack, optional tag, and body,
/// returning exactly what `decode_spec` prescribes for it.
pub fn decode(frames: &Vec<Vec<u8>>) -> (r: Result<WireEnvelope, Error>)
    ensures
        match r {
            Ok(w) => decode_spec(frames.deep_view()) == Ok::<WireEnvelopeView, Error>(w@),
            Err(e) => decode_spec(frames.deep_view()) == Err::<WireEnvelopeView, Error>(e),
        },
{
    let ghost fv: Seq<Seq<u8>> = frames.deep_view();
    let n = frames.len();
    let mut k: usize = 0;
    while k < n && frames[k].len() > 0
        invariant
            0 <= k <= n,
            n == frames@.len(),
            fv == frames.deep_view(),
            forall|i: int| 0 <= i < k ==> #[trigger] fv[i].len() > 0,
        decreases n - k,
    {
        k = k + 1;
    }
    proof {
        lemma_lead_hops_unique(fv, k as int);
    }
    if k > MAX_HOPS {
        return Err(Error::MaxHops);
    }
    if k == n {
        return Err(Error::ParseFailure);
    }
    let rest = n - k - 1;
    if rest != 1 && rest != 2 {
        return Err(Error::ParseFailure);
    }
    let tag: Option<Vec<u8>> = if rest == 2 {
        let t = &frames[k + 1];
        proof {
            assert(t@ =~= fv[k + 1]);
        }
        if is_tag_frame(t) {
            let tc = t.clone();
            proof {
                assert(tc@ =~= fv[k + 1]);
                assert(tc.deep_view() =~= fv[k + 1]);
            }
            Some(tc)
        } else {
            return Err(Error::ParseFailure);
        }
    } else {
        None
    };
    let mut hops: Vec<Vec<u8>> = Vec::new();
    let mut j: usize = 0;
    while j < k
        invariant
            0 <= j <= k <= n,
            n == frames@.len(),
            fv == frames.deep_view(),
            hops.deep_view() =~~= fv.take(j as int),
        decreases k - j,
    {
        let ghost pre: Seq<Seq<u8>> = hops.deep_view();
        let hop = frames[j].clone();
        proof {
            assert(hop@ =~= frames@[j as int]@);
            assert(hop.deep_view() =~= fv[j as int]);
        }
        hops.push(hop);
        j = j + 1;
        proof {
            assert(hops.deep_view() =~~= pre.push(fv[j - 1]));
            assert(hops.deep_view() =~~= fv.take(j as int));
        }
    }
    let body = frames[n - 1].clone();
    proof {
        assert(body@ =~= frames@[n - 1]@);
        assert(body.deep_view() =~= fv[n - 1]);
    }
    let w = WireEnvelope { hops, tag, body };
    proof {
        assert(fv.last() == fv[n - 1]);
        assert(w@.hops =~~= fv.take(k as int));
        assert(w@ =~~= decode_spec(fv)->Ok_0);
    }
    Ok(w)
}

/// Lays an envelope's parts out as the frame sequence they occupy on the
/// wire: hops, delimiter, tag when present, body.
pub fn encode(w: &WireEnvelope) -> (frames: Vec<Vec<u8>>)
    ensures
        frames.deep_view() == encode_spec(w@),
{
    let mut frames: Vec<Vec<u8>> = Vec::new();
    let n = w.hops.len();
    let mut i: usize = 0;
    while i < n
        invariant
            0 <= i <= n,
            n == w.hops@.len(),
            frames.deep_view() =~~= w@.hops.take(i as int),
        decreases n - i,
    {
        let ghost pre: Seq<Seq<u8>> = frames.deep_view();
        let hop = w.hops[i].clone();
        proof {
            assert(hop@ =~= w.hops@[i as int]@);
            assert(hop.deep_view() =~= w@.hops[i as int]);
        }
        frames.push(hop);
        i = i + 1;
        proof {
            assert(frames.deep_view() =~~= pre.push(w@.hops[i - 1]));
            assert(frames.deep_view() =~~= w@.hops.take(i as int));
        }
    }
    proof {
        assert(frames.deep_view() =~~= w@.hops);
    }
    let ghost pre1: Seq<Seq<u8>> = frames.deep_view();
    frames.push(Vec::new());
    proof {
        assert(frames.deep_view() =~~= pre1.push(Seq::<u8>::empty()));
    }
    match &w.tag {
        Some(t) => {
            let ghost pre2: Seq<Seq<u8>> = frames.deep_view();
            let tc = t.clone();
            proof {
                assert(tc.deep_view() =~= w@.tag->Some_0);
            }
            frames.push(tc);
            proof {
                assert(frames.deep_view() =~~= pre2.push(w@.tag->Some_0));
            }
        },
        None => {},
    }
    let ghost pre3: Seq<Seq<u8>> = frames.deep_view();
    let b = w.body.clone();
    proof {
        assert(b.deep_view() =~= w@.body);
    }
    frames.push(b);
    proof {
        assert(frames.deep_view() =~~= pre3.push(w@.body));
        assert(frames.deep_view() =~~= encode_spec(w@));
    }
    frames
}

} // verus!
