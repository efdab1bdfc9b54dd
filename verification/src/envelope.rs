//! In-memory view of one message in transit: the return-address hop stack,
//! the decoded header, and a flag recording whether the reply header has
//! already been emitted.
//!
//! The hop stack is bounded by `MAX_HOPS`; a stream that would push past the
//! bound is dropped, never grown. A reply must replay the hop frames in
//! exactly the order they were received, then one empty delimiter frame, then
//! the reply tag — the only ordering invariant the fabric enforces.

use vstd::prelude::*;

use crate::Error;
use crate::MAX_HOPS;
use crate::message::{empty_msg, rp_tag_bytes, rp_tag, Frame, FrameView, Msg, MsgView};

verus! {

/// Mathematical model of an `Envelope`.
#[verifier::ext_equal]
pub ghost struct EnvelopeView {
    pub hops: Seq<Seq<u8>>,
    pub msg: MsgView,
    pub started: bool,
}

/// The model of an envelope as `Envelope::default` builds it: no hops, an
/// empty header, no reply header emitted yet.
pub open spec fn fresh_env() -> EnvelopeView {
    EnvelopeView { hops: Seq::empty(), msg: empty_msg(), started: false }
}

/// The model of an envelope after `populate`: `hops` and `msg` replaced,
/// the reply flag untouched.
pub open spec fn populate_view(e: EnvelopeView, hops: Seq<Seq<u8>>, msg: MsgView) -> EnvelopeView {
    EnvelopeView { hops, msg, started: e.started }
}

/// The reply header for a hop stack: every hop frame in order, then one empty
/// delimiter frame, then the reply tag, all flagged as having more to follow.
pub open spec fn header_frames(hops: Seq<Seq<u8>>) -> Seq<FrameView> {
    Seq::new(hops.len(), |i: int| FrameView { data: hops[i], more: true })
        .push(FrameView { data: Seq::empty(), more: true })
        .push(FrameView { data: rp_tag(), more: true })
}

/// Everything one reply call appends to the outbound frame sequence: the
/// header exactly once per envelope, then the payload frame.
pub open spec fn reply_emission(e: EnvelopeView, rep: Seq<u8>, more: bool) -> Seq<FrameView> {
    if e.started {
        seq![FrameView { data: rep, more }]
    } else {
        header_frames(e.hops).push(FrameView { data: rep, more })
    }
}

/// Outcome of feeding one inbound frame to an envelope.
#[derive(Clone, Copy, Debug, PartialEq, Eq, Structural)]
pub enum IngestOutcome {
    /// The frame was a non-empty hop and was appended to the stack.
    Hop,
    /// The frame was the empty delimiter: the hop stack is complete.
    Delimiter,
    /// The frame would have pushed past `MAX_HOPS`: the envelope was dropped
    /// and reset, and no reply is owed for it.
    Overflow,
}

pub struct Envelope {
    msg: Msg,
    hops: Vec<Vec<u8>>,
    started: bool,
}

impl View for Envelope {
    type V = EnvelopeView;

    closed spec fn view(&self) -> EnvelopeView {
        EnvelopeView { hops: self.hops.deep_view(), msg: self.msg@, started: self.started }
    }
}

impl Default for Envelope {
    /// An envelope ready for its first message.
    fn default() -> (r: Envelope)
        ensures
            r@ == fresh_env(),
            r.wf(),
    {
        let r = Envelope { msg: Msg::new(), hops: Vec::new(), started: false };
        proof {
            assert(r@.hops =~= fresh_env().hops);
        }
        r
    }
}

impl Envelope {
    /// The hop stack never exceeds `MAX_HOPS` entries.
    pub open spec fn wf(&self) -> bool {
        self@.hops.len() <= MAX_HOPS
    }

    /// An envelope holding the given return-address stack and header.
    pub fn new(hops: Vec<Vec<u8>>, msg: Msg) -> (r: Envelope)
        requires
            hops@.len() <= MAX_HOPS,
        ensures
            r@ == (EnvelopeView { hops: hops.deep_view(), msg: msg@, started: false }),
            r.wf(),
    {
        Envelope { msg, hops, started: false }
    }

    /// Appends one hop frame to the return-address stack, refusing to grow
    /// past `MAX_HOPS`.
    pub fn add_hop(&mut self, hop: Vec<u8>) -> (r: Result<(), Error>)
        requires
            old(self).wf(),
        ensures
            final(self).wf(),
            old(self)@.hops.len() < MAX_HOPS ==> r is Ok && final(self)@ == (EnvelopeView {
                hops: old(self)@.hops.push(hop@),
                ..old(self)@
            }),
            old(self)@.hops.len() >= MAX_HOPS ==> r == Err::<(), Error>(Error::MaxHops)
                && final(self)@ == old(self)@,
    {
        if self.max_hops() {
            return Err(Error::MaxHops);
        }
        self.hops.push(hop);
        proof {
            assert(self@.hops =~~= old(self)@.hops.push(hop@));
        }
        Ok(())
    }

    /// The application payload carried by the header.
    pub fn body(&self) -> (r: &Vec<u8>)
        ensures
            r@ == self@.msg.body,
    {
        &self.msg.body
    }

    /// The return-address stack as observed on the way in.
    pub fn hops(&self) -> (r: &Vec<Vec<u8>>)
        ensures
            r.deep_view() == self@.hops,
    {
        &self.hops
    }

    /// True when the hop stack is full and one more hop would overflow it.
    pub fn max_hops(&self) -> (r: bool)
        ensures
            r == (self@.hops.len() >= MAX_HOPS),
    {
        self.hops.len() >= MAX_HOPS
    }

    /// The header's message identifier.
    pub fn message_id(&self) -> (r: &String)
        ensures
            r@ == self@.msg.message_id,
    {
        &self.msg.message_id
    }

    /// The header's routing section.
    pub fn route_info(&self) -> (r: crate::message::RouteInfo)
        ensures
            r == self@.msg.route_info,
    {
        self.msg.route_info
    }

    /// The service class this message addresses.
    pub fn protocol(&self) -> (r: crate::message::Protocol)
        ensures
            r == self@.msg.route_info.protocol,
    {
        self.msg.route_info.protocol
    }

    /// Whether the reply header has already been emitted for this envelope.
    pub fn started(&self) -> (r: bool)
        ensures
            r == self@.started,
    {
        self.started
    }

    /// Replaces the decoded header, leaving hops and the reply flag alone.
    pub fn set_msg(&mut self, msg: Msg)
        ensures
            final(self)@ == (EnvelopeView { msg: msg@, ..old(self)@ }),
            old(self).wf() ==> final(self).wf(),
    {
        self.msg = msg;
    }

    /// Replaces the hop stack and header in one step, as construction does.
    pub fn populate(&mut self, hops: Vec<Vec<u8>>, msg: Msg)
        requires
            hops@.len() <= MAX_HOPS,
        ensures
            final(self)@ == populate_view(old(self)@, hops.deep_view(), msg@),
            final(self).wf(),
    {
        self.hops = hops;
        self.msg = msg;
    }

    /// Returns the envelope to the state of a freshly constructed one.
    pub fn reset(&mut self)
        ensures
            final(self)@ == fresh_env(),
            final(self).wf(),
    {
        self.started = false;
        self.hops.clear();
        self.msg = Msg::new();
        proof {
            assert(self@.hops =~= fresh_env().hops);
        }
    }

    /// Feeds one inbound frame to the envelope, per the ingress rules: a
    /// non-empty frame joins the hop stack, the empty frame ends it, and a
    /// frame past the bound drops the whole envelope.
    pub fn ingest_frame(&mut self, frame: Vec<u8>) -> (o: IngestOutcome)
        requires
            old(self).wf(),
        ensures
            final(self).wf(),
            frame@.len() == 0 ==> o == IngestOutcome::Delimiter && final(self)@ == old(self)@,
            frame@.len() > 0 && old(self)@.hops.len() < MAX_HOPS ==> o == IngestOutcome::Hop
                && final(self)@ == (EnvelopeView {
                hops: old(self)@.hops.push(frame@),
                ..old(self)@
            }),
            frame@.len() > 0 && old(self)@.hops.len() >= MAX_HOPS ==> o == IngestOutcome::Overflow
                && final(self)@ == fresh_env(),
    {
        if frame.len() == 0 {
            return IngestOutcome::Delimiter;
        }
        match self.add_hop(frame) {
            Ok(_) => IngestOutcome::Hop,
            Err(_) => {
                self.reset();
                IngestOutcome::Overflow
            },
        }
    }

    /// Emits the reply header onto `out` exactly once per envelope: every hop
    /// frame in received order, one empty delimiter frame, then the reply
    /// tag. Later calls for the same envelope emit nothing.
    pub fn send_header(&mut self, out: &mut Vec<Frame>)
        requires
            old(self).wf(),
        ensures
            final(self).wf(),
            final(self)@ == (EnvelopeView { started: true, ..old(self)@ }),
            old(self)@.started ==> final(out)@ == old(out)@,
            !old(self)@.started ==> final(out).deep_view() == old(out).deep_view()
                + header_frames(old(self)@.hops),
    {
        if !self.started {
            let ghost hops_v: Seq<Seq<u8>> = self@.hops;
            let ghost out0: Seq<FrameView> = out.deep_view();
            let n = self.hops.len();
            let mut i: usize = 0;
            while i < n
                invariant
                    i <= n,
                    n == self.hops.len(),
                    self@.hops == hops_v,
                    out.deep_view() == out0
                        + Seq::new(i as nat, |j: int| FrameView { data: hops_v[j], more: true }),
                decreases n - i,
            {
                let ghost pre: Seq<FrameView> = out.deep_view();
                let hop = self.hops[i].clone();
                proof {
                    assert(hop@ =~= self.hops@[i as int]@);
                    assert(hop.deep_view() =~= hop@);
                    assert(hop.deep_view() =~= self.hops@[i as int].deep_view());
                }
                let frame = Frame { data: hop, more: true };
                let ghost frame_v: FrameView = frame@;
                out.push(frame);
                i = i + 1;
                proof {
                    assert(out.deep_view() =~~= pre.push(frame_v));
                    assert(frame_v =~~= (FrameView { data: hops_v[i - 1], more: true }));
                    assert(out.deep_view() =~~= out0
                        + Seq::new(i as nat, |j: int| FrameView { data: hops_v[j], more: true }));
                }
            }
            let ghost pre1: Seq<FrameView> = out.deep_view();
            let delim = Frame { data: Vec::new(), more: true };
            let ghost delim_v: FrameView = delim@;
            out.push(delim);
            proof {
                assert(out.deep_view() =~~= pre1.push(delim_v));
            }
            let ghost pre2: Seq<FrameView> = out.deep_view();
            let tag = Frame { data: rp_tag_bytes(), more: true };
            let ghost tag_v: FrameView = tag@;
            out.push(tag);
            self.started = true;
            proof {
                assert(out.deep_view() =~~= pre2.push(tag_v));
                assert(delim_v =~~= (FrameView { data: Seq::<u8>::empty(), more: true }));
                assert(Seq::new(n as nat, |j: int| FrameView { data: hops_v[j], more: true })
                    =~= Seq::new(hops_v.len(), |j: int| FrameView { data: hops_v[j], more: true }));
                assert(out.deep_view() =~~= old(out).deep_view() + header_frames(hops_v));
            }
        }
    }

    /// Appends one payload frame of a multi-part reply, emitting the reply
    /// header first if this is the envelope's first outbound frame.
    pub fn reply(&mut self, out: &mut Vec<Frame>, rep: Vec<u8>)
        requires
            old(self).wf(),
        ensures
            final(self).wf(),
            final(self)@ == (EnvelopeView { started: true, ..old(self)@ }),
            final(out).deep_view() == old(out).deep_view()
                + reply_emission(old(self)@, rep@, true),
    {
        self.send_header(out);
        let ghost pre: Seq<FrameView> = out.deep_view();
        let frame = Frame { data: rep, more: true };
        let ghost frame_v: FrameView = frame@;
        out.push(frame);
        proof {
            assert(out.deep_view() =~~= pre.push(frame_v));
            assert(out.deep_view() =~~= old(out).deep_view()
                + reply_emission(old(self)@, rep@, true));
        }
    }

    /// Appends the final payload frame of a reply, emitting the reply header
    /// first if this is the envelope's first outbound frame.
    pub fn reply_complete(&mut self, out: &mut Vec<Frame>, rep: Vec<u8>)
        requires
            old(self).wf(),
        ensures
            final(self).wf(),
            final(self)@ == (EnvelopeView { started: true, ..old(self)@ }),
            final(out).deep_view() == old(out).deep_view()
                + reply_emission(old(self)@, rep@, false),
    {
        self.send_header(out);
        let ghost pre: Seq<FrameView> = out.deep_view();
        let frame = Frame { data: rep, more: false };
        let ghost frame_v: FrameView = frame@;
        out.push(frame);
        proof {
            assert(out.deep_view() =~~= pre.push(frame_v));
            assert(out.deep_view() =~~= old(out).deep_view()
                + reply_emission(old(self)@, rep@, false));
        }
    }
}

/// Any envelope a dispatcher observes carries at most `MAX_HOPS` hop frames.
pub proof fn lemma_hops_bounded(e: Envelope)
    requires
        e.wf(),
    ensures
        e@.hops.len() <= MAX_HOPS,
{
}

/// The first reply emitted for an envelope begins with exactly the hop frames
/// that arrived, in the same order, followed by one empty delimiter frame and
/// the reply tag, before any payload frame.
pub proof fn lemma_reply_preserves_hops(e: EnvelopeView, rep: Seq<u8>, more: bool)
    requires
        !e.started,
    ensures
        reply_emission(e, rep, more).len() == e.hops.len() + 3,
        forall|i: int| 0 <= i < e.hops.len()
            ==> #[trigger] reply_emission(e, rep, more)[i]
                == (FrameView { data: e.hops[i], more: true }),
        reply_emission(e, rep, more)[e.hops.len() as int].data.len() == 0,
        reply_emission(e, rep, more)[e.hops.len() as int + 1].data == rp_tag(),
        reply_emission(e, rep, more).last() == (FrameView { data: rep, more }),
{
    assert forall|i: int| 0 <= i < e.hops.len()
        implies #[trigger] reply_emission(e, rep, more)[i]
            == (FrameView { data: e.hops[i], more: true }) by {
        assert(header_frames(e.hops)[i] == (FrameView { data: e.hops[i], more: true }));
    }
}

/// A reset envelope, once repopulated, is identical to a freshly constructed
/// envelope holding the same hops and header.
pub proof fn lemma_reset_then_populate_matches_new(hops: Seq<Seq<u8>>, msg: MsgView)
    ensures
        populate_view(fresh_env(), hops, msg) == (EnvelopeView { hops, msg, started: false }),
{
}

} // verus!
