//! The encoding session: one engine context per strict configuration,
//! driven through a strict frame-in/packet-out protocol with end-of-stream
//! draining.
//!
//! Exclusive access to the context is enforced here by `&mut self` on the
//! two operations that drive it; a host runtime that shares one session
//! between callers wraps it in its own lock and maps a poisoned lock to
//! the `Failure` status.

use vstd::prelude::*;
use crate::config::StrictConfig;
use crate::engine;

verus! {

/// The engine's six-way steady-state status, passed through to callers
/// as data, not raised as an error: `NeedMoreData`, for instance, is the
/// normal condition while the lookahead window fills.
#[derive(Clone, Copy, Debug, PartialEq, Eq, Structural)]
pub enum EncoderStatus {
    /// The encoder needs more frames before it can emit a packet.
    NeedMoreData,
    /// The encoder accepts no more frames (it was already flushed, or a
    /// still-picture session already holds its one frame).
    EnoughData,
    /// Every packet this context will produce has been retrieved.
    LimitReached,
    /// A frame was encoded, but no packet is ready to be emitted yet.
    Encoded,
    /// Generic fatal error.
    Failure,
    /// A two-pass rate-control state mismatch.
    NotReady,
}

/// Session creation failed: the configuration was rejected before a
/// context could be built; carries the diagnostic text.
#[derive(Clone, Debug, PartialEq, Eq)]
pub struct EncoderInitError {
    pub detail: String,
}

/// The submitted-frame counter after one more accepted frame: one more,
/// saturating at the counter's maximum (which the engine's own frame
/// limit keeps out of reach in practice).
pub open spec fn bump(n: u64) -> u64 {
    if n < u64::MAX {
        (n + 1) as u64
    } else {
        n
    }
}

/// One encoding session: owns exactly one engine context plus the strict
/// configuration it was created from (retained to recall the frame
/// geometry), and counts the frames submitted so far.
pub struct Rav1e {
    /// The strict configuration the context was created from; immutable
    /// for the session's lifetime.
    pub settings: StrictConfig,
    /// The engine's opaque per-session state; exactly one per session.
    pub context: engine::EngineContext,
    /// How many frames `encode` has handed to the engine; sequential
    /// submissions are assigned monotonically increasing input-frame
    /// indices starting at zero.
    pub frames_submitted: u64,
}

impl Rav1e {
    /// A session is well-formed when its geometry fits the engine's
    /// accepted range — which lets raw planes be interpreted with the
    /// stored width as the source stride, and plane sizes be computed
    /// without overflow — its bit depth is the supported 8, and the
    /// stored configuration is the very one the context was created
    /// from, so frames built for this context fit it.
    pub open spec fn wf(self) -> bool {
        &&& self.settings.width >= 1
        &&& self.settings.width <= 65535
        &&& self.settings.height >= 1
        &&& self.settings.height <= 65535
        &&& self.settings.bit_depth == 8
        &&& engine::context_config(self.context) == self.settings
    }

    /// Creates the one encoding session for a strict configuration,
    /// building an engine context from it. A zero geometry, an
    /// unsupported bit depth or an out-of-range speed preset is rejected
    /// before the engine is asked; past that, creation succeeds exactly
    /// when the engine's own validation accepts the configuration, and a
    /// failure carries the diagnostic text and is never retried. A fresh
    /// session has accepted no frames and emitted no packets.
    pub fn new(settings: StrictConfig) -> (r: Result<Rav1e, EncoderInitError>)
        ensures
            r matches Ok(s) ==> s.wf() && s.settings == settings && s.frames_submitted == 0
                && engine::submissions(s.context) =~= Seq::<Seq<(Seq<u8>, nat)>>::empty()
                && engine::emitted(s.context) == 0 && !engine::eos_signaled(s.context),
            r is Ok <==> settings.width >= 1 && settings.height >= 1 && settings.bit_depth
                == 8 && settings.speed_preset <= 10 && engine::engine_accepts(settings),
    {
        if settings.width == 0 || settings.height == 0 || settings.bit_depth != 8
            || settings.speed_preset > 10 {
            return Err(
                EncoderInitError {
                    detail: "the frame geometry must be positive, the bit depth 8 and the speed preset at most 10".to_owned(),
                },
            );
        }
        match engine::create_context(&settings) {
            Ok(context) => Ok(Rav1e { settings, context, frames_submitted: 0 }),
            Err(detail) => Err(EncoderInitError { detail }),
        }
    }

    /// The three raw plane buffers of one frame as the engine context
    /// records them: each paired with the stored width, the source
    /// stride they are laid out at.
    pub open spec fn spec_submission(self, yuv_frame: [&[u8]; 3]) -> Seq<(Seq<u8>, nat)> {
        seq![
            (yuv_frame[0]@, self.settings.width as nat),
            (yuv_frame[1]@, self.settings.width as nat),
            (yuv_frame[2]@, self.settings.width as nat),
        ]
    }

    /// Whether three plane buffers have exactly the sizes this session's
    /// geometry and chroma subsampling call for.
    pub open spec fn spec_planes_sized(self, yuv_frame: [&[u8]; 3]) -> bool {
        &&& yuv_frame[0]@.len() == self.settings.spec_luma_len()
        &&& yuv_frame[1]@.len() == self.settings.spec_chroma_len()
        &&& yuv_frame[2]@.len() == self.settings.spec_chroma_len()
    }

    /// One non-batching exchange: builds a frame from the three raw
    /// planar buffers (luma, chroma-blue, chroma-red) using the stored
    /// width as stride, submits it, and polls once for a ready packet,
    /// returned as its source-frame index and data. Plane sizes are the
    /// caller's contract: buffers that do not match the configured
    /// geometry and subsampling fail unrecoverably with `Failure` and
    /// leave the session untouched, never silently truncated. A
    /// submission refusal or a poll status is passed through verbatim;
    /// exactly the accepted submissions are recorded and advance the
    /// frame counter, and well-sized planes handed to a session that is
    /// not flushed (and not a filled still-picture session) are always
    /// accepted. Packets come out numbered in submission order: a
    /// returned packet carries the next unemitted index and implies
    /// this call's frame, with these very bytes, was accepted.
    pub fn encode(&mut self, yuv_frame: [&[u8]; 3]) -> (r: Result<(u64, Vec<u8>), EncoderStatus>)
        requires
            old(self).wf(),
        ensures
            final(self).wf(),
            final(self).settings == old(self).settings,
            final(self).frames_submitted == old(self).frames_submitted || final(self).frames_submitted == bump(old(self).frames_submitted),
            r is Ok ==> final(self).frames_submitted == bump(old(self).frames_submitted),
            !old(self).spec_planes_sized(yuv_frame) ==> r == Err::<(u64, Vec<u8>), EncoderStatus>(EncoderStatus::Failure) && *final(self) == *old(self),
            engine::submissions(final(self).context) == engine::submissions(old(self).context) || engine::submissions(final(self).context) =~= engine::submissions(old(self).context).push(old(self).spec_submission(yuv_frame)),
            r is Ok ==> engine::submissions(final(self).context) =~= engine::submissions(old(self).context).push(old(self).spec_submission(yuv_frame)),
            r matches Ok(p) ==> (p.0 as nat) <= engine::submissions(old(self).context).len() && (p.0 as nat) == engine::emitted(old(self).context) && engine::emitted(final(self).context) == engine::emitted(old(self).context) + 1,
            r is Err ==> engine::emitted(final(self).context) == engine::emitted(old(self).context),
            old(self).spec_planes_sized(yuv_frame) && !engine::eos_signaled(old(self).context) && (!old(self).settings.still_picture || engine::submissions(old(self).context).len() == 0) ==> engine::submissions(final(self).context) =~= engine::submissions(old(self).context).push(old(self).spec_submission(yuv_frame)) && final(self).frames_submitted == bump(old(self).frames_submitted),
    {
        let width = self.settings.width;
        let luma_len = self.settings.luma_len();
        let chroma_len = self.settings.chroma_len();
        if !(yuv_frame[0].len() == luma_len && yuv_frame[1].len() == chroma_len
            && yuv_frame[2].len() == chroma_len) {
            return Err(EncoderStatus::Failure);
        }
        let mut frame = engine::new_frame(&self.context);
        engine::fill_plane(&mut frame, 0, yuv_frame[0], width);
        engine::fill_plane(&mut frame, 1, yuv_frame[1], width);
        engine::fill_plane(&mut frame, 2, yuv_frame[2], width);
        proof {
            assert(engine::plane_fills(frame) =~= old(self).spec_submission(yuv_frame));
        }
        match engine::send_frame(&mut self.context, frame) {
            Ok(_) => {},
            Err(e) => {
                return Err(e);
            },
        }
        self.frames_submitted = if self.frames_submitted < u64::MAX {
            self.frames_submitted + 1
        } else {
            self.frames_submitted
        };
        engine::receive_packet(&mut self.context)
    }

    /// Signals end-of-stream, then drains the context: polls repeatedly,
    /// collecting every packet in retrieval order, keeps polling while
    /// the engine reports a frame processed without a packet yet, and
    /// finishes when the engine reports that every packet was produced —
    /// the returned list then holds exactly the packets not yet emitted,
    /// consecutively numbered in submission order, completing the set of
    /// accepted frames; on an already-drained session that list is
    /// empty. Any other engine report fails the whole call with that
    /// status: the drain is all-or-nothing, never a silent part. Each
    /// productive poll spends engine work of which a context holds
    /// finitely much, which is what bounds the loop. No frames are
    /// submitted, so the frame counter and the recorded submissions are
    /// unchanged.
    pub fn flush(&mut self) -> (r: Result<Vec<(u64, Vec<u8>)>, EncoderStatus>)
        ensures
            final(self).settings == old(self).settings,
            final(self).frames_submitted == old(self).frames_submitted,
            engine::submissions(final(self).context) == engine::submissions(old(self).context),
            engine::context_config(final(self).context) == engine::context_config(old(self).context),
            engine::eos_signaled(final(self).context),
            r matches Ok(list) ==> engine::emitted(final(self).context) == engine::submissions(old(self).context).len(),
            r matches Ok(list) ==> engine::emitted(old(self).context) + list@.len() == engine::submissions(old(self).context).len(),
            r matches Ok(list) ==> (forall|i: int|
                0 <= i < list@.len() ==> (list@[i].0 as nat) == engine::emitted(
                    old(self).context,
                ) + i),
    {
        match engine::send_eos(&mut self.context) {
            Ok(_) => {},
            Err(e) => {
                return Err(e);
            },
        }
        let mut packets: Vec<(u64, Vec<u8>)> = Vec::new();
        loop
            invariant
                self.settings == old(self).settings,
                self.frames_submitted == old(self).frames_submitted,
                engine::submissions(self.context) == engine::submissions(old(self).context),
                engine::context_config(self.context) == engine::context_config(old(self).context),
                engine::eos_signaled(self.context),
                engine::emitted(self.context) == engine::emitted(old(self).context) + packets@.len(),
                forall|i: int|
                    0 <= i < packets@.len() ==> (packets@[i].0 as nat) == engine::emitted(
                        old(self).context,
                    ) + i,
            ensures
                engine::emitted(self.context) == engine::submissions(old(self).context).len(),
            decreases engine::poll_budget(self.context),
        {
            match engine::receive_packet(&mut self.context) {
                Ok(packet) => {
                    packets.push(packet);
                },
                Err(EncoderStatus::Encoded) => {},
                Err(EncoderStatus::LimitReached) => {
                    break ;
                },
                Err(e) => {
                    return Err(e);
                },
            }
        }
        Ok(packets)
    }
}

/// A flush on a session whose packets were already fully drained (and
/// with nothing submitted since) returns an empty list: the emitted
/// count already covers every accepted frame, and a successful flush
/// returns exactly the packets still unemitted.
pub proof fn lemma_drained_flush_is_empty(before: Rav1e, list: Seq<(u64, Vec<u8>)>)
    requires
        engine::emitted(before.context) == engine::submissions(before.context).len(),
        engine::emitted(before.context) + list.len() == engine::submissions(before.context).len(),
    ensures
        list.len() == 0,
{
}

} // verus!
