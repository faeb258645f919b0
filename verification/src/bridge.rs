//! Frame-side core of the capture bridge.
//!
//! The capture collaborator delivers raw BGRA frames on its own synchronous
//! thread. For each frame the bridge converts and encodes synchronously —
//! the encoder is single-owner and order-sensitive — and decides whether a
//! sample must be handed to the asynchronous transport layer. The hand-off
//! itself (spawning the network write) is outside work; the bridge's logic
//! here is the per-frame decision: what bytes, if any, go out, and with what
//! presentation duration.

use vstd::prelude::*;

use crate::convert::planar_seq;
use crate::encoder::{h264_output, H264Encoder};

verus! {

/// One encoded sample bound for the transport track: compressed bytes and a
/// presentation duration in nanoseconds.
pub struct EncodedSample {
    pub data: Vec<u8>,
    pub duration_nanos: u64,
}

/// Nanoseconds of presentation time per frame at a target rate of `fps`.
pub open spec fn frame_duration_nanos(fps: int) -> int {
    1_000_000_000int / fps
}

/// Per-session bridge state: the encoder it owns and the configured target
/// frame rate.
pub struct CaptureBridge {
    pub encoder: H264Encoder,
    pub fps: u32,
}

impl CaptureBridge {
    /// A bridge is sound when its encoder is and its target rate is positive.
    pub open spec fn wf(self) -> bool {
        &&& self.encoder.wf()
        &&& self.fps >= 1
    }

    /// Take ownership of a freshly constructed encoder for this session.
    pub fn new(encoder: H264Encoder, fps: u32) -> (bridge: CaptureBridge)
        requires
            encoder.wf(),
            fps >= 1,
        ensures
            bridge.wf(),
            bridge.encoder == encoder,
            bridge.fps == fps,
    {
        CaptureBridge { encoder, fps }
    }

    /// Process one captured frame: convert, encode, and decide what reaches
    /// the transport.
    ///
    /// Returns `Ok(Some(sample))` exactly when the encoder emitted bytes for
    /// this submission — the sample carries those bytes and a duration of
    /// one frame at the target rate — and `Ok(None)` when the encoder is
    /// still buffering. A frame whose size does not match the encoder
    /// configuration, or an encoder failure, is a fatal error for the
    /// capture subsystem; the submission history is then unchanged.
    pub fn on_frame(&mut self, bgra: &[u8]) -> (r: Result<Option<EncodedSample>, String>)
        requires
            old(self).wf(),
        ensures
            final(self).wf(),
            final(self).fps == old(self).fps,
            final(self).encoder.width == old(self).encoder.width,
            final(self).encoder.height == old(self).encoder.height,
            bgra@.len() != 4 * ((old(self).encoder.width as int) * (
            old(self).encoder.height as int)) ==> r is Err,
            match r {
                Ok(emitted) => {
                    &&& final(self).encoder.frames@ == old(self).encoder.frames@.push(
                        planar_seq(
                            bgra@,
                            old(self).encoder.width as int,
                            old(self).encoder.height as int,
                        ),
                    )
                    &&& match emitted {
                        Some(sample) => {
                            &&& sample.data@ == h264_output(
                                old(self).encoder.width as int,
                                old(self).encoder.height as int,
                                final(self).encoder.frames@,
                            )
                            &&& sample.data@.len() > 0
                            &&& sample.duration_nanos == frame_duration_nanos(
                                old(self).fps as int,
                            )
                        },
                        None => h264_output(
                            old(self).encoder.width as int,
                            old(self).encoder.height as int,
                            final(self).encoder.frames@,
                        ).len() == 0,
                    }
                },
                Err(_) => final(self).encoder.frames@ == old(self).encoder.frames@,
            },
    {
        let nal = self.encoder.encode_bgra(bgra)?;
        if nal.len() == 0 {
            Ok(None)
        } else {
            let duration_nanos: u64 = 1_000_000_000 / (self.fps as u64);
            Ok(Some(EncodedSample { data: nal, duration_nanos }))
        }
    }
}

} // verus!
