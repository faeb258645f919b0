//! Stateful wrapper around the OpenH264 bitstream encoder.
//!
//! The encoder is constructed once per capture session with a fixed frame
//! size, consumes one planar image per call, and emits zero or more bytes of
//! compressed access units per submission. The compression itself is done by
//! the `openh264` crate; its output is named by the uninterpreted function
//! [`h264_output`], which captures that the emitted bytes depend only on the
//! frame size and the sequence of planar images submitted so far (the crate
//! stamps every submission with a fixed zero timestamp, so neither the clock
//! nor any other ambient state reaches the underlying encoder).

use vstd::prelude::*;

use crate::convert::{planar_len, planar_seq, PlanarImage};

verus! {

/// The compressed bytes that the OpenH264 encoder emits when the last image
/// of `frames` (each a planar 4:2:0 buffer for a `w` × `h` frame) is
/// submitted to an encoder that has already consumed the earlier ones in
/// order. Empty when the encoder is still buffering.
pub uninterp spec fn h264_output(w: int, h: int, frames: Seq<Seq<u8>>) -> Seq<u8>;

#[verifier::external_type_specification]
#[verifier::external_body]
pub struct ExRawH264Encoder(openh264::encoder::Encoder);

/// One emission of the encoder: the number of frames that had been submitted
/// when it appeared, paired with its bytes.
pub struct Emission {
    pub after: int,
    pub bytes: Seq<u8>,
}

/// The non-empty blobs an encoder with frame size `w` × `h` has emitted after
/// consuming `frames` in order, oldest first, each tagged with the submission
/// count at which it appeared.
pub open spec fn emissions(w: int, h: int, frames: Seq<Seq<u8>>) -> Seq<Emission>
    decreases frames.len(),
{
    if frames.len() == 0 {
        Seq::empty()
    } else {
        let prev = emissions(w, h, frames.drop_last());
        let out = h264_output(w, h, frames);
        if out.len() == 0 {
            prev
        } else {
            prev.push(Emission { after: frames.len() as int, bytes: out })
        }
    }
}

/// Total compressed byte count over a sequence of emissions.
pub open spec fn total_emitted_bytes(es: Seq<Emission>) -> int
    decreases es.len(),
{
    if es.len() == 0 {
        0
    } else {
        total_emitted_bytes(es.drop_last()) + es.last().bytes.len()
    }
}

/// H.264 encoder for one capture session: a fixed frame size and the OpenH264
/// state behind it.
pub struct H264Encoder {
    pub inner: openh264::encoder::Encoder,
    pub width: usize,
    pub height: usize,
    pub frames: Ghost<Seq<Seq<u8>>>,
}

/// Relies on `OpenH264API::from_source`, `EncoderConfig::new` and
/// `Encoder::with_api_config`: builds a fresh default-configured encoder, or
/// reports the construction error as text.
#[verifier::external_body]
fn raw_encoder_new() -> (r: Result<openh264::encoder::Encoder, String>) {
    let api = openh264::OpenH264API::from_source();
    let config = openh264::encoder::EncoderConfig::new();
    match openh264::encoder::Encoder::with_api_config(api, config) {
        Ok(enc) => Ok(enc),
        Err(e) => Err(format!("{e}")),
    }
}

impl H264Encoder {
    /// Frame sizes the encoder accepts without risking arithmetic overflow in
    /// the planar layout: even dimensions, total planar size addressable.
    pub open spec fn size_ok(w: int, h: int) -> bool {
        &&& w % 2 == 0
        &&& h % 2 == 0
        &&& 4 * (w * h) <= usize::MAX
    }

    /// The encoder's configuration is sound for the frames it will consume.
    pub open spec fn wf(self) -> bool {
        Self::size_ok(self.width as int, self.height as int)
    }

    /// Relies on `openh264::encoder::Encoder::encode` at timestamp zero and
    /// `EncodedBitStream::to_vec`: submits one planar image and returns every
    /// emitted network-abstraction-layer unit, in bitstream order, as one
    /// byte vector — exactly the bytes named by [`h264_output`] for the
    /// submission history. On failure the submission is not recorded.
    #[verifier::external_body]
    fn encode_planar(&mut self, data: &Vec<u8>) -> (r: Result<Vec<u8>, String>)
        requires
            old(self).wf(),
            data@.len() == planar_len(old(self).width as int, old(self).height as int),
        ensures
            final(self).width == old(self).width,
            final(self).height == old(self).height,
            match r {
                Ok(v) => {
                    &&& final(self).frames@ == old(self).frames@.push(data@)
                    &&& v@ == h264_output(
                        old(self).width as int,
                        old(self).height as int,
                        final(self).frames@,
                    )
                },
                Err(_) => final(self).frames@ == old(self).frames@,
            },
    {
        let yuv = openh264::formats::YUVBuffer::from_vec(data.clone(), self.width, self.height);
        match self.inner.encode(&yuv) {
            Ok(bitstream) => Ok(bitstream.to_vec()),
            Err(e) => Err(format!("{e}")),
        }
    }

    /// Create an encoder for `width` × `height` frames at the given target
    /// frame rate. Fails only when the underlying encoder cannot be built.
    pub fn new(width: usize, height: usize, _fps: u32) -> (r: Result<H264Encoder, String>)
        requires
            Self::size_ok(width as int, height as int),
        ensures
            match r {
                Ok(e) => {
                    &&& e.wf()
                    &&& e.width == width
                    &&& e.height == height
                    &&& e.frames@ == Seq::<Seq<u8>>::empty()
                },
                Err(_) => true,
            },
    {
        match raw_encoder_new() {
            Ok(inner) => Ok(
                H264Encoder {
                    inner,
                    width,
                    height,
                    frames: Ghost(Seq::empty()),
                },
            ),
            Err(e) => Err(e),
        }
    }

    /// Convert one raw BGRA frame and submit it to the encoder.
    ///
    /// A buffer that does not hold exactly `width * height` BGRA pixels is a
    /// fatal configuration error and is rejected without touching the
    /// encoder. On success the returned bytes are the encoder's emission for
    /// the updated submission history — possibly empty while the encoder
    /// buffers.
    pub fn encode_bgra(&mut self, bgra: &[u8]) -> (r: Result<Vec<u8>, String>)
        requires
            old(self).wf(),
        ensures
            final(self).wf(),
            final(self).width == old(self).width,
            final(self).height == old(self).height,
            bgra@.len() != 4 * ((old(self).width as int) * (old(self).height as int))
                ==> r is Err,
            match r {
                Ok(v) => {
                    &&& bgra@.len() == 4 * ((old(self).width as int) * (old(self).height as int))
                    &&& final(self).frames@ == old(self).frames@.push(
                        planar_seq(bgra@, old(self).width as int, old(self).height as int),
                    )
                    &&& v@ == h264_output(
                        old(self).width as int,
                        old(self).height as int,
                        final(self).frames@,
                    )
                },
                Err(_) => final(self).frames@ == old(self).frames@,
            },
    {
        let expected = 4 * (self.width * self.height);
        if bgra.len() != expected {
            return Err(String::from_str("frame size does not match encoder configuration"));
        }
        let image = PlanarImage::from_bgra(bgra, self.width, self.height);
        self.encode_planar(&image.data)
    }
}

/// Encoding is deterministic: two independently constructed encoders with the
/// same configuration, fed the same sequence of planar images, emit the same
/// blobs — in particular the same cumulative byte count.
pub proof fn lemma_encoding_deterministic(e1: H264Encoder, e2: H264Encoder)
    requires
        e1.width == e2.width,
        e1.height == e2.height,
        e1.frames@ == e2.frames@,
    ensures
        emissions(e1.width as int, e1.height as int, e1.frames@) == emissions(
            e2.width as int,
            e2.height as int,
            e2.frames@,
        ),
        total_emitted_bytes(emissions(e1.width as int, e1.height as int, e1.frames@))
            == total_emitted_bytes(emissions(e2.width as int, e2.height as int, e2.frames@)),
{
}

/// Submitting `n` frames yields at most `n` emitted blobs, each non-empty,
/// and their order matches submission order: every blob is the output for a
/// strictly longer submission prefix than the blob before it.
pub proof fn lemma_emission_order(w: int, h: int, frames: Seq<Seq<u8>>)
    ensures
        emissions(w, h, frames).len() <= frames.len(),
        forall|i: int, j: int|
            0 <= i < j < emissions(w, h, frames).len() ==> emissions(w, h, frames)[i].after
                < emissions(w, h, frames)[j].after,
        forall|i: int|
            0 <= i < emissions(w, h, frames).len() ==> {
                &&& 1 <= #[trigger] emissions(w, h, frames)[i].after <= frames.len()
                &&& emissions(w, h, frames)[i].bytes == h264_output(
                    w,
                    h,
                    frames.take(emissions(w, h, frames)[i].after),
                )
                &&& emissions(w, h, frames)[i].bytes.len() > 0
            },
    decreases frames.len(),
{
    if frames.len() == 0 {
    } else {
        let prev_frames = frames.drop_last();
        lemma_emission_order(w, h, prev_frames);
        assert forall|i: int| 0 <= i < emissions(w, h, prev_frames).len() implies #[trigger]
        emissions(w, h, prev_frames)[i].bytes == h264_output(
            w,
            h,
            frames.take(emissions(w, h, prev_frames)[i].after),
        ) by {
            let a = emissions(w, h, prev_frames)[i].after;
            assert(prev_frames.take(a) =~= frames.take(a));
        }
        assert(frames.take(frames.len() as int) =~= frames);
    }
}

} // verus!
