use pixelbridge::bridge::CaptureBridge;
use pixelbridge::encoder::H264Encoder;

const W: usize = 64;
const H: usize = 48;

fn frame(value: u8) -> Vec<u8> {
    vec![value; W * H * 4]
}

#[test]
fn encoder_accepts_frames_and_keeps_order() {
    let mut enc = H264Encoder::new(W, H, 30).unwrap();
    let mut emitted = 0usize;
    let n = 5;
    for i in 0..n {
        let out = enc.encode_bgra(&frame((i * 40) as u8)).unwrap();
        if !out.is_empty() {
            emitted += 1;
        }
    }
    // at most one emission per submitted frame
    assert!(emitted <= n);
    // the first frame of a session produces initialization units at once
    assert!(emitted >= 1);
}

#[test]
fn encoder_output_is_a_compressed_bitstream_not_the_input() {
    let mut enc = H264Encoder::new(W, H, 30).unwrap();
    let raw = frame(0);
    let out = enc.encode_bgra(&raw).unwrap();
    // Annex-B access units open with a start code, which no raw frame does.
    assert!(out.len() >= 4);
    assert_eq!(&out[..2], &[0, 0]);
    assert_ne!(out, raw);
}

#[test]
fn two_encoders_with_same_input_emit_equal_bytes() {
    let mut e1 = H264Encoder::new(W, H, 30).unwrap();
    let mut e2 = H264Encoder::new(W, H, 30).unwrap();
    let frames = [frame(0), frame(128), frame(255)];
    let mut total1 = 0usize;
    let mut total2 = 0usize;
    for f in &frames {
        total1 += e1.encode_bgra(f).unwrap().len();
    }
    for f in &frames {
        total2 += e2.encode_bgra(f).unwrap().len();
    }
    assert_eq!(total1, total2);
}

#[test]
fn wrong_frame_size_is_a_fatal_error() {
    let mut enc = H264Encoder::new(W, H, 30).unwrap();
    assert!(enc.encode_bgra(&vec![0u8; 16]).is_err());
}

#[test]
fn bridge_assigns_frame_duration_from_target_rate() {
    let enc = H264Encoder::new(W, H, 30).unwrap();
    let mut bridge = CaptureBridge::new(enc, 30);
    let r = bridge.on_frame(&frame(10)).unwrap();
    // the first submission yields initialization units, so a sample goes out
    let sample = r.unwrap();
    assert!(!sample.data.is_empty());
    assert_eq!(sample.duration_nanos, 1_000_000_000 / 30);
}

#[test]
fn bridge_rejects_mismatched_frames_without_advancing() {
    let enc = H264Encoder::new(W, H, 30).unwrap();
    let mut bridge = CaptureBridge::new(enc, 30);
    assert!(bridge.on_frame(&vec![0u8; 7]).is_err());
    // a correct frame still works afterwards
    assert!(bridge.on_frame(&frame(0)).is_ok());
}
