use rusic::cursor::DecoderCursor;
use rusic::frame::Frame;
use rusic::mp3::{compute_duration, is_mp3, sum_durations, MP3Decoder};
use rusic::sample::rescale;
use rusic::time::{to_millis, TimeSpan};

fn span_ms(ms: u32) -> TimeSpan {
    TimeSpan::new(0, ms * 1_000_000)
}

fn frame_2x4(values: [[i32; 4]; 2]) -> Frame {
    Frame {
        samples: vec![values[0].to_vec(), values[1].to_vec()],
        sample_rate: 44100,
        bit_rate: 128_000,
        duration: span_ms(26),
    }
}

#[test]
fn to_millis_exact_values() {
    assert_eq!(to_millis(TimeSpan::new(1, 500_000_000)), 1500);
    assert_eq!(to_millis(TimeSpan::new(0, 999_999)), 0);
    assert_eq!(to_millis(TimeSpan::new(0, 26_122_448)), 26);
    assert_eq!(to_millis(TimeSpan::new(3, 0)), 3000);
}

#[test]
fn to_millis_saturates_at_u64_max() {
    assert_eq!(to_millis(TimeSpan::new(u64::MAX, 999_999_999)), u64::MAX);
}

#[test]
fn sum_of_three_frame_durations_is_78_millis() {
    let ds = vec![span_ms(26), span_ms(26), span_ms(26)];
    let total = sum_durations(&ds);
    assert_eq!(total, TimeSpan::new(0, 78_000_000));
    assert_eq!(to_millis(total), 78);
}

#[test]
fn sum_durations_carries_nanos_into_seconds() {
    let ds = vec![span_ms(600), span_ms(700)];
    assert_eq!(sum_durations(&ds), TimeSpan::new(1, 300_000_000));
}

#[test]
fn rescale_zero_point_is_zero() {
    assert_eq!(rescale(0), 0);
}

#[test]
fn rescale_clamps_maximum_magnitude() {
    // the largest representable inputs land on the output extremes
    assert_eq!(rescale(i32::MAX), 127);
    assert_eq!(rescale(0x0FFF_FFFF), 127);
    assert_eq!(rescale(i32::MIN), 0x80);
    assert_eq!(rescale(-0x1000_0000), 0x80);
}

#[test]
fn rescale_small_steps() {
    // one output step is 1 << 21 of input; the bias rounds half up
    assert_eq!(rescale(1 << 22), 2);
    assert_eq!(rescale(2 << 22), 4);
    assert_eq!(rescale(-(1 << 22)), (-2i8) as u8);
}

#[test]
fn probe_accepts_id3_and_frame_sync() {
    assert!(is_mp3(&vec![0x49, 0x44, 0x33, 0x04, 0x00]));
    assert!(is_mp3(&vec![0xFF, 0xFB, 0x90, 0x00]));
}

#[test]
fn probe_rejects_other_streams() {
    assert!(!is_mp3(&vec![0u8; 100]));
    assert!(!is_mp3(&vec![]));
    assert!(!is_mp3(&vec![0xFF]));
    // sync bits set but the layer field holds its reserved value
    assert!(!is_mp3(&vec![0xFF, 0xE0, 0x00, 0x00]));
    // sync bits set but the version field holds its reserved value
    assert!(!is_mp3(&vec![0xFF, 0xEB, 0x00, 0x00]));
}

#[test]
fn opening_non_audio_bytes_hands_them_back_unchanged() {
    let data = vec![0u8; 64];
    match MP3Decoder::new(data.clone()) {
        Err(back) => assert_eq!(back, data),
        Ok(_) => panic!("a stream of zero bytes must be rejected"),
    }
}

#[test]
fn duration_of_non_audio_bytes_is_nothing() {
    assert!(compute_duration(vec![0u8; 64]).is_none());
}

#[test]
fn duration_of_a_sync_leading_stream_is_computed() {
    let mut data = vec![0xFF, 0xFB, 0x90, 0x00];
    data.extend(std::iter::repeat(0u8).take(413));
    assert!(compute_duration(data).is_some());
}

#[test]
fn zero_frame_yields_eight_zero_samples_then_end() {
    let frame = frame_2x4([[0; 4], [0; 4]]);
    let mut dec = MP3Decoder { reader: None, cursor: DecoderCursor::new(frame) };
    for _ in 0..8 {
        assert_eq!(dec.next(), Some(0));
    }
    assert_eq!(dec.next(), None);
    assert_eq!(dec.next(), None);
}

#[test]
fn samples_come_out_channel_interleaved() {
    // channel 0 holds 2 and 6, channel 1 holds 4 and 8 (after rescale)
    let frame = frame_2x4([[1 << 22, 3 << 22, 5 << 22, 7 << 22], [
        2 << 22,
        4 << 22,
        6 << 22,
        8 << 22,
    ]]);
    let mut dec = MP3Decoder { reader: None, cursor: DecoderCursor::new(frame) };
    let mut got = Vec::new();
    while let Some(s) = dec.next() {
        got.push(s);
    }
    assert_eq!(got, vec![2, 4, 6, 8, 10, 12, 14, 16]);
}

#[test]
fn elapsed_time_counts_each_visited_frame_once() {
    let frame = frame_2x4([[0; 4], [0; 4]]);
    let mut dec = MP3Decoder { reader: None, cursor: DecoderCursor::new(frame) };
    // the first frame counts as soon as the cursor enters it
    assert_eq!(dec.current_time(), 26);
    let mut last = dec.current_time();
    while let Some(_) = dec.next() {
        let now = dec.current_time();
        assert!(now >= last);
        last = now;
    }
    // the closing sentinel adds a zero duration
    assert_eq!(dec.current_time(), 26);
}

#[test]
fn sample_rate_reflects_the_current_frame() {
    let frame = frame_2x4([[0; 4], [0; 4]]);
    let dec = MP3Decoder { reader: None, cursor: DecoderCursor::new(frame) };
    assert_eq!(dec.sample_rate(), 44100);
}
