use rusic::channel::{Channel, Command};
use rusic::player::{EngineAction, iter_to_buffer, Player, BUFFER_SIZE};
use rusic::cursor::DecoderCursor;
use rusic::frame::Frame;
use rusic::mp3::MP3Decoder;
use rusic::time::TimeSpan;

/// Bytes that probe as MPEG audio; no frame in them decodes, so the
/// loaded track plays as an empty stream.
fn sync_only_track() -> Vec<u8> {
    let mut data = vec![0xFF, 0xFB, 0x90, 0x00];
    data.extend(std::iter::repeat(0u8).take(64));
    data
}

fn audio_buffer() -> Vec<u8> {
    vec![0u8; BUFFER_SIZE]
}

#[test]
fn channel_is_first_in_first_out() {
    let mut ch = Channel::new();
    ch.push(Command::Load(String::from("a")));
    ch.push(Command::Stop);
    ch.push(Command::Load(String::from("b")));
    match ch.try_pop() {
        Some(Command::Load(p)) => assert_eq!(p, "a"),
        _ => panic!("the oldest command must come out first"),
    }
    match ch.try_pop() {
        Some(Command::Stop) => {},
        _ => panic!("the second command must be the stop request"),
    }
    match ch.try_pop() {
        Some(Command::Load(p)) => assert_eq!(p, "b"),
        _ => panic!("the newest command must come out last"),
    }
    assert!(ch.try_pop().is_none());
}

#[test]
fn load_requests_come_back_in_order_and_last_write_wins() {
    let mut player = Player::new();
    let mut buffer = audio_buffer();
    player.load(String::from("trackA"));
    player.load(String::from("trackB"));
    assert!(player.stopped());

    let mut became_unstopped = 0;

    match player.step(&mut buffer) {
        EngineAction::OpenFile(p) => assert_eq!(p, "trackA"),
        _ => panic!("the first queued load must be drained first"),
    }
    let was_stopped = player.stopped();
    player.finish_load(String::from("trackA"), Some(sync_only_track()));
    if was_stopped && !player.stopped() {
        became_unstopped += 1;
    }

    match player.step(&mut buffer) {
        EngineAction::OpenFile(p) => assert_eq!(p, "trackB"),
        _ => panic!("the second queued load must be drained next"),
    }
    let was_stopped = player.stopped();
    player.finish_load(String::from("trackB"), Some(sync_only_track()));
    if was_stopped && !player.stopped() {
        became_unstopped += 1;
    }

    assert_eq!(player.engine.track.as_deref(), Some("trackB"));
    assert!(!player.stopped());
    assert_eq!(became_unstopped, 1);
}

#[test]
fn failed_open_leaves_no_track_and_stopped_set() {
    let mut player = Player::new();
    player.finish_load(String::from("gone"), None);
    assert!(player.stopped());
    assert!(player.engine.track.is_none());
    assert!(player.engine.source.is_none());
}

#[test]
fn non_audio_bytes_leave_no_track_loaded() {
    let mut player = Player::new();
    player.finish_load(String::from("noise"), Some(vec![0u8; 64]));
    assert!(player.stopped());
    assert!(player.engine.track.is_none());
}

#[test]
fn exhausted_iterator_stops_exactly_once_with_no_more_writes() {
    let mut player = Player::new();
    let mut buffer = audio_buffer();
    player.finish_load(String::from("track"), Some(sync_only_track()));
    assert!(!player.stopped());
    player.play();
    assert!(player.playing());

    // the loaded stream decodes to nothing: the first playing
    // iteration observes exhaustion and makes the one stop transition
    match player.step(&mut buffer) {
        EngineAction::Idle => {},
        _ => panic!("an exhausted track must not be written to the sink"),
    }
    assert!(player.stopped());
    assert!(!player.playing());
    assert!(player.engine.source.is_none());

    // afterwards the engine stays idle; no further transition, no write
    for _ in 0..3 {
        match player.step(&mut buffer) {
            EngineAction::Idle => {},
            _ => panic!("a stopped engine must stay idle"),
        }
        assert!(player.stopped());
        assert!(!player.playing());
    }
}

#[test]
fn stop_request_is_a_no_op_for_engine_state() {
    let mut player = Player::new();
    let mut buffer = audio_buffer();
    player.channel.push(Command::Stop);
    match player.step(&mut buffer) {
        EngineAction::Idle => {},
        _ => panic!("a stop request asks nothing of the surroundings"),
    }
    assert!(player.stopped());
    assert!(!player.playing());
}

#[test]
fn play_without_a_track_changes_nothing() {
    let mut player = Player::new();
    player.play();
    assert!(!player.playing());
    assert!(player.stopped());
}

#[test]
fn playing_a_live_track_writes_the_filled_front() {
    let frame = Frame {
        samples: vec![vec![1 << 22; 4], vec![2 << 22; 4]],
        sample_rate: 44100,
        bit_rate: 128_000,
        duration: TimeSpan::new(0, 26_000_000),
    };
    let mut player = Player::new();
    let mut buffer = audio_buffer();
    player.finish_load(String::from("track"), Some(sync_only_track()));
    player.engine.source = Some(MP3Decoder { reader: None, cursor: DecoderCursor::new(frame) });
    player.play();
    match player.step(&mut buffer) {
        EngineAction::WriteAudio(n) => {
            assert_eq!(n, 8);
            assert_eq!(&buffer[..8], &[2, 4, 2, 4, 2, 4, 2, 4]);
        },
        _ => panic!("a live track must produce one buffer write"),
    }
    assert!(!player.stopped());
    assert!(player.playing());
}

#[test]
fn iter_to_buffer_fills_only_the_front() {
    let frame = Frame {
        samples: vec![vec![0; 3], vec![0; 3]],
        sample_rate: 44100,
        bit_rate: 0,
        duration: TimeSpan::new(0, 26_000_000),
    };
    let mut dec = MP3Decoder { reader: None, cursor: DecoderCursor::new(frame) };
    let mut buffer = vec![9u8; 16];
    let n = iter_to_buffer(&mut dec, &mut buffer);
    assert_eq!(n, 6);
    assert_eq!(&buffer[..6], &[0, 0, 0, 0, 0, 0]);
    assert_eq!(&buffer[6..], &[9u8; 10]);
    // a second pull finds the iterator exhausted
    let n = iter_to_buffer(&mut dec, &mut buffer);
    assert_eq!(n, 0);
}

#[test]
fn sink_rate_follows_the_loaded_track() {
    let mut player = Player::new();
    assert_eq!(player.engine.sink_rate(), 44100);
    let frame = Frame {
        samples: vec![vec![0; 2]],
        sample_rate: 48000,
        bit_rate: 0,
        duration: TimeSpan::new(0, 26_000_000),
    };
    player.engine.source = Some(MP3Decoder { reader: None, cursor: DecoderCursor::new(frame) });
    assert_eq!(player.engine.sink_rate(), 48000);
}
