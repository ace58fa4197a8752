use led_speakers::capture::{
    capture_step, select_source, AudioSource, CaptureAction, CaptureEvent, CaptureState,
};
use led_speakers::samples::{le_i16, split_channels, Framer};
use led_speakers::settings::{
    make_visualization, map_get, parse_u64, u64_to_string, TransformerSettings,
};

#[test]
fn parse_u64_round_trip() {
    assert_eq!(parse_u64("0"), Some(0));
    assert_eq!(parse_u64("48000"), Some(48000));
    assert_eq!(parse_u64("18446744073709551615"), Some(u64::MAX));
    assert_eq!(parse_u64("18446744073709551616"), None);
    assert_eq!(parse_u64(""), None);
    assert_eq!(parse_u64("12a"), None);
    assert_eq!(parse_u64("-3"), None);
    assert_eq!(u64_to_string(48000), "48000");
    assert_eq!(u64_to_string(0), "0");
    assert_eq!(parse_u64(u64_to_string(987654321).as_str()), Some(987654321));
}

#[test]
fn transformer_settings_map_round_trip() {
    let settings = TransformerSettings {
        sink: String::from("alsa_output"),
        fft_len: 3000,
        total_bands: 12,
        lower_cutoff: 50,
        upper_cutoff: 10000,
        monstercat: 2,
        decay: 10,
        buffer_size: 30000,
    };
    assert!(settings.is_valid());
    let map = settings.to_map();
    assert_eq!(map.len(), 8);
    assert_eq!(map_get(&map, "fft_len").unwrap().as_str(), "3000");
    let parsed = TransformerSettings::from_map(&map).unwrap();
    assert_eq!(parsed.sink, "alsa_output");
    assert_eq!(parsed.fft_len, 3000);
    assert_eq!(parsed.total_bands, 12);
    assert_eq!(parsed.lower_cutoff, 50);
    assert_eq!(parsed.upper_cutoff, 10000);
    assert_eq!(parsed.monstercat, 2);
    assert_eq!(parsed.decay, 10);
    assert_eq!(parsed.buffer_size, 30000);
}

#[test]
fn transformer_settings_reject_unparsable() {
    let map = vec![(String::from("fft_len"), String::from("not a number"))];
    assert!(TransformerSettings::from_map(&map).is_none());
}

#[test]
fn make_visualization_dispatches_by_identifier() {
    let empty: Vec<(String, String)> = Vec::new();
    let viz = make_visualization("solid_viz", String::from("Solid"), &empty).unwrap();
    assert_eq!(viz.get_name(), "solid_viz");
    assert_eq!(viz.get_pretty_name(), "Solid");
    let viz = make_visualization("center_viz", String::from("Center"), &empty).unwrap();
    assert_eq!(viz.get_name(), "center_viz");
    let sparkle_settings = vec![
        (String::from("speed"), String::from("10")),
        (String::from("falloff"), String::from("900")),
        (String::from("max_ignite"), String::from("4")),
    ];
    let viz = make_visualization("sparkle_viz", String::from("Sparkle"), &sparkle_settings)
        .unwrap();
    assert_eq!(viz.get_name(), "sparkle_viz");
    assert!(make_visualization("no_such_viz", String::from("x"), &empty).is_none());
}

#[test]
fn capture_machine_walks_the_happy_path() {
    let (s, a) = capture_step(CaptureState::Disconnected, CaptureEvent::Start);
    assert_eq!((s, a), (CaptureState::ConnectingBackend, CaptureAction::ConnectBackend));
    let (s, a) = capture_step(s, CaptureEvent::BackendReady);
    assert_eq!((s, a), (CaptureState::ConnectingStream, CaptureAction::OpenStream));
    let (s, a) = capture_step(s, CaptureEvent::StreamReady);
    assert_eq!((s, a), (CaptureState::Streaming, CaptureAction::Uncork));
    let (s, a) = capture_step(s, CaptureEvent::DataAvailable(64));
    assert_eq!((s, a), (CaptureState::Streaming, CaptureAction::Sleep));
    let (s, a) = capture_step(s, CaptureEvent::DataAvailable(4096));
    assert_eq!((s, a), (CaptureState::Streaming, CaptureAction::ReadChunk));
    let (s, a) = capture_step(s, CaptureEvent::Hole);
    assert_eq!((s, a), (CaptureState::Streaming, CaptureAction::DiscardChunk));
    let (s, a) = capture_step(s, CaptureEvent::Cancelled);
    assert_eq!((s, a), (CaptureState::Disconnecting, CaptureAction::Disconnect));
    let (s, a) = capture_step(s, CaptureEvent::Empty);
    assert_eq!((s, a), (CaptureState::Stopped, CaptureAction::Idle));
}

#[test]
fn capture_machine_aborts_on_backend_failure() {
    let (s, a) = capture_step(CaptureState::ConnectingBackend, CaptureEvent::BackendFailed);
    assert_eq!((s, a), (CaptureState::Stopped, CaptureAction::Idle));
    // no automatic retry: the machine stays stopped
    let (s, a) = capture_step(s, CaptureEvent::Start);
    assert_eq!((s, a), (CaptureState::Stopped, CaptureAction::Idle));
}

#[test]
fn audio_source_falls_back_to_placeholder_names() {
    let named = AudioSource::from_parts(
        Some(String::from("monitor")),
        Some(String::from("speakers")),
        44100,
    );
    assert_eq!(named.name, "monitor");
    assert_eq!(named.sink_name, "speakers");
    assert_eq!(named.rate, 44100);
    let nameless = AudioSource::from_parts(None, None, 48000);
    assert_eq!(nameless.name, "Unnamed audio source");
    assert_eq!(nameless.sink_name, "Unnamed audio sink");
}

#[test]
fn select_source_matches_sink_exactly() {
    let sources = vec![
        AudioSource::from_parts(Some(String::from("a")), Some(String::from("hdmi")), 48000),
        AudioSource::from_parts(Some(String::from("b")), Some(String::from("speakers")), 44100),
    ];
    assert_eq!(select_source(&sources, "speakers"), Some(1));
    assert_eq!(select_source(&sources, "headphones"), None);
}

#[test]
fn le_i16_decodes_little_endian() {
    assert_eq!(le_i16(0x34, 0x12), 0x1234);
    assert_eq!(le_i16(0xFF, 0xFF), -1);
    assert_eq!(le_i16(0x00, 0x80), i16::MIN);
}

#[test]
fn split_channels_deinterleaves_frames() {
    // one frame: right sample 1, left sample -2
    let bytes = [0x01, 0x00, 0xFE, 0xFF, 0x05, 0x00, 0x06, 0x00];
    let (left, right) = split_channels(&bytes);
    assert_eq!(right, vec![1, 5]);
    assert_eq!(left, vec![-2, 6]);
}

#[test]
fn framer_keeps_the_freshest_frame() {
    let mut framer = Framer::new(4);
    framer.push(&[1, 2]);
    assert!(!framer.ready());
    framer.push(&[3, 4]);
    assert!(framer.ready());
    assert_eq!(framer.frame(), vec![1, 2, 3, 4]);
    framer.push(&[5, 6]);
    assert!(framer.ready());
    assert_eq!(framer.frame(), vec![3, 4, 5, 6]);
}
