use spectra::bootstrap::{framerate_limit, parse_dimension, parse_unsigned, window_dim, WindowDim};
use spectra::runner::{on_event, RunnerEvent, RunnerStep};

#[test]
fn unsigned_numbers_read_like_rust() {
    let texts = [
        "0", "7", "+12", "0012", "", "+", "-1", "-0", " 12", "12 ", "12a", "4294967295",
        "4294967296", "99999999999999999999999", "+4294967295", "1_000", "٣",
    ];
    for t in texts.iter() {
        assert_eq!(parse_unsigned(t, u32::MAX as u64).map(|v| v as u32), t.parse::<u32>().ok(), "{:?}", t);
        assert_eq!(parse_unsigned(t, u16::MAX as u64).map(|v| v as u16), t.parse::<u16>().ok(), "{:?}", t);
    }
    assert_eq!(parse_unsigned("18446744073709551615", u64::MAX), Some(u64::MAX));
    assert_eq!(parse_unsigned("18446744073709551616", u64::MAX), None);
    assert_eq!(parse_unsigned("9", 8), None);
    assert_eq!(parse_unsigned("8", 8), Some(8));
}

#[test]
fn window_dimensions_from_options() {
    assert_eq!(window_dim(800, 600, None, None, false), WindowDim::Windowed(800, 600));
    assert_eq!(window_dim(800, 600, Some("1024"), None, false), WindowDim::Windowed(1024, 600));
    assert_eq!(window_dim(800, 600, Some("wide"), Some("768"), false), WindowDim::Windowed(800, 768));
    assert_eq!(window_dim(800, 600, None, None, true), WindowDim::Fullscreen);
    assert_eq!(window_dim(800, 600, Some("1920"), None, true), WindowDim::Fullscreen);
    assert_eq!(window_dim(800, 600, Some("1920"), Some("1080"), true), WindowDim::FullscreenRestricted(1920, 1080));
    assert_eq!(window_dim(800, 600, Some("x"), Some("1080"), true), WindowDim::FullscreenRestricted(800, 1080));
    assert_eq!(parse_dimension(Some("+3"), 1), 3);
    assert_eq!(parse_dimension(Some("-3"), 1), 1);
}

#[test]
fn framerate_limits() {
    assert_eq!(framerate_limit(None), None);
    assert_eq!(framerate_limit(Some("60")), Some(60));
    assert_eq!(framerate_limit(Some("65535")), Some(65535));
    assert_eq!(framerate_limit(Some("65536")), None);
    assert_eq!(framerate_limit(Some("sixty")), None);
}

#[test]
fn runner_reactions() {
    assert_eq!(on_event(RunnerEvent::Close), RunnerStep::Quit);
    assert_eq!(on_event(RunnerEvent::EscapeReleased), RunnerStep::Quit);
    assert_eq!(on_event(RunnerEvent::FramebufferSize(640, 480)), RunnerStep::Resize(640, 480));
    assert_eq!(on_event(RunnerEvent::FramebufferSize(-1, 2)), RunnerStep::Resize(u32::MAX, 2));
    assert_eq!(on_event(RunnerEvent::Other), RunnerStep::Continue);
}
