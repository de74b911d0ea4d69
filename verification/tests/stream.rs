use usb_screen::config::{DisplayConfig, FRAME_BUDGET_MS, SCREEN_HEIGHT, SCREEN_WIDTH, TARGET_FPS};
use usb_screen::stream::{remaining_sleep, Directive, FrameOutcome, StreamError, Streamer};

#[test]
fn frame_budget_is_a_24th_of_a_second_rounded_down() {
    assert_eq!(TARGET_FPS, 24);
    assert_eq!(FRAME_BUDGET_MS, 41);
}

#[test]
fn reference_configuration_holds_the_fixed_values() {
    let config = DisplayConfig::rp2040();
    assert_eq!(config.width, 320);
    assert_eq!(config.height, 240);
    assert_eq!(config.width, SCREEN_WIDTH);
    assert_eq!(config.height, SCREEN_HEIGHT);
    assert_eq!(config.identity.vendor_id, 0x2E8A);
    assert_eq!(config.identity.product_id, 0x000A);
    assert_eq!(config.baud_rate, 115_200);
    assert_eq!(config.frame_budget_ms, 41);
}

#[test]
fn sleeps_for_the_rest_of_the_budget() {
    assert_eq!(remaining_sleep(41, 10), 31);
}

#[test]
fn does_not_sleep_when_over_budget() {
    assert_eq!(remaining_sleep(41, 50), 0);
}

#[test]
fn does_not_sleep_when_exactly_on_budget() {
    assert_eq!(remaining_sleep(41, 41), 0);
    assert_eq!(remaining_sleep(41, 40), 1);
    assert_eq!(remaining_sleep(41, 0), 41);
}

#[test]
fn pacing_takes_any_elapsed_time() {
    assert_eq!(remaining_sleep(41, u128::MAX), 0);
    assert_eq!(remaining_sleep(u64::MAX, u64::MAX as u128 + 1), 0);
    assert_eq!(remaining_sleep(u64::MAX, 1), u64::MAX - 1);
    assert_eq!(remaining_sleep(0, 0), 0);
}

#[test]
fn streaming_needs_an_asset() {
    assert!(matches!(Streamer::new(0, 41), Err(StreamError::NoAssets)));
    assert!(Streamer::new(1, 41).is_ok());
}

#[test]
fn streaming_starts_at_the_first_asset() {
    let streamer = Streamer::new(3, 41).unwrap();
    assert_eq!(streamer.cursor(), 0);
    assert_eq!(streamer.failure(), None);
}

#[test]
fn sent_frame_moves_on_and_paces() {
    let mut streamer = Streamer::new(3, 41).unwrap();
    let directive = streamer.advance(FrameOutcome::Sent { elapsed_ms: 10 });
    assert_eq!(directive, Directive::Continue { next_asset: 1, sleep_ms: 31 });
    assert_eq!(streamer.cursor(), 1);
    let directive = streamer.advance(FrameOutcome::Sent { elapsed_ms: 50 });
    assert_eq!(directive, Directive::Continue { next_asset: 2, sleep_ms: 0 });
    assert_eq!(streamer.cursor(), 2);
}

#[test]
fn cursor_wraps_from_the_last_asset_to_the_first() {
    let mut streamer = Streamer::new(3, 41).unwrap();
    let mut shown = vec![streamer.cursor()];
    for _ in 0..7 {
        match streamer.advance(FrameOutcome::Sent { elapsed_ms: 0 }) {
            Directive::Continue { next_asset, .. } => shown.push(next_asset),
            Directive::Halt { .. } => panic!("streaming must go on"),
        }
    }
    assert_eq!(shown, vec![0, 1, 2, 0, 1, 2, 0, 1]);
}

#[test]
fn single_asset_repeats() {
    let mut streamer = Streamer::new(1, 41).unwrap();
    for _ in 0..4 {
        let directive = streamer.advance(FrameOutcome::Sent { elapsed_ms: 41 });
        assert_eq!(directive, Directive::Continue { next_asset: 0, sleep_ms: 0 });
    }
}

#[test]
fn failed_write_halts_the_stream() {
    let mut streamer = Streamer::new(2, 41).unwrap();
    let directive = streamer.advance(FrameOutcome::WriteFailed);
    assert_eq!(directive, Directive::Halt { error: StreamError::Transmission });
    assert_eq!(streamer.failure(), Some(StreamError::Transmission));
}

#[test]
fn failed_decode_halts_the_stream() {
    let mut streamer = Streamer::new(2, 41).unwrap();
    streamer.advance(FrameOutcome::Sent { elapsed_ms: 5 });
    let directive = streamer.advance(FrameOutcome::DecodeFailed);
    assert_eq!(directive, Directive::Halt { error: StreamError::Decode });
    assert_eq!(streamer.failure(), Some(StreamError::Decode));
    assert_eq!(streamer.cursor(), 1);
}

#[test]
fn nothing_restarts_a_failed_stream() {
    let mut streamer = Streamer::new(4, 41).unwrap();
    streamer.advance(FrameOutcome::Sent { elapsed_ms: 5 });
    streamer.advance(FrameOutcome::WriteFailed);
    for outcome in [
        FrameOutcome::Sent { elapsed_ms: 1 },
        FrameOutcome::DecodeFailed,
        FrameOutcome::WriteFailed,
        FrameOutcome::Sent { elapsed_ms: 100 },
    ] {
        let directive = streamer.advance(outcome);
        assert_eq!(directive, Directive::Halt { error: StreamError::Transmission });
        assert_eq!(streamer.cursor(), 1);
        assert_eq!(streamer.failure(), Some(StreamError::Transmission));
    }
}

struct FlakyDisplay {
    writes: Vec<usize>,
    fail_on_write: usize,
}

impl FlakyDisplay {
    fn write_all(&mut self, asset: usize) -> bool {
        let attempt = self.writes.len();
        self.writes.push(asset);
        attempt != self.fail_on_write
    }
}

fn run_until_halt(assets: usize, display: &mut FlakyDisplay, limit: usize) -> Option<StreamError> {
    let mut streamer = Streamer::new(assets, 41).unwrap();
    let mut asset = streamer.cursor();
    for _ in 0..limit {
        let outcome = if display.write_all(asset) {
            FrameOutcome::Sent { elapsed_ms: 10 }
        } else {
            FrameOutcome::WriteFailed
        };
        match streamer.advance(outcome) {
            Directive::Continue { next_asset, sleep_ms } => {
                assert_eq!(sleep_ms, 31);
                asset = next_asset;
            }
            Directive::Halt { error } => return Some(error),
        }
    }
    None
}

#[test]
fn write_failure_on_frame_n_stops_the_loop_there() {
    for n in [0usize, 1, 2, 5, 9] {
        let mut display = FlakyDisplay { writes: Vec::new(), fail_on_write: n };
        let ended = run_until_halt(3, &mut display, 100);
        assert_eq!(ended, Some(StreamError::Transmission));
        // frames 0..n were written and sent, frame n was attempted, none after it
        assert_eq!(display.writes.len(), n + 1);
        let expected: Vec<usize> = (0..=n).map(|i| i % 3).collect();
        assert_eq!(display.writes, expected);
    }
}

#[test]
fn stream_without_failure_never_halts() {
    let mut display = FlakyDisplay { writes: Vec::new(), fail_on_write: usize::MAX };
    assert_eq!(run_until_halt(4, &mut display, 50), None);
    assert_eq!(display.writes.len(), 50);
}
