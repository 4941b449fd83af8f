use led_matrix_rs::render::engine::{
    font_file_name, prepare_frames, text_width, tick_delay, Draw, Engine, Event, Output, Request,
};
use led_matrix_rs::render::frame::{dim_bytes, Frame};
use led_matrix_rs::render::model::Notice;
use led_matrix_rs::render::{clamp_brightness, DisplayState, DisplayStatus, RenderCommand};
use led_matrix_rs::{Color, PanelConfig};

fn small_engine() -> Engine {
    Engine::new(PanelConfig::new(2, 2)).unwrap()
}

fn solid(width: u32, height: u32, value: u8) -> Frame {
    Frame::new(width, height, vec![value; (width * height * 3) as usize]).unwrap()
}

fn play(dir: &str, fps: u32, loop_playback: bool) -> RenderCommand {
    RenderCommand::PlayVideo { dir: dir.to_string(), fps, loop_playback }
}

fn scroll(text: &str, speed: u32) -> RenderCommand {
    RenderCommand::ScrollText {
        text: text.to_string(),
        font: "6x13".to_string(),
        color: (200, 100, 50),
        speed,
    }
}

/// An engine that has just loaded a video of three frames.
fn playing_three_frames(loop_playback: bool) -> (Engine, DisplayStatus) {
    let mut engine = small_engine();
    let mut status = DisplayStatus::new();
    engine.step(&mut status, Event::Command(RenderCommand::SetBrightness(100)));
    let out = engine.step(&mut status, Event::Command(play("videos/flame", 25, loop_playback)));
    assert_eq!(out.request, Request::LoadVideo { dir: "videos/flame".to_string() });
    let frames = vec![Some(solid(2, 2, 10)), Some(solid(2, 2, 20)), Some(solid(2, 2, 30))];
    let out = engine.step(&mut status, Event::Video(Some(frames)));
    assert_eq!(out.request, Request::Poll { delay_ms: 0 });
    assert!(out.draws.is_empty());
    (engine, status)
}

/// An engine that has just begun to scroll `text`.
fn scrolling(text: &str) -> (Engine, DisplayStatus) {
    let mut engine = small_engine();
    let mut status = DisplayStatus::new();
    let out = engine.step(&mut status, Event::Command(scroll(text, 50)));
    assert_eq!(out.request, Request::LoadFont { file: "6x13.bdf".to_string() });
    let out = engine.step(&mut status, Event::Font(true));
    assert_eq!(out.request, Request::Poll { delay_ms: 0 });
    (engine, status)
}

fn text_at(out: &Output) -> i32 {
    match &out.draws[0] {
        Draw::Text { x, .. } => *x,
        other => panic!("no text drawn: {:?}", other),
    }
}

// ── Status ───────────────────────────────────────────────────────────

#[test]
fn status_starts_idle_at_brightness_75() {
    let status = DisplayStatus::new();
    assert_eq!(status.state, DisplayState::Idle);
    assert_eq!(status.current_media, None);
    assert_eq!(status.frame, None);
    assert_eq!(status.total_frames, None);
    assert_eq!(status.brightness, 75);
    assert_eq!(status.version, "0.1.0");
}

#[test]
fn set_idle_keeps_brightness_and_version() {
    let mut status = DisplayStatus::new();
    status.set_playing("videos/flame".to_string(), 7);
    status.brightness = 40;
    assert_eq!(status.state, DisplayState::PlayingVideo);
    assert_eq!(status.frame, Some(0));
    assert_eq!(status.total_frames, Some(7));
    status.set_idle();
    assert_eq!(status.state, DisplayState::Idle);
    assert_eq!(status.current_media, None);
    assert_eq!(status.frame, None);
    assert_eq!(status.total_frames, None);
    assert_eq!(status.brightness, 40);
    assert_eq!(status.version, "0.1.0");
}

#[test]
fn snapshot_copies_the_status() {
    let mut status = DisplayStatus::new();
    status.set_showing(DisplayState::ShowingImage, "images/a.png".to_string());
    assert_eq!(status.snapshot(), status);
}

#[test]
fn clamp_brightness_caps_at_100() {
    assert_eq!(clamp_brightness(0), 0);
    assert_eq!(clamp_brightness(100), 100);
    assert_eq!(clamp_brightness(101), 100);
    assert_eq!(clamp_brightness(150), 100);
    assert_eq!(clamp_brightness(255), 100);
}

// ── Frames ───────────────────────────────────────────────────────────

#[test]
fn frame_needs_three_bytes_per_pixel() {
    assert!(Frame::new(2, 2, vec![0; 12]).is_some());
    assert!(Frame::new(2, 2, vec![0; 11]).is_none());
    assert!(Frame::new(2, 2, vec![0; 13]).is_none());
    assert!(Frame::new(0, 5, Vec::new()).is_some());
    assert!(Frame::new(u32::MAX, u32::MAX, vec![0; 3]).is_none());
}

#[test]
fn frame_pixels_are_row_major() {
    let data: Vec<u8> = (0..18).collect();
    let frame = Frame::new(3, 2, data.clone()).unwrap();
    assert_eq!(frame.width(), 3);
    assert_eq!(frame.height(), 2);
    assert_eq!(frame.data(), &data);
    assert_eq!(frame.pixel(0, 0), Color::new(0, 1, 2));
    assert_eq!(frame.pixel(2, 0), Color::new(6, 7, 8));
    assert_eq!(frame.pixel(0, 1), Color::new(9, 10, 11));
    assert_eq!(frame.pixel(2, 1), Color::new(15, 16, 17));
    assert_eq!(frame.duplicate(), frame);
    assert_eq!(frame.into_data(), data);
}

#[test]
fn frame_dimming_scales_every_byte() {
    let frame = Frame::new(1, 2, vec![200, 100, 50, 255, 1, 0]).unwrap();
    assert_eq!(frame.dimmed(50).into_data(), vec![100, 50, 25, 127, 0, 0]);
    assert_eq!(frame.dimmed(100), frame);
    assert_eq!(frame.dimmed(200), frame);
    assert_eq!(frame.dimmed(0).into_data(), vec![0; 6]);
    assert_eq!(frame.dimmed(50).pixel(0, 0), frame.pixel(0, 0).apply_brightness(50));
    assert_eq!(dim_bytes(&vec![200, 3], 75), vec![150, 2]);
}

// ── Small computations ───────────────────────────────────────────────

#[test]
fn tick_delay_floors_the_rate_at_one() {
    assert_eq!(tick_delay(0), 1000);
    assert_eq!(tick_delay(1), 1000);
    assert_eq!(tick_delay(25), 40);
    assert_eq!(tick_delay(30), 33);
    assert_eq!(tick_delay(60), 16);
    assert_eq!(tick_delay(1000), 1);
    assert_eq!(tick_delay(1001), 0);
    assert_eq!(tick_delay(u32::MAX), 0);
}

#[test]
fn text_width_is_eight_pixels_a_byte() {
    assert_eq!(text_width(0), 0);
    assert_eq!(text_width(5), 40);
    assert_eq!(text_width(268_435_455), 2_147_483_640);
    assert_eq!(text_width(268_435_456), 2_147_483_640);
    assert_eq!(text_width(usize::MAX), 2_147_483_640);
}

#[test]
fn font_files_end_in_bdf() {
    assert_eq!(font_file_name(&"6x13".to_string()), "6x13.bdf");
    assert_eq!(font_file_name(&String::new()), ".bdf");
}

#[test]
fn prepare_frames_skips_what_failed_and_dims_the_rest() {
    let slots = vec![None, Some(solid(1, 1, 200)), None, Some(solid(1, 1, 100))];
    let frames = prepare_frames(&slots, 50);
    assert_eq!(frames, vec![solid(1, 1, 100), solid(1, 1, 50)]);
    assert!(prepare_frames(&vec![None, None], 50).is_empty());
    assert!(prepare_frames(&Vec::new(), 50).is_empty());
}

// ── The engine between commands ──────────────────────────────────────

#[test]
fn engine_needs_a_panel_it_can_drive() {
    assert!(Engine::new(PanelConfig::new(64, 64)).is_some());
    assert!(Engine::new(PanelConfig::new(0, 64)).is_none());
    assert!(Engine::new(PanelConfig::new(64, 0)).is_none());
    assert!(Engine::new(PanelConfig::new(65536, 65536)).is_none());
}

#[test]
fn engine_starts_idle_and_waits() {
    let engine = small_engine();
    assert_eq!(engine.request(), Request::NextCommand);
    assert_eq!(engine.brightness(), 75);
    assert_eq!(engine.panel(), PanelConfig::new(2, 2));
    assert!(!engine.has_pending());
    assert!(!engine.is_closed());
}

#[test]
fn clear_blanks_the_display_and_goes_idle() {
    let mut engine = small_engine();
    let mut status = DisplayStatus::new();
    status.set_streaming("websocket".to_string());
    let out = engine.step(&mut status, Event::Command(RenderCommand::Clear));
    assert_eq!(out.draws, vec![Draw::Clear]);
    assert_eq!(out.request, Request::NextCommand);
    assert_eq!(out.notice, Notice::Done);
    assert_eq!(status, DisplayStatus::new());
}

#[test]
fn stop_goes_idle_without_drawing() {
    let mut engine = small_engine();
    let mut status = DisplayStatus::new();
    status.set_showing(DisplayState::ShowingImage, "images/a.png".to_string());
    let out = engine.step(&mut status, Event::Command(RenderCommand::Stop));
    assert!(out.draws.is_empty());
    assert_eq!(out.request, Request::NextCommand);
    assert_eq!(status, DisplayStatus::new());
}

#[test]
fn set_brightness_150_clamps_to_100_in_status() {
    let mut engine = small_engine();
    let mut status = DisplayStatus::new();
    let out = engine.step(&mut status, Event::Command(RenderCommand::SetBrightness(150)));
    assert_eq!(status.brightness, 100);
    assert_eq!(engine.brightness(), 100);
    assert!(out.draws.is_empty());
    assert_eq!(out.request, Request::NextCommand);
    assert_eq!(status.state, DisplayState::Idle);
}

#[test]
fn set_brightness_in_range_is_kept() {
    let mut engine = small_engine();
    let mut status = DisplayStatus::new();
    engine.step(&mut status, Event::Command(RenderCommand::SetBrightness(40)));
    assert_eq!(status.brightness, 40);
    assert_eq!(engine.brightness(), 40);
    engine.step(&mut status, Event::Command(RenderCommand::SetBrightness(0)));
    assert_eq!(status.brightness, 0);
    engine.step(&mut status, Event::Command(RenderCommand::SetBrightness(255)));
    assert_eq!(status.brightness, 100);
}

#[test]
fn show_frame_of_the_wrong_size_is_rejected() {
    let expected = PanelConfig::new(2, 2).frame_byte_count();
    assert_eq!(expected, 12);
    for size in [expected - 1, expected + 1, 0] {
        let mut engine = small_engine();
        let mut status = DisplayStatus::new();
        status.set_streaming("websocket".to_string());
        let before = status.snapshot();
        let out = engine.step(&mut status, Event::Command(RenderCommand::ShowFrame(vec![9; size])));
        assert!(out.draws.is_empty(), "size {}", size);
        assert_eq!(out.notice, Notice::FrameSizeMismatch { expected: 12, got: size });
        assert_eq!(out.request, Request::NextCommand);
        assert_eq!(status, before);
        assert_eq!(engine.brightness(), 75);
        assert!(!engine.has_pending());
    }
}

#[test]
fn show_frame_draws_with_brightness_and_leaves_the_status() {
    let mut engine = small_engine();
    let mut status = DisplayStatus::new();
    status.set_streaming("websocket".to_string());
    let before = status.snapshot();
    let data: Vec<u8> = vec![200, 100, 50, 0, 255, 1, 2, 3, 4, 100, 100, 100];
    let out = engine.step(&mut status, Event::Command(RenderCommand::ShowFrame(data)));
    // Brightness 75: each byte times 75, divided by 100, truncated.
    let shown = Frame::new(2, 2, vec![150, 75, 37, 0, 191, 0, 1, 2, 3, 75, 75, 75]).unwrap();
    assert_eq!(out.draws, vec![Draw::Pixels(shown)]);
    assert_eq!(out.notice, Notice::Done);
    assert_eq!(out.request, Request::NextCommand);
    assert_eq!(status, before);
}

#[test]
fn show_image_sets_the_status_then_draws() {
    let mut engine = small_engine();
    let mut status = DisplayStatus::new();
    let out =
        engine.step(&mut status, Event::Command(RenderCommand::ShowImage("images/a.png".into())));
    assert!(out.draws.is_empty());
    assert_eq!(
        out.request,
        Request::LoadImage { path: "images/a.png".to_string(), width: 2, height: 2 }
    );
    assert_eq!(status.state, DisplayState::ShowingImage);
    assert_eq!(status.current_media, Some("images/a.png".to_string()));
    assert_eq!(status.frame, None);
    assert_eq!(status.total_frames, None);

    let out = engine.step(&mut status, Event::Image(Some(solid(2, 2, 200))));
    assert_eq!(out.draws, vec![Draw::Pixels(solid(2, 2, 150))]);
    assert_eq!(out.request, Request::NextCommand);
    assert_eq!(status.state, DisplayState::ShowingImage);
    assert_eq!(status.current_media, Some("images/a.png".to_string()));
}

#[test]
fn show_image_that_fails_reverts_to_idle() {
    let mut engine = small_engine();
    let mut status = DisplayStatus::new();
    engine.step(&mut status, Event::Command(RenderCommand::ShowImage("images/none.png".into())));
    assert_eq!(status.state, DisplayState::ShowingImage);
    let out = engine.step(&mut status, Event::Image(None));
    assert!(out.draws.is_empty());
    assert_eq!(out.notice, Notice::ImageUnavailable);
    assert_eq!(out.request, Request::NextCommand);
    assert_eq!(status, DisplayStatus::new());
}

#[test]
fn closing_the_source_shuts_the_engine_down() {
    let mut engine = small_engine();
    let mut status = DisplayStatus::new();
    let out = engine.step(&mut status, Event::Closed);
    assert_eq!(out.request, Request::Shutdown);
    assert_eq!(out.notice, Notice::Shutdown);
    assert!(engine.is_closed());
    let out = engine.step(&mut status, Event::Command(RenderCommand::Clear));
    assert_eq!(out.request, Request::Shutdown);
    assert_eq!(out.notice, Notice::Unexpected);
    assert!(out.draws.is_empty());
    assert_eq!(status, DisplayStatus::new());
}

#[test]
fn events_that_answer_nothing_are_ignored() {
    let mut engine = small_engine();
    let mut status = DisplayStatus::new();
    for event in [
        Event::Continue,
        Event::Polled(Some(RenderCommand::Clear)),
        Event::Polled(None),
        Event::Image(Some(solid(2, 2, 1))),
        Event::Video(None),
        Event::Font(true),
    ] {
        let out = engine.step(&mut status, event);
        assert_eq!(out.notice, Notice::Unexpected);
        assert!(out.draws.is_empty());
        assert_eq!(out.request, Request::NextCommand);
        assert_eq!(status, DisplayStatus::new());
    }
    // While a video loads, a command is no answer: the load is still awaited.
    engine.step(&mut status, Event::Command(play("videos/flame", 25, false)));
    let out = engine.step(&mut status, Event::Command(RenderCommand::Clear));
    assert_eq!(out.notice, Notice::Unexpected);
    assert_eq!(out.request, Request::LoadVideo { dir: "videos/flame".to_string() });
}

// ── Video playback ───────────────────────────────────────────────────

#[test]
fn play_video_without_loop_visits_each_frame_then_goes_idle() {
    let (mut engine, mut status) = playing_three_frames(false);
    assert_eq!(status.state, DisplayState::PlayingVideo);
    assert_eq!(status.current_media, Some("videos/flame".to_string()));
    assert_eq!(status.frame, Some(0));
    assert_eq!(status.total_frames, Some(3));

    let out = engine.step(&mut status, Event::Polled(None));
    assert_eq!(out.draws, vec![Draw::Pixels(solid(2, 2, 10))]);
    assert_eq!(out.request, Request::Poll { delay_ms: 40 });
    assert_eq!(status.frame, Some(0));
    assert_eq!(status.state, DisplayState::PlayingVideo);

    let out = engine.step(&mut status, Event::Polled(None));
    assert_eq!(out.draws, vec![Draw::Pixels(solid(2, 2, 20))]);
    assert_eq!(out.request, Request::Poll { delay_ms: 40 });
    assert_eq!(status.frame, Some(1));
    assert_eq!(status.total_frames, Some(3));

    // The third frame's tick shows it, clears the display and reverts to idle.
    let out = engine.step(&mut status, Event::Polled(None));
    assert_eq!(out.draws, vec![Draw::Pixels(solid(2, 2, 30)), Draw::Clear]);
    assert_eq!(out.request, Request::NextCommand);
    assert_eq!(out.notice, Notice::PlaybackFinished);
    assert_eq!(status.state, DisplayState::Idle);
    assert_eq!(status.current_media, None);
    assert_eq!(status.frame, None);
    assert_eq!(status.total_frames, None);
}

#[test]
fn play_video_with_loop_wraps_around() {
    let (mut engine, mut status) = playing_three_frames(true);
    let mut seen = Vec::new();
    for _ in 0..7 {
        let out = engine.step(&mut status, Event::Polled(None));
        assert_eq!(out.draws.len(), 1);
        assert_eq!(out.request, Request::Poll { delay_ms: 40 });
        seen.push(status.frame.unwrap());
        assert_eq!(status.state, DisplayState::PlayingVideo);
    }
    assert_eq!(seen, vec![0, 1, 2, 0, 1, 2, 0]);
}

#[test]
fn command_during_playback_preempts_and_runs_next() {
    let (mut engine, mut status) = playing_three_frames(false);
    engine.step(&mut status, Event::Polled(None));
    let out = engine.step(&mut status, Event::Polled(None));
    assert_eq!(out.draws, vec![Draw::Pixels(solid(2, 2, 20))]);
    assert_eq!(status.frame, Some(1));

    // A command arrives before frame 2 is due.
    let out =
        engine.step(&mut status, Event::Polled(Some(RenderCommand::ShowFrame(vec![100; 12]))));
    assert!(out.draws.is_empty());
    assert_eq!(out.notice, Notice::Preempted);
    assert_eq!(out.request, Request::Continue);
    assert!(engine.has_pending());
    assert_eq!(status.frame, Some(1));
    assert_eq!(status.state, DisplayState::PlayingVideo);

    // The stashed command is the next one run; frame 2 is never shown.
    let out = engine.step(&mut status, Event::Continue);
    assert_eq!(out.draws, vec![Draw::Pixels(solid(2, 2, 100))]);
    assert_eq!(out.request, Request::NextCommand);
    assert!(!engine.has_pending());
    assert_eq!(status.frame, Some(1));
}

#[test]
fn stop_during_playback_goes_idle() {
    let (mut engine, mut status) = playing_three_frames(true);
    engine.step(&mut status, Event::Polled(None));
    let out = engine.step(&mut status, Event::Polled(Some(RenderCommand::Stop)));
    assert_eq!(out.request, Request::Continue);
    let out = engine.step(&mut status, Event::Continue);
    assert!(out.draws.is_empty());
    assert_eq!(out.request, Request::NextCommand);
    assert_eq!(status.state, DisplayState::Idle);
    assert_eq!(status.current_media, None);
}

#[test]
fn a_waiting_command_is_no_answer_while_one_is_stashed() {
    let (mut engine, mut status) = playing_three_frames(true);
    engine.step(&mut status, Event::Polled(Some(RenderCommand::Clear)));
    let out = engine.step(&mut status, Event::Command(RenderCommand::Stop));
    assert_eq!(out.notice, Notice::Unexpected);
    assert_eq!(out.request, Request::Continue);
    assert!(engine.has_pending());
    let out = engine.step(&mut status, Event::Continue);
    assert_eq!(out.draws, vec![Draw::Clear]);
}

#[test]
fn brightness_during_playback_applies_to_the_next_run_only() {
    let (mut engine, mut status) = playing_three_frames(true);
    let out = engine.step(&mut status, Event::Polled(Some(RenderCommand::SetBrightness(50))));
    // The frame is shown as it was loaded, at brightness 100.
    assert_eq!(out.draws, vec![Draw::Pixels(solid(2, 2, 10))]);
    assert_eq!(out.request, Request::Poll { delay_ms: 40 });
    assert_eq!(status.brightness, 50);
    assert_eq!(engine.brightness(), 50);
    assert_eq!(status.state, DisplayState::PlayingVideo);
    let out = engine.step(&mut status, Event::Polled(None));
    assert_eq!(out.draws, vec![Draw::Pixels(solid(2, 2, 20))]);

    // The next run bakes the new brightness in.
    engine.step(&mut status, Event::Polled(Some(play("videos/next", 10, false))));
    engine.step(&mut status, Event::Continue);
    engine.step(&mut status, Event::Video(Some(vec![Some(solid(2, 2, 200))])));
    let out = engine.step(&mut status, Event::Polled(None));
    assert_eq!(out.draws, vec![Draw::Pixels(solid(2, 2, 100)), Draw::Clear]);
}

#[test]
fn video_brightness_is_baked_in_at_load() {
    let mut engine = small_engine();
    let mut status = DisplayStatus::new();
    engine.step(&mut status, Event::Command(play("videos/flame", 1, false)));
    engine.step(&mut status, Event::Video(Some(vec![Some(solid(2, 2, 200))])));
    assert_eq!(status.total_frames, Some(1));
    let out = engine.step(&mut status, Event::Polled(None));
    assert_eq!(out.draws, vec![Draw::Pixels(solid(2, 2, 150)), Draw::Clear]);
}

#[test]
fn video_without_frames_leaves_the_state() {
    for video in [None, Some(Vec::new()), Some(vec![None, None])] {
        let mut engine = small_engine();
        let mut status = DisplayStatus::new();
        status.set_showing(DisplayState::ShowingImage, "images/a.png".to_string());
        let before = status.snapshot();
        engine.step(&mut status, Event::Command(play("videos/none", 25, true)));
        assert_eq!(status, before);
        let unreadable = video.is_none();
        let out = engine.step(&mut status, Event::Video(video));
        assert!(out.draws.is_empty());
        assert_eq!(out.request, Request::NextCommand);
        assert_eq!(
            out.notice,
            if unreadable { Notice::VideoUnavailable } else { Notice::NoFrames }
        );
        assert_eq!(status, before);
    }
}

#[test]
fn video_skips_frames_that_failed_to_decode() {
    let mut engine = small_engine();
    let mut status = DisplayStatus::new();
    engine.step(&mut status, Event::Command(RenderCommand::SetBrightness(100)));
    engine.step(&mut status, Event::Command(play("videos/flame", 0, false)));
    let slots = vec![Some(solid(2, 2, 1)), None, Some(solid(2, 2, 3))];
    engine.step(&mut status, Event::Video(Some(slots)));
    assert_eq!(status.total_frames, Some(2));
    let out = engine.step(&mut status, Event::Polled(None));
    assert_eq!(out.draws, vec![Draw::Pixels(solid(2, 2, 1))]);
    // A frame rate of 0 counts as 1.
    assert_eq!(out.request, Request::Poll { delay_ms: 1000 });
    let out = engine.step(&mut status, Event::Polled(None));
    assert_eq!(out.draws, vec![Draw::Pixels(solid(2, 2, 3)), Draw::Clear]);
}

// ── Scrolling text ───────────────────────────────────────────────────

#[test]
fn scroll_text_goes_on_until_a_command_arrives() {
    let (mut engine, mut status) = scrolling("Hi");
    assert_eq!(status.state, DisplayState::ScrollingText);
    assert_eq!(status.current_media, Some("Hi".to_string()));
    assert_eq!(status.frame, None);
    assert_eq!(status.total_frames, None);
    for tick in 0..200 {
        let out = engine.step(&mut status, Event::Polled(None));
        assert_eq!(out.draws.len(), 1, "tick {}", tick);
        assert_eq!(out.request, Request::Poll { delay_ms: 20 });
        assert_eq!(status.state, DisplayState::ScrollingText);
    }
    let out = engine.step(&mut status, Event::Polled(Some(RenderCommand::Stop)));
    assert!(out.draws.is_empty());
    assert_eq!(out.request, Request::Continue);
    assert_eq!(status.state, DisplayState::ScrollingText);
    let out = engine.step(&mut status, Event::Continue);
    assert_eq!(out.request, Request::NextCommand);
    assert_eq!(status.state, DisplayState::Idle);
    assert_eq!(status.current_media, None);
}

#[test]
fn scroll_text_left_by_clear() {
    let (mut engine, mut status) = scrolling("Hi");
    for _ in 0..5 {
        engine.step(&mut status, Event::Polled(None));
    }
    engine.step(&mut status, Event::Polled(Some(RenderCommand::Clear)));
    let out = engine.step(&mut status, Event::Continue);
    assert_eq!(out.draws, vec![Draw::Clear]);
    assert_eq!(status.state, DisplayState::Idle);
}

#[test]
fn scroll_text_moves_from_the_right_edge_and_wraps() {
    // Panel 2 wide, text of 2 bytes: from x = 2 down to x = -16, then again.
    let (mut engine, mut status) = scrolling("Hi");
    let mut positions = Vec::new();
    for _ in 0..21 {
        let out = engine.step(&mut status, Event::Polled(None));
        positions.push(text_at(&out));
    }
    let mut expected: Vec<i32> = (-16..=2).rev().collect();
    expected.push(2);
    expected.push(1);
    assert_eq!(positions, expected);
}

#[test]
fn scroll_text_draws_with_the_current_brightness() {
    let (mut engine, mut status) = scrolling("Hi");
    let out = engine.step(&mut status, Event::Polled(None));
    assert_eq!(
        out.draws,
        vec![Draw::Text {
            text: "Hi".to_string(),
            font: "6x13".to_string(),
            x: 2,
            y: 40,
            color: Color::new(150, 75, 37),
        }]
    );
    // A change of brightness shows in the tick that finds it.
    let out = engine.step(&mut status, Event::Polled(Some(RenderCommand::SetBrightness(50))));
    assert_eq!(
        out.draws,
        vec![Draw::Text {
            text: "Hi".to_string(),
            font: "6x13".to_string(),
            x: 1,
            y: 40,
            color: Color::new(100, 50, 25),
        }]
    );
    assert_eq!(status.brightness, 50);
    assert_eq!(status.state, DisplayState::ScrollingText);
    let out = engine.step(&mut status, Event::Polled(Some(RenderCommand::SetBrightness(200))));
    assert_eq!(text_at(&out), 0);
    assert_eq!(status.brightness, 100);
    match &out.draws[0] {
        Draw::Text { color, .. } => assert_eq!(*color, Color::new(200, 100, 50)),
        other => panic!("no text drawn: {:?}", other),
    }
}

#[test]
fn scroll_text_counts_bytes_not_characters() {
    // "é" takes two bytes: the text leaves the panel at x = -16.
    let (mut engine, mut status) = scrolling("é");
    let mut last = 0;
    for _ in 0..19 {
        last = text_at(&engine.step(&mut status, Event::Polled(None)));
    }
    assert_eq!(last, -16);
    assert_eq!(text_at(&engine.step(&mut status, Event::Polled(None))), 2);
}

#[test]
fn scroll_text_without_its_font_leaves_the_state() {
    let mut engine = small_engine();
    let mut status = DisplayStatus::new();
    status.set_showing(DisplayState::ShowingImage, "images/a.png".to_string());
    let before = status.snapshot();
    engine.step(&mut status, Event::Command(scroll("Hi", 50)));
    assert_eq!(status, before);
    let out = engine.step(&mut status, Event::Font(false));
    assert_eq!(out.notice, Notice::FontUnavailable);
    assert_eq!(out.request, Request::NextCommand);
    assert!(out.draws.is_empty());
    assert_eq!(status, before);
}
