//! The render engine as a state machine over mathematical values.
//!
//! The engine handles one logical command at a time. Work it cannot do itself
//! (waiting for a command, loading media, sleeping) is asked of a driver
//! through a [`RequestView`]; the driver answers with an [`EventView`]. One
//! step takes the engine, the shared status and an event to the next engine
//! and status, the pictures to show and a notice for the log.

use crate::render::frame::{dimmed_bytes, FrameView};
use crate::render::{clamped_brightness, CommandView, DisplayState, StatusView};
use crate::{Color, PanelConfig};
use vstd::prelude::*;

verus! {

/// The baseline on which scrolling text is drawn.
pub const TEXT_BASELINE: i32 = 40;

/// Width given to each byte of scrolling text, in pixels.
pub const GLYPH_WIDTH: i32 = 8;

/// The longest text, in bytes, whose pixel width is counted exactly; longer
/// texts scroll as if they had this length.
pub const MAX_TEXT_BYTES: usize = 268_435_455;

/// What the driver hands to the engine.
pub enum EventView {
    /// A command was waiting or arrived.
    Command(CommandView),
    /// The command source is closed for good.
    Closed,
    /// Nothing was asked for: the engine goes on with what it has stashed.
    Continue,
    /// The non-blocking check for a command, with what it found.
    Polled(Option<CommandView>),
    /// The image asked for, scaled to the panel, or `None` if it cannot be had.
    Image(Option<FrameView>),
    /// The frames of the video asked for, in playing order, `None` standing
    /// for a frame that could not be decoded; or `None` if the directory has
    /// no frames to offer.
    Video(Option<Seq<Option<FrameView>>>),
    /// Whether the font asked for is loaded.
    Font(bool),
}

/// One picture to make visible: each is drawn off screen and then swapped in.
pub enum DrawView {
    /// All pixels off.
    Clear,
    /// The pixels of a frame, from the top left corner.
    Pixels(FrameView),
    /// Text on an otherwise blank canvas, its left edge at `x`.
    Text { text: Seq<char>, font: Seq<char>, x: i32, y: i32, color: Color },
}

/// What the engine needs from the driver before its next step.
pub enum RequestView {
    /// Block until a command arrives or the source closes.
    NextCommand,
    /// Nothing: step again at once with `Continue`.
    Continue,
    /// Load an image and scale it to `width` by `height`.
    LoadImage { path: Seq<char>, width: u32, height: u32 },
    /// Load the frames of a video directory.
    LoadVideo { dir: Seq<char> },
    /// Load a font file.
    LoadFont { file: Seq<char> },
    /// Sleep for `delay_ms`, then check for a command without blocking.
    Poll { delay_ms: u64 },
    /// Stop driving the engine.
    Shutdown,
}

/// What a step has to report besides its pictures.
#[derive(Clone, Copy, Debug, PartialEq, Eq, Structural)]
pub enum Notice {
    /// Nothing out of the ordinary.
    Done,
    /// A raw frame of the wrong size was rejected.
    FrameSizeMismatch { expected: usize, got: usize },
    /// The image could not be loaded.
    ImageUnavailable,
    /// The video directory could not be read or holds no frames.
    VideoUnavailable,
    /// None of the video's frames could be decoded.
    NoFrames,
    /// The font could not be loaded.
    FontUnavailable,
    /// A video that does not loop has shown its last frame.
    PlaybackFinished,
    /// A command interrupted playback or scrolling and is stashed.
    Preempted,
    /// The event was not an answer to the engine's request and was ignored.
    Unexpected,
    /// The command source closed; the engine has stopped.
    Shutdown,
}

/// What the engine is in the middle of.
pub enum PhaseView {
    /// Between commands.
    Idle,
    /// Waiting for an image.
    LoadingImage { path: Seq<char> },
    /// Waiting for the frames of a video.
    LoadingVideo { dir: Seq<char>, fps: u32, loop_playback: bool },
    /// Waiting for a font.
    LoadingFont { text: Seq<char>, font: Seq<char>, color: Color, speed: u32 },
    /// Playing `frames`, about to show the one at `index`.
    Playing { frames: Seq<FrameView>, index: nat, loop_playback: bool, delay_ms: u64, fresh: bool },
    /// Scrolling `text`, about to draw it at `x`.
    Scrolling {
        text: Seq<char>,
        font: Seq<char>,
        color: Color,
        x: i32,
        start_x: i32,
        end_x: i32,
        delay_ms: u64,
        fresh: bool,
    },
    /// Stopped for good.
    Closed,
}

/// The engine's own state.
pub struct EngineView {
    pub panel: PanelConfig,
    /// The brightness setting, 0 to 100.
    pub brightness: u8,
    /// The command that interrupted playback or scrolling, until it is run.
    pub pending: Option<CommandView>,
    pub phase: PhaseView,
}

/// The outcome of one step.
pub struct Transition {
    pub engine: EngineView,
    pub status: StatusView,
    pub draws: Seq<DrawView>,
    pub notice: Notice,
}

/// Milliseconds between two ticks at `rate` ticks per second; a rate of 0
/// counts as 1.
pub open spec fn tick_delay_ms(rate: u32) -> u64 {
    if rate == 0 {
        1000
    } else {
        (1000int / (rate as int)) as u64
    }
}

/// The pixel width of a text of `bytes` bytes.
pub open spec fn text_pixel_width(bytes: nat) -> int {
    if bytes > MAX_TEXT_BYTES {
        GLYPH_WIDTH * MAX_TEXT_BYTES
    } else {
        GLYPH_WIDTH * bytes
    }
}

/// The number of bytes a text takes in UTF-8.
pub open spec fn text_bytes(text: Seq<char>) -> nat {
    vstd::utf8::encode_utf8(text).len()
}

/// The name of the file that holds a font.
pub open spec fn font_file(font: Seq<char>) -> Seq<char> {
    font + ".bdf"@
}

/// The frames a video plays: those that could be decoded, in order, each with
/// the brightness applied.
pub open spec fn playable_frames(slots: Seq<Option<FrameView>>, brightness: u8) -> Seq<FrameView>
    decreases slots.len(),
{
    if slots.len() == 0 {
        Seq::empty()
    } else {
        let before = playable_frames(slots.drop_last(), brightness);
        match slots.last() {
            Some(frame) => before.push(frame.dimmed(brightness)),
            None => before,
        }
    }
}

/// Whether a command interrupts playback and scrolling. Every command does,
/// except a change of brightness.
pub open spec fn preempts(command: CommandView) -> bool {
    !(command is SetBrightness)
}

impl EngineView {
    /// The engine a display starts with.
    pub open spec fn initial(panel: PanelConfig) -> EngineView {
        EngineView {
            panel,
            brightness: crate::render::DEFAULT_BRIGHTNESS,
            pending: None,
            phase: PhaseView::Idle,
        }
    }

    /// What holds of every engine: the panel can be driven, the brightness is
    /// a percentage, a command is stashed only between commands, playback has
    /// a frame to show next and scrolling text is within its bounds.
    pub open spec fn well_formed(self) -> bool {
        &&& self.panel.well_formed()
        &&& self.brightness <= 100
        &&& self.pending is Some ==> self.phase is Idle
        &&& match self.phase {
            PhaseView::Playing { frames, index, .. } => index < frames.len() <= usize::MAX,
            PhaseView::Scrolling { x, start_x, end_x, .. } => {
                &&& -GLYPH_WIDTH * MAX_TEXT_BYTES <= end_x <= 0
                &&& 0 < start_x
                &&& end_x <= x <= start_x
            },
            _ => true,
        }
    }

    /// Whether `event` answers what the engine is waiting for.
    pub open spec fn expects(self, event: EventView) -> bool {
        match self.phase {
            PhaseView::Idle => if self.pending is Some {
                event is Continue
            } else {
                event is Command || event is Closed
            },
            PhaseView::LoadingImage { .. } => event is Image,
            PhaseView::LoadingVideo { .. } => event is Video,
            PhaseView::LoadingFont { .. } => event is Font,
            PhaseView::Playing { .. } => event is Polled,
            PhaseView::Scrolling { .. } => event is Polled,
            PhaseView::Closed => false,
        }
    }

    /// What the engine is waiting for.
    pub open spec fn request(self) -> RequestView {
        match self.phase {
            PhaseView::Idle => if self.pending is Some {
                RequestView::Continue
            } else {
                RequestView::NextCommand
            },
            PhaseView::LoadingImage { path } => RequestView::LoadImage {
                path,
                width: self.panel.cols,
                height: self.panel.rows,
            },
            PhaseView::LoadingVideo { dir, .. } => RequestView::LoadVideo { dir },
            PhaseView::LoadingFont { font, .. } => RequestView::LoadFont { file: font_file(font) },
            PhaseView::Playing { delay_ms, fresh, .. } => RequestView::Poll {
                delay_ms: if fresh {
                    0
                } else {
                    delay_ms
                },
            },
            PhaseView::Scrolling { delay_ms, fresh, .. } => RequestView::Poll {
                delay_ms: if fresh {
                    0
                } else {
                    delay_ms
                },
            },
            PhaseView::Closed => RequestView::Shutdown,
        }
    }

    /// This engine between commands, with nothing stashed.
    pub open spec fn idle(self) -> EngineView {
        EngineView { pending: None, phase: PhaseView::Idle, ..self }
    }

    /// This engine in another phase.
    pub open spec fn in_phase(self, phase: PhaseView) -> EngineView {
        EngineView { phase, ..self }
    }
}

/// A step that shows nothing and has nothing to report.
pub open spec fn quiet(engine: EngineView, status: StatusView) -> Transition {
    Transition { engine, status, draws: Seq::empty(), notice: Notice::Done }
}

/// A step that changes nothing and reports `notice`.
pub open spec fn refused(engine: EngineView, status: StatusView, notice: Notice) -> Transition {
    Transition { engine, status, draws: Seq::empty(), notice }
}

/// Running `command` from between commands.
pub open spec fn dispatch(engine: EngineView, status: StatusView, command: CommandView)
    -> Transition {
    let engine = engine.idle();
    match command {
        CommandView::Clear => Transition {
            engine,
            status: status.idle(),
            draws: seq![DrawView::Clear],
            notice: Notice::Done,
        },
        CommandView::Stop => quiet(engine, status.idle()),
        CommandView::SetBrightness(value) => quiet(
            EngineView { brightness: clamped_brightness(value), ..engine },
            status.with_brightness(clamped_brightness(value)),
        ),
        CommandView::ShowImage(path) => quiet(
            engine.in_phase(PhaseView::LoadingImage { path }),
            status.showing(DisplayState::ShowingImage, path),
        ),
        CommandView::ShowFrame(data) => if data.len() == engine.panel.frame_bytes() {
            Transition {
                engine,
                status,
                draws: seq![
                    DrawView::Pixels(
                        FrameView {
                            width: engine.panel.cols,
                            height: engine.panel.rows,
                            data: dimmed_bytes(data, engine.brightness),
                        },
                    ),
                ],
                notice: Notice::Done,
            }
        } else {
            refused(
                engine,
                status,
                Notice::FrameSizeMismatch {
                    expected: engine.panel.frame_bytes() as usize,
                    got: data.len() as usize,
                },
            )
        },
        CommandView::PlayVideo { dir, fps, loop_playback } => quiet(
            engine.in_phase(PhaseView::LoadingVideo { dir, fps, loop_playback }),
            status,
        ),
        CommandView::ScrollText { text, font, color, speed } => quiet(
            engine.in_phase(
                PhaseView::LoadingFont {
                    text,
                    font,
                    color: Color { r: color.0, g: color.1, b: color.2 },
                    speed,
                },
            ),
            status,
        ),
    }
}

/// The image asked for has come, or has not.
pub open spec fn image_loaded(engine: EngineView, status: StatusView, image: Option<FrameView>)
    -> Transition {
    match image {
        Some(frame) => Transition {
            engine: engine.idle(),
            status,
            draws: seq![DrawView::Pixels(frame.dimmed(engine.brightness))],
            notice: Notice::Done,
        },
        None => refused(engine.idle(), status.idle(), Notice::ImageUnavailable),
    }
}

/// The frames of the video asked for have come, or have not.
pub open spec fn video_loaded(
    engine: EngineView,
    status: StatusView,
    dir: Seq<char>,
    fps: u32,
    loop_playback: bool,
    video: Option<Seq<Option<FrameView>>>,
) -> Transition {
    match video {
        None => refused(engine.idle(), status, Notice::VideoUnavailable),
        Some(slots) => {
            let frames = playable_frames(slots, engine.brightness);
            if frames.len() == 0 {
                refused(engine.idle(), status, Notice::NoFrames)
            } else {
                quiet(
                    engine.in_phase(
                        PhaseView::Playing {
                            frames,
                            index: 0,
                            loop_playback,
                            delay_ms: tick_delay_ms(fps),
                            fresh: true,
                        },
                    ),
                    status.playing(dir, frames.len() as usize),
                )
            }
        },
    }
}

/// The font asked for is loaded, or is not.
pub open spec fn font_loaded(
    engine: EngineView,
    status: StatusView,
    text: Seq<char>,
    font: Seq<char>,
    color: Color,
    speed: u32,
    loaded: bool,
) -> Transition {
    if loaded {
        let start_x = engine.panel.cols as i32;
        quiet(
            engine.in_phase(
                PhaseView::Scrolling {
                    text,
                    font,
                    color,
                    x: start_x,
                    start_x,
                    end_x: (-text_pixel_width(text_bytes(text))) as i32,
                    delay_ms: tick_delay_ms(speed),
                    fresh: true,
                },
            ),
            status.showing(DisplayState::ScrollingText, text),
        )
    } else {
        refused(engine.idle(), status, Notice::FontUnavailable)
    }
}

/// The brightness after a tick that found `polled`.
pub open spec fn polled_brightness(brightness: u8, polled: Option<CommandView>) -> u8 {
    match polled {
        Some(CommandView::SetBrightness(value)) => clamped_brightness(value),
        _ => brightness,
    }
}

/// A command that arrived during playback or scrolling and is not a change
/// of brightness: it is stashed, the operation ends, the status stays.
pub open spec fn preempted(engine: EngineView, status: StatusView, command: CommandView)
    -> Transition {
    refused(
        EngineView { pending: Some(command), phase: PhaseView::Idle, ..engine },
        status,
        Notice::Preempted,
    )
}

/// One tick of playback. A change of brightness is recorded for later and
/// leaves the frames as they were loaded.
pub open spec fn playback_tick(
    engine: EngineView,
    status: StatusView,
    frames: Seq<FrameView>,
    index: nat,
    loop_playback: bool,
    delay_ms: u64,
    polled: Option<CommandView>,
) -> Transition {
    if polled is Some && preempts(polled->0) {
        preempted(engine, status, polled->0)
    } else {
        let brightness = polled_brightness(engine.brightness, polled);
        let engine = EngineView { brightness, ..engine };
        let status = status.with_brightness(polled_brightness(status.brightness, polled)).at_frame(
            index as usize,
        );
        let shown = DrawView::Pixels(frames[index as int]);
        if index + 1 < frames.len() {
            Transition {
                engine: engine.in_phase(
                    PhaseView::Playing {
                        frames,
                        index: index + 1,
                        loop_playback,
                        delay_ms,
                        fresh: false,
                    },
                ),
                status,
                draws: seq![shown],
                notice: Notice::Done,
            }
        } else if loop_playback {
            Transition {
                engine: engine.in_phase(
                    PhaseView::Playing { frames, index: 0, loop_playback, delay_ms, fresh: false },
                ),
                status,
                draws: seq![shown],
                notice: Notice::Done,
            }
        } else {
            Transition {
                engine: engine.idle(),
                status: status.idle(),
                draws: seq![shown, DrawView::Clear],
                notice: Notice::PlaybackFinished,
            }
        }
    }
}

/// Where scrolling text stands after the tick that drew it at `x`: one pixel
/// to the left, or back at the start once it has left the panel.
pub open spec fn scrolled(x: i32, start_x: i32, end_x: i32) -> i32 {
    if x - 1 < end_x {
        start_x
    } else {
        (x - 1) as i32
    }
}

/// One tick of scrolling. A change of brightness shows at once.
pub open spec fn scroll_tick(
    engine: EngineView,
    status: StatusView,
    text: Seq<char>,
    font: Seq<char>,
    color: Color,
    x: i32,
    start_x: i32,
    end_x: i32,
    delay_ms: u64,
    polled: Option<CommandView>,
) -> Transition {
    if polled is Some && preempts(polled->0) {
        preempted(engine, status, polled->0)
    } else {
        let brightness = polled_brightness(engine.brightness, polled);
        Transition {
            engine: EngineView {
                brightness,
                phase: PhaseView::Scrolling {
                    text,
                    font,
                    color,
                    x: scrolled(x, start_x, end_x),
                    start_x,
                    end_x,
                    delay_ms,
                    fresh: false,
                },
                ..engine
            },
            status: status.with_brightness(polled_brightness(status.brightness, polled)),
            draws: seq![
                DrawView::Text { text, font, x, y: TEXT_BASELINE, color: color.dimmed(brightness) },
            ],
            notice: Notice::Done,
        }
    }
}

/// One step of the engine. An event that does not answer the engine's request
/// changes nothing.
pub open spec fn step(engine: EngineView, status: StatusView, event: EventView) -> Transition {
    if !engine.expects(event) {
        refused(engine, status, Notice::Unexpected)
    } else {
        match engine.phase {
            PhaseView::Idle => match event {
                EventView::Command(command) => dispatch(engine, status, command),
                EventView::Continue => dispatch(engine, status, engine.pending->0),
                _ => refused(engine.in_phase(PhaseView::Closed), status, Notice::Shutdown),
            },
            PhaseView::LoadingImage { .. } => image_loaded(engine, status, event->Image_0),
            PhaseView::LoadingVideo { dir, fps, loop_playback } => video_loaded(
                engine,
                status,
                dir,
                fps,
                loop_playback,
                event->Video_0,
            ),
            PhaseView::LoadingFont { text, font, color, speed } => font_loaded(
                engine,
                status,
                text,
                font,
                color,
                speed,
                event->Font_0,
            ),
            PhaseView::Playing { frames, index, loop_playback, delay_ms, .. } => playback_tick(
                engine,
                status,
                frames,
                index,
                loop_playback,
                delay_ms,
                event->Polled_0,
            ),
            PhaseView::Scrolling { text, font, color, x, start_x, end_x, delay_ms, .. } => {
                scroll_tick(
                    engine,
                    status,
                    text,
                    font,
                    color,
                    x,
                    start_x,
                    end_x,
                    delay_ms,
                    event->Polled_0,
                )
            },
            PhaseView::Closed => refused(engine, status, Notice::Unexpected),
        }
    }
}

} // verus!
