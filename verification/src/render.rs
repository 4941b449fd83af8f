//! The render engine's vocabulary: the commands it accepts and the status
//! snapshot it publishes. The engine itself is in [`engine`], the transition
//! rules it follows in [`model`], and what follows from them in [`laws`].

use vstd::prelude::*;

pub mod engine;
pub mod frame;
pub mod laws;
pub mod model;
pub mod picture;
pub mod video;

pub use video::{load_frame_paths, FramePathsError};

verus! {

// ── Commands ─────────────────────────────────────────────────────────

/// Commands sent to the render engine. This is the whole vocabulary the
/// engine understands.
#[derive(Debug, PartialEq, Eq)]
pub enum RenderCommand {
    /// Display a static image (path relative to media dir)
    ShowImage(String),
    /// Play a sequence of pre-extracted video frames
    PlayVideo { dir: String, fps: u32, loop_playback: bool },
    /// Scroll text across the display
    ScrollText { text: String, font: String, color: (u8, u8, u8), speed: u32 },
    /// Display a raw RGB frame (rows*cols*3 bytes)
    ShowFrame(Vec<u8>),
    /// Clear the display (all pixels off)
    Clear,
    /// Stop current playback and go idle
    Stop,
    /// Set display brightness (0-100)
    SetBrightness(u8),
}

/// A command as a mathematical value.
pub enum CommandView {
    ShowImage(Seq<char>),
    PlayVideo { dir: Seq<char>, fps: u32, loop_playback: bool },
    ScrollText { text: Seq<char>, font: Seq<char>, color: (u8, u8, u8), speed: u32 },
    ShowFrame(Seq<u8>),
    Clear,
    Stop,
    SetBrightness(u8),
}

impl View for RenderCommand {
    type V = CommandView;

    open spec fn view(&self) -> CommandView {
        match *self {
            RenderCommand::ShowImage(path) => CommandView::ShowImage(path@),
            RenderCommand::PlayVideo { dir, fps, loop_playback } => CommandView::PlayVideo {
                dir: dir@,
                fps,
                loop_playback,
            },
            RenderCommand::ScrollText { text, font, color, speed } => CommandView::ScrollText {
                text: text@,
                font: font@,
                color,
                speed,
            },
            RenderCommand::ShowFrame(data) => CommandView::ShowFrame(data@),
            RenderCommand::Clear => CommandView::Clear,
            RenderCommand::Stop => CommandView::Stop,
            RenderCommand::SetBrightness(value) => CommandView::SetBrightness(value),
        }
    }
}

/// The brightness a requested value stands for: values above 100 mean 100.
pub open spec fn clamped_brightness(value: u8) -> u8 {
    if value > 100 {
        100
    } else {
        value
    }
}

/// Clamp a requested brightness to the range 0..=100.
pub fn clamp_brightness(value: u8) -> (level: u8)
    ensures
        level == clamped_brightness(value),
        level <= 100,
{
    if value > 100 {
        100
    } else {
        value
    }
}

// ── Status ───────────────────────────────────────────────────────────

/// What the display is currently doing.
#[derive(Clone, Copy, Debug, PartialEq, Eq, Structural)]
pub enum DisplayState {
    Idle,
    ShowingImage,
    PlayingVideo,
    ScrollingText,
    Streaming,
}

/// The version string reported in every status snapshot.
pub open spec fn crate_version() -> Seq<char> {
    "0.1.0"@
}

/// The brightness a display starts with.
pub const DEFAULT_BRIGHTNESS: u8 = 75;

/// Status snapshot of the display, written by the render engine and read by
/// everyone else.
#[derive(Clone, Debug, PartialEq, Eq)]
pub struct DisplayStatus {
    /// Current display state
    pub state: DisplayState,
    /// Currently displayed media (if any)
    pub current_media: Option<String>,
    /// Current frame number (for videos)
    pub frame: Option<usize>,
    /// Total frame count (for videos)
    pub total_frames: Option<usize>,
    /// Current brightness (0-100)
    pub brightness: u8,
    /// Server version
    pub version: String,
}

/// A status snapshot as a mathematical value.
pub struct StatusView {
    pub state: DisplayState,
    pub current_media: Option<Seq<char>>,
    pub frame: Option<usize>,
    pub total_frames: Option<usize>,
    pub brightness: u8,
    pub version: Seq<char>,
}

impl StatusView {
    /// The status a display starts with: idle, no media, brightness 75.
    pub open spec fn initial() -> StatusView {
        StatusView {
            state: DisplayState::Idle,
            current_media: None,
            frame: None,
            total_frames: None,
            brightness: DEFAULT_BRIGHTNESS,
            version: crate_version(),
        }
    }

    /// This status with nothing on display. Brightness and version stay.
    pub open spec fn idle(self) -> StatusView {
        StatusView {
            state: DisplayState::Idle,
            current_media: None,
            frame: None,
            total_frames: None,
            ..self
        }
    }

    /// This status while `state` is under way on `media`, outside a video.
    pub open spec fn showing(self, state: DisplayState, media: Seq<char>) -> StatusView {
        StatusView {
            state,
            current_media: Some(media),
            frame: None,
            total_frames: None,
            ..self
        }
    }

    /// This status at the start of a video of `total` frames from `dir`.
    pub open spec fn playing(self, dir: Seq<char>, total: usize) -> StatusView {
        StatusView {
            state: DisplayState::PlayingVideo,
            current_media: Some(dir),
            frame: Some(0usize),
            total_frames: Some(total),
            ..self
        }
    }

    /// This status with the frame counter at `index`.
    pub open spec fn at_frame(self, index: usize) -> StatusView {
        StatusView { frame: Some(index), ..self }
    }

    /// This status with another brightness.
    pub open spec fn with_brightness(self, level: u8) -> StatusView {
        StatusView { brightness: level, ..self }
    }
}

impl View for DisplayStatus {
    type V = StatusView;

    open spec fn view(&self) -> StatusView {
        StatusView {
            state: self.state,
            current_media: match self.current_media {
                Some(media) => Some(media@),
                None => None,
            },
            frame: self.frame,
            total_frames: self.total_frames,
            brightness: self.brightness,
            version: self.version@,
        }
    }
}

impl DisplayStatus {
    /// The status a display starts with: idle, nothing on display,
    /// brightness 75.
    pub fn new() -> (status: DisplayStatus)
        ensures
            status@ == StatusView::initial(),
    {
        DisplayStatus {
            state: DisplayState::Idle,
            current_media: None,
            frame: None,
            total_frames: None,
            brightness: DEFAULT_BRIGHTNESS,
            version: String::from_str("0.1.0"),
        }
    }

    /// Record that nothing is on display any more. Brightness and version
    /// stay.
    pub fn set_idle(&mut self)
        ensures
            final(self)@ == old(self)@.idle(),
    {
        self.state = DisplayState::Idle;
        self.current_media = None;
        self.frame = None;
        self.total_frames = None;
    }

    /// Record that `state` is under way on `media`, outside a video.
    pub fn set_showing(&mut self, state: DisplayState, media: String)
        ensures
            final(self)@ == old(self)@.showing(state, media@),
    {
        self.state = state;
        self.current_media = Some(media);
        self.frame = None;
        self.total_frames = None;
    }

    /// Record the start of a video of `total` frames from `dir`.
    pub fn set_playing(&mut self, dir: String, total: usize)
        ensures
            final(self)@ == old(self)@.playing(dir@, total),
    {
        self.state = DisplayState::PlayingVideo;
        self.current_media = Some(dir);
        self.frame = Some(0);
        self.total_frames = Some(total);
    }

    /// Record a stream of raw frames from `source`.
    pub fn set_streaming(&mut self, source: String)
        ensures
            final(self)@ == old(self)@.showing(DisplayState::Streaming, source@),
    {
        self.set_showing(DisplayState::Streaming, source);
    }

    /// A copy of this snapshot.
    pub fn snapshot(&self) -> (copy: DisplayStatus)
        ensures
            copy@ == self@,
    {
        DisplayStatus {
            state: self.state,
            current_media: match &self.current_media {
                Some(media) => Some(media.clone()),
                None => None,
            },
            frame: self.frame,
            total_frames: self.total_frames,
            brightness: self.brightness,
            version: self.version.clone(),
        }
    }
}

} // verus!
