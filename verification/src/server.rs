//! The request side: what callers ask for, how a request becomes a command
//! for the render engine, and what is turned away before it gets there.
//!
//! Transport is left to the program around this crate. It decodes a request
//! into one of the types here and sends on the command it is given, or
//! answers with the rejection.

use crate::render::{CommandView, DisplayState, DisplayStatus, RenderCommand};
use crate::PanelConfig;
use vstd::prelude::*;

verus! {

// ── Request types ────────────────────────────────────────────────────

/// A request to show an image.
#[derive(Debug, PartialEq, Eq)]
pub struct ImageRequest {
    /// Path to image file relative to media directory
    pub path: String,
}

/// A request to play a video.
#[derive(Debug, PartialEq, Eq)]
pub struct VideoRequest {
    /// Path to video directory relative to media directory
    pub path: String,
    /// Frames per second
    pub fps: u32,
    /// Loop playback indefinitely
    pub loop_playback: bool,
}

/// A request to scroll text.
#[derive(Debug, PartialEq, Eq)]
pub struct TextRequest {
    /// Text to display
    pub text: String,
    /// BDF font name
    pub font: String,
    /// RGB color, each value 0-255
    pub color: (u8, u8, u8),
    /// Scroll speed in pixels per second
    pub speed: u32,
}

/// A request to change the brightness.
#[derive(Clone, Copy, Debug, PartialEq, Eq, Structural)]
pub struct BrightnessRequest {
    /// Brightness level (0-100)
    pub value: u8,
}

/// The frame rate of a video request that names none.
pub fn default_fps() -> (fps: u32)
    ensures
        fps == 30,
{
    30
}

/// The font of a text request that names none.
pub fn default_font() -> (font: String)
    ensures
        font@ == "6x13"@,
{
    String::from_str("6x13")
}

/// The colour of a text request that names none: white.
pub fn default_color() -> (color: (u8, u8, u8))
    ensures
        color == (255u8, 255u8, 255u8),
{
    (255, 255, 255)
}

/// The scroll speed of a text request that names none.
pub fn default_speed() -> (speed: u32)
    ensures
        speed == 30,
{
    30
}

// ── Rejections ───────────────────────────────────────────────────────

/// Why a request is turned away.
#[derive(Debug, PartialEq, Eq)]
pub enum Rejection {
    /// A raw frame does not have the panel's frame size.
    WrongFrameSize { panel: PanelConfig, got: usize },
    /// The path asked for does not exist.
    PathNotFound { path: String },
    /// The media directory itself does not exist.
    MediaDirMissing,
    /// The path asked for leads out of the media directory.
    OutsideMediaDir,
    /// The render engine no longer takes commands.
    EngineGone,
}

/// A rejection as a mathematical value.
pub enum RejectionView {
    WrongFrameSize { panel: PanelConfig, got: usize },
    PathNotFound { path: Seq<char> },
    MediaDirMissing,
    OutsideMediaDir,
    EngineGone,
}

impl View for Rejection {
    type V = RejectionView;

    open spec fn view(&self) -> RejectionView {
        match *self {
            Rejection::WrongFrameSize { panel, got } => RejectionView::WrongFrameSize {
                panel,
                got,
            },
            Rejection::PathNotFound { path } => RejectionView::PathNotFound { path: path@ },
            Rejection::MediaDirMissing => RejectionView::MediaDirMissing,
            Rejection::OutsideMediaDir => RejectionView::OutsideMediaDir,
            Rejection::EngineGone => RejectionView::EngineGone,
        }
    }
}

/// The HTTP status that answers a rejection.
pub open spec fn status_of(rejection: RejectionView) -> u16 {
    match rejection {
        RejectionView::WrongFrameSize { .. } => 400,
        RejectionView::PathNotFound { .. } => 404,
        RejectionView::MediaDirMissing => 500,
        RejectionView::OutsideMediaDir => 400,
        RejectionView::EngineGone => 500,
    }
}

impl Rejection {
    /// The HTTP status that answers this rejection.
    pub fn status_code(&self) -> (code: u16)
        ensures
            code == status_of(self@),
    {
        match self {
            Rejection::WrongFrameSize { .. } => 400,
            Rejection::PathNotFound { .. } => 404,
            Rejection::MediaDirMissing => 500,
            Rejection::OutsideMediaDir => 400,
            Rejection::EngineGone => 500,
        }
    }
}

// ── From request to command ──────────────────────────────────────────

impl ImageRequest {
    /// The command for this request, given the validated path of the image.
    pub fn command(self, full_path: String) -> (command: RenderCommand)
        ensures
            command@ == CommandView::ShowImage(full_path@),
    {
        RenderCommand::ShowImage(full_path)
    }
}

impl VideoRequest {
    /// The command for this request, given the validated path of the video
    /// directory.
    pub fn command(self, full_path: String) -> (command: RenderCommand)
        ensures
            command@ == (CommandView::PlayVideo {
                dir: full_path@,
                fps: self.fps,
                loop_playback: self.loop_playback,
            }),
    {
        RenderCommand::PlayVideo {
            dir: full_path,
            fps: self.fps,
            loop_playback: self.loop_playback,
        }
    }
}

impl TextRequest {
    /// The command for this request.
    pub fn command(self) -> (command: RenderCommand)
        ensures
            command@ == (CommandView::ScrollText {
                text: self.text@,
                font: self.font@,
                color: self.color,
                speed: self.speed,
            }),
    {
        RenderCommand::ScrollText {
            text: self.text,
            font: self.font,
            color: self.color,
            speed: self.speed,
        }
    }
}

impl BrightnessRequest {
    /// The command for this request.
    pub fn command(self) -> (command: RenderCommand)
        ensures
            command@ == CommandView::SetBrightness(self.value),
    {
        RenderCommand::SetBrightness(self.value)
    }
}

/// Whether `length` bytes are one raw frame for `panel`.
pub fn is_frame_size(panel: PanelConfig, length: usize) -> (fits: bool)
    ensures
        fits == (length == panel.frame_bytes()),
{
    assert(panel.rows * panel.cols <= 0xffff_ffff * 0xffff_ffff) by (nonlinear_arith)
        requires
            0 <= panel.rows <= 0xffff_ffff,
            0 <= panel.cols <= 0xffff_ffff,
    ;
    let expected: u128 = (panel.rows as u128) * (panel.cols as u128) * 3;
    length as u128 == expected
}

/// The command that shows `body` as a raw frame, or the rejection if `body`
/// does not have exactly `rows * cols * 3` bytes.
pub fn frame_command(panel: PanelConfig, body: Vec<u8>) -> (command: Result<
    RenderCommand,
    Rejection,
>)
    ensures
        command is Ok <==> body@.len() == panel.frame_bytes(),
        command matches Ok(c) ==> c@ == CommandView::ShowFrame(body@),
        command matches Err(r) ==> r@ == (RejectionView::WrongFrameSize {
            panel,
            got: body@.len() as usize,
        }),
{
    if is_frame_size(panel, body.len()) {
        Ok(RenderCommand::ShowFrame(body))
    } else {
        Err(Rejection::WrongFrameSize { panel, got: body.len() })
    }
}

/// The HTTP status that answers a request whose command was handed on.
pub const STATUS_OK: u16 = 200;

/// The answer to a request, given whether the engine took its command:
/// status 200 if it did, a rejection if the engine is gone.
pub fn reply_to_send(taken: bool) -> (reply: Result<u16, Rejection>)
    ensures
        taken ==> reply == Ok::<u16, Rejection>(STATUS_OK),
        !taken ==> reply == Err::<u16, Rejection>(Rejection::EngineGone),
{
    if taken {
        Ok(STATUS_OK)
    } else {
        Err(Rejection::EngineGone)
    }
}

// ── Path validation ──────────────────────────────────────────────────

/// Whether the path `path` starts with the path `base`, component by
/// component.
pub uninterp spec fn path_starts_with(path: Seq<char>, base: Seq<char>) -> bool;

/// `std::path::Path::starts_with`, on paths given as strings: whether `base`
/// is a prefix of `path`, only whole components counting. The result depends
/// on the two paths alone.
#[verifier::external_body]
fn starts_with_path(path: &String, base: &String) -> (within: bool)
    ensures
        within == path_starts_with(path@, base@),
{
    std::path::Path::new(path).starts_with(std::path::Path::new(base))
}

/// What becomes of a requested path, given what resolving it and the media
/// directory came to and whether the one lies within the other.
pub open spec fn media_path_checked(
    relative_path: Seq<char>,
    resolved: Option<Seq<char>>,
    media_dir: Option<Seq<char>>,
    within: bool,
) -> Result<Seq<char>, RejectionView> {
    if resolved is None {
        Err(RejectionView::PathNotFound { path: relative_path })
    } else if media_dir is None {
        Err(RejectionView::MediaDirMissing)
    } else if !within {
        Err(RejectionView::OutsideMediaDir)
    } else {
        Ok(resolved->0)
    }
}

/// A text that may be absent, as a mathematical value.
pub open spec fn optional_text(text: Option<String>) -> Option<Seq<char>> {
    match text {
        Some(text) => Some(text@),
        None => None,
    }
}

/// The outcome of a path check as a mathematical value.
pub open spec fn path_result(result: Result<String, Rejection>) -> Result<
    Seq<char>,
    RejectionView,
> {
    match result {
        Ok(path) => Ok(path@),
        Err(rejection) => Err(rejection@),
    }
}

/// Decide on a requested path: a path that does not resolve is not found, a
/// media directory that does not resolve is a fault of the server, a path
/// that resolves to somewhere outside the media directory is refused, and
/// anything else is accepted in its resolved form.
pub fn check_media_path(
    relative_path: &String,
    resolved: Option<String>,
    media_dir: Option<String>,
    within: bool,
) -> (checked: Result<String, Rejection>)
    ensures
        path_result(checked) == media_path_checked(
            relative_path@,
            optional_text(resolved),
            optional_text(media_dir),
            within,
        ),
{
    match resolved {
        None => Err(Rejection::PathNotFound { path: relative_path.clone() }),
        Some(path) => match media_dir {
            None => Err(Rejection::MediaDirMissing),
            Some(_) => if within {
                Ok(path)
            } else {
                Err(Rejection::OutsideMediaDir)
            },
        },
    }
}

/// Validate that a requested path is within the media directory.
///
/// `resolved` is the requested path made absolute with every `..` resolved,
/// `media_dir` the same for the media directory; each is `None` if it does
/// not exist. This keeps requests from reaching files outside the media
/// directory.
pub fn validate_media_path(
    relative_path: &String,
    resolved: Option<String>,
    media_dir: Option<String>,
) -> (checked: Result<String, Rejection>)
    ensures
        path_result(checked) == media_path_checked(
            relative_path@,
            optional_text(resolved),
            optional_text(media_dir),
            resolved is Some && media_dir is Some && path_starts_with(
                resolved->0@,
                media_dir->0@,
            ),
        ),
{
    let within = match (&resolved, &media_dir) {
        (Some(path), Some(base)) => starts_with_path(path, base),
        _ => false,
    };
    check_media_path(relative_path, resolved, media_dir, within)
}

// ── Streaming raw frames ─────────────────────────────────────────────

/// The name under which a stream of raw frames shows in the status.
pub open spec fn stream_source() -> Seq<char> {
    "websocket"@
}

/// What a stream connection delivered.
#[derive(Debug, PartialEq, Eq)]
pub enum StreamMessage {
    /// A binary message: one raw frame.
    Binary(Vec<u8>),
    /// The client closes the connection.
    Close,
    /// Anything else: text, ping, pong.
    Other,
}

/// What to do with a message of a stream.
#[derive(Debug, PartialEq, Eq)]
pub enum StreamStep {
    /// Send the command on to the engine, then report whether it was taken.
    Forward(RenderCommand),
    /// Drop a frame of the wrong size and go on.
    Skip { expected_panel: PanelConfig, got: usize },
    /// Go on to the next message.
    Ignore,
    /// End the stream.
    Finish,
}

/// A step of a stream as a mathematical value.
pub enum StreamStepView {
    Forward(CommandView),
    Skip { expected_panel: PanelConfig, got: usize },
    Ignore,
    Finish,
}

impl View for StreamStep {
    type V = StreamStepView;

    open spec fn view(&self) -> StreamStepView {
        match *self {
            StreamStep::Forward(command) => StreamStepView::Forward(command@),
            StreamStep::Skip { expected_panel, got } => StreamStepView::Skip {
                expected_panel,
                got,
            },
            StreamStep::Ignore => StreamStepView::Ignore,
            StreamStep::Finish => StreamStepView::Finish,
        }
    }
}

/// What to do with a message, for a panel.
pub open spec fn stream_step(panel: PanelConfig, message: StreamMessage) -> StreamStepView {
    match message {
        StreamMessage::Binary(data) => if data@.len() == panel.frame_bytes() {
            StreamStepView::Forward(CommandView::ShowFrame(data@))
        } else {
            StreamStepView::Skip { expected_panel: panel, got: data@.len() as usize }
        },
        StreamMessage::Close => StreamStepView::Finish,
        StreamMessage::Other => StreamStepView::Ignore,
    }
}

/// One connection that streams raw frames to the display.
#[derive(Debug)]
pub struct StreamSession {
    panel: PanelConfig,
    frames: u64,
}

impl StreamSession {
    /// The panel the frames are for.
    pub closed spec fn panel(&self) -> PanelConfig {
        self.panel
    }

    /// How many frames the engine has taken from this stream.
    pub closed spec fn frames(&self) -> u64 {
        self.frames
    }

    /// Begin a stream: the status shows a stream under way.
    pub fn open(panel: PanelConfig, status: &mut DisplayStatus) -> (session: StreamSession)
        ensures
            session.panel() == panel,
            session.frames() == 0,
            final(status)@ == old(status)@.showing(DisplayState::Streaming, stream_source()),
    {
        status.set_streaming(String::from_str("websocket"));
        StreamSession { panel, frames: 0 }
    }

    /// Decide on a message: a frame of the right size goes on to the engine,
    /// one of the wrong size is dropped, a close ends the stream, anything
    /// else is passed over.
    pub fn on_message(&self, message: StreamMessage) -> (step: StreamStep)
        ensures
            step@ == stream_step(self.panel(), message),
    {
        match message {
            StreamMessage::Binary(data) => if crate::server::is_frame_size(
                self.panel,
                data.len(),
            ) {
                StreamStep::Forward(RenderCommand::ShowFrame(data))
            } else {
                StreamStep::Skip { expected_panel: self.panel, got: data.len() }
            },
            StreamMessage::Close => StreamStep::Finish,
            StreamMessage::Other => StreamStep::Ignore,
        }
    }

    /// Take note of whether the engine took the command just forwarded.
    /// The stream goes on if it did, and the frame is counted; it ends if the
    /// engine is gone.
    pub fn on_forwarded(&mut self, taken: bool) -> (go_on: bool)
        ensures
            go_on == taken,
            final(self).panel() == old(self).panel(),
            taken && old(self).frames() < u64::MAX ==> final(self).frames() == old(self).frames()
                + 1,
            !taken || old(self).frames() == u64::MAX ==> final(self).frames() == old(
                self,
            ).frames(),
    {
        if taken && self.frames < u64::MAX {
            self.frames = self.frames + 1;
        }
        taken
    }

    /// How many frames the engine has taken from this stream.
    pub fn frames_received(&self) -> (frames: u64)
        ensures
            frames == self.frames(),
    {
        self.frames
    }

    /// End the stream: the status reverts to idle. Returns the number of
    /// frames that went through.
    pub fn close(self, status: &mut DisplayStatus) -> (frames: u64)
        ensures
            frames == self.frames(),
            final(status)@ == old(status)@.idle(),
    {
        status.set_idle();
        self.frames
    }
}

} // verus!
