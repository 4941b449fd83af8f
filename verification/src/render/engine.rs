//! The render engine: the executable state machine behind the display.
//!
//! The engine owns the brightness setting, the command stashed by an
//! interruption and whatever operation is under way. It never waits, sleeps
//! or touches a file or the hardware: after every step it says what it needs
//! next, and the driver that runs it answers with an [`Event`].

use crate::render::frame::{dim_bytes, Frame, FrameView};
use crate::render::model::{
    playable_frames, DrawView, EngineView, EventView, Notice, PhaseView, RequestView,
    GLYPH_WIDTH, MAX_TEXT_BYTES, TEXT_BASELINE,
};
use crate::render::{
    clamp_brightness, CommandView, DisplayState, DisplayStatus, RenderCommand, DEFAULT_BRIGHTNESS,
};
use crate::{Color, PanelConfig};
use vstd::prelude::*;

verus! {

// ── What goes in and what comes out ──────────────────────────────────

/// What the driver hands to the engine.
#[derive(Debug)]
pub enum Event {
    /// A command was waiting or arrived.
    Command(RenderCommand),
    /// The command source is closed for good.
    Closed,
    /// Nothing was asked for: the engine goes on with what it has stashed.
    Continue,
    /// The non-blocking check for a command, with what it found.
    Polled(Option<RenderCommand>),
    /// The image asked for, scaled to the panel, or `None` if it cannot be had.
    Image(Option<Frame>),
    /// The frames of the video asked for, in playing order, `None` standing
    /// for a frame that could not be decoded; or `None` if the directory has
    /// no frames to offer.
    Video(Option<Vec<Option<Frame>>>),
    /// Whether the font asked for is loaded.
    Font(bool),
}

/// One picture to make visible: each is drawn off screen and then swapped in.
#[derive(Debug, PartialEq, Eq)]
pub enum Draw {
    /// All pixels off.
    Clear,
    /// The pixels of a frame, from the top left corner.
    Pixels(Frame),
    /// Text on an otherwise blank canvas, its left edge at `x`.
    Text { text: String, font: String, x: i32, y: i32, color: Color },
}

/// What the engine needs from the driver before its next step.
#[derive(Debug, PartialEq, Eq)]
pub enum Request {
    /// Block until a command arrives or the source closes.
    NextCommand,
    /// Nothing: step again at once with [`Event::Continue`].
    Continue,
    /// Load an image and scale it to `width` by `height`.
    LoadImage { path: String, width: u32, height: u32 },
    /// Load the frames of a video directory.
    LoadVideo { dir: String },
    /// Load a font file.
    LoadFont { file: String },
    /// Sleep for `delay_ms`, then check for a command without blocking.
    Poll { delay_ms: u64 },
    /// Stop driving the engine.
    Shutdown,
}

/// What one step hands back.
#[derive(Debug)]
pub struct Output {
    /// The pictures to show, in order.
    pub draws: Vec<Draw>,
    /// What the engine needs before its next step.
    pub request: Request,
    /// What there is to log.
    pub notice: Notice,
}

/// A command that may be absent, as a mathematical value.
pub open spec fn optional_command(command: Option<RenderCommand>) -> Option<CommandView> {
    match command {
        Some(command) => Some(command@),
        None => None,
    }
}

/// A frame that may be absent, as a mathematical value.
pub open spec fn optional_frame(frame: Option<Frame>) -> Option<FrameView> {
    match frame {
        Some(frame) => Some(frame@),
        None => None,
    }
}

/// The frames offered for a video, as mathematical values.
pub open spec fn frame_slots(slots: Seq<Option<Frame>>) -> Seq<Option<FrameView>> {
    slots.map_values(|slot: Option<Frame>| optional_frame(slot))
}

/// A sequence of frames as mathematical values.
pub open spec fn frame_views(frames: Seq<Frame>) -> Seq<FrameView> {
    frames.map_values(|frame: Frame| frame@)
}

/// A sequence of pictures to show, as mathematical values.
pub open spec fn draw_views(draws: Seq<Draw>) -> Seq<DrawView> {
    draws.map_values(|draw: Draw| draw@)
}

impl View for Event {
    type V = EventView;

    open spec fn view(&self) -> EventView {
        match *self {
            Event::Command(command) => EventView::Command(command@),
            Event::Closed => EventView::Closed,
            Event::Continue => EventView::Continue,
            Event::Polled(polled) => EventView::Polled(optional_command(polled)),
            Event::Image(image) => EventView::Image(optional_frame(image)),
            Event::Video(video) => EventView::Video(
                match video {
                    Some(slots) => Some(frame_slots(slots@)),
                    None => None,
                },
            ),
            Event::Font(loaded) => EventView::Font(loaded),
        }
    }
}

impl View for Draw {
    type V = DrawView;

    open spec fn view(&self) -> DrawView {
        match *self {
            Draw::Clear => DrawView::Clear,
            Draw::Pixels(frame) => DrawView::Pixels(frame@),
            Draw::Text { text, font, x, y, color } => DrawView::Text {
                text: text@,
                font: font@,
                x,
                y,
                color,
            },
        }
    }
}

impl View for Request {
    type V = RequestView;

    open spec fn view(&self) -> RequestView {
        match *self {
            Request::NextCommand => RequestView::NextCommand,
            Request::Continue => RequestView::Continue,
            Request::LoadImage { path, width, height } => RequestView::LoadImage {
                path: path@,
                width,
                height,
            },
            Request::LoadVideo { dir } => RequestView::LoadVideo { dir: dir@ },
            Request::LoadFont { file } => RequestView::LoadFont { file: file@ },
            Request::Poll { delay_ms } => RequestView::Poll { delay_ms },
            Request::Shutdown => RequestView::Shutdown,
        }
    }
}

// ── The engine ───────────────────────────────────────────────────────

/// What the engine is in the middle of.
#[derive(Debug)]
enum Phase {
    Idle,
    LoadingImage { path: String },
    LoadingVideo { dir: String, fps: u32, loop_playback: bool },
    LoadingFont { text: String, font: String, color: Color, speed: u32 },
    Playing { frames: Vec<Frame>, index: usize, loop_playback: bool, delay_ms: u64, fresh: bool },
    Scrolling {
        text: String,
        font: String,
        color: Color,
        x: i32,
        start_x: i32,
        end_x: i32,
        delay_ms: u64,
        fresh: bool,
    },
    Closed,
}

impl View for Phase {
    type V = PhaseView;

    closed spec fn view(&self) -> PhaseView {
        match *self {
            Phase::Idle => PhaseView::Idle,
            Phase::LoadingImage { path } => PhaseView::LoadingImage { path: path@ },
            Phase::LoadingVideo { dir, fps, loop_playback } => PhaseView::LoadingVideo {
                dir: dir@,
                fps,
                loop_playback,
            },
            Phase::LoadingFont { text, font, color, speed } => PhaseView::LoadingFont {
                text: text@,
                font: font@,
                color,
                speed,
            },
            Phase::Playing { frames, index, loop_playback, delay_ms, fresh } => PhaseView::Playing {
                frames: frame_views(frames@),
                index: index as nat,
                loop_playback,
                delay_ms,
                fresh,
            },
            Phase::Scrolling { text, font, color, x, start_x, end_x, delay_ms, fresh } => {
                PhaseView::Scrolling {
                    text: text@,
                    font: font@,
                    color,
                    x,
                    start_x,
                    end_x,
                    delay_ms,
                    fresh,
                }
            },
            Phase::Closed => PhaseView::Closed,
        }
    }
}

/// The render engine.
#[derive(Debug)]
pub struct Engine {
    panel: PanelConfig,
    brightness: u8,
    pending: Option<RenderCommand>,
    phase: Phase,
}

impl View for Engine {
    type V = EngineView;

    closed spec fn view(&self) -> EngineView {
        EngineView {
            panel: self.panel,
            brightness: self.brightness,
            pending: optional_command(self.pending),
            phase: self.phase@,
        }
    }
}

/// Milliseconds between two ticks at `rate` ticks per second; a rate of 0
/// counts as 1.
pub fn tick_delay(rate: u32) -> (delay_ms: u64)
    ensures
        delay_ms == crate::render::model::tick_delay_ms(rate),
        delay_ms <= 1000,
{
    if rate == 0 {
        1000
    } else {
        (1000 / rate) as u64
    }
}

/// The pixel width of a text of `bytes` bytes.
pub fn text_width(bytes: usize) -> (width: i32)
    ensures
        width == crate::render::model::text_pixel_width(bytes as nat),
        0 <= width <= GLYPH_WIDTH * MAX_TEXT_BYTES,
{
    let counted: usize = if bytes > MAX_TEXT_BYTES {
        MAX_TEXT_BYTES
    } else {
        bytes
    };
    GLYPH_WIDTH * (counted as i32)
}

/// The name of the file that holds a font.
pub fn font_file_name(font: &String) -> (file: String)
    ensures
        file@ == crate::render::model::font_file(font@),
{
    font.clone().concat(".bdf")
}

/// The frames a video plays: those that could be decoded, in order, each with
/// the brightness applied.
pub fn prepare_frames(slots: &Vec<Option<Frame>>, brightness: u8) -> (frames: Vec<Frame>)
    ensures
        frame_views(frames@) == playable_frames(frame_slots(slots@), brightness),
{
    let mut frames: Vec<Frame> = Vec::new();
    let mut i: usize = 0;
    assert(frame_slots(slots@).take(0) =~= Seq::<Option<FrameView>>::empty());
    assert(frame_views(frames@) =~= Seq::<FrameView>::empty());
    while i < slots.len()
        invariant
            i <= slots.len(),
            frame_views(frames@) == playable_frames(frame_slots(slots@).take(i as int), brightness),
        decreases slots.len() - i,
    {
        let ghost before = frame_slots(slots@).take(i as int);
        let ghost after = frame_slots(slots@).take(i + 1);
        let ghost shown = frame_views(frames@);
        assert(after.drop_last() =~= before);
        assert(after.last() == optional_frame(slots@[i as int]));
        match &slots[i] {
            Some(frame) => {
                let dimmed = frame.dimmed(brightness);
                frames.push(dimmed);
                assert(frame_views(frames@) =~= shown.push(frame@.dimmed(brightness)));
            },
            None => {},
        }
        i += 1;
    }
    assert(frame_slots(slots@).take(slots@.len() as int) =~= frame_slots(slots@));
    frames
}

impl Engine {
    #[verifier::type_invariant]
    spec fn sound(self) -> bool {
        self@.well_formed()
    }

    /// The engine for `panel`, idle and at the default brightness; `None` if
    /// the panel has no pixels or a frame of it is too large to address.
    pub fn new(panel: PanelConfig) -> (engine: Option<Engine>)
        ensures
            engine is Some <==> panel.well_formed(),
            engine matches Some(e) ==> e@ == EngineView::initial(panel),
    {
        if panel.is_well_formed() {
            Some(
                Engine { panel, brightness: DEFAULT_BRIGHTNESS, pending: None, phase: Phase::Idle },
            )
        } else {
            None
        }
    }

    /// The panel this engine draws for.
    pub fn panel(&self) -> (panel: PanelConfig)
        ensures
            panel == self@.panel,
            self@.well_formed(),
    {
        proof {
            use_type_invariant(self);
        }
        self.panel
    }

    /// The brightness setting, 0 to 100.
    pub fn brightness(&self) -> (level: u8)
        ensures
            level == self@.brightness,
            level <= 100,
    {
        proof {
            use_type_invariant(self);
        }
        self.brightness
    }

    /// Whether a command is stashed, waiting to be run next.
    pub fn has_pending(&self) -> (stashed: bool)
        ensures
            stashed == self@.pending is Some,
    {
        self.pending.is_some()
    }

    /// Whether the engine has stopped for good.
    pub fn is_closed(&self) -> (closed: bool)
        ensures
            closed == self@.phase is Closed,
    {
        match &self.phase {
            Phase::Closed => true,
            _ => false,
        }
    }

    /// What the engine needs from the driver before its next step.
    pub fn request(&self) -> (request: Request)
        ensures
            request@ == self@.request(),
    {
        match &self.phase {
            Phase::Idle => if self.pending.is_some() {
                Request::Continue
            } else {
                Request::NextCommand
            },
            Phase::LoadingImage { path } => Request::LoadImage {
                path: path.clone(),
                width: self.panel.cols,
                height: self.panel.rows,
            },
            Phase::LoadingVideo { dir, .. } => Request::LoadVideo { dir: dir.clone() },
            Phase::LoadingFont { font, .. } => Request::LoadFont { file: font_file_name(font) },
            Phase::Playing { delay_ms, fresh, .. } => Request::Poll {
                delay_ms: if *fresh {
                    0
                } else {
                    *delay_ms
                },
            },
            Phase::Scrolling { delay_ms, fresh, .. } => Request::Poll {
                delay_ms: if *fresh {
                    0
                } else {
                    *delay_ms
                },
            },
            Phase::Closed => Request::Shutdown,
        }
    }

    /// One step: take `event`, update the engine and the shared status, and
    /// hand back the pictures to show, what to log and what is needed next.
    ///
    /// An event that does not answer the engine's last request changes
    /// nothing and is reported as [`Notice::Unexpected`].
    pub fn step(&mut self, status: &mut DisplayStatus, event: Event) -> (out: Output)
        ensures
            ({
                let next = crate::render::model::step(
                    old(self)@,
                    old(status)@,
                    event@,
                );
                &&& final(self)@ == next.engine
                &&& final(status)@ == next.status
                &&& draw_views(out.draws@) == next.draws
                &&& out.notice == next.notice
            }),
            out.request@ == final(self)@.request(),
            final(self)@.well_formed(),
    {
        proof {
            use_type_invariant(&*self);
        }
        let mut phase = Phase::Idle;
        core::mem::swap(&mut self.phase, &mut phase);
        let mut pending: Option<RenderCommand> = None;
        core::mem::swap(&mut self.pending, &mut pending);
        let (draws, notice) = match (phase, pending, event) {
            (Phase::Idle, None, Event::Command(command)) => self.dispatch(status, command),
            (Phase::Idle, None, Event::Closed) => {
                self.phase = Phase::Closed;
                (Vec::new(), Notice::Shutdown)
            },
            (Phase::Idle, Some(command), Event::Continue) => self.dispatch(status, command),
            (Phase::LoadingImage { path }, _, Event::Image(image)) => self.image_loaded(
                status,
                image,
            ),
            (Phase::LoadingVideo { dir, fps, loop_playback }, _, Event::Video(video)) => {
                self.video_loaded(status, dir, fps, loop_playback, video)
            },
            (Phase::LoadingFont { text, font, color, speed }, _, Event::Font(loaded)) => {
                self.font_loaded(status, text, font, color, speed, loaded)
            },
            (
                Phase::Playing { frames, index, loop_playback, delay_ms, fresh },
                _,
                Event::Polled(polled),
            ) => self.playback_tick(status, frames, index, loop_playback, delay_ms, polled),
            (
                Phase::Scrolling { text, font, color, x, start_x, end_x, delay_ms, fresh },
                _,
                Event::Polled(polled),
            ) => self.scroll_tick(status, text, font, color, x, start_x, end_x, delay_ms, polled),
            (phase, pending, _) => {
                self.pending = pending;
                self.phase = phase;
                (Vec::new(), Notice::Unexpected)
            },
        };
        let request = self.request();
        proof {
            use_type_invariant(&*self);
        }
        Output { draws, request, notice }
    }

    /// Run `command` from between commands.
    fn dispatch(&mut self, status: &mut DisplayStatus, command: RenderCommand) -> (out: (
        Vec<Draw>,
        Notice,
    ))
        requires
            old(self)@.phase is Idle,
            old(self)@.pending is None,
        ensures
            ({
                let next = crate::render::model::dispatch(
                    old(self)@,
                    old(status)@,
                    command@,
                );
                &&& final(self)@ == next.engine
                &&& final(status)@ == next.status
                &&& draw_views(out.0@) == next.draws
                &&& out.1 == next.notice
            }),
    {
        proof {
            use_type_invariant(&*self);
        }
        let mut draws: Vec<Draw> = Vec::new();
        let mut notice = Notice::Done;
        assert(draw_views(draws@) =~= Seq::<DrawView>::empty());
        match command {
            RenderCommand::Clear => {
                draws.push(Draw::Clear);
                status.set_idle();
                assert(draw_views(draws@) =~= seq![DrawView::Clear]);
            },
            RenderCommand::Stop => {
                status.set_idle();
            },
            RenderCommand::SetBrightness(value) => {
                let level = clamp_brightness(value);
                self.brightness = level;
                status.brightness = level;
            },
            RenderCommand::ShowImage(path) => {
                status.set_showing(DisplayState::ShowingImage, path.clone());
                self.phase = Phase::LoadingImage { path };
            },
            RenderCommand::ShowFrame(data) => {
                let expected = self.panel.frame_byte_count();
                if data.len() == expected {
                    let dimmed = dim_bytes(&data, self.brightness);
                    let frame = Frame::new(self.panel.cols, self.panel.rows, dimmed).unwrap();
                    draws.push(Draw::Pixels(frame));
                    assert(draw_views(draws@) =~= seq![DrawView::Pixels(frame@)]);
                } else {
                    notice = Notice::FrameSizeMismatch { expected, got: data.len() };
                }
            },
            RenderCommand::PlayVideo { dir, fps, loop_playback } => {
                self.phase = Phase::LoadingVideo { dir, fps, loop_playback };
            },
            RenderCommand::ScrollText { text, font, color, speed } => {
                self.phase = Phase::LoadingFont {
                    text,
                    font,
                    color: Color { r: color.0, g: color.1, b: color.2 },
                    speed,
                };
            },
        }
        (draws, notice)
    }

    /// The image asked for has come, or has not.
    fn image_loaded(&mut self, status: &mut DisplayStatus, image: Option<Frame>) -> (out: (
        Vec<Draw>,
        Notice,
    ))
        requires
            old(self)@.phase is Idle,
            old(self)@.pending is None,
        ensures
            ({
                let next = crate::render::model::image_loaded(
                    old(self)@,
                    old(status)@,
                    optional_frame(image),
                );
                &&& final(self)@ == next.engine
                &&& final(status)@ == next.status
                &&& draw_views(out.0@) == next.draws
                &&& out.1 == next.notice
            }),
    {
        proof {
            use_type_invariant(&*self);
        }
        let mut draws: Vec<Draw> = Vec::new();
        assert(draw_views(draws@) =~= Seq::<DrawView>::empty());
        match image {
            Some(frame) => {
                let dimmed = frame.dimmed(self.brightness);
                draws.push(Draw::Pixels(dimmed));
                assert(draw_views(draws@) =~= seq![DrawView::Pixels(dimmed@)]);
                (draws, Notice::Done)
            },
            None => {
                status.set_idle();
                (draws, Notice::ImageUnavailable)
            },
        }
    }

    /// The frames of the video asked for have come, or have not.
    fn video_loaded(
        &mut self,
        status: &mut DisplayStatus,
        dir: String,
        fps: u32,
        loop_playback: bool,
        video: Option<Vec<Option<Frame>>>,
    ) -> (out: (Vec<Draw>, Notice))
        requires
            old(self)@.phase is Idle,
            old(self)@.pending is None,
        ensures
            ({
                let next = crate::render::model::video_loaded(
                    old(self)@,
                    old(status)@,
                    dir@,
                    fps,
                    loop_playback,
                    (Event::Video(video))@->Video_0,
                );
                &&& final(self)@ == next.engine
                &&& final(status)@ == next.status
                &&& draw_views(out.0@) == next.draws
                &&& out.1 == next.notice
            }),
    {
        proof {
            use_type_invariant(&*self);
        }
        let draws: Vec<Draw> = Vec::new();
        assert(draw_views(draws@) =~= Seq::<DrawView>::empty());
        match video {
            None => (draws, Notice::VideoUnavailable),
            Some(slots) => {
                let frames = prepare_frames(&slots, self.brightness);
                let total = frames.len();
                if total == 0 {
                    (draws, Notice::NoFrames)
                } else {
                    status.set_playing(dir, total);
                    self.phase = Phase::Playing {
                        frames,
                        index: 0,
                        loop_playback,
                        delay_ms: tick_delay(fps),
                        fresh: true,
                    };
                    (draws, Notice::Done)
                }
            },
        }
    }

    /// The font asked for is loaded, or is not.
    fn font_loaded(
        &mut self,
        status: &mut DisplayStatus,
        text: String,
        font: String,
        color: Color,
        speed: u32,
        loaded: bool,
    ) -> (out: (Vec<Draw>, Notice))
        requires
            old(self)@.phase is Idle,
            old(self)@.pending is None,
        ensures
            ({
                let next = crate::render::model::font_loaded(
                    old(self)@,
                    old(status)@,
                    text@,
                    font@,
                    color,
                    speed,
                    loaded,
                );
                &&& final(self)@ == next.engine
                &&& final(status)@ == next.status
                &&& draw_views(out.0@) == next.draws
                &&& out.1 == next.notice
            }),
    {
        proof {
            use_type_invariant(&*self);
            self.panel.dimensions_are_coordinates();
        }
        let draws: Vec<Draw> = Vec::new();
        assert(draw_views(draws@) =~= Seq::<DrawView>::empty());
        if loaded {
            let start_x: i32 = self.panel.cols as i32;
            let end_x: i32 = -text_width(text.as_str().as_bytes().len());
            status.set_showing(DisplayState::ScrollingText, text.clone());
            self.phase = Phase::Scrolling {
                text,
                font,
                color,
                x: start_x,
                start_x,
                end_x,
                delay_ms: tick_delay(speed),
                fresh: true,
            };
            (draws, Notice::Done)
        } else {
            (draws, Notice::FontUnavailable)
        }
    }

    /// Take in a change of brightness that a tick found.
    fn absorb(&mut self, status: &mut DisplayStatus, polled: &Option<RenderCommand>)
        requires
            old(self)@.phase is Idle,
            old(self)@.pending is None,
        ensures
            final(self)@ == (EngineView {
                brightness: crate::render::model::polled_brightness(
                    old(self)@.brightness,
                    optional_command(*polled),
                ),
                ..old(self)@
            }),
            final(status)@ == old(status)@.with_brightness(
                crate::render::model::polled_brightness(
                    old(status)@.brightness,
                    optional_command(*polled),
                ),
            ),
    {
        proof {
            use_type_invariant(&*self);
        }
        match polled {
            Some(RenderCommand::SetBrightness(value)) => {
                let level = clamp_brightness(*value);
                self.brightness = level;
                status.brightness = level;
            },
            _ => {},
        }
    }

    /// One tick of playback.
    fn playback_tick(
        &mut self,
        status: &mut DisplayStatus,
        frames: Vec<Frame>,
        index: usize,
        loop_playback: bool,
        delay_ms: u64,
        polled: Option<RenderCommand>,
    ) -> (out: (Vec<Draw>, Notice))
        requires
            old(self)@.phase is Idle,
            old(self)@.pending is None,
            index < frames@.len(),
        ensures
            ({
                let next = crate::render::model::playback_tick(
                    old(self)@,
                    old(status)@,
                    frame_views(frames@),
                    index as nat,
                    loop_playback,
                    delay_ms,
                    optional_command(polled),
                );
                &&& final(self)@ == next.engine
                &&& final(status)@ == next.status
                &&& draw_views(out.0@) == next.draws
                &&& out.1 == next.notice
            }),
    {
        proof {
            use_type_invariant(&*self);
        }
        let mut draws: Vec<Draw> = Vec::new();
        assert(draw_views(draws@) =~= Seq::<DrawView>::empty());
        let interrupts = match &polled {
            Some(RenderCommand::SetBrightness(_)) => false,
            Some(_) => true,
            None => false,
        };
        if interrupts {
            self.pending = polled;
            return (draws, Notice::Preempted);
        }
        self.absorb(status, &polled);
        status.frame = Some(index);
        let shown = frames[index].duplicate();
        draws.push(Draw::Pixels(shown));
        assert(draw_views(draws@) =~= seq![DrawView::Pixels(frames@[index as int]@)]);
        let total = frames.len();
        if index + 1 < total {
            self.phase = Phase::Playing {
                frames,
                index: index + 1,
                loop_playback,
                delay_ms,
                fresh: false,
            };
            (draws, Notice::Done)
        } else if loop_playback {
            self.phase = Phase::Playing { frames, index: 0, loop_playback, delay_ms, fresh: false };
            (draws, Notice::Done)
        } else {
            draws.push(Draw::Clear);
            status.set_idle();
            assert(draw_views(draws@) =~= seq![
                DrawView::Pixels(frames@[index as int]@),
                DrawView::Clear,
            ]);
            (draws, Notice::PlaybackFinished)
        }
    }

    /// One tick of scrolling.
    fn scroll_tick(
        &mut self,
        status: &mut DisplayStatus,
        text: String,
        font: String,
        color: Color,
        x: i32,
        start_x: i32,
        end_x: i32,
        delay_ms: u64,
        polled: Option<RenderCommand>,
    ) -> (out: (Vec<Draw>, Notice))
        requires
            old(self)@.phase is Idle,
            old(self)@.pending is None,
            -GLYPH_WIDTH * MAX_TEXT_BYTES <= end_x <= 0,
            0 < start_x,
            end_x <= x <= start_x,
        ensures
            ({
                let next = crate::render::model::scroll_tick(
                    old(self)@,
                    old(status)@,
                    text@,
                    font@,
                    color,
                    x,
                    start_x,
                    end_x,
                    delay_ms,
                    optional_command(polled),
                );
                &&& final(self)@ == next.engine
                &&& final(status)@ == next.status
                &&& draw_views(out.0@) == next.draws
                &&& out.1 == next.notice
            }),
    {
        proof {
            use_type_invariant(&*self);
        }
        let mut draws: Vec<Draw> = Vec::new();
        assert(draw_views(draws@) =~= Seq::<DrawView>::empty());
        let interrupts = match &polled {
            Some(RenderCommand::SetBrightness(_)) => false,
            Some(_) => true,
            None => false,
        };
        if interrupts {
            self.pending = polled;
            return (draws, Notice::Preempted);
        }
        self.absorb(status, &polled);
        let shade = color.apply_brightness(self.brightness);
        let drawn = Draw::Text {
            text: text.clone(),
            font: font.clone(),
            x,
            y: TEXT_BASELINE,
            color: shade,
        };
        draws.push(drawn);
        assert(draw_views(draws@) =~= seq![drawn@]);
        let next_x: i32 = if x - 1 < end_x {
            start_x
        } else {
            x - 1
        };
        self.phase = Phase::Scrolling {
            text,
            font,
            color,
            x: next_x,
            start_x,
            end_x,
            delay_ms,
            fresh: false,
        };
        (draws, Notice::Done)
    }
}

} // verus!
