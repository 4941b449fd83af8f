//! What follows from the engine's transition rules, for every engine, status
//! and event.

use crate::render::model::{
    dispatch, playable_frames, preempts, step, DrawView, EngineView, EventView, Notice,
};
use crate::render::frame::FrameView;
use crate::render::{clamped_brightness, CommandView, DisplayState, StatusView};
use vstd::prelude::*;

verus! {

/// The engine and status after `ticks` ticks in a row that found no command.
pub open spec fn after_quiet_ticks(engine: EngineView, status: StatusView, ticks: nat) -> (
    EngineView,
    StatusView,
)
    decreases ticks,
{
    if ticks == 0 {
        (engine, status)
    } else {
        let next = step(engine, status, EventView::Polled(None));
        after_quiet_ticks(next.engine, next.status, (ticks - 1) as nat)
    }
}

/// An event is one the engine can take in: the frames of a video are few
/// enough to be counted.
pub open spec fn countable(event: EventView) -> bool {
    event matches EventView::Video(Some(slots)) ==> slots.len() <= usize::MAX
}

/// No more frames are played than were offered.
pub proof fn playable_frames_are_bounded(slots: Seq<Option<FrameView>>, brightness: u8)
    ensures
        playable_frames(slots, brightness).len() <= slots.len(),
    decreases slots.len(),
{
    if slots.len() > 0 {
        playable_frames_are_bounded(slots.drop_last(), brightness);
    }
}

/// Every step leaves the engine well formed.
pub proof fn step_keeps_engine_well_formed(
    engine: EngineView,
    status: StatusView,
    event: EventView,
)
    requires
        engine.well_formed(),
        countable(event),
    ensures
        step(engine, status, event).engine.well_formed(),
{
    engine.panel.dimensions_are_coordinates();
    if let EventView::Video(Some(slots)) = event {
        playable_frames_are_bounded(slots, engine.brightness);
    }
}

/// The engine waits for a new command exactly when it is between commands
/// with nothing stashed: a stashed command always comes first, and nothing
/// is waited for while an operation is under way.
pub proof fn waits_only_when_nothing_is_left(engine: EngineView)
    ensures
        engine.request() is NextCommand <==> engine.phase is Idle && engine.pending is None,
        engine.pending is Some && engine.phase is Idle ==> engine.request() is Continue,
{
}

/// An event that does not answer the engine's request changes nothing and
/// shows nothing.
pub proof fn unexpected_event_changes_nothing(
    engine: EngineView,
    status: StatusView,
    event: EventView,
)
    requires
        !engine.expects(event),
    ensures
        step(engine, status, event).engine == engine,
        step(engine, status, event).status == status,
        step(engine, status, event).draws.len() == 0,
        step(engine, status, event).notice == Notice::Unexpected,
{
}

/// A raw frame whose length is not the panel's frame size is rejected: the
/// engine and the status stay as they are and nothing is drawn.
pub proof fn wrong_size_frame_is_rejected(engine: EngineView, status: StatusView, data: Seq<u8>)
    requires
        engine.phase is Idle,
        engine.pending is None,
        data.len() != engine.panel.frame_bytes(),
    ensures
        step(engine, status, EventView::Command(CommandView::ShowFrame(data))).engine == engine,
        step(engine, status, EventView::Command(CommandView::ShowFrame(data))).status == status,
        step(engine, status, EventView::Command(CommandView::ShowFrame(data))).draws.len() == 0,
        step(
            engine,
            status,
            EventView::Command(CommandView::ShowFrame(data)),
        ).notice is FrameSizeMismatch,
{
}

/// A raw frame of the right size is drawn and changes neither the engine nor
/// the status.
pub proof fn right_size_frame_is_drawn(engine: EngineView, status: StatusView, data: Seq<u8>)
    requires
        engine.phase is Idle,
        engine.pending is None,
        data.len() == engine.panel.frame_bytes(),
    ensures
        step(engine, status, EventView::Command(CommandView::ShowFrame(data))).engine == engine,
        step(engine, status, EventView::Command(CommandView::ShowFrame(data))).status == status,
        step(engine, status, EventView::Command(CommandView::ShowFrame(data))).draws.len() == 1,
        step(engine, status, EventView::Command(CommandView::ShowFrame(data))).draws[0] is Pixels,
{
}

/// A requested brightness above 100 counts as 100: after the command, the
/// engine and the published status hold the clamped value.
pub proof fn brightness_is_clamped(engine: EngineView, status: StatusView, value: u8)
    requires
        engine.phase is Idle,
        engine.pending is None,
    ensures
        step(
            engine,
            status,
            EventView::Command(CommandView::SetBrightness(value)),
        ).status.brightness == clamped_brightness(value),
        step(
            engine,
            status,
            EventView::Command(CommandView::SetBrightness(value)),
        ).engine.brightness == clamped_brightness(value),
        clamped_brightness(value) <= 100,
        value > 100 ==> clamped_brightness(value) == 100,
        step(engine, status, EventView::Command(CommandView::SetBrightness(value))).draws.len()
            == 0,
{
}

/// Stop leaves the picture alone and reverts the status to idle; Clear blanks
/// the display as well.
pub proof fn stop_and_clear_revert_to_idle(engine: EngineView, status: StatusView)
    requires
        engine.phase is Idle,
        engine.pending is None,
    ensures
        step(engine, status, EventView::Command(CommandView::Stop)).draws.len() == 0,
        step(engine, status, EventView::Command(CommandView::Stop)).status == status.idle(),
        step(engine, status, EventView::Command(CommandView::Clear)).draws == seq![DrawView::Clear],
        step(engine, status, EventView::Command(CommandView::Clear)).status == status.idle(),
{
}

/// A command that arrives during playback or scrolling and is not a change
/// of brightness ends the operation at once: nothing more is drawn, the
/// status stays, the command is stashed, and the engine asks for nothing but
/// to go on.
pub proof fn arriving_command_preempts(
    engine: EngineView,
    status: StatusView,
    command: CommandView,
)
    requires
        engine.phase is Playing || engine.phase is Scrolling,
        preempts(command),
    ensures
        step(engine, status, EventView::Polled(Some(command))).draws.len() == 0,
        step(engine, status, EventView::Polled(Some(command))).status == status,
        step(engine, status, EventView::Polled(Some(command))).engine.pending == Some(command),
        step(engine, status, EventView::Polled(Some(command))).engine.phase is Idle,
        step(engine, status, EventView::Polled(Some(command))).engine.request() is Continue,
        step(engine, status, EventView::Polled(Some(command))).notice == Notice::Preempted,
{
}

/// No command is lost to an interruption: the stashed command is the very
/// next one run, exactly as if it had arrived while the engine was idle.
pub proof fn stashed_command_runs_next(
    engine: EngineView,
    status: StatusView,
    command: CommandView,
)
    requires
        engine.well_formed(),
        engine.phase is Playing || engine.phase is Scrolling,
        preempts(command),
    ensures
        ({
            let stashed = step(engine, status, EventView::Polled(Some(command)));
            step(stashed.engine, stashed.status, EventView::Continue) == step(
                engine.idle(),
                status,
                EventView::Command(command),
            )
        }),
{
    let stashed = step(engine, status, EventView::Polled(Some(command)));
    assert(stashed.engine.idle() == engine.idle());
    assert(engine.idle().idle() == engine.idle());
}

/// A change of brightness during playback is recorded for the next run and
/// leaves the frames of this run as they were loaded.
pub proof fn playback_keeps_its_frames(engine: EngineView, status: StatusView, value: u8)
    requires
        engine.well_formed(),
        engine.phase is Playing,
    ensures
        ({
            let next = step(
                engine,
                status,
                EventView::Polled(Some(CommandView::SetBrightness(value))),
            );
            &&& next.engine.brightness == clamped_brightness(value)
            &&& next.status.brightness == clamped_brightness(value)
            &&& next.draws[0] == DrawView::Pixels(
                engine.phase->Playing_frames[engine.phase->Playing_index as int],
            )
            &&& next.engine.phase is Playing ==> next.engine.phase->Playing_frames
                == engine.phase->Playing_frames
        }),
{
}

/// A change of brightness during scrolling shows in the very tick that finds
/// it.
pub proof fn scrolling_takes_brightness_at_once(
    engine: EngineView,
    status: StatusView,
    value: u8,
)
    requires
        engine.phase is Scrolling,
    ensures
        ({
            let next = step(
                engine,
                status,
                EventView::Polled(Some(CommandView::SetBrightness(value))),
            );
            &&& next.draws.len() == 1
            &&& next.draws[0] matches DrawView::Text { color, .. }
            &&& color == engine.phase->Scrolling_color.dimmed(clamped_brightness(value))
        }),
{
}

/// Scrolling has no end of its own: a tick that finds no command, or only a
/// change of brightness, leaves the engine scrolling the same text and the
/// status in the state it was in.
pub proof fn scrolling_goes_on(
    engine: EngineView,
    status: StatusView,
    polled: Option<CommandView>,
)
    requires
        engine.phase is Scrolling,
        polled is Some ==> !preempts(polled->0),
    ensures
        step(engine, status, EventView::Polled(polled)).engine.phase is Scrolling,
        step(engine, status, EventView::Polled(polled)).engine.phase->Scrolling_text
            == engine.phase->Scrolling_text,
        step(engine, status, EventView::Polled(polled)).status.state == status.state,
        step(engine, status, EventView::Polled(polled)).status.current_media
            == status.current_media,
        step(engine, status, EventView::Polled(polled)).draws.len() == 1,
{
}

/// However many ticks pass without a command, the engine is still scrolling.
pub proof fn scrolling_never_ends_by_itself(engine: EngineView, status: StatusView, ticks: nat)
    requires
        engine.phase is Scrolling,
    ensures
        after_quiet_ticks(engine, status, ticks).0.phase is Scrolling,
        after_quiet_ticks(engine, status, ticks).1.state == status.state,
    decreases ticks,
{
    if ticks > 0 {
        let next = step(engine, status, EventView::Polled(None));
        scrolling_goes_on(engine, status, None);
        scrolling_never_ends_by_itself(next.engine, next.status, (ticks - 1) as nat);
    }
}

/// Scrolling text stays between the right edge of the panel and the point
/// where it has left the panel on the left.
pub proof fn scrolling_stays_in_bounds(engine: EngineView, status: StatusView)
    requires
        engine.well_formed(),
        engine.phase is Scrolling,
    ensures
        ({
            let next = step(engine, status, EventView::Polled(None)).engine.phase;
            &&& next->Scrolling_end_x <= next->Scrolling_x <= next->Scrolling_start_x
            &&& next->Scrolling_x == if engine.phase->Scrolling_x == engine.phase->Scrolling_end_x {
                engine.phase->Scrolling_start_x as int
            } else {
                engine.phase->Scrolling_x - 1
            }
        }),
{
}

/// One quiet tick of playback shows the frame that is due and publishes its
/// index.
pub proof fn playback_shows_the_frame_due(engine: EngineView, status: StatusView)
    requires
        engine.well_formed(),
        engine.phase is Playing,
    ensures
        ({
            let frames = engine.phase->Playing_frames;
            let index = engine.phase->Playing_index;
            let next = step(engine, status, EventView::Polled(None));
            &&& next.draws[0] == DrawView::Pixels(frames[index as int])
            &&& index + 1 < frames.len() ==> {
                &&& next.draws.len() == 1
                &&& next.status == status.at_frame(index as usize)
                &&& next.engine.phase is Playing
                &&& next.engine.phase->Playing_index == index + 1
                &&& next.engine.phase->Playing_frames == frames
                &&& next.engine.phase->Playing_loop_playback
                    == engine.phase->Playing_loop_playback
            }
            &&& index + 1 == frames.len() && engine.phase->Playing_loop_playback ==> {
                &&& next.draws.len() == 1
                &&& next.status == status.at_frame(index as usize)
                &&& next.engine.phase is Playing
                &&& next.engine.phase->Playing_index == 0
            }
            &&& index + 1 == frames.len() && !engine.phase->Playing_loop_playback ==> {
                &&& next.draws == seq![DrawView::Pixels(frames[index as int]), DrawView::Clear]
                &&& next.status == status.idle()
                &&& next.engine.phase is Idle
                &&& next.engine.request() is NextCommand
            }
        }),
{
}

/// A video that does not loop, left alone, shows each of its remaining
/// frames once and then reverts to idle with no media on display.
pub proof fn playback_runs_to_its_end(engine: EngineView, status: StatusView)
    requires
        engine.well_formed(),
        engine.phase is Playing,
        !engine.phase->Playing_loop_playback,
    ensures
        ({
            let left = (engine.phase->Playing_frames.len() - engine.phase->Playing_index) as nat;
            let end = after_quiet_ticks(engine, status, left);
            &&& end.0.phase is Idle
            &&& end.0.pending is None
            &&& end.1.state == DisplayState::Idle
            &&& end.1.current_media is None
            &&& end.1.frame is None
            &&& end.1.total_frames is None
        }),
    decreases engine.phase->Playing_frames.len() - engine.phase->Playing_index,
{
    let frames = engine.phase->Playing_frames;
    let index = engine.phase->Playing_index;
    let left = (frames.len() - index) as nat;
    let next = step(engine, status, EventView::Polled(None));
    playback_shows_the_frame_due(engine, status);
    assert(after_quiet_ticks(engine, status, left) == after_quiet_ticks(
        next.engine,
        next.status,
        (left - 1) as nat,
    ));
    if index + 1 < frames.len() {
        step_keeps_engine_well_formed(engine, status, EventView::Polled(None));
        playback_runs_to_its_end(next.engine, next.status);
    } else {
        assert(after_quiet_ticks(next.engine, next.status, 0) == (next.engine, next.status));
    }
}

/// A video starts at its first frame, with every frame that could be decoded
/// counted; one whose frames all failed, or whose directory could not be
/// read, leaves the status as it was.
pub proof fn video_starts_at_the_first_frame(
    engine: EngineView,
    status: StatusView,
    video: Option<Seq<Option<FrameView>>>,
)
    requires
        engine.phase is LoadingVideo,
    ensures
        ({
            let next = step(engine, status, EventView::Video(video));
            let frames = playable_frames(video->0, engine.brightness);
            if video is Some && frames.len() > 0 {
                &&& next.engine.phase is Playing
                &&& next.engine.phase->Playing_index == 0
                &&& next.engine.phase->Playing_frames == frames
                &&& next.status.state == DisplayState::PlayingVideo
                &&& next.status.frame == Some(0usize)
                &&& next.status.total_frames == Some(frames.len() as usize)
                &&& next.status.current_media == Some(engine.phase->LoadingVideo_dir)
            } else {
                &&& next.engine.phase is Idle
                &&& next.status == status
                &&& next.draws.len() == 0
            }
        }),
{
}

/// An image that cannot be loaded reverts the status to idle; one that can
/// is drawn with the brightness applied.
pub proof fn image_is_drawn_or_given_up(
    engine: EngineView,
    status: StatusView,
    image: Option<FrameView>,
)
    requires
        engine.phase is LoadingImage,
    ensures
        ({
            let next = step(engine, status, EventView::Image(image));
            &&& next.engine.phase is Idle
            &&& image is None ==> next.status == status.idle() && next.draws.len() == 0
            &&& image is Some ==> next.status == status && next.draws == seq![
                DrawView::Pixels(image->0.dimmed(engine.brightness)),
            ]
        }),
{
}

/// Running a command from idle never leaves a command stashed.
pub proof fn dispatch_leaves_nothing_stashed(
    engine: EngineView,
    status: StatusView,
    command: CommandView,
)
    ensures
        dispatch(engine, status, command).engine.pending is None,
{
}

} // verus!
