use vstd::prelude::*;
use std::sync::atomic::AtomicBool;
use std::sync::mpsc::{Receiver, RecvError, TryRecvError};
use std::sync::{Arc, Mutex};
use rodio::mixer::Mixer;
use rodio::Player;
use crate::command::{AudioControlCommand, AudioSourceBuf};
use crate::playback::Playback;
use crate::playback_time::PlaybackTime;
use crate::repaint::redraws_asked;
use crate::sink::{
    awaits_end, can_clear, is_paused_spec, last_position, mixer_drawn, output_drawn, played_on,
    queued_sounds,
};
use crate::time_cell::stored_time;

verus! {

/// The bounded sleep between two polls while audio plays, in milliseconds.
pub const POLL_INTERVAL_MILLIS: u64 = 100;

/// What the worker holds besides the sink: the receiving end of the command
/// channel, its share of the elapsed-time cell, and the front end's context.
pub struct ThreadContext {
    commands_receiver: Receiver<AudioControlCommand>,
    time_elapsed: Arc<Mutex<PlaybackTime>>,
    ui_ctx: eframe::egui::Context,
    /// Set by the handle just before it drops the sending end.
    closed: Arc<AtomicBool>,
}

/// The state that the worker controls: the sink's, and the cell's.
pub open spec fn playback(thread_ctx: ThreadContext, audio_sink: Player) -> Playback {
    Playback {
        queue: queued_sounds(audio_sink),
        paused: is_paused_spec(audio_sink),
        elapsed: thread_ctx.elapsed(),
        redraws: thread_ctx.redraws(),
    }
}

/// How the worker waits for its next command.
#[derive(Clone, Copy, Debug, PartialEq, Eq, Structural)]
pub enum WaitMode {
    /// Nothing plays: sleep in the channel until a command comes or the
    /// channel closes.
    Blocking,
    /// Audio plays: look into the channel without waiting.
    Polling,
}

/// What a look into the command channel brought.
pub enum Received {
    /// The next command, in the order of sending.
    Command(AudioControlCommand),
    /// No command is waiting; a sender is still there.
    Nothing,
    /// No sender is left: the signal to shut down.
    Disconnected,
}

/// What the worker's loop does after one step.
#[derive(Clone, Copy, Debug, PartialEq, Eq, Structural)]
pub enum Next {
    /// Go round again at once.
    Again,
    /// Sleep for [`POLL_INTERVAL_MILLIS`], then go round again.
    Sleep,
    /// Leave the loop: the worker's thread ends.
    Exit,
}

impl ThreadContext {
    /// Puts a worker's context together.
    pub(crate) fn new(
        commands_receiver: Receiver<AudioControlCommand>,
        time_elapsed: Arc<Mutex<PlaybackTime>>,
        ui_ctx: eframe::egui::Context,
        closed: Arc<AtomicBool>,
    ) -> (thread_ctx: Self)
        ensures
            thread_ctx.cell() == time_elapsed,
            thread_ctx.ui_context() == ui_ctx,
            thread_ctx.closing_flag() == closed,
    {
        ThreadContext { commands_receiver, time_elapsed, ui_ctx, closed }
    }

    /// The worker's pointer to the shared elapsed-time cell.
    pub closed spec fn cell(self) -> Arc<Mutex<PlaybackTime>> {
        self.time_elapsed
    }

    /// The worker's pointer to the flag by which the handle announces that
    /// it closes the channel.
    pub closed spec fn closing_flag(self) -> Arc<AtomicBool> {
        self.closed
    }

    /// The elapsed time that the shared cell holds.
    pub open spec fn elapsed(self) -> PlaybackTime {
        stored_time(*self.cell())
    }

    /// The front end's context.
    pub closed spec fn ui_context(self) -> eframe::egui::Context {
        self.ui_ctx
    }

    /// The redraws asked of the front end so far.
    pub open spec fn redraws(self) -> nat {
        redraws_asked(self.ui_context())
    }

    /// Whether both contexts hold the same end of the same channel, and the
    /// same closing flag.
    pub closed spec fn same_channel(self, other: ThreadContext) -> bool {
        self.commands_receiver == other.commands_receiver && self.closed == other.closed
    }
}

/// Connects a new sink to `mixer`, for the worker to own. It holds no sound
/// and is not paused, so the worker starts out blocking, and its output is
/// drawn if the mixer's is.
pub fn connect_sink(mixer: &Mixer) -> (audio_sink: Player)
    ensures
        queued_sounds(audio_sink).len() == 0,
        !is_paused_spec(audio_sink),
        !awaits_end(audio_sink),
        output_drawn(audio_sink) == mixer_drawn(*mixer),
{
    crate::sink::connect(mixer)
}

/// Applies one command to the sink and the cell.
///
/// `Play` clears the sink before it appends, so the new audio is the only
/// sound queued, and resumes playback. `Stop` clears too, never a raw stop,
/// then zeroes the elapsed time and asks for one redraw at once, since no
/// poll runs while the sink is empty. `Pause` and `Continue` ask for none.
///
/// Clearing waits for the end of the sound that the sink took last, so
/// `Play` and `Stop` need a sink whose output is drawn, or one that has
/// taken no sound since it was new or last cleared.
pub fn handle_command(
    thread_ctx: &mut ThreadContext,
    command: AudioControlCommand,
    audio_sink: &mut Player,
)
    requires
        command.clears() ==> can_clear(*old(audio_sink)),
    ensures
        playback(*final(thread_ctx), *final(audio_sink)) == playback(
            *old(thread_ctx),
            *old(audio_sink),
        ).after_command(command),
        output_drawn(*final(audio_sink)) == output_drawn(*old(audio_sink)),
        awaits_end(*final(audio_sink)) == match command {
            AudioControlCommand::Play(_) => true,
            AudioControlCommand::Stop => false,
            _ => awaits_end(*old(audio_sink)),
        },
        final(thread_ctx).same_channel(*old(thread_ctx)),
{
    match command {
        AudioControlCommand::Play(audio_source) => {
            crate::sink::clear(audio_sink);
            crate::sink::append(audio_sink, audio_source);
            crate::sink::play(audio_sink);
            assert(queued_sounds(*audio_sink) =~= seq![audio_source]);
        },
        AudioControlCommand::Pause => crate::sink::pause(audio_sink),
        AudioControlCommand::Continue => crate::sink::play(audio_sink),
        AudioControlCommand::Stop => {
            crate::sink::clear(audio_sink);
            crate::time_cell::store(&mut thread_ctx.time_elapsed, PlaybackTime::zero());
            crate::repaint::request_repaint(&mut thread_ctx.ui_ctx);
        },
    }
}

/// Decides how to wait for the next command: blocking while the sink is
/// empty or paused, polling while it plays. Counting the sink may show that
/// sounds have finished since the last count.
pub fn wait_mode(audio_sink: &mut Player) -> (mode: WaitMode)
    ensures
        played_on(queued_sounds(*old(audio_sink)), queued_sounds(*final(audio_sink))),
        is_paused_spec(*final(audio_sink)) == is_paused_spec(*old(audio_sink)),
        output_drawn(*final(audio_sink)) == output_drawn(*old(audio_sink)),
        awaits_end(*final(audio_sink)) == awaits_end(*old(audio_sink)),
        mode == if queued_sounds(*final(audio_sink)).len() == 0 || is_paused_spec(
            *final(audio_sink),
        ) {
            WaitMode::Blocking
        } else {
            WaitMode::Polling
        },
{
    if crate::sink::empty(audio_sink) || crate::sink::is_paused(audio_sink) {
        WaitMode::Blocking
    } else {
        WaitMode::Polling
    }
}

/// What a blocking receive means to the worker. Once the handle has
/// announced that it closes the channel, whatever was still queued is
/// discarded and the channel counts as closed; before that, a command is a
/// command and a failed receive is the end.
pub fn event_of_recv(got: Result<AudioControlCommand, RecvError>, closed: bool) -> (event: Received)
    ensures
        event == if closed {
            Received::Disconnected
        } else {
            match got {
                Ok(command) => Received::Command(command),
                Err(_) => Received::Disconnected,
            }
        },
{
    if closed {
        Received::Disconnected
    } else {
        match got {
            Ok(command) => Received::Command(command),
            Err(_) => Received::Disconnected,
        }
    }
}

/// What a receive without waiting means to the worker. Once the handle has
/// announced that it closes the channel, whatever was still queued is
/// discarded and the channel counts as closed; before that, the result is a
/// command, nothing yet, or the end.
pub fn event_of_try_recv(got: Result<AudioControlCommand, TryRecvError>, closed: bool) -> (event:
    Received)
    ensures
        event == if closed {
            Received::Disconnected
        } else {
            match got {
                Ok(command) => Received::Command(command),
                Err(TryRecvError::Empty) => Received::Nothing,
                Err(TryRecvError::Disconnected) => Received::Disconnected,
            }
        },
{
    if closed {
        Received::Disconnected
    } else {
        match got {
            Ok(command) => Received::Command(command),
            Err(TryRecvError::Empty) => Received::Nothing,
            Err(TryRecvError::Disconnected) => Received::Disconnected,
        }
    }
}

/// Takes the next event from the command channel, waiting as `mode` says,
/// and then looks whether the handle has announced the closure.
///
/// What comes depends on what the controller has sent or closed by then, so
/// any event may come while polling. A blocking receive, though, never comes
/// back empty-handed. How a channel result becomes an event is stated, for
/// every result, by [`event_of_recv`] and [`event_of_try_recv`].
pub fn receive(thread_ctx: &ThreadContext, mode: WaitMode) -> (event: Received)
    ensures
        mode is Blocking ==> !(event is Nothing),
{
    match mode {
        WaitMode::Blocking => {
            let got = thread_ctx.commands_receiver.recv();
            let closed = thread_ctx.closed.load(std::sync::atomic::Ordering::SeqCst);
            event_of_recv(got, closed)
        },
        WaitMode::Polling => {
            let got = thread_ctx.commands_receiver.try_recv();
            let closed = thread_ctx.closed.load(std::sync::atomic::Ordering::SeqCst);
            event_of_try_recv(got, closed)
        },
    }
}

/// Writes a position read from the sink into the shared cell, then asks the
/// front end for one redraw that shows it.
pub fn publish_position(thread_ctx: &mut ThreadContext, position: PlaybackTime)
    ensures
        final(thread_ctx).elapsed() == position,
        final(thread_ctx).redraws() == old(thread_ctx).redraws() + 1,
        final(thread_ctx).same_channel(*old(thread_ctx)),
{
    crate::time_cell::store(&mut thread_ctx.time_elapsed, position);
    crate::repaint::request_repaint(&mut thread_ctx.ui_ctx);
}

/// Acts on one event from the channel.
///
/// A command is applied. With nothing received, the sink's position is read
/// and published, and the loop is told to sleep. A closed channel ends the
/// loop with everything left as it is.
pub fn on_event(thread_ctx: &mut ThreadContext, audio_sink: &mut Player, event: Received) -> (next:
    Next)
    requires
        event matches Received::Command(command) ==> (command.clears() ==> can_clear(
            *old(audio_sink),
        )),
    ensures
        final(thread_ctx).same_channel(*old(thread_ctx)),
        output_drawn(*final(audio_sink)) == output_drawn(*old(audio_sink)),
        match event {
            Received::Command(command) => {
                &&& next == Next::Again
                &&& playback(*final(thread_ctx), *final(audio_sink)) == playback(
                    *old(thread_ctx),
                    *old(audio_sink),
                ).after_command(command)
            },
            Received::Nothing => {
                &&& next == Next::Sleep
                &&& playback(*final(thread_ctx), *final(audio_sink)) == playback(
                    *old(thread_ctx),
                    *old(audio_sink),
                ).after_sample(last_position(*final(audio_sink)))
                &&& awaits_end(*final(audio_sink)) == awaits_end(*old(audio_sink))
            },
            Received::Disconnected => {
                &&& next == Next::Exit
                &&& playback(*final(thread_ctx), *final(audio_sink)) == playback(
                    *old(thread_ctx),
                    *old(audio_sink),
                )
                &&& awaits_end(*final(audio_sink)) == awaits_end(*old(audio_sink))
            },
        },
{
    match event {
        Received::Command(command) => {
            handle_command(thread_ctx, command, audio_sink);
            Next::Again
        },
        Received::Nothing => {
            let position = crate::sink::position(audio_sink);
            publish_position(thread_ctx, position);
            Next::Sleep
        },
        Received::Disconnected => Next::Exit,
    }
}

/// One round of the worker's loop: count the sink, wait for an event in the
/// way that fits, act on it.
///
/// The loop sleeps, the sink's position is sampled and a redraw is asked
/// for only in a round that found audio playing. A round that found the
/// sink empty or paused blocks in the channel instead, and changes the
/// elapsed time or asks for a redraw only if a command arrives that does.
pub fn step(thread_ctx: &mut ThreadContext, audio_sink: &mut Player) -> (next: Next)
    requires
        can_clear(*old(audio_sink)),
    ensures
        final(thread_ctx).same_channel(*old(thread_ctx)),
        output_drawn(*final(audio_sink)) == output_drawn(*old(audio_sink)),
        match next {
            Next::Again => exists|counted: Seq<AudioSourceBuf>, command: AudioControlCommand|
                {
                    &&& played_on(queued_sounds(*old(audio_sink)), counted)
                    &&& playback(*final(thread_ctx), *final(audio_sink)) == #[trigger] playback(
                        *old(thread_ctx),
                        *old(audio_sink),
                    ).counted(counted).after_command(command)
                },
            Next::Sleep => {
                &&& played_on(queued_sounds(*old(audio_sink)), queued_sounds(*final(audio_sink)))
                &&& playback(*final(thread_ctx), *final(audio_sink)) == playback(
                    *old(thread_ctx),
                    *old(audio_sink),
                ).counted(queued_sounds(*final(audio_sink))).after_sample(
                    last_position(*final(audio_sink)),
                )
                &&& playback(*final(thread_ctx), *final(audio_sink)).is_active()
                &&& awaits_end(*final(audio_sink)) == awaits_end(*old(audio_sink))
            },
            Next::Exit => {
                &&& played_on(queued_sounds(*old(audio_sink)), queued_sounds(*final(audio_sink)))
                &&& playback(*final(thread_ctx), *final(audio_sink)) == playback(
                    *old(thread_ctx),
                    *old(audio_sink),
                ).counted(queued_sounds(*final(audio_sink)))
                &&& awaits_end(*final(audio_sink)) == awaits_end(*old(audio_sink))
            },
        },
{
    let mode = wait_mode(audio_sink);
    let ghost counted = queued_sounds(*audio_sink);
    let ghost before = playback(*thread_ctx, *audio_sink);
    let event = receive(thread_ctx, mode);
    let ghost received = event;
    let next = on_event(thread_ctx, audio_sink, event);
    proof {
        assert(before == playback(*old(thread_ctx), *old(audio_sink)).counted(counted));
        if let Received::Command(command) = received {
            assert(playback(*thread_ctx, *audio_sink) == before.after_command(command));
        }
    }
    next
}

} // verus!
