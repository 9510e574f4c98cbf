use vstd::prelude::*;
use crate::command::{AudioControlCommand, AudioSourceBuf};
use crate::playback_time::PlaybackTime;

verus! {

/// What the worker controls, as the contracts see it: the sink's queue and
/// pause flag, the elapsed time in the shared cell, and the number of redraws
/// it has asked of the front end.
pub struct Playback {
    pub queue: Seq<AudioSourceBuf>,
    pub paused: bool,
    pub elapsed: PlaybackTime,
    pub redraws: nat,
}

/// What one round of the worker's loop did to the state.
pub enum Round {
    /// A count of the sink found this queue in it.
    Counted(Seq<AudioSourceBuf>),
    /// A command arrived and was applied.
    Command(AudioControlCommand),
    /// No command was waiting, and this position was read from the sink and
    /// published.
    Sample(PlaybackTime),
}

impl Round {
    /// Whether the round applied a command that starts a track or ends one.
    pub open spec fn restarts(self) -> bool {
        self matches Round::Command(command) && (command is Play || command is Stop)
    }
}

impl Playback {
    /// Audio is playing: the sink holds something and is not paused. The
    /// worker polls in this state and blocks in every other.
    pub open spec fn is_active(self) -> bool {
        self.queue.len() > 0 && !self.paused
    }

    /// The state that one command leaves behind.
    pub open spec fn after_command(self, command: AudioControlCommand) -> Playback {
        match command {
            AudioControlCommand::Play(source) => Playback {
                queue: seq![source],
                paused: false,
                ..self
            },
            AudioControlCommand::Pause => Playback { paused: true, ..self },
            AudioControlCommand::Continue => Playback { paused: false, ..self },
            AudioControlCommand::Stop => Playback {
                queue: Seq::empty(),
                paused: true,
                elapsed: PlaybackTime { nanos: 0 },
                redraws: self.redraws + 1,
            },
        }
    }

    /// The state once a count of the sink has found `queue` in it.
    pub open spec fn counted(self, queue: Seq<AudioSourceBuf>) -> Playback {
        Playback { queue, ..self }
    }

    /// The state after one poll that found no command and read `position`
    /// from the sink: the position is published and a redraw asked for.
    pub open spec fn after_sample(self, position: PlaybackTime) -> Playback {
        Playback { elapsed: position, redraws: self.redraws + 1, ..self }
    }

    /// The state that one round of the loop leaves behind.
    pub open spec fn after_round(self, round: Round) -> Playback {
        match round {
            Round::Counted(queue) => self.counted(queue),
            Round::Command(command) => self.after_command(command),
            Round::Sample(position) => self.after_sample(position),
        }
    }

    /// The state that a run of rounds leaves behind, taken in order.
    pub open spec fn after_rounds(self, rounds: Seq<Round>) -> Playback
        decreases rounds.len(),
    {
        if rounds.len() == 0 {
            self
        } else {
            self.after_rounds(rounds.drop_last()).after_round(rounds.last())
        }
    }

    /// Whether every position sampled in `rounds` is at or after the elapsed
    /// time that the cell held when it was sampled: the sink's position did
    /// not go back.
    pub open spec fn samples_move_on(self, rounds: Seq<Round>) -> bool {
        forall|k: int|
            0 <= k < rounds.len() ==> (#[trigger] rounds[k] matches Round::Sample(position)
                ==> self.after_rounds(rounds.take(k)).elapsed.nanos <= position.nanos)
    }
}

/// Whatever happened before, once a `Stop` has been applied the elapsed time
/// is zero, the sink is empty, and the worker is back to blocking.
pub proof fn stop_resets_elapsed(start: Playback, rounds: Seq<Round>)
    requires
        rounds.len() > 0,
        rounds.last() == Round::Command(AudioControlCommand::Stop),
    ensures
        start.after_rounds(rounds).elapsed.nanos == 0,
        start.after_rounds(rounds).queue.len() == 0,
        !start.after_rounds(rounds).is_active(),
{
}

/// Whatever happened before, once a `Play` has been applied its audio is the
/// only sound in the sink, and it plays.
pub proof fn play_replaces_queue(start: Playback, rounds: Seq<Round>, source: AudioSourceBuf)
    requires
        rounds.len() > 0,
        rounds.last() == Round::Command(AudioControlCommand::Play(source)),
    ensures
        start.after_rounds(rounds).queue == seq![source],
        start.after_rounds(rounds).is_active(),
{
}

/// A `Play` that follows a `Play` leaves only the second one's audio queued:
/// the two are never mixed.
pub proof fn second_play_wins(start: Playback, first: AudioSourceBuf, second: AudioSourceBuf)
    ensures
        start.after_command(AudioControlCommand::Play(first)).after_command(
            AudioControlCommand::Play(second),
        ).queue == seq![second],
{
}

/// While no `Play` or `Stop` is applied and the sink's position does not go
/// back, the elapsed time does not go back either: of two reads of the cell,
/// the later one shows at least what the earlier one showed.
pub proof fn elapsed_never_goes_back(
    start: Playback,
    rounds: Seq<Round>,
    earlier: int,
    later: int,
)
    requires
        forall|k: int| 0 <= k < rounds.len() ==> !(#[trigger] rounds[k]).restarts(),
        start.samples_move_on(rounds),
        0 <= earlier <= later <= rounds.len(),
    ensures
        start.after_rounds(rounds.take(earlier)).elapsed.nanos <= start.after_rounds(
            rounds.take(later),
        ).elapsed.nanos,
    decreases later - earlier,
{
    if earlier < later {
        elapsed_never_goes_back(start, rounds, earlier, later - 1);
        let upto = rounds.take(later);
        assert(upto.drop_last() =~= rounds.take(later - 1));
        assert(upto.last() == rounds[later - 1]);
        assert(!rounds[later - 1].restarts());
    }
}

} // verus!
