use vstd::prelude::*;
use crate::playback_time::PlaybackTime;

verus! {

/// The audio sink: a queue of sounds with playback controls. The worker owns
/// it and nothing else touches it.
#[verifier::external_type_specification]
#[verifier::external_body]
pub struct ExPlayer(rodio::Player);

/// The sounds in the sink's queue, the one that plays first, as of the
/// worker's last change or count. Playback may have finished sounds since
/// then; only the next call of [`empty`] shows that.
pub uninterp spec fn queued_sounds(sink: rodio::Player) -> Seq<rodio::buffer::SamplesBuffer>;

/// Whether playback alone can have turned the queue `before` into `after`:
/// sounds leave at the front, in order, and none joins.
pub open spec fn played_on(
    before: Seq<rodio::buffer::SamplesBuffer>,
    after: Seq<rodio::buffer::SamplesBuffer>,
) -> bool {
    &&& after.len() <= before.len()
    &&& after == before.skip(before.len() - after.len())
}

/// Whether the sink is paused. Only `play`, `pause` and `clear` change this.
pub uninterp spec fn is_paused_spec(sink: rodio::Player) -> bool;

/// Whether the sink's output end is alive and drawn: a device, or whoever
/// stands in for one, holds it and takes the samples out whenever the sink
/// waits for its sounds to go. This is a fact about the sink's surroundings
/// that no call on the sink changes or can find out. It is settled where the
/// sink is connected: the sink's output is drawn just as its mixer is.
pub uninterp spec fn output_drawn(sink: rodio::Player) -> bool;

/// Whether the mixer's own output is alive and drawn: it holds of the mixer
/// of an open device for as long as the device stays open. Whoever hands
/// the mixer over vouches for it.
pub uninterp spec fn mixer_drawn(mixer: rodio::mixer::Mixer) -> bool;

/// Whether the sink keeps the end signal of the sound that it took last: a
/// `clear` waits for that signal. A sink has none when it is new and after
/// each `clear`.
pub uninterp spec fn awaits_end(sink: rodio::Player) -> bool;

/// The position that playback had reported when the worker last read it.
pub uninterp spec fn last_position(sink: rodio::Player) -> PlaybackTime;

/// Whether a `clear` of the sink comes back with the sink empty: its output
/// is drawn, or there is no end signal for it to wait for.
pub open spec fn can_clear(sink: rodio::Player) -> bool {
    output_drawn(sink) || !awaits_end(sink)
}

/// A mixer: where a device collects what its sinks play.
#[verifier::external_type_specification]
#[verifier::external_body]
pub struct ExMixer(rodio::mixer::Mixer);

/// `rodio::Player::connect_new`: a new sink whose output is handed to
/// `mixer`. It holds no sound, is not paused and waits for no end signal,
/// and its output is drawn if and only if the mixer's is.
#[verifier::external_body]
pub(crate) fn connect(mixer: &rodio::mixer::Mixer) -> (sink: rodio::Player)
    ensures
        queued_sounds(sink) == Seq::<rodio::buffer::SamplesBuffer>::empty(),
        !is_paused_spec(sink),
        !awaits_end(sink),
        output_drawn(sink) == mixer_drawn(*mixer),
{
    rodio::Player::connect_new(mixer)
}

/// `rodio::Player::clear`: marks every queued sound to be skipped, waits for
/// the end signal of the sound taken last, if the sink still keeps one, then
/// pauses the sink.
///
/// The signal comes only when the output end moves past that sound, and the
/// sounds leave the queue only there. So where the sink keeps a signal its
/// output must be drawn: on a sink whose output nobody draws the call would
/// not come back, and on one whose output end is gone it would come back
/// with the sounds still queued.
#[verifier::external_body]
pub(crate) fn clear(sink: &mut rodio::Player)
    requires
        can_clear(*old(sink)),
    ensures
        queued_sounds(*final(sink)) == Seq::<rodio::buffer::SamplesBuffer>::empty(),
        is_paused_spec(*final(sink)),
        !awaits_end(*final(sink)),
        output_drawn(*final(sink)) == output_drawn(*old(sink)),
{
    sink.clear();
}

/// `rodio::Player::append`: puts `source` at the end of the queue, keeps
/// its end signal, and leaves the pause flag as it is.
#[verifier::external_body]
pub(crate) fn append(sink: &mut rodio::Player, source: rodio::buffer::SamplesBuffer)
    ensures
        queued_sounds(*final(sink)) == queued_sounds(*old(sink)).push(source),
        is_paused_spec(*final(sink)) == is_paused_spec(*old(sink)),
        awaits_end(*final(sink)),
        output_drawn(*final(sink)) == output_drawn(*old(sink)),
{
    sink.append(source);
}

/// `rodio::Player::play`: clears the pause flag; nothing else is touched.
#[verifier::external_body]
pub(crate) fn play(sink: &mut rodio::Player)
    ensures
        queued_sounds(*final(sink)) == queued_sounds(*old(sink)),
        !is_paused_spec(*final(sink)),
        awaits_end(*final(sink)) == awaits_end(*old(sink)),
        output_drawn(*final(sink)) == output_drawn(*old(sink)),
{
    sink.play();
}

/// `rodio::Player::pause`: sets the pause flag; nothing else is touched.
#[verifier::external_body]
pub(crate) fn pause(sink: &mut rodio::Player)
    ensures
        queued_sounds(*final(sink)) == queued_sounds(*old(sink)),
        is_paused_spec(*final(sink)),
        awaits_end(*final(sink)) == awaits_end(*old(sink)),
        output_drawn(*final(sink)) == output_drawn(*old(sink)),
{
    sink.pause();
}

/// `rodio::Player::is_paused`: reads the pause flag.
#[verifier::external_body]
pub(crate) fn is_paused(sink: &rodio::Player) -> (paused: bool)
    ensures
        paused == is_paused_spec(*sink),
{
    sink.is_paused()
}

/// `rodio::Player::empty`: counts the queue now and says whether it is empty.
/// Sounds that finished playing since the last count have left the queue at
/// its front; none joins by itself. Nothing else is touched.
#[verifier::external_body]
pub(crate) fn empty(sink: &mut rodio::Player) -> (none_left: bool)
    ensures
        none_left == (queued_sounds(*final(sink)).len() == 0),
        played_on(queued_sounds(*old(sink)), queued_sounds(*final(sink))),
        is_paused_spec(*final(sink)) == is_paused_spec(*old(sink)),
        awaits_end(*final(sink)) == awaits_end(*old(sink)),
        output_drawn(*final(sink)) == output_drawn(*old(sink)),
{
    sink.empty()
}

/// `rodio::Player::get_pos`: reads the position that playback last reported,
/// in whole nanoseconds. It moves with the device's clock, so each read may
/// find another value; the queue and the flags are not looked at.
#[verifier::external_body]
pub(crate) fn position(sink: &mut rodio::Player) -> (at: PlaybackTime)
    ensures
        at == last_position(*final(sink)),
        queued_sounds(*final(sink)) == queued_sounds(*old(sink)),
        is_paused_spec(*final(sink)) == is_paused_spec(*old(sink)),
        awaits_end(*final(sink)) == awaits_end(*old(sink)),
        output_drawn(*final(sink)) == output_drawn(*old(sink)),
{
    PlaybackTime { nanos: sink.get_pos().as_nanos() }
}

} // verus!
