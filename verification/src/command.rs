use vstd::prelude::*;
use rodio::buffer::SamplesBuffer;

verus! {

/// Decoded samples behind a shared pointer.
#[verifier::external_type_specification]
#[verifier::external_body]
pub struct ExSamplesBuffer(SamplesBuffer);

/// Decoded audio, ready to play and cheap to clone.
pub type AudioSourceBuf = SamplesBuffer;

/// `SamplesBuffer::clone`: a second handle to the same samples, at the same
/// position in them.
#[verifier::external_body]
pub(crate) fn clone_source(source: &AudioSourceBuf) -> (cloned: AudioSourceBuf)
    ensures
        cloned == *source,
{
    source.clone()
}

/// An instruction from the controller to the playback worker.
pub enum AudioControlCommand {
    /// Replace whatever the sink holds by this audio and play it.
    Play(AudioSourceBuf),
    /// Hold playback where it is.
    Pause,
    /// Resume playback.
    Continue,
    /// Drop whatever the sink holds and set the elapsed time back to zero.
    Stop,
}

impl AudioControlCommand {
    /// Whether the command clears the sink before anything else: `Play` and
    /// `Stop` do.
    pub open spec fn clears(self) -> bool {
        self is Play || self is Stop
    }
}

} // verus!
