use vstd::prelude::*;
use std::sync::{Arc, Mutex};
use crate::playback_time::PlaybackTime;

verus! {

/// A lock around one value.
#[verifier::external_type_specification]
#[verifier::external_body]
#[verifier::reject_recursive_types(T)]
pub struct ExMutex<T: ?Sized>(Mutex<T>);

/// What the cell held when the side that holds this pointer last wrote or
/// read it. The worker is the only writer, so between its writes the cell
/// holds what it stored last; the controller learns of a write by reading.
pub uninterp spec fn stored_time(cell: Mutex<PlaybackTime>) -> PlaybackTime;

/// `Mutex::new`: a fresh cell that holds `time`.
#[verifier::external_body]
pub(crate) fn new_cell(time: PlaybackTime) -> (cell: Mutex<PlaybackTime>)
    ensures
        stored_time(cell) == time,
{
    Mutex::new(time)
}

/// `Mutex::lock`, then a write through the guard: the cell holds `time`
/// afterwards. The lock is held for the one assignment only. A poisoned lock
/// is written through all the same.
#[verifier::external_body]
pub(crate) fn store(cell: &mut Arc<Mutex<PlaybackTime>>, time: PlaybackTime)
    ensures
        stored_time(**final(cell)) == time,
{
    match cell.lock() {
        Ok(mut guard) => *guard = time,
        Err(poisoned) => *poisoned.into_inner() = time,
    }
}

/// `Mutex::lock`, then a copy out of the guard: what the cell holds now.
/// Another thread may have written since this side last looked, so the read
/// may find another value than the last one did.
#[verifier::external_body]
pub(crate) fn load(cell: &mut Arc<Mutex<PlaybackTime>>) -> (time: PlaybackTime)
    ensures
        time == stored_time(**final(cell)),
{
    match cell.lock() {
        Ok(guard) => *guard,
        Err(poisoned) => *poisoned.into_inner(),
    }
}

} // verus!
