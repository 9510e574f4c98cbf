use vstd::prelude::*;
use std::sync::atomic::AtomicBool;
use std::sync::Arc;

verus! {

/// `Arc::clone`: one more pointer to the same value.
#[verifier::external_body]
pub(crate) fn share<T>(value: &Arc<T>) -> (shared: Arc<T>)
    ensures
        shared == *value,
{
    Arc::clone(value)
}

/// Whether the flag was set when the side that holds this pointer last set
/// it. Only the handle sets the closing flag, and only once.
pub uninterp spec fn flag_set(flag: AtomicBool) -> bool;

/// `AtomicBool::new`: a fresh flag with the given value.
#[verifier::external_body]
pub(crate) fn new_flag(value: bool) -> (flag: AtomicBool)
    ensures
        flag_set(flag) == value,
{
    AtomicBool::new(value)
}

/// `AtomicBool::store`: sets the flag for every thread that looks at it from
/// now on. The store cannot fail or unwind.
#[verifier::external_body]
pub(crate) fn set_flag(flag: &mut Arc<AtomicBool>, value: bool)
    ensures
        flag_set(**final(flag)) == value,
    opens_invariants none
    no_unwind
{
    flag.store(value, std::sync::atomic::Ordering::SeqCst);
}

} // verus!
