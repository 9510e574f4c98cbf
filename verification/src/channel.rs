use vstd::prelude::*;
use std::sync::mpsc::{Receiver, RecvError, SendError, Sender, TryRecvError};

verus! {

/// The sending end of a channel.
#[verifier::external_type_specification]
#[verifier::external_body]
#[verifier::reject_recursive_types(T)]
pub struct ExSender<T>(Sender<T>);

/// The receiving end of a channel.
#[verifier::external_type_specification]
#[verifier::external_body]
#[verifier::reject_recursive_types(T)]
pub struct ExReceiver<T>(Receiver<T>);

/// What a failed send hands back: the value that was not delivered.
#[verifier::external_type_specification]
#[verifier::reject_recursive_types(T)]
pub struct ExSendError<T>(SendError<T>);

/// Why a blocking receive failed: every sender is gone.
#[verifier::external_type_specification]
pub struct ExRecvError(RecvError);

/// Why a receive that does not wait failed.
#[verifier::external_type_specification]
pub struct ExTryRecvError(TryRecvError);

/// `std::sync::mpsc::channel`: a fresh channel, as its two ends.
pub assume_specification<T>[ std::sync::mpsc::channel::<T> ]() -> (ends: (Sender<T>, Receiver<T>));

/// `Sender::send`: never blocks. It fails only when the receiver is gone, and
/// the error then holds the value that was to be sent.
pub assume_specification<T>[ Sender::<T>::send ](sender: &Sender<T>, t: T) -> (sent: Result<
    (),
    SendError<T>,
>)
    ensures
        sent matches Err(refused) ==> refused.0 == t,
;

/// `Receiver::recv`: waits for the next value; fails once the channel is
/// empty and every sender is gone.
pub assume_specification<T>[ Receiver::<T>::recv ](receiver: &Receiver<T>) -> (got: Result<
    T,
    RecvError,
>);

/// `Receiver::try_recv`: the next value if one is waiting; otherwise says
/// whether the channel is merely empty or every sender is gone.
pub assume_specification<T>[ Receiver::<T>::try_recv ](receiver: &Receiver<T>) -> (got: Result<
    T,
    TryRecvError,
>);

} // verus!
