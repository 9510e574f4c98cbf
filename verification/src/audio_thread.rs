use vstd::prelude::*;
use std::sync::atomic::AtomicBool;
use std::sync::mpsc::{SendError, Sender};
use std::sync::{Arc, Mutex};
use crate::command::AudioControlCommand;
use crate::playback_time::PlaybackTime;
use crate::sharing::flag_set;
use crate::time_cell::stored_time;
use crate::worker::ThreadContext;

verus! {

/// The worker is gone, so the command could not be delivered. It comes back
/// to the sender.
pub struct ChannelClosedError {
    pub command: AudioControlCommand,
}

/// The controller's handle on the playback worker.
///
/// It owns the sending end of the command channel and the worker's join
/// capability `J`, and shares with the worker the elapsed-time cell and the
/// flag by which it announces that it closes the channel.
pub struct AudioThread<J> {
    thread_handle: Option<J>,
    time_elapsed: Arc<Mutex<PlaybackTime>>,
    closed: Arc<AtomicBool>,
    commands_sender: Option<Sender<AudioControlCommand>>,
}

/// What a send on the channel means to the controller: delivered, or the
/// channel is closed and the command comes back.
pub fn delivery(sent: Result<(), SendError<AudioControlCommand>>) -> (delivered: Result<
    (),
    ChannelClosedError,
>)
    ensures
        delivered == match sent {
            Ok(()) => Ok::<(), ChannelClosedError>(()),
            Err(refused) => Err(ChannelClosedError { command: refused.0 }),
        },
{
    match sent {
        Ok(()) => Ok(()),
        Err(refused) => Err(ChannelClosedError { command: refused.0 }),
    }
}

impl<J> AudioThread<J> {
    /// Whether the handle still holds the sending end of the channel.
    pub closed spec fn is_open(self) -> bool {
        self.commands_sender is Some
    }

    /// The join capability, until [`AudioThread::close`] has handed it out.
    pub closed spec fn join_handle(self) -> Option<J> {
        self.thread_handle
    }

    /// The handle's pointer to the shared elapsed-time cell.
    pub closed spec fn cell(self) -> Arc<Mutex<PlaybackTime>> {
        self.time_elapsed
    }

    /// The handle's pointer to the flag by which it announces that it closes
    /// the channel.
    pub closed spec fn closing_flag(self) -> Arc<AtomicBool> {
        self.closed
    }

    /// Whether the handle has announced that it closes the channel. From
    /// then on the worker applies nothing that it still finds queued.
    pub open spec fn closure_announced(self) -> bool {
        flag_set(*self.closing_flag())
    }

    /// The elapsed time that the handle found in the shared cell when it
    /// last read it.
    pub open spec fn last_read(self) -> PlaybackTime {
        stored_time(*self.cell())
    }

    /// Wires up a worker and launches it.
    ///
    /// Makes a fresh channel, a fresh elapsed-time cell that holds zero and
    /// a fresh closing flag, keeps one pointer to the cell and to the flag,
    /// and hands `launch` the worker's side: the receiving end, pointers to
    /// the same cell and the same flag, and a handle to `ui_ctx`. `launch`
    /// starts the worker's thread on that context and returns the capability
    /// to join it.
    pub fn spawn<F: FnOnce(ThreadContext) -> J>(ui_ctx: &eframe::egui::Context, launch: F) -> (handle:
        Self)
        requires
            forall|thread_ctx: ThreadContext| #[trigger] launch.requires((thread_ctx,)),
        ensures
            handle.is_open(),
            handle.join_handle() is Some,
            !handle.closure_announced(),
            handle.last_read() == (PlaybackTime { nanos: 0 }),
            exists|thread_ctx: ThreadContext|
                {
                    &&& thread_ctx.cell() == handle.cell()
                    &&& thread_ctx.closing_flag() == handle.closing_flag()
                    &&& thread_ctx.ui_context() == *ui_ctx
                    &&& #[trigger] launch.ensures((thread_ctx,), handle.join_handle()->0)
                },
    {
        let (sender, receiver) = std::sync::mpsc::channel();
        let time_elapsed = Arc::new(crate::time_cell::new_cell(PlaybackTime::zero()));
        let closed = Arc::new(crate::sharing::new_flag(false));
        let thread_ctx = ThreadContext::new(
            receiver,
            crate::sharing::share(&time_elapsed),
            crate::repaint::share(ui_ctx),
            crate::sharing::share(&closed),
        );
        let ghost launched = thread_ctx;
        let thread_handle = launch(thread_ctx);
        let handle = AudioThread {
            thread_handle: Some(thread_handle),
            time_elapsed,
            closed,
            commands_sender: Some(sender),
        };
        assert(launch.ensures((launched,), handle.join_handle()->0));
        handle
    }

    /// Queues a command for the worker, without blocking. Commands arrive in
    /// the order of sending.
    ///
    /// Fails when the worker has gone and taken the receiving end with it,
    /// and on a handle that was closed; the command then comes back in the
    /// error.
    pub fn send(&self, command: AudioControlCommand) -> (sent: Result<(), ChannelClosedError>)
        ensures
            !self.is_open() ==> sent is Err,
            sent matches Err(closed) ==> closed.command == command,
    {
        match &self.commands_sender {
            Some(sender) => delivery(sender.send(command)),
            None => Err(ChannelClosedError { command }),
        }
    }

    /// Reads the shared cell under its lock: the elapsed time that the worker
    /// wrote last.
    ///
    /// The worker writes from its own thread, so each read may find another
    /// value, and a read may lag the sink by one poll interval. Nothing else
    /// of the handle changes.
    pub fn time_elapsed(&mut self) -> (elapsed: PlaybackTime)
        ensures
            elapsed == final(self).last_read(),
            final(self).is_open() == old(self).is_open(),
            final(self).join_handle() == old(self).join_handle(),
            final(self).closing_flag() == old(self).closing_flag(),
    {
        crate::time_cell::load(&mut self.time_elapsed)
    }

    /// Tears the handle down: announces the closure, drops the sending end of
    /// the channel, then hands out the join capability, in that order.
    ///
    /// The worker leaves its loop only once no sender remains, so whoever
    /// joins it must have closed the channel before. Commands still queued
    /// at that moment are discarded: the worker looks at the announcement
    /// after each receive and applies nothing once it is made. A second call
    /// finds nothing left to close or to join.
    pub fn close(&mut self) -> (thread_handle: Option<J>)
        ensures
            !final(self).is_open(),
            final(self).join_handle() is None,
            thread_handle == old(self).join_handle(),
            final(self).closure_announced(),
            final(self).cell() == old(self).cell(),
    {
        crate::sharing::set_flag(&mut self.closed, true);
        self.commands_sender = None;
        self.thread_handle.take()
    }
}

impl<J> Drop for AudioThread<J> {
    /// A handle that is dropped announces the closure and then lets go of
    /// its sending end, in the order of [`AudioThread::close`]. A join
    /// capability that was not fetched by `close` is let go unjoined.
    fn drop(&mut self)
        ensures
            final(self).closure_announced(),
            !final(self).is_open(),
        opens_invariants none
        no_unwind
    {
        crate::sharing::set_flag(&mut self.closed, true);
        self.commands_sender = None;
    }
}

} // verus!
