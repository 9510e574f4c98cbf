use audio_cutter::audio_thread::{delivery, AudioThread};
use audio_cutter::command::AudioControlCommand;
use audio_cutter::playback_time::PlaybackTime;
use audio_cutter::worker::{publish_position, receive, Received, ThreadContext, WaitMode};
use std::cell::RefCell;
use std::rc::Rc;
use std::sync::mpsc::SendError;

fn spawn_kept(
    ui_ctx: &eframe::egui::Context,
) -> (AudioThread<u32>, ThreadContext) {
    let slot: Rc<RefCell<Option<ThreadContext>>> = Rc::new(RefCell::new(None));
    let keep = Rc::clone(&slot);
    let handle = AudioThread::spawn(ui_ctx, move |thread_ctx: ThreadContext| {
        *keep.borrow_mut() = Some(thread_ctx);
        7u32
    });
    let thread_ctx = slot.borrow_mut().take().unwrap();
    (handle, thread_ctx)
}

#[test]
fn send_after_worker_exit_returns_channel_closed() {
    let ui_ctx = eframe::egui::Context::default();
    // A worker that fails at startup: it drops its context and is gone.
    let handle = AudioThread::spawn(&ui_ctx, |thread_ctx: ThreadContext| drop(thread_ctx));
    match handle.send(AudioControlCommand::Pause) {
        Err(closed) => assert!(matches!(closed.command, AudioControlCommand::Pause)),
        Ok(()) => panic!("the worker is gone"),
    }
    // and again: still an error, no panic, no blocking
    match handle.send(AudioControlCommand::Stop) {
        Err(closed) => assert!(matches!(closed.command, AudioControlCommand::Stop)),
        Ok(()) => panic!("the worker is gone"),
    }
}

#[test]
fn commands_arrive_in_send_order() {
    let ui_ctx = eframe::egui::Context::default();
    let (mut handle, thread_ctx) = spawn_kept(&ui_ctx);
    assert!(handle.send(AudioControlCommand::Pause).is_ok());
    assert!(handle.send(AudioControlCommand::Continue).is_ok());
    assert!(handle.send(AudioControlCommand::Stop).is_ok());
    assert!(matches!(
        receive(&thread_ctx, WaitMode::Polling),
        Received::Command(AudioControlCommand::Pause)
    ));
    assert!(matches!(
        receive(&thread_ctx, WaitMode::Blocking),
        Received::Command(AudioControlCommand::Continue)
    ));
    assert!(matches!(
        receive(&thread_ctx, WaitMode::Polling),
        Received::Command(AudioControlCommand::Stop)
    ));
    assert!(matches!(receive(&thread_ctx, WaitMode::Polling), Received::Nothing));
}

#[test]
fn a_fresh_handle_reads_zero() {
    let ui_ctx = eframe::egui::Context::default();
    let (mut handle, _thread_ctx) = spawn_kept(&ui_ctx);
    assert_eq!(handle.time_elapsed(), PlaybackTime { nanos: 0 });
}

#[test]
fn the_handle_reads_what_the_worker_wrote() {
    let ui_ctx = eframe::egui::Context::default();
    let (mut handle, mut thread_ctx) = spawn_kept(&ui_ctx);
    publish_position(&mut thread_ctx, PlaybackTime { nanos: 1_250_000_000 });
    assert_eq!(handle.time_elapsed().nanos, 1_250_000_000);
    publish_position(&mut thread_ctx, PlaybackTime { nanos: 3 });
    assert_eq!(handle.time_elapsed().nanos, 3);
}

#[test]
fn close_hands_out_the_join_capability_once() {
    let ui_ctx = eframe::egui::Context::default();
    let (mut handle, _thread_ctx) = spawn_kept(&ui_ctx);
    assert_eq!(handle.close(), Some(7));
    assert_eq!(handle.close(), None);
}

#[test]
fn close_disconnects_the_worker() {
    let ui_ctx = eframe::egui::Context::default();
    let (mut handle, thread_ctx) = spawn_kept(&ui_ctx);
    assert!(matches!(receive(&thread_ctx, WaitMode::Polling), Received::Nothing));
    handle.close();
    assert!(matches!(receive(&thread_ctx, WaitMode::Polling), Received::Disconnected));
    // the blocking receive returns too: this is what lets a join finish
    assert!(matches!(receive(&thread_ctx, WaitMode::Blocking), Received::Disconnected));
}

#[test]
fn commands_queued_at_close_are_discarded() {
    let ui_ctx = eframe::egui::Context::default();
    let (mut handle, thread_ctx) = spawn_kept(&ui_ctx);
    assert!(handle.send(AudioControlCommand::Pause).is_ok());
    assert!(handle.send(AudioControlCommand::Stop).is_ok());
    handle.close();
    assert!(matches!(receive(&thread_ctx, WaitMode::Blocking), Received::Disconnected));
    assert!(matches!(receive(&thread_ctx, WaitMode::Polling), Received::Disconnected));
}

#[test]
fn commands_queued_at_drop_are_discarded() {
    let ui_ctx = eframe::egui::Context::default();
    let (mut handle, thread_ctx) = spawn_kept(&ui_ctx);
    assert!(handle.send(AudioControlCommand::Continue).is_ok());
    drop(handle);
    assert!(matches!(receive(&thread_ctx, WaitMode::Polling), Received::Disconnected));
    assert!(matches!(receive(&thread_ctx, WaitMode::Blocking), Received::Disconnected));
}

#[test]
fn a_command_received_before_the_close_is_a_command() {
    let ui_ctx = eframe::egui::Context::default();
    let (mut handle, thread_ctx) = spawn_kept(&ui_ctx);
    assert!(handle.send(AudioControlCommand::Pause).is_ok());
    assert!(handle.send(AudioControlCommand::Continue).is_ok());
    assert!(matches!(
        receive(&thread_ctx, WaitMode::Blocking),
        Received::Command(AudioControlCommand::Pause)
    ));
    handle.close();
    assert!(matches!(receive(&thread_ctx, WaitMode::Blocking), Received::Disconnected));
}

#[test]
fn send_on_a_closed_handle_hands_the_command_back() {
    let ui_ctx = eframe::egui::Context::default();
    let (mut handle, thread_ctx) = spawn_kept(&ui_ctx);
    handle.close();
    match handle.send(AudioControlCommand::Continue) {
        Err(closed) => assert!(matches!(closed.command, AudioControlCommand::Continue)),
        Ok(()) => panic!("the handle is closed"),
    }
    assert!(matches!(receive(&thread_ctx, WaitMode::Polling), Received::Disconnected));
}

#[test]
fn delivery_maps_the_channel_result() {
    assert!(delivery(Ok(())).is_ok());
    match delivery(Err(SendError(AudioControlCommand::Stop))) {
        Err(closed) => assert!(matches!(closed.command, AudioControlCommand::Stop)),
        Ok(()) => panic!("a refused send is an error"),
    }
}
