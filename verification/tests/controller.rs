use audio_cutter::audio_cutter_app::{AudioCutterApp, PlaybackStatus};
use audio_cutter::command::{AudioControlCommand, AudioSourceBuf};
use audio_cutter::worker::{handle_command, publish_position, receive, Received, ThreadContext, WaitMode};
use audio_cutter::playback_time::PlaybackTime;
use rodio::Player;
use std::cell::RefCell;
use std::num::NonZero;
use std::rc::Rc;

fn short_track(level: f32) -> AudioSourceBuf {
    AudioSourceBuf::new(NonZero::new(1).unwrap(), NonZero::new(1000).unwrap(), vec![level; 20])
}

/// A controller whose worker is kept in the test's hands.
fn controller_with_worker() -> (AudioCutterApp<u8>, ThreadContext) {
    let ui_ctx = eframe::egui::Context::default();
    let slot: Rc<RefCell<Option<ThreadContext>>> = Rc::new(RefCell::new(None));
    let keep = Rc::clone(&slot);
    let mut app = AudioCutterApp::default();
    app.ensure_audio_thread(&ui_ctx, move |thread_ctx: ThreadContext| {
        *keep.borrow_mut() = Some(thread_ctx);
        1u8
    });
    let thread_ctx = slot.borrow_mut().take().unwrap();
    (app, thread_ctx)
}

/// A controller whose worker died at startup.
fn controller_without_worker() -> AudioCutterApp<u8> {
    let ui_ctx = eframe::egui::Context::default();
    let mut app = AudioCutterApp::default();
    app.ensure_audio_thread(&ui_ctx, |thread_ctx: ThreadContext| {
        drop(thread_ctx);
        1u8
    });
    app
}

#[test]
fn a_new_controller_is_stopped_and_empty() {
    let mut app: AudioCutterApp<u8> = AudioCutterApp::default();
    assert_eq!(app.playback_status(), PlaybackStatus::Stopped);
    assert!(!app.is_audio_thread_running());
    assert!(app.current_file_name().is_none());
    assert!(!app.has_audio_source());
    assert!(app.time_elapsed().is_none());
    assert!(!app.is_worker_lost());
}

#[test]
fn the_worker_is_spawned_once() {
    let ui_ctx = eframe::egui::Context::default();
    let (mut app, thread_ctx) = controller_with_worker();
    assert!(app.is_audio_thread_running());
    app.ensure_audio_thread(&ui_ctx, |_thread_ctx: ThreadContext| panic!("spawned twice"));
    // still the first worker's channel
    assert!(app.press_stop().is_ok());
    assert!(matches!(
        receive(&thread_ctx, WaitMode::Polling),
        Received::Command(AudioControlCommand::Stop)
    ));
    assert_eq!(app.shut_down(), Some(1));
}

#[test]
fn the_controller_reads_the_elapsed_time() {
    let (mut app, mut thread_ctx) = controller_with_worker();
    assert_eq!(app.time_elapsed(), Some(PlaybackTime { nanos: 0 }));
    publish_position(&mut thread_ctx, PlaybackTime { nanos: 61_000_000_000 });
    let elapsed = app.time_elapsed().unwrap();
    assert_eq!(elapsed.minutes(), 1);
    assert_eq!(elapsed.seconds(), 1);
}

#[test]
fn play_pause_button_walks_through_the_statuses() {
    let (mut app, thread_ctx) = controller_with_worker();
    app.set_audio_source(short_track(0.5));
    assert!(app.has_audio_source());

    assert!(app.press_play_pause().is_ok());
    assert_eq!(app.playback_status(), PlaybackStatus::Playing);
    assert!(matches!(
        receive(&thread_ctx, WaitMode::Polling),
        Received::Command(AudioControlCommand::Play(_))
    ));

    assert!(app.press_play_pause().is_ok());
    assert_eq!(app.playback_status(), PlaybackStatus::Paused);
    assert!(matches!(
        receive(&thread_ctx, WaitMode::Polling),
        Received::Command(AudioControlCommand::Pause)
    ));

    assert!(app.press_play_pause().is_ok());
    assert_eq!(app.playback_status(), PlaybackStatus::Playing);
    assert!(matches!(
        receive(&thread_ctx, WaitMode::Polling),
        Received::Command(AudioControlCommand::Continue)
    ));

    assert!(app.press_stop().is_ok());
    assert_eq!(app.playback_status(), PlaybackStatus::Stopped);
    assert!(matches!(
        receive(&thread_ctx, WaitMode::Polling),
        Received::Command(AudioControlCommand::Stop)
    ));
    assert!(matches!(receive(&thread_ctx, WaitMode::Polling), Received::Nothing));
    // the audio is still loaded: the next press plays it again
    assert!(app.has_audio_source());
    assert!(matches!(app.toggle_command(), AudioControlCommand::Play(_)));
}

#[test]
fn toggle_command_follows_the_status() {
    let (mut app, _thread_ctx) = controller_with_worker();
    app.set_audio_source(short_track(0.5));
    assert!(matches!(app.toggle_command(), AudioControlCommand::Play(_)));
    assert!(app.press_play_pause().is_ok());
    assert!(matches!(app.toggle_command(), AudioControlCommand::Pause));
    assert!(app.press_play_pause().is_ok());
    assert!(matches!(app.toggle_command(), AudioControlCommand::Continue));
}

#[test]
fn the_play_command_carries_the_loaded_audio() {
    let (mut app, mut thread_ctx) = controller_with_worker();
    app.set_audio_source(short_track(0.75));
    assert!(app.press_play_pause().is_ok());
    let command = match receive(&thread_ctx, WaitMode::Polling) {
        Received::Command(command) => command,
        _ => panic!("a command was sent"),
    };
    let (mut sink, mut device) = Player::new();
    handle_command(&mut thread_ctx, command, &mut sink);
    assert_eq!(sink.len(), 1);
    let mut heard = Vec::new();
    for _ in 0..20 {
        heard.push(device.next().unwrap());
    }
    assert_eq!(heard, vec![0.75; 20]);
}

#[test]
fn opening_a_file_stops_playback_and_forgets_the_old_audio() {
    let (mut app, thread_ctx) = controller_with_worker();
    app.set_audio_source(short_track(0.5));
    assert!(app.press_play_pause().is_ok());
    assert!(matches!(
        receive(&thread_ctx, WaitMode::Polling),
        Received::Command(AudioControlCommand::Play(_))
    ));
    assert!(app.open_file(String::from("song.mp3")).is_ok());
    assert!(matches!(
        receive(&thread_ctx, WaitMode::Polling),
        Received::Command(AudioControlCommand::Stop)
    ));
    assert_eq!(app.playback_status(), PlaybackStatus::Stopped);
    assert_eq!(app.current_file_name(), Some(&String::from("song.mp3")));
    assert!(!app.has_audio_source());
    app.set_audio_source(short_track(0.25));
    assert!(app.has_audio_source());
    assert_eq!(app.playback_status(), PlaybackStatus::Stopped);
    assert_eq!(app.current_file_name(), Some(&String::from("song.mp3")));
}

#[test]
fn a_dead_worker_leaves_the_controller_as_it_was() {
    let mut app = controller_without_worker();
    assert!(app.is_audio_thread_running());
    assert!(!app.is_worker_lost());
    app.set_audio_source(short_track(0.5));
    match app.press_play_pause() {
        Err(closed) => assert!(matches!(closed.command, AudioControlCommand::Play(_))),
        Ok(()) => panic!("the worker is gone"),
    }
    assert!(app.is_worker_lost());
    assert_eq!(app.playback_status(), PlaybackStatus::Stopped);
    match app.press_stop() {
        Err(closed) => assert!(matches!(closed.command, AudioControlCommand::Stop)),
        Ok(()) => panic!("the worker is gone"),
    }
    assert_eq!(app.playback_status(), PlaybackStatus::Stopped);
    match app.open_file(String::from("other.mp3")) {
        Err(closed) => assert!(matches!(closed.command, AudioControlCommand::Stop)),
        Ok(()) => panic!("the worker is gone"),
    }
    assert!(app.current_file_name().is_none());
    assert!(app.has_audio_source());
    assert!(app.is_worker_lost());
}

#[test]
fn a_live_worker_is_not_reported_lost() {
    let (mut app, _thread_ctx) = controller_with_worker();
    app.set_audio_source(short_track(0.5));
    assert!(app.press_play_pause().is_ok());
    assert!(app.press_stop().is_ok());
    assert!(app.open_file(String::from("song.mp3")).is_ok());
    assert!(!app.is_worker_lost());
}

#[test]
fn nothing_is_sent_once_a_send_has_failed() {
    // The worker's end is kept, but the handle is closed under the
    // controller's feet by shutting it down and spawning again.
    let ui_ctx = eframe::egui::Context::default();
    let mut app = controller_without_worker();
    assert!(app.press_stop().is_err());
    assert!(app.is_worker_lost());
    assert_eq!(app.shut_down(), Some(1));
    let slot: Rc<RefCell<Option<ThreadContext>>> = Rc::new(RefCell::new(None));
    let keep = Rc::clone(&slot);
    app.ensure_audio_thread(&ui_ctx, move |thread_ctx: ThreadContext| {
        *keep.borrow_mut() = Some(thread_ctx);
        2u8
    });
    let thread_ctx = slot.borrow_mut().take().unwrap();
    // This worker lives, yet the controller has given up sending.
    match app.press_stop() {
        Err(closed) => assert!(matches!(closed.command, AudioControlCommand::Stop)),
        Ok(()) => panic!("no command is sent after a failure"),
    }
    assert!(matches!(receive(&thread_ctx, WaitMode::Polling), Received::Nothing));
}

#[test]
fn shut_down_closes_the_channel_and_hands_out_the_join_capability() {
    let (mut app, thread_ctx) = controller_with_worker();
    assert_eq!(app.shut_down(), Some(1));
    assert!(!app.is_audio_thread_running());
    assert!(matches!(receive(&thread_ctx, WaitMode::Blocking), Received::Disconnected));
    // a second shut-down finds nothing to do
    assert_eq!(app.shut_down(), None);
}

#[test]
fn shut_down_without_a_worker_hands_out_nothing() {
    let mut app: AudioCutterApp<u8> = AudioCutterApp::default();
    assert_eq!(app.shut_down(), None);
}
