use vstd::prelude::*;
use crate::audio_thread::{AudioThread, ChannelClosedError};
use crate::command::{clone_source, AudioControlCommand, AudioSourceBuf};
use crate::playback_time::PlaybackTime;
use crate::worker::ThreadContext;

verus! {

/// What the controller believes the worker is doing. The worker never checks
/// it: the controller keeps it in step with the commands it sends.
#[derive(Clone, Copy, Debug, PartialEq, Eq, Structural)]
pub enum PlaybackStatus {
    Playing,
    Paused,
    Stopped,
}

impl PlaybackStatus {
    /// The status after a press of the play/pause button.
    pub open spec fn toggled(self) -> PlaybackStatus {
        match self {
            PlaybackStatus::Playing => PlaybackStatus::Paused,
            PlaybackStatus::Paused => PlaybackStatus::Playing,
            PlaybackStatus::Stopped => PlaybackStatus::Playing,
        }
    }
}

/// The controller: the front end's state, and the decisions behind its
/// buttons.
pub struct AudioCutterApp<J> {
    playback_status: PlaybackStatus,
    audio_thread: Option<AudioThread<J>>,
    current_file_name: Option<String>,
    audio_source: Option<AudioSourceBuf>,
    /// Set once a send has failed: the worker is gone, and no further
    /// command is sent.
    worker_lost: bool,
}

impl<J> Default for AudioCutterApp<J> {
    /// A controller with nothing loaded, nothing playing and no worker yet.
    fn default() -> (app: Self)
        ensures
            app.status() == PlaybackStatus::Stopped,
            !app.has_audio_thread(),
            app.file_name() is None,
            app.source() is None,
            !app.worker_lost(),
    {
        AudioCutterApp {
            playback_status: PlaybackStatus::Stopped,
            audio_thread: None,
            current_file_name: None,
            audio_source: None,
            worker_lost: false,
        }
    }
}

impl<J> AudioCutterApp<J> {
    /// The mirrored playback status.
    pub closed spec fn status(self) -> PlaybackStatus {
        self.playback_status
    }

    /// Whether a worker has been spawned.
    pub open spec fn has_audio_thread(self) -> bool {
        self.thread() is Some
    }

    /// The handle on the worker.
    pub closed spec fn thread(self) -> Option<AudioThread<J>> {
        self.audio_thread
    }

    /// The name of the chosen file.
    pub closed spec fn file_name(self) -> Option<String> {
        self.current_file_name
    }

    /// The decoded audio of the chosen file.
    pub closed spec fn source(self) -> Option<AudioSourceBuf> {
        self.audio_source
    }

    /// Whether a send has failed before: the worker is gone.
    pub closed spec fn worker_lost(self) -> bool {
        self.worker_lost
    }

    /// Whether a command would fail without being sent: the worker was
    /// found gone before, or the handle is closed.
    pub open spec fn cannot_send(self) -> bool {
        self.worker_lost() || !self.thread()->0.is_open()
    }

    /// The command that a press of the play/pause button sends.
    pub open spec fn toggle_command_spec(self) -> AudioControlCommand
        recommends
            self.status() == PlaybackStatus::Stopped ==> self.source() is Some,
    {
        match self.status() {
            PlaybackStatus::Playing => AudioControlCommand::Pause,
            PlaybackStatus::Paused => AudioControlCommand::Continue,
            PlaybackStatus::Stopped => AudioControlCommand::Play(self.source()->0),
        }
    }

    /// The mirrored playback status.
    pub fn playback_status(&self) -> (status: PlaybackStatus)
        ensures
            status == self.status(),
    {
        self.playback_status
    }

    /// Whether a worker has been spawned.
    pub fn is_audio_thread_running(&self) -> (running: bool)
        ensures
            running == self.has_audio_thread(),
    {
        self.audio_thread.is_some()
    }

    /// The name of the chosen file, if one was chosen.
    pub fn current_file_name(&self) -> (name: Option<&String>)
        ensures
            name is Some == self.file_name() is Some,
            name is Some ==> *name->0 == self.file_name()->0,
    {
        self.current_file_name.as_ref()
    }

    /// Whether a send has failed before. The front end shows its notice and
    /// offers no more controls from then on.
    pub fn is_worker_lost(&self) -> (lost: bool)
        ensures
            lost == self.worker_lost(),
    {
        self.worker_lost
    }

    /// Whether decoded audio is at hand for a `Play`.
    pub fn has_audio_source(&self) -> (loaded: bool)
        ensures
            loaded == self.source() is Some,
    {
        self.audio_source.is_some()
    }

    /// Spawns the worker on the first call; later calls change nothing.
    pub fn ensure_audio_thread<F: FnOnce(ThreadContext) -> J>(
        &mut self,
        ui_ctx: &eframe::egui::Context,
        launch: F,
    )
        requires
            forall|thread_ctx: ThreadContext| #[trigger] launch.requires((thread_ctx,)),
        ensures
            final(self).has_audio_thread(),
            old(self).has_audio_thread() ==> *final(self) == *old(self),
            !old(self).has_audio_thread() ==> {
                &&& final(self).thread()->0.is_open()
                &&& !final(self).thread()->0.closure_announced()
                &&& final(self).thread()->0.last_read() == (PlaybackTime { nanos: 0 })
            },
            final(self).status() == old(self).status(),
            final(self).file_name() == old(self).file_name(),
            final(self).source() == old(self).source(),
            final(self).worker_lost() == old(self).worker_lost(),
    {
        if self.audio_thread.is_none() {
            self.audio_thread = Some(AudioThread::spawn(ui_ctx, launch));
        }
    }

    /// Reads the elapsed time that the worker wrote last, once there is a
    /// worker. Nothing of the controller changes but what its handle knows
    /// of the cell.
    pub fn time_elapsed(&mut self) -> (elapsed: Option<PlaybackTime>)
        ensures
            elapsed is Some == old(self).has_audio_thread(),
            elapsed matches Some(time) ==> time == final(self).thread()->0.last_read(),
            final(self).has_audio_thread() == old(self).has_audio_thread(),
            final(self).has_audio_thread() ==> {
                &&& final(self).thread()->0.is_open() == old(self).thread()->0.is_open()
                &&& final(self).thread()->0.join_handle() == old(self).thread()->0.join_handle()
                &&& final(self).thread()->0.closing_flag() == old(self).thread()->0.closing_flag()
            },
            final(self).status() == old(self).status(),
            final(self).file_name() == old(self).file_name(),
            final(self).source() == old(self).source(),
            final(self).worker_lost() == old(self).worker_lost(),
    {
        match &mut self.audio_thread {
            Some(audio_thread) => Some(audio_thread.time_elapsed()),
            None => None,
        }
    }

    /// Takes note of a newly chosen file: stops whatever plays and forgets
    /// the audio of the file before.
    ///
    /// If the worker is gone, only that is noted and the error says so.
    pub fn open_file(&mut self, file_name: String) -> (sent: Result<(), ChannelClosedError>)
        requires
            old(self).has_audio_thread(),
        ensures
            final(self).thread() == old(self).thread(),
            final(self).has_audio_thread(),
            old(self).cannot_send() ==> sent is Err,
            sent matches Err(closed) ==> closed.command == AudioControlCommand::Stop,
            final(self).worker_lost() == (old(self).worker_lost() || sent is Err),
            sent is Err ==> {
                &&& final(self).status() == old(self).status()
                &&& final(self).file_name() == old(self).file_name()
                &&& final(self).source() == old(self).source()
            },
            sent is Ok ==> {
                &&& final(self).status() == PlaybackStatus::Stopped
                &&& final(self).file_name() == Some(file_name)
                &&& final(self).source() is None
            },
    {
        let sent = self.send(AudioControlCommand::Stop);
        if sent.is_ok() {
            self.playback_status = PlaybackStatus::Stopped;
            self.current_file_name = Some(file_name);
            self.audio_source = None;
        }
        sent
    }

    /// Keeps the decoded audio of the chosen file for the next `Play`.
    pub fn set_audio_source(&mut self, audio_source: AudioSourceBuf)
        ensures
            final(self).source() == Some(audio_source),
            final(self).status() == old(self).status(),
            final(self).thread() == old(self).thread(),
            final(self).has_audio_thread() == old(self).has_audio_thread(),
            final(self).file_name() == old(self).file_name(),
            final(self).worker_lost() == old(self).worker_lost(),
    {
        self.audio_source = Some(audio_source);
    }

    /// The stop button: sends `Stop` and, once it is sent, mirrors it.
    ///
    /// If the worker is gone, only that is noted and the error says so.
    pub fn press_stop(&mut self) -> (sent: Result<(), ChannelClosedError>)
        requires
            old(self).has_audio_thread(),
        ensures
            final(self).thread() == old(self).thread(),
            final(self).has_audio_thread(),
            final(self).file_name() == old(self).file_name(),
            final(self).source() == old(self).source(),
            old(self).cannot_send() ==> sent is Err,
            sent matches Err(closed) ==> closed.command == AudioControlCommand::Stop,
            final(self).worker_lost() == (old(self).worker_lost() || sent is Err),
            final(self).status() == if sent is Ok {
                PlaybackStatus::Stopped
            } else {
                old(self).status()
            },
    {
        let sent = self.send(AudioControlCommand::Stop);
        if sent.is_ok() {
            self.playback_status = PlaybackStatus::Stopped;
        }
        sent
    }

    /// The command that a press of the play/pause button sends: `Pause`
    /// while playing, `Continue` while paused, and from a stop `Play` with a
    /// clone of the loaded audio.
    pub fn toggle_command(&self) -> (command: AudioControlCommand)
        requires
            self.status() == PlaybackStatus::Stopped ==> self.source() is Some,
        ensures
            command == self.toggle_command_spec(),
    {
        match self.playback_status {
            PlaybackStatus::Playing => AudioControlCommand::Pause,
            PlaybackStatus::Paused => AudioControlCommand::Continue,
            PlaybackStatus::Stopped => match &self.audio_source {
                Some(audio_source) => AudioControlCommand::Play(clone_source(audio_source)),
                None => vstd::pervasive::unreached(),
            },
        }
    }

    /// The play/pause button: sends the command that fits the status and,
    /// once it is sent, mirrors it.
    ///
    /// If the worker is gone, only that is noted and the error says so.
    pub fn press_play_pause(&mut self) -> (sent: Result<(), ChannelClosedError>)
        requires
            old(self).has_audio_thread(),
            old(self).status() == PlaybackStatus::Stopped ==> old(self).source() is Some,
        ensures
            final(self).thread() == old(self).thread(),
            final(self).has_audio_thread(),
            final(self).file_name() == old(self).file_name(),
            final(self).source() == old(self).source(),
            old(self).cannot_send() ==> sent is Err,
            sent matches Err(closed) ==> closed.command == old(self).toggle_command_spec(),
            final(self).worker_lost() == (old(self).worker_lost() || sent is Err),
            final(self).status() == if sent is Ok {
                old(self).status().toggled()
            } else {
                old(self).status()
            },
    {
        let command = self.toggle_command();
        let sent = self.send(command);
        if sent.is_ok() {
            self.playback_status = match self.playback_status {
                PlaybackStatus::Playing => PlaybackStatus::Paused,
                PlaybackStatus::Paused => PlaybackStatus::Playing,
                PlaybackStatus::Stopped => PlaybackStatus::Playing,
            };
        }
        sent
    }

    /// Gives up the worker: closes its channel and hands out the capability
    /// to join it. Without a worker there is nothing to hand out.
    pub fn shut_down(&mut self) -> (thread_handle: Option<J>)
        ensures
            !final(self).has_audio_thread(),
            thread_handle == match old(self).thread() {
                Some(audio_thread) => audio_thread.join_handle(),
                None => None,
            },
            final(self).status() == old(self).status(),
            final(self).file_name() == old(self).file_name(),
            final(self).source() == old(self).source(),
            final(self).worker_lost() == old(self).worker_lost(),
    {
        match self.audio_thread.take() {
            Some(mut audio_thread) => audio_thread.close(),
            None => None,
        }
    }

    /// Sends a command unless the worker was found gone before, and notes
    /// a failure so that nothing more is sent after it.
    fn send(&mut self, command: AudioControlCommand) -> (sent: Result<(), ChannelClosedError>)
        requires
            old(self).has_audio_thread(),
        ensures
            old(self).cannot_send() ==> sent is Err,
            sent matches Err(closed) ==> closed.command == command,
            final(self).worker_lost() == (old(self).worker_lost() || sent is Err),
            final(self).thread() == old(self).thread(),
            final(self).status() == old(self).status(),
            final(self).file_name() == old(self).file_name(),
            final(self).source() == old(self).source(),
    {
        if self.worker_lost {
            return Err(ChannelClosedError { command });
        }
        let sent = match &self.audio_thread {
            Some(audio_thread) => audio_thread.send(command),
            None => vstd::pervasive::unreached(),
        };
        if sent.is_err() {
            self.worker_lost = true;
        }
        sent
    }
}

} // verus!
