//! The playback control core of an audio player: a worker that owns the audio
//! sink and takes commands from a queue, a cell through which it shows the
//! elapsed time, the handle by which a front end drives it, and the front
//! end's own record of what is playing.

pub mod playback_time;
pub mod sink;
pub mod channel;
pub mod sharing;
pub mod time_cell;
pub mod repaint;
pub mod command;
pub mod playback;
pub mod worker;
pub mod audio_thread;
pub mod audio_cutter_app;
