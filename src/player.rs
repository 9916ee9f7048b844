use vstd::prelude::*;

verus! {

/// What to ask the player for.
#[derive(Debug, Clone, Copy, PartialEq, Eq, Structural)]
pub enum PlaybackCommand {
    Pause,
    Resume,
}

/// The device that plays, and whether it is playing.
#[derive(Debug)]
pub struct Playback {
    pub device_id: Option<String>,
    pub playing: bool,
}

impl Playback {
    /// No device chosen yet, and nothing playing.
    pub fn new() -> (r: Playback)
        ensures
            r.device_id is None,
            !r.playing,
    {
        Playback { device_id: None, playing: false }
    }

    pub fn set_device_id(&mut self, id: Option<String>)
        ensures
            final(self).device_id == id,
            final(self).playing == old(self).playing,
    {
        self.device_id = id;
    }

    pub fn set_playing(&mut self, playing: bool)
        ensures
            final(self).device_id == old(self).device_id,
            final(self).playing == playing,
    {
        self.playing = playing;
    }

    /// Toggling pauses what plays and resumes what does not.
    pub fn toggle_command(&self) -> (r: PlaybackCommand)
        ensures
            r == (if self.playing {
                PlaybackCommand::Pause
            } else {
                PlaybackCommand::Resume
            }),
    {
        if self.playing {
            PlaybackCommand::Pause
        } else {
            PlaybackCommand::Resume
        }
    }

    /// The player carried out `command`.
    pub fn command_done(&mut self, command: PlaybackCommand)
        ensures
            final(self).device_id == old(self).device_id,
            final(self).playing == (command == PlaybackCommand::Resume),
    {
        self.playing = match command {
            PlaybackCommand::Pause => false,
            PlaybackCommand::Resume => true,
        };
    }
}

} // verus!
