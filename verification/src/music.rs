//! The music player: which musics are loaded, how a transition between two
//! musics proceeds, and which status the player reports.

use vstd::prelude::*;
use crate::channel::{ChannelConv, conv_for, is_handled_channels};

verus! {

/// the status of the music
#[derive(Clone, Copy, Debug, PartialEq, Eq, Structural)]
pub enum MusicStatus {
    /// the music is paused
    Pause,
    /// there is no music
    Stop,
    /// the music is played
    Play,
}

/// the type of transition between musics
#[derive(Clone, Copy, Debug, PartialEq, Eq, Structural)]
pub enum MusicTransition {
    /// the current music end smoothly and then the new one is played.
    Smooth(i64),
    /// the current music end smoothly while the new one begin smoothly.
    Overlap(i64),
    /// the current music is stopped and the new one is played.
    Instant,
}

/// Number of frames over which a transition fades; none for `Instant`.
pub open spec fn spec_transition_frames(t: MusicTransition) -> i64 {
    match t {
        MusicTransition::Smooth(n) => n,
        MusicTransition::Overlap(n) => n,
        MusicTransition::Instant => 0,
    }
}

/// The share of the music volume at which a music is mixed.
#[derive(Clone, Copy, Debug, PartialEq, Eq, Structural)]
pub enum Gain {
    /// the whole music volume
    Full,
    /// the music volume times `done / length`: a music fading in
    FadeIn { done: i64, length: i64 },
    /// the music volume times `1 - done / length`: a music fading out
    FadeOut { done: i64, length: i64 },
}

/// What became of the current music after a buffer was read from it.
#[derive(Clone, Copy, Debug, PartialEq, Eq, Structural)]
pub enum MusicRead {
    /// it goes on
    Playing,
    /// it reached its end and loops: rewind it to its first frame
    Rewind,
    /// it reached its end and does not loop: drop it and report `Stop`
    Ended,
}

/// What the player does when a new music is set.
#[derive(Clone, Copy, Debug, PartialEq, Eq, Structural)]
pub struct MusicChange {
    /// the status to report
    pub status: MusicStatus,
    /// whether the current music (if any) is kept to fade out, replacing the
    /// one that was fading out; otherwise it is dropped
    pub fade_out_previous: bool,
}

/// A request of the control side to the music player of the audio thread.
#[derive(Clone, Copy, Debug, PartialEq, Eq, Structural)]
pub enum MusicCommand {
    /// play a new music, whose file has this many channels
    SetMusic(i32),
    /// pause the player
    Pause,
    /// resume the player
    Resume,
    /// seek the current music
    Seek,
    /// drop the current music
    Stop,
    /// set whether the music loops
    SetLoop(bool),
    /// set the kind of transition between musics
    SetTransition(MusicTransition),
}

/// What the audio thread does with its music files, and reports, after the
/// player handled a command.
#[derive(Clone, Copy, Debug, PartialEq, Eq, Structural)]
pub struct MusicReaction {
    /// the status to report, if any
    pub status: Option<MusicStatus>,
    /// the file of the command becomes the current music
    pub new_music: bool,
    /// before that, the current music (if any) becomes the fading one,
    /// replacing the one that was fading out
    pub fade_out_previous: bool,
    /// the current music is dropped
    pub drop_music: bool,
    /// the fading music, if any, is dropped
    pub drop_fading: bool,
    /// the current music, if any, is seeked
    pub seek_music: bool,
}

/// A reaction that touches no file and reports `status`.
pub open spec fn quiet(status: Option<MusicStatus>) -> MusicReaction {
    MusicReaction {
        status,
        new_music: false,
        fade_out_previous: false,
        drop_music: false,
        drop_fading: false,
        seek_music: false,
    }
}

/// The state of the music player, as plain values.
pub struct MusicModel {
    /// a music is loaded
    pub has_music: bool,
    /// a previous music is fading out
    pub has_transitional: bool,
    /// frames read from the fading music since the transition began
    pub transition_frame: i64,
    /// the kind of transition used when the music changes
    pub transition: MusicTransition,
    /// the player is paused
    pub paused: bool,
    /// the music starts again when it ends
    pub looping: bool,
    /// the channel conversion of the current music
    pub channel_conv: ChannelConv,
    /// the channel conversion of the fading music
    pub transitional_conv: ChannelConv,
    /// number of output channels
    pub output_channels: i32,
}

impl MusicModel {
    /// What every state of the player satisfies: no music fades out while
    /// transitions are instant, and the transition counter is not negative.
    pub open spec fn inv(self) -> bool {
        &&& (self.transition is Instant ==> !self.has_transitional)
        &&& self.transition_frame >= 0
    }

    /// The gain of the current music in the next buffer, if it is mixed.
    /// With a smooth transition the new music waits until the old one has
    /// faded out; with an overlapping one it fades in meanwhile.
    pub open spec fn main_gain(self) -> Option<Gain> {
        if self.paused || !self.has_music {
            None
        } else if self.has_transitional {
            if self.transition is Smooth {
                None
            } else {
                Some(
                    Gain::FadeIn {
                        done: self.transition_frame,
                        length: spec_transition_frames(self.transition),
                    },
                )
            }
        } else {
            Some(Gain::Full)
        }
    }

    /// The gain of the fading music in the next buffer, if it is mixed.
    pub open spec fn transitional_gain(self) -> Option<Gain> {
        if self.paused || !self.has_transitional {
            None
        } else {
            Some(
                Gain::FadeOut {
                    done: self.transition_frame,
                    length: spec_transition_frames(self.transition),
                },
            )
        }
    }

    /// The state after a new music with `channels` channels is set.
    pub open spec fn with_music(self, channels: i32) -> MusicModel {
        if self.transition is Instant {
            MusicModel {
                has_music: true,
                channel_conv: conv_for(channels, self.output_channels),
                ..self
            }
        } else {
            MusicModel {
                has_music: true,
                has_transitional: self.has_music,
                transition_frame: 0,
                channel_conv: conv_for(channels, self.output_channels),
                transitional_conv: self.channel_conv,
                ..self
            }
        }
    }

    /// The state after the player handled `cmd`.
    pub open spec fn after(self, cmd: MusicCommand) -> MusicModel {
        match cmd {
            MusicCommand::SetMusic(channels) => self.with_music(channels),
            MusicCommand::Pause => MusicModel { paused: true, ..self },
            MusicCommand::Resume => MusicModel { paused: false, ..self },
            MusicCommand::Seek => self,
            MusicCommand::Stop => MusicModel { has_music: false, ..self },
            MusicCommand::SetLoop(looping) => MusicModel { looping, ..self },
            MusicCommand::SetTransition(t) => MusicModel {
                transition: t,
                has_transitional: self.has_transitional && !(t is Instant),
                ..self
            },
        }
    }

    /// What the audio thread does with its files, and reports, when the
    /// player handles `cmd`.
    pub open spec fn reaction(self, cmd: MusicCommand) -> MusicReaction {
        match cmd {
            MusicCommand::SetMusic(_) => MusicReaction {
                new_music: true,
                fade_out_previous: !(self.transition is Instant),
                ..quiet(Some(MusicStatus::Play))
            },
            MusicCommand::Pause => quiet(
                if self.has_music {
                    Some(MusicStatus::Pause)
                } else {
                    None
                },
            ),
            MusicCommand::Resume => quiet(
                if self.has_music {
                    Some(MusicStatus::Play)
                } else {
                    None
                },
            ),
            MusicCommand::Seek => MusicReaction { seek_music: self.has_music, ..quiet(None) },
            MusicCommand::Stop => MusicReaction {
                drop_music: true,
                ..quiet(Some(MusicStatus::Stop))
            },
            MusicCommand::SetLoop(_) => quiet(None),
            MusicCommand::SetTransition(t) => MusicReaction {
                drop_fading: t is Instant,
                ..quiet(None)
            },
        }
    }

    /// A command this player can handle: a new music, like the output, is
    /// mono or stereo.
    pub open spec fn accepts(self, cmd: MusicCommand) -> bool {
        cmd matches MusicCommand::SetMusic(channels) ==> is_handled_channels(channels)
            && is_handled_channels(self.output_channels)
    }
}

/// The music player of the audio thread.
pub struct Music {
    has_music: bool,
    has_transitional: bool,
    transition_frame: i64,
    transition_type: MusicTransition,
    pause: bool,
    looping: bool,
    channel_conv: ChannelConv,
    transitional_conv: ChannelConv,
    output_channels: i32,
}

impl View for Music {
    type V = MusicModel;

    closed spec fn view(&self) -> MusicModel {
        MusicModel {
            has_music: self.has_music,
            has_transitional: self.has_transitional,
            transition_frame: self.transition_frame,
            transition: self.transition_type,
            paused: self.pause,
            looping: self.looping,
            channel_conv: self.channel_conv,
            transitional_conv: self.transitional_conv,
            output_channels: self.output_channels,
        }
    }
}

fn transition_frames(t: MusicTransition) -> (res: i64)
    ensures
        res == spec_transition_frames(t),
{
    match t {
        MusicTransition::Smooth(n) => n,
        MusicTransition::Overlap(n) => n,
        MusicTransition::Instant => 0,
    }
}

impl Music {
    /// A player with no music, for an output of `output_channels` channels.
    pub fn new(looping: bool, transition: MusicTransition, output_channels: i32) -> (res: Music)
        ensures
            res@.inv(),
            res@ == (MusicModel {
                has_music: false,
                has_transitional: false,
                transition_frame: 0,
                transition,
                paused: false,
                looping,
                channel_conv: ChannelConv::OneIntoOne,
                transitional_conv: ChannelConv::OneIntoOne,
                output_channels,
            }),
    {
        Music {
            has_music: false,
            has_transitional: false,
            transition_frame: 0,
            transition_type: transition,
            pause: false,
            looping,
            channel_conv: ChannelConv::OneIntoOne,
            transitional_conv: ChannelConv::OneIntoOne,
            output_channels,
        }
    }

    /// The channel conversion of the current music.
    pub fn channel_conv(&self) -> (res: ChannelConv)
        ensures
            res == self@.channel_conv,
    {
        self.channel_conv
    }

    /// The channel conversion of the fading music.
    pub fn transitional_channel_conv(&self) -> (res: ChannelConv)
        ensures
            res == self@.transitional_conv,
    {
        self.transitional_conv
    }

    /// Whether the music restarts when it ends.
    pub fn is_looping(&self) -> (res: bool)
        ensures
            res == self@.looping,
    {
        self.looping
    }

    /// Number of output channels.
    pub fn output_channels(&self) -> (res: i32)
        ensures
            res == self@.output_channels,
    {
        self.output_channels
    }

    /// The kind of transition used when the music changes.
    pub fn transition(&self) -> (res: MusicTransition)
        ensures
            res == self@.transition,
    {
        self.transition_type
    }

    /// Whether the player is paused.
    pub fn is_paused(&self) -> (res: bool)
        ensures
            res == self@.paused,
    {
        self.pause
    }

    /// The gain of the current music in the next buffer; `None` when the
    /// player is paused, has no music, or the music waits for the end of a
    /// smooth transition.
    pub fn main_gain(&self) -> (res: Option<Gain>)
        ensures
            res == self@.main_gain(),
    {
        if self.pause || !self.has_music {
            None
        } else if self.has_transitional {
            match self.transition_type {
                MusicTransition::Smooth(_) => None,
                _ => Some(
                    Gain::FadeIn {
                        done: self.transition_frame,
                        length: transition_frames(self.transition_type),
                    },
                ),
            }
        } else {
            Some(Gain::Full)
        }
    }

    /// Record that `frames_read` frames were read from the current music.
    /// When none were, the music has ended: it rewinds if looping, else it
    /// is dropped.
    pub fn main_read(&mut self, frames_read: i64) -> (res: MusicRead)
        requires
            old(self)@.inv(),
            old(self)@.main_gain() is Some,
        ensures
            final(self)@.inv(),
            res == (if frames_read != 0 {
                MusicRead::Playing
            } else if old(self)@.looping {
                MusicRead::Rewind
            } else {
                MusicRead::Ended
            }),
            final(self)@ == (MusicModel { has_music: res != MusicRead::Ended, ..old(self)@ }),
    {
        if frames_read == 0 {
            if self.looping {
                MusicRead::Rewind
            } else {
                self.has_music = false;
                MusicRead::Ended
            }
        } else {
            MusicRead::Playing
        }
    }

    /// The gain of the music that fades out in the next buffer; `None` when
    /// the player is paused or no music fades out.
    pub fn transitional_gain(&self) -> (res: Option<Gain>)
        ensures
            res == self@.transitional_gain(),
    {
        if self.pause || !self.has_transitional {
            None
        } else {
            Some(
                Gain::FadeOut {
                    done: self.transition_frame,
                    length: transition_frames(self.transition_type),
                },
            )
        }
    }

    /// Record that `frames_read` frames were read from the fading music, and
    /// return whether it is dropped: when the transition is over or the
    /// fading music has ended.
    pub fn transitional_read(&mut self, frames_read: i64) -> (dropped: bool)
        requires
            old(self)@.inv(),
            old(self)@.transitional_gain() is Some,
            frames_read >= 0,
            old(self)@.transition_frame + frames_read <= i64::MAX,
        ensures
            final(self)@.inv(),
            dropped == (old(self)@.transition_frame + frames_read >= spec_transition_frames(
                old(self)@.transition,
            ) || frames_read == 0),
            final(self)@ == (MusicModel {
                has_transitional: !dropped,
                transition_frame: (old(self)@.transition_frame + frames_read) as i64,
                ..old(self)@
            }),
    {
        self.transition_frame = self.transition_frame + frames_read;
        let dropped = self.transition_frame >= transition_frames(self.transition_type)
            || frames_read == 0;
        if dropped {
            self.has_transitional = false;
        }
        dropped
    }

    /// Change the kind of transition; an instant one drops the music that
    /// was fading out. Returns whether the fading music, if any, is dropped.
    pub fn set_transition(&mut self, trans: MusicTransition) -> (drop_fading: bool)
        requires
            old(self)@.inv(),
        ensures
            final(self)@.inv(),
            drop_fading == (trans is Instant),
            final(self)@ == old(self)@.after(MusicCommand::SetTransition(trans)),
            final(self)@.transition == trans,
            final(self)@.has_music == old(self)@.has_music,
    {
        let drop_fading = match trans {
            MusicTransition::Instant => true,
            MusicTransition::Smooth(_) | MusicTransition::Overlap(_) => false,
        };
        if drop_fading {
            self.has_transitional = false;
        }
        self.transition_type = trans;
        drop_fading
    }

    /// Drop the current music; the status to report is returned.
    pub fn stop(&mut self) -> (status: MusicStatus)
        requires
            old(self)@.inv(),
        ensures
            final(self)@.inv(),
            status == MusicStatus::Stop,
            final(self)@ == (MusicModel { has_music: false, ..old(self)@ }),
    {
        self.has_music = false;
        MusicStatus::Stop
    }

    /// Pause the player; the status to report, if any, is returned.
    pub fn pause(&mut self) -> (status: Option<MusicStatus>)
        requires
            old(self)@.inv(),
        ensures
            final(self)@.inv(),
            status == (if old(self)@.has_music {
                Some(MusicStatus::Pause)
            } else {
                None
            }),
            final(self)@ == (MusicModel { paused: true, ..old(self)@ }),
    {
        let status = if self.has_music {
            Some(MusicStatus::Pause)
        } else {
            None
        };
        self.pause = true;
        status
    }

    /// Resume the player; the status to report, if any, is returned.
    pub fn resume(&mut self) -> (status: Option<MusicStatus>)
        requires
            old(self)@.inv(),
        ensures
            final(self)@.inv(),
            status == (if old(self)@.has_music {
                Some(MusicStatus::Play)
            } else {
                None
            }),
            final(self)@ == (MusicModel { paused: false, ..old(self)@ }),
    {
        let status = if self.has_music {
            Some(MusicStatus::Play)
        } else {
            None
        };
        self.pause = false;
        status
    }

    /// Whether a seek applies: only to a current music.
    pub fn seek(&self) -> (res: bool)
        ensures
            res == self@.has_music,
    {
        self.has_music
    }

    /// Set a new music whose file has `channels` channels. With an instant
    /// transition the current music is dropped; otherwise it fades out, with
    /// its own channel conversion, from the start of the transition.
    pub fn set_music(&mut self, channels: i32) -> (change: MusicChange)
        requires
            old(self)@.inv(),
            is_handled_channels(channels),
            is_handled_channels(old(self)@.output_channels),
        ensures
            final(self)@.inv(),
            change.status == MusicStatus::Play,
            change.fade_out_previous == !(old(self)@.transition is Instant),
            final(self)@ == old(self)@.with_music(channels),
            final(self)@.has_music,
            final(self)@.transition == old(self)@.transition,
            change.fade_out_previous ==> {
                &&& final(self)@.transition_frame == 0
                &&& final(self)@.has_transitional == old(self)@.has_music
                &&& final(self)@.transitional_conv == old(self)@.channel_conv
            },
            !change.fade_out_previous ==> {
                &&& final(self)@.transition_frame == old(self)@.transition_frame
                &&& final(self)@.has_transitional == old(self)@.has_transitional
            },
            final(self)@.channel_conv.spec_input_channels() == channels,
            final(self)@.channel_conv.spec_output_channels() == old(self)@.output_channels,
    {
        let conv = ChannelConv::from_channels(channels, self.output_channels);
        let fade_out_previous = match self.transition_type {
            MusicTransition::Instant => false,
            MusicTransition::Smooth(_) | MusicTransition::Overlap(_) => true,
        };
        if fade_out_previous {
            self.has_transitional = self.has_music;
            self.transition_frame = 0;
            self.transitional_conv = self.channel_conv;
        }
        self.channel_conv = conv;
        self.has_music = true;
        MusicChange { status: MusicStatus::Play, fade_out_previous }
    }

    /// Set whether the music restarts when it ends.
    pub fn set_loop(&mut self, looping: bool)
        requires
            old(self)@.inv(),
        ensures
            final(self)@.inv(),
            final(self)@ == (MusicModel { looping, ..old(self)@ }),
    {
        self.looping = looping;
    }

    /// Handle a request of the control side: the player's new state is
    /// `after(cmd)`, and the reaction says what becomes of the music files
    /// and what is reported.
    pub fn handle(&mut self, cmd: MusicCommand) -> (reaction: MusicReaction)
        requires
            old(self)@.inv(),
            old(self)@.accepts(cmd),
        ensures
            final(self)@.inv(),
            final(self)@ == old(self)@.after(cmd),
            reaction == old(self)@.reaction(cmd),
    {
        let none = MusicReaction {
            status: None,
            new_music: false,
            fade_out_previous: false,
            drop_music: false,
            drop_fading: false,
            seek_music: false,
        };
        match cmd {
            MusicCommand::SetMusic(channels) => {
                let change = self.set_music(channels);
                MusicReaction {
                    status: Some(change.status),
                    new_music: true,
                    fade_out_previous: change.fade_out_previous,
                    ..none
                }
            },
            MusicCommand::Pause => MusicReaction { status: self.pause(), ..none },
            MusicCommand::Resume => MusicReaction { status: self.resume(), ..none },
            MusicCommand::Seek => MusicReaction { seek_music: self.seek(), ..none },
            MusicCommand::Stop => {
                let status = self.stop();
                MusicReaction { status: Some(status), drop_music: true, ..none }
            },
            MusicCommand::SetLoop(looping) => {
                self.set_loop(looping);
                none
            },
            MusicCommand::SetTransition(t) => {
                let drop_fading = self.set_transition(t);
                MusicReaction { drop_fading, ..none }
            },
        }
    }
}

/// During an overlapping transition the two musics share one fade: the new
/// one is mixed at `done / length` of the music volume and the old one at
/// the rest, so together they keep the music volume.
pub proof fn lemma_overlap_fades_are_complementary(m: MusicModel)
    requires
        m.inv(),
        m.transition is Overlap,
        !m.paused,
        m.has_music,
        m.has_transitional,
    ensures
        m.main_gain() matches Some(Gain::FadeIn { done: d1, length: l1 })
            && m.transitional_gain() matches Some(Gain::FadeOut { done: d2, length: l2 })
            && d1 == d2 && l1 == l2,
{
}

/// During a smooth transition only the old music is heard, fading out; the
/// new one is not mixed until the old one is dropped, and then at full gain.
pub proof fn lemma_smooth_plays_new_music_after_old(m: MusicModel)
    requires
        m.inv(),
        m.transition is Smooth,
        !m.paused,
        m.has_music,
        m.has_transitional,
    ensures
        m.main_gain() is None,
        m.transitional_gain() is Some,
        (MusicModel { has_transitional: false, ..m }).main_gain() == Some(Gain::Full),
{
}

/// A paused player mixes nothing.
pub proof fn lemma_paused_mixes_nothing(m: MusicModel)
    requires
        m.paused,
    ensures
        m.main_gain() is None,
        m.transitional_gain() is None,
{
}

/// Resuming undoes pausing: a playing player that is paused and then
/// resumed is back in the same state.
pub proof fn lemma_resume_undoes_pause(m: MusicModel)
    requires
        !m.paused,
    ensures
        m.after(MusicCommand::Pause).after(MusicCommand::Resume) == m,
{
}

/// With instant transitions no music fades out: nothing but the current
/// music is ever mixed.
pub proof fn lemma_instant_has_no_fade(m: MusicModel)
    requires
        m.inv(),
        m.transition is Instant,
    ensures
        m.transitional_gain() is None,
        m.main_gain() is Some ==> m.main_gain() == Some(Gain::Full),
{
}

/// A fading music keeps the channel conversion of its own file: setting a
/// new music with a fading transition moves the current conversion to the
/// fading music.
pub proof fn lemma_fading_keeps_its_conversion(m: MusicModel, channels: i32)
    requires
        !(m.transition is Instant),
        m.has_music,
    ensures
        m.with_music(channels).has_transitional,
        m.with_music(channels).transitional_conv == m.channel_conv,
{
}

/// The length of a fade is the number of frames its transition names.
pub proof fn lemma_transition_lengths(n: i64)
    ensures
        spec_transition_frames(MusicTransition::Smooth(n)) == n,
        spec_transition_frames(MusicTransition::Overlap(n)) == n,
{
}

/// Setting a music with a smooth or overlapping transition of `n` frames
/// starts a new transition from its first frame: the previous music, if
/// any, fades out from `done == 0` over `n` frames, and with an overlap the
/// new one fades in over the same frames.
pub proof fn lemma_new_transition_starts_at_zero(m: MusicModel, channels: i32, n: i64)
    requires
        m.transition == MusicTransition::Smooth(n) || m.transition == MusicTransition::Overlap(
            n,
        ),
        !m.paused,
    ensures
        m.with_music(channels).transition_frame == 0,
        m.with_music(channels).has_music,
        m.with_music(channels).has_transitional == m.has_music,
        m.has_music ==> m.with_music(channels).transitional_gain() == Some(
            Gain::FadeOut { done: 0, length: n },
        ),
        m.has_music && m.transition == MusicTransition::Overlap(n) ==> m.with_music(
            channels,
        ).main_gain() == Some(Gain::FadeIn { done: 0, length: n }),
        !m.has_music ==> m.with_music(channels).main_gain() == Some(Gain::Full),
{
}

/// With an instant transition a new music replaces the current one at once:
/// nothing fades out and the new music plays at full gain.
pub proof fn lemma_instant_change_replaces(m: MusicModel, channels: i32)
    requires
        m.inv(),
        m.transition is Instant,
        !m.paused,
    ensures
        m.with_music(channels).main_gain() == Some(Gain::Full),
        m.with_music(channels).transitional_gain() is None,
{
}

/// During an overlap of `n` frames, after `done` frames of the fading music
/// were read, the new music is mixed at `done / n` and the old one at the
/// rest.
pub proof fn lemma_overlap_gains(m: MusicModel, n: i64)
    requires
        m.transition == MusicTransition::Overlap(n),
        !m.paused,
        m.has_music,
        m.has_transitional,
    ensures
        m.main_gain() == Some(Gain::FadeIn { done: m.transition_frame, length: n }),
        m.transitional_gain() == Some(Gain::FadeOut { done: m.transition_frame, length: n }),
{
}

/// Setting the kind of transition sets it, whatever kind it is, and keeps
/// the current music and the other settings of the player.
pub proof fn lemma_set_transition_sets_it(m: MusicModel, t: MusicTransition)
    ensures
        m.after(MusicCommand::SetTransition(t)).transition == t,
        m.after(MusicCommand::SetTransition(t)).has_music == m.has_music,
        m.after(MusicCommand::SetTransition(t)).looping == m.looping,
        m.after(MusicCommand::SetTransition(t)).paused == m.paused,
        !(t is Instant) ==> m.after(MusicCommand::SetTransition(t)).has_transitional
            == m.has_transitional,
        t is Instant ==> !m.after(MusicCommand::SetTransition(t)).has_transitional,
{
}

/// Only `Stop` drops the current music, only `SetMusic` brings a new one,
/// only an instant `SetTransition` drops the fading music, and only `Seek`
/// seeks, and only when there is a music.
pub proof fn lemma_commands_touch_files(m: MusicModel, cmd: MusicCommand)
    ensures
        m.reaction(cmd).drop_music <==> cmd is Stop,
        m.reaction(cmd).new_music <==> cmd is SetMusic,
        m.reaction(cmd).fade_out_previous ==> cmd is SetMusic,
        m.reaction(cmd).drop_fading <==> cmd == MusicCommand::SetTransition(
            MusicTransition::Instant,
        ),
        m.reaction(cmd).seek_music <==> (cmd is Seek && m.has_music),
        m.after(cmd).has_music == (if cmd is Stop {
            false
        } else if cmd is SetMusic {
            true
        } else {
            m.has_music
        }),
{
}

/// Pausing and resuming touch no music file and keep the current music;
/// they report `Pause` and `Play` exactly when there is a music.
pub proof fn lemma_pause_resume_keep_music(m: MusicModel)
    ensures
        m.reaction(MusicCommand::Pause) == (MusicReaction {
            status: if m.has_music {
                Some(MusicStatus::Pause)
            } else {
                None
            },
            new_music: false,
            fade_out_previous: false,
            drop_music: false,
            drop_fading: false,
            seek_music: false,
        }),
        m.reaction(MusicCommand::Resume) == (MusicReaction {
            status: if m.has_music {
                Some(MusicStatus::Play)
            } else {
                None
            },
            new_music: false,
            fade_out_previous: false,
            drop_music: false,
            drop_fading: false,
            seek_music: false,
        }),
        m.after(MusicCommand::Pause).has_music == m.has_music,
        m.after(MusicCommand::Pause).paused,
        !m.after(MusicCommand::Resume).paused,
        m.after(MusicCommand::Resume).has_music == m.has_music,
        m.reaction(MusicCommand::Stop).status == Some(MusicStatus::Stop),
        m.reaction(MusicCommand::SetMusic(1)).status == Some(MusicStatus::Play),
{
}

} // verus!
