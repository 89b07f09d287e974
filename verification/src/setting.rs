//! Checking a setting before the player starts.

use vstd::prelude::*;
use crate::channel::is_handled_channels;
use crate::config::CheckLevel;
use crate::control::{Control, ControlModel};
use crate::music::{MusicStatus, MusicTransition};

verus! {

/// error possible on init, as far as checking the setting and the state of
/// the player decide it (the audio stream's own errors arise where it is
/// opened)
#[derive(Debug, PartialEq, Eq)]
pub enum InitError {
    /// sound file error, by its libsndfile error code, and the file
    SndFile((i32, String)),
    /// samplerate of this file doesn't match the setting
    SampleRate(String),
    /// channels of this file cannot be handled properly: not 1 or 2
    Channels(String),
    /// output channels cannot be handled properly: not 1 or 2
    OutputChannels,
    /// baal has already been initialized
    DoubleInit,
}

/// What opening a sound file of the setting told.
#[derive(Debug, Clone, Copy, PartialEq, Eq, Structural)]
pub enum FileProbe {
    /// the file could not be opened; the libsndfile error code
    Unreadable(i32),
    /// the file was opened
    Readable {
        /// its sample rate equals that of the setting
        same_sample_rate: bool,
        /// its number of channels
        channels: i32,
    },
}

/// A sound file of the setting, by the name the setting gives it, and what
/// opening it told.
pub struct ProbedFile {
    /// the file name, relative to its directory
    pub name: String,
    /// what opening the file told
    pub probe: FileProbe,
}

/// The error that a probed file raises, if any.
pub open spec fn probe_error(f: ProbedFile) -> Option<InitError> {
    match f.probe {
        FileProbe::Unreadable(code) => Some(InitError::SndFile((code, f.name))),
        FileProbe::Readable { same_sample_rate, channels } => if !same_sample_rate {
            Some(InitError::SampleRate(f.name))
        } else if !is_handled_channels(channels) {
            Some(InitError::Channels(f.name))
        } else {
            None
        },
    }
}

/// The error of the first file, in order, that raises one.
pub open spec fn first_error(files: Seq<ProbedFile>) -> Option<InitError>
    decreases files.len(),
{
    if files.len() == 0 {
        None
    } else if probe_error(files[0]) is Some {
        probe_error(files[0])
    } else {
        first_error(files.drop_first())
    }
}

/// The outcome of checking a setting: its output channels first, then its
/// musics when they are checked, then its effects, each in order.
pub open spec fn setting_outcome(
    channels: i32,
    check_music: bool,
    music: Seq<ProbedFile>,
    effects: Seq<ProbedFile>,
) -> Result<(), InitError> {
    if !is_handled_channels(channels) {
        Err(InitError::OutputChannels)
    } else if check_music && first_error(music) is Some {
        Err(first_error(music).unwrap())
    } else if first_error(effects) is Some {
        Err(first_error(effects).unwrap())
    } else {
        Ok(())
    }
}

fn probe_error_of(f: &ProbedFile) -> (res: Option<InitError>)
    ensures
        res == probe_error(*f),
{
    match f.probe {
        FileProbe::Unreadable(code) => Some(InitError::SndFile((code, f.name.clone()))),
        FileProbe::Readable { same_sample_rate, channels } => if !same_sample_rate {
            Some(InitError::SampleRate(f.name.clone()))
        } else if channels != 1 && channels != 2 {
            Some(InitError::Channels(f.name.clone()))
        } else {
            None
        },
    }
}

/// The error of the first file, in order, that raises one.
pub fn first_file_error(files: &Vec<ProbedFile>) -> (res: Option<InitError>)
    ensures
        res == first_error(files@),
{
    let mut i: usize = 0;
    assert(files@.skip(0) =~= files@);
    while i < files.len()
        invariant
            i <= files@.len(),
            first_error(files@) == first_error(files@.skip(i as int)),
        decreases files@.len() - i,
    {
        let ghost rest = files@.skip(i as int);
        assert(rest[0] == files@[i as int]);
        match probe_error_of(&files[i]) {
            Some(e) => {
                return Some(e);
            },
            None => {},
        }
        assert(rest.drop_first() =~= files@.skip(i + 1));
        i = i + 1;
    }
    None
}

/// Check a setting whose output has `channels` channels, given what opening
/// its music and effect files told. Musics are checked only when
/// `check_level` asks for it in a build that is a debug build exactly when
/// `debug_build` holds; the entries of `music` are then ignored otherwise.
pub fn check_setting(
    channels: i32,
    check_level: CheckLevel,
    debug_build: bool,
    music: &Vec<ProbedFile>,
    effects: &Vec<ProbedFile>,
) -> (res: Result<(), InitError>)
    ensures
        res == setting_outcome(channels, check_level.checks(debug_build), music@, effects@),
{
    if channels != 1 && channels != 2 {
        return Err(InitError::OutputChannels);
    }
    if check_level.check(debug_build) {
        match first_file_error(music) {
            Some(e) => {
                return Err(e);
            },
            None => {},
        }
    }
    match first_file_error(effects) {
        Some(e) => Err(e),
        None => Ok(()),
    }
}

/// What a setting says of the player, besides its files.
#[derive(Debug, Clone, Copy, PartialEq, Eq, Structural)]
pub struct SettingSummary {
    /// number of output channels
    pub channels: i32,
    /// whether musics are checked
    pub check_level: CheckLevel,
    /// whether the music loops
    pub music_loop: bool,
    /// the kind of transition between musics
    pub music_transition: MusicTransition,
    /// number of musics
    pub music_count: usize,
}

/// The control state a player starts with under a setting: no music asked
/// for, status `Stop`, looping and transition as the setting says.
pub open spec fn start_control(s: SettingSummary) -> ControlModel {
    ControlModel {
        looping: s.music_loop,
        status: MusicStatus::Stop,
        index: None,
        transition: s.music_transition,
        music_count: s.music_count,
    }
}

/// The outcome of checking a setting, given what opening its files told.
pub open spec fn summary_outcome(
    s: SettingSummary,
    debug_build: bool,
    music: Seq<ProbedFile>,
    effects: Seq<ProbedFile>,
) -> Result<(), InitError> {
    setting_outcome(s.channels, s.check_level.checks(debug_build), music, effects)
}

/// Whether the player runs: it is started by `init` and stopped by `close`,
/// after which it can be started again.
pub struct Player {
    initialized: bool,
}

impl Player {
    /// Whether the player runs.
    pub closed spec fn spec_initialized(&self) -> bool {
        self.initialized
    }

    /// A player that does not run yet.
    pub fn new() -> (res: Player)
        ensures
            !res.spec_initialized(),
    {
        Player { initialized: false }
    }

    /// Whether the player runs.
    pub fn is_initialized(&self) -> (res: bool)
        ensures
            res == self.spec_initialized(),
    {
        self.initialized
    }

    /// The control state for `setting`, once it was accepted.
    fn start(setting: &SettingSummary) -> (res: Control)
        ensures
            res@ == start_control(*setting),
    {
        Control::from_setting(setting.music_loop, setting.music_transition, setting.music_count)
    }

    /// Start the player with a setting: refused with `DoubleInit` when it
    /// already runs, else refused with the first error of the setting; on
    /// success the player runs with the control state the setting gives.
    pub fn init(
        &mut self,
        setting: &SettingSummary,
        debug_build: bool,
        music: &Vec<ProbedFile>,
        effects: &Vec<ProbedFile>,
    ) -> (res: Result<Control, InitError>)
        ensures
            match res {
                Ok(control) => {
                    &&& !old(self).spec_initialized()
                    &&& summary_outcome(*setting, debug_build, music@, effects@) == Ok::<
                        (),
                        InitError,
                    >(())
                    &&& control@ == start_control(*setting)
                },
                Err(e) => if old(self).spec_initialized() {
                    e == InitError::DoubleInit
                } else {
                    summary_outcome(*setting, debug_build, music@, effects@) == Err::<
                        (),
                        InitError,
                    >(e)
                },
            },
            final(self).spec_initialized() == (old(self).spec_initialized() || res is Ok),
    {
        if self.initialized {
            return Err(InitError::DoubleInit);
        }
        match check_setting(setting.channels, setting.check_level, debug_build, music, effects) {
            Ok(()) => {
                self.initialized = true;
                Ok(Self::start(setting))
            },
            Err(e) => Err(e),
        }
    }

    /// Restart the player with a new setting: refused with the first error
    /// of the setting, which leaves the running player as it was; on success
    /// the player runs anew with the control state the setting gives. Only
    /// a running player can be restarted with a setting that is accepted.
    pub fn reset(
        &mut self,
        setting: &SettingSummary,
        debug_build: bool,
        music: &Vec<ProbedFile>,
        effects: &Vec<ProbedFile>,
    ) -> (res: Result<Control, InitError>)
        requires
            old(self).spec_initialized() || summary_outcome(
                *setting,
                debug_build,
                music@,
                effects@,
            ) is Err,
        ensures
            match res {
                Ok(control) => {
                    &&& summary_outcome(*setting, debug_build, music@, effects@) == Ok::<
                        (),
                        InitError,
                    >(())
                    &&& control@ == start_control(*setting)
                },
                Err(e) => summary_outcome(*setting, debug_build, music@, effects@) == Err::<
                    (),
                    InitError,
                >(e),
            },
            final(self).spec_initialized() == old(self).spec_initialized(),
    {
        match check_setting(setting.channels, setting.check_level, debug_build, music, effects) {
            Ok(()) => Ok(Self::start(setting)),
            Err(e) => Err(e),
        }
    }

    /// Stop the player; it can be started again.
    pub fn close(&mut self)
        ensures
            !final(self).spec_initialized(),
    {
        self.initialized = false;
    }
}

/// Checking a setting never answers `DoubleInit`: so a closed player, which
/// `init` does not refuse as running, can be started again and is refused
/// only for its setting.
pub proof fn lemma_setting_never_double_init(
    channels: i32,
    check_music: bool,
    music: Seq<ProbedFile>,
    effects: Seq<ProbedFile>,
)
    ensures
        setting_outcome(channels, check_music, music, effects) != Err::<(), InitError>(
            InitError::DoubleInit,
        ),
{
    lemma_first_error_not_double_init(music);
    lemma_first_error_not_double_init(effects);
}

/// A file never raises `DoubleInit`.
pub proof fn lemma_first_error_not_double_init(files: Seq<ProbedFile>)
    ensures
        first_error(files) != Some(InitError::DoubleInit),
    decreases files.len(),
{
    if files.len() > 0 {
        lemma_first_error_not_double_init(files.drop_first());
    }
}

/// A setting is accepted exactly when its output is mono or stereo and every
/// checked file opens, has the setting's sample rate and is mono or stereo.
pub proof fn lemma_setting_accepted(
    channels: i32,
    check_music: bool,
    music: Seq<ProbedFile>,
    effects: Seq<ProbedFile>,
)
    ensures
        setting_outcome(channels, check_music, music, effects) is Ok <==> {
            &&& is_handled_channels(channels)
            &&& check_music ==> forall|i: int|
                0 <= i < music.len() ==> #[trigger] probe_error(music[i]) is None
            &&& forall|i: int| 0 <= i < effects.len() ==> #[trigger] probe_error(effects[i]) is None
        },
{
    lemma_first_error_none(music);
    lemma_first_error_none(effects);
}

/// No file raises an error exactly when the first error is none.
pub proof fn lemma_first_error_none(files: Seq<ProbedFile>)
    ensures
        first_error(files) is None <==> forall|i: int|
            0 <= i < files.len() ==> #[trigger] probe_error(files[i]) is None,
    decreases files.len(),
{
    if files.len() > 0 {
        lemma_first_error_none(files.drop_first());
        if first_error(files) is None {
            assert forall|i: int| 0 <= i < files.len() implies #[trigger] probe_error(
                files[i],
            ) is None by {
                if i > 0 {
                    assert(files[i] == files.drop_first()[i - 1]);
                }
            }
        } else if probe_error(files[0]) is None {
            let j = choose|j: int|
                0 <= j < files.drop_first().len() && #[trigger] probe_error(
                    files.drop_first()[j],
                ) is Some;
            assert(files.drop_first()[j] == files[j + 1]);
        }
    }
}

/// What each probed file raises, whatever its other properties: an
/// unreadable file raises `SndFile` with its code and name; a readable file
/// whose sample rate differs from the setting's raises `SampleRate` with its
/// name, whatever its channel count; a readable file of the setting's sample
/// rate raises `Channels` with its name exactly when it is neither mono nor
/// stereo, and nothing otherwise.
pub proof fn lemma_probe_errors(name: String, code: i32, channels: i32)
    ensures
        probe_error(ProbedFile { name, probe: FileProbe::Unreadable(code) }) == Some(
            InitError::SndFile((code, name)),
        ),
        probe_error(
            ProbedFile { name, probe: FileProbe::Readable { same_sample_rate: false, channels } },
        ) == Some(InitError::SampleRate(name)),
        probe_error(
            ProbedFile { name, probe: FileProbe::Readable { same_sample_rate: true, channels } },
        ) == (if channels == 1 || channels == 2 {
            None
        } else {
            Some(InitError::Channels(name))
        }),
{
}

/// The first error of a list is that of its first file when that file
/// raises one, and the first error of the rest otherwise; over two lists in
/// a row it is the first error of the first list, or else of the second.
pub proof fn lemma_first_error_in_order(a: Seq<ProbedFile>, b: Seq<ProbedFile>)
    ensures
        first_error(a + b) == (if first_error(a) is Some {
            first_error(a)
        } else {
            first_error(b)
        }),
        a.len() > 0 && probe_error(a[0]) is Some ==> first_error(a) == probe_error(a[0]),
    decreases a.len(),
{
    if a.len() > 0 {
        assert((a + b).drop_first() =~= a.drop_first() + b);
        assert((a + b)[0] == a[0]);
        lemma_first_error_in_order(a.drop_first(), b);
    } else {
        assert(a + b =~= b);
    }
}

/// A setting holding a checked file whose sample rate differs from the
/// setting's is refused, whatever the file's channel count.
pub proof fn lemma_rate_mismatch_refused(
    channels: i32,
    check_music: bool,
    music: Seq<ProbedFile>,
    effects: Seq<ProbedFile>,
    i: int,
    file_channels: i32,
)
    requires
        0 <= i < effects.len(),
        effects[i].probe == (FileProbe::Readable {
            same_sample_rate: false,
            channels: file_channels,
        }),
    ensures
        setting_outcome(channels, check_music, music, effects) is Err,
{
    lemma_first_error_none(effects);
    assert(probe_error(effects[i]) is Some);
}

/// The output channels are checked before any file: a setting whose output
/// is neither mono nor stereo is refused with `OutputChannels`, whatever its
/// files. Unchecked musics do not matter, and the effects are checked
/// whether or not the musics are.
pub proof fn lemma_setting_check_order(
    channels: i32,
    music: Seq<ProbedFile>,
    other_music: Seq<ProbedFile>,
    effects: Seq<ProbedFile>,
)
    ensures
        !(channels == 1 || channels == 2) ==> setting_outcome(channels, true, music, effects)
            == Err::<(), InitError>(InitError::OutputChannels),
        setting_outcome(channels, false, music, effects) == setting_outcome(
            channels,
            false,
            other_music,
            effects,
        ),
        (channels == 1 || channels == 2) && first_error(effects) is Some ==> setting_outcome(
            channels,
            false,
            music,
            effects,
        ) == Err::<(), InitError>(first_error(effects).unwrap()),
{
}

} // verus!
