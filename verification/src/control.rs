//! The control side of the player: what the game asked of the music, and the
//! status last reported by the audio thread.

use vstd::prelude::*;
use crate::music::{MusicStatus, MusicTransition};

verus! {

/// The control state of the music, as plain values.
pub struct ControlModel {
    /// the music loops
    pub looping: bool,
    /// the status last reported by the audio thread
    pub status: MusicStatus,
    /// the music asked for last, if it was not stopped since
    pub index: Option<usize>,
    /// the kind of transition between musics
    pub transition: MusicTransition,
    /// number of musics of the setting
    pub music_count: usize,
}

/// The status after the audio thread reported `received`, oldest first:
/// the last report, or `current` when there was none.
pub open spec fn latest_status(current: MusicStatus, received: Seq<MusicStatus>) -> MusicStatus {
    if received.len() == 0 {
        current
    } else {
        received.last()
    }
}

/// The control state of the music.
pub struct Control {
    looping: bool,
    status: MusicStatus,
    index: Option<usize>,
    transition: MusicTransition,
    music_count: usize,
}

impl View for Control {
    type V = ControlModel;

    closed spec fn view(&self) -> ControlModel {
        ControlModel {
            looping: self.looping,
            status: self.status,
            index: self.index,
            transition: self.transition,
            music_count: self.music_count,
        }
    }
}

impl Control {
    /// The control state at start: no music asked for, status `Stop`.
    pub fn from_setting(music_loop: bool, transition: MusicTransition, music_count: usize) -> (res:
        Control)
        ensures
            res@ == (ControlModel {
                looping: music_loop,
                status: MusicStatus::Stop,
                index: None,
                transition,
                music_count,
            }),
    {
        Control { looping: music_loop, status: MusicStatus::Stop, index: None, transition, music_count }
    }

    /// Ask for the music `music` of the setting.
    pub fn play(&mut self, music: usize)
        requires
            music < old(self)@.music_count,
        ensures
            final(self)@ == (ControlModel { index: Some(music), ..old(self)@ }),
    {
        self.index = Some(music);
    }

    /// Stop the music.
    pub fn stop(&mut self)
        ensures
            final(self)@ == (ControlModel { index: None, ..old(self)@ }),
    {
        self.index = None;
    }

    /// Take in the statuses that the audio thread reported since the last
    /// call, oldest first, and return the current status.
    pub fn status(&mut self, received: &Vec<MusicStatus>) -> (res: MusicStatus)
        ensures
            res == latest_status(old(self)@.status, received@),
            received@.len() == 0 ==> res == old(self)@.status,
            received@.len() > 0 ==> res == received@[received@.len() - 1],
            final(self)@ == (ControlModel { status: res, ..old(self)@ }),
    {
        let mut i: usize = 0;
        while i < received.len()
            invariant
                i <= received@.len(),
                self@ == (ControlModel {
                    status: latest_status(old(self)@.status, received@.take(i as int)),
                    ..old(self)@
                }),
            decreases received@.len() - i,
        {
            self.status = received[i];
            i = i + 1;
            assert(received@.take(i as int).last() == received@[i - 1]);
        }
        assert(received@.take(received@.len() as int) =~= received@);
        self.status
    }

    /// Set whether the music loops.
    pub fn set_looping(&mut self, l: bool)
        ensures
            final(self)@ == (ControlModel { looping: l, ..old(self)@ }),
    {
        self.looping = l;
    }

    /// Whether the music loops.
    pub fn is_looping(&self) -> (res: bool)
        ensures
            res == self@.looping,
    {
        self.looping
    }

    /// The kind of transition between musics.
    pub fn transition(&self) -> (res: MusicTransition)
        ensures
            res == self@.transition,
    {
        self.transition
    }

    /// Set the kind of transition between musics.
    pub fn set_transition(&mut self, trans: MusicTransition)
        ensures
            final(self)@ == (ControlModel { transition: trans, ..old(self)@ }),
    {
        self.transition = trans;
    }

    /// The music asked for last, unless it was stopped since.
    pub fn index(&self) -> (res: Option<usize>)
        ensures
            res == self@.index,
    {
        self.index
    }

    /// Number of musics of the setting.
    pub fn music_count(&self) -> (res: usize)
        ensures
            res == self@.music_count,
    {
        self.music_count
    }
}

/// The status after a batch of reports is its last report, whatever it is
/// (a `Stop` report gives `Stop`), or the status before when the batch is
/// empty.
pub proof fn lemma_last_report_wins(current: MusicStatus, received: Seq<MusicStatus>, last: MusicStatus)
    ensures
        latest_status(current, Seq::empty()) == current,
        latest_status(current, received.push(last)) == last,
        received.len() > 0 ==> latest_status(current, received) == received[received.len() - 1],
{
}

/// Taking in two batches of reports one after the other gives the same
/// status as taking them in at once.
pub proof fn lemma_reports_in_batches(
    current: MusicStatus,
    first: Seq<MusicStatus>,
    second: Seq<MusicStatus>,
)
    ensures
        latest_status(latest_status(current, first), second) == latest_status(
            current,
            first + second,
        ),
{
    if second.len() > 0 {
        assert((first + second).last() == second.last());
    } else {
        assert(first + second =~= first);
    }
}

} // verus!
