//! The voices of one sound effect.
//!
//! An effect is loaded a fixed number of times (its capacity); each load is a
//! voice that plays one instance of the sound. The voices in use form a queue,
//! oldest first: playing the effect takes the next free voice, or, when all
//! are busy, restarts the oldest one, which then becomes the newest.

use vstd::prelude::*;
use crate::channel::{ChannelConv, is_handled_channels};

verus! {

/// Bookkeeping of the voices of one effect: which voices are playing, in the
/// order in which they were started, and how their channels are converted.
pub struct Effect {
    start: usize,
    count: usize,
    capacity: usize,
    channel_conv: ChannelConv,
}

/// `x` reduced into `0..cap`, for `x` below `2 * cap`.
pub open spec fn wrap(x: int, cap: int) -> int {
    if x < cap { x } else { x - cap }
}

/// The number of zero entries of `frames`: the voices that have finished.
pub open spec fn count_finished(frames: Seq<i64>) -> nat
    decreases frames.len(),
{
    if frames.len() == 0 {
        0
    } else {
        count_finished(frames.drop_last()) + if frames.last() == 0 { 1nat } else { 0nat }
    }
}

impl View for Effect {
    type V = Seq<int>;

    /// The playing voices, oldest first.
    closed spec fn view(&self) -> Seq<int> {
        Seq::new(self.count as nat, |i: int| wrap(self.start + i, self.capacity as int))
    }
}

impl Effect {
    /// The bookkeeping is consistent.
    pub closed spec fn wf(&self) -> bool {
        &&& self.capacity >= 1
        &&& self.start < self.capacity
        &&& self.count <= self.capacity
    }

    /// Number of voices of the effect.
    pub closed spec fn spec_capacity(&self) -> nat {
        self.capacity as nat
    }

    /// The voice that the next `play` starts.
    pub closed spec fn next_voice(&self) -> int {
        wrap(self.start + self.count, self.capacity as int)
    }

    /// The channel conversion of the effect's voices.
    pub closed spec fn spec_channel_conv(&self) -> ChannelConv {
        self.channel_conv
    }

    /// An effect of `capacity` voices, none playing, whose file has
    /// `input_channels` channels, for an output of `output_channels`.
    pub fn new(capacity: usize, input_channels: i32, output_channels: i32) -> (res: Effect)
        requires
            capacity >= 1,
            is_handled_channels(input_channels),
            is_handled_channels(output_channels),
        ensures
            res.wf(),
            res@ == Seq::<int>::empty(),
            res.spec_capacity() == capacity,
            res.next_voice() == 0,
            res.spec_channel_conv().spec_input_channels() == input_channels,
            res.spec_channel_conv().spec_output_channels() == output_channels,
    {
        let channel_conv = ChannelConv::from_channels(input_channels, output_channels);
        let res = Effect { start: 0, count: 0, capacity, channel_conv };
        assert(res@ =~= Seq::<int>::empty());
        res
    }

    /// Number of voices of the effect.
    pub fn capacity(&self) -> (res: usize)
        ensures
            res == self.spec_capacity(),
    {
        self.capacity
    }

    /// The channel conversion of the effect's voices.
    pub fn channel_conv(&self) -> (res: ChannelConv)
        ensures
            res == self.spec_channel_conv(),
    {
        self.channel_conv
    }

    /// Start one more instance of the effect and return the voice that plays
    /// it; the caller rewinds that voice and sets its volume. When every voice
    /// is busy, the oldest is restarted.
    pub fn play(&mut self) -> (voice: usize)
        requires
            old(self).wf(),
        ensures
            final(self).wf(),
            voice == old(self).next_voice(),
            voice < old(self).spec_capacity(),
            old(self)@.len() < old(self).spec_capacity() ==> final(self)@ == old(self)@.push(
                voice as int,
            ),
            old(self)@.len() == old(self).spec_capacity() ==> {
                &&& voice == old(self)@[0]
                &&& final(self)@ == old(self)@.drop_first().push(voice as int)
            },
            final(self)@.len() >= 1,
            final(self)@.last() == voice as int,
            final(self).next_voice() == wrap(voice + 1, old(self).spec_capacity() as int),
            final(self).spec_capacity() == old(self).spec_capacity(),
            final(self).spec_channel_conv() == old(self).spec_channel_conv(),
    {
        let ghost old_view = self@;
        let voice = if self.count < self.capacity - self.start {
            self.start + self.count
        } else {
            self.count - (self.capacity - self.start)
        };
        if self.count < self.capacity {
            self.count = self.count + 1;
            assert(self@ =~= old_view.push(voice as int));
        } else {
            self.start = if self.start + 1 < self.capacity { self.start + 1 } else { 0 };
            assert(self@ =~= old_view.drop_first().push(voice as int));
        }
        voice
    }

    /// Stop every voice.
    pub fn stop(&mut self)
        requires
            old(self).wf(),
        ensures
            final(self).wf(),
            final(self)@ == Seq::<int>::empty(),
            final(self).next_voice() == 0,
            final(self).spec_capacity() == old(self).spec_capacity(),
            final(self).spec_channel_conv() == old(self).spec_channel_conv(),
    {
        self.start = 0;
        self.count = 0;
        assert(self@ =~= Seq::<int>::empty());
    }

    /// The playing voices, oldest first: those the audio callback mixes.
    pub fn playing(&self) -> (res: Vec<usize>)
        requires
            self.wf(),
        ensures
            res@.len() == self@.len(),
            forall|i: int| 0 <= i < res@.len() ==> res@[i] as int == #[trigger] self@[i],
    {
        let mut res: Vec<usize> = Vec::new();
        let mut i: usize = 0;
        while i < self.count
            invariant
                self.wf(),
                i <= self.count,
                res@.len() == i,
                forall|j: int| 0 <= j < i ==> res@[j] as int == #[trigger] self@[j],
            decreases self.count - i,
        {
            let voice = if i < self.capacity - self.start {
                self.start + i
            } else {
                i - (self.capacity - self.start)
            };
            res.push(voice);
            i = i + 1;
        }
        res
    }

    /// After a buffer has been mixed: `frames[i]` is the number of frames the
    /// `i`-th playing voice (oldest first) delivered. Each voice that delivered
    /// none has finished, and retires the oldest playing voice.
    pub fn retire(&mut self, frames: &Vec<i64>)
        requires
            old(self).wf(),
            frames@.len() == old(self)@.len(),
        ensures
            final(self).wf(),
            count_finished(frames@) <= old(self)@.len(),
            final(self)@ == old(self)@.skip(count_finished(frames@) as int),
            final(self).next_voice() == old(self).next_voice(),
            final(self).spec_capacity() == old(self).spec_capacity(),
            final(self).spec_channel_conv() == old(self).spec_channel_conv(),
    {
        let ghost old_view = self@;
        let mut finished: usize = 0;
        let mut i: usize = 0;
        while i < frames.len()
            invariant
                i <= frames@.len(),
                frames@.len() == self.count,
                finished == count_finished(frames@.take(i as int)),
                finished <= i,
            decreases frames@.len() - i,
        {
            assert(frames@.take(i + 1).drop_last() =~= frames@.take(i as int));
            if frames[i] == 0 {
                finished = finished + 1;
            }
            i = i + 1;
        }
        assert(frames@.take(frames@.len() as int) =~= frames@);
        self.start = if finished < self.capacity - self.start {
            self.start + finished
        } else {
            finished - (self.capacity - self.start)
        };
        self.count = self.count - finished;
        assert(self@ =~= old_view.skip(finished as int));
    }
}

/// The playing voices of an effect are distinct voices of it, so no more
/// instances play at once than the effect has voices.
pub proof fn lemma_playing_voices_distinct(e: Effect)
    requires
        e.wf(),
    ensures
        e@.no_duplicates(),
        e@.len() <= e.spec_capacity(),
        forall|i: int| 0 <= i < e@.len() ==> 0 <= #[trigger] e@[i] < e.spec_capacity(),
{
}

/// A voice finishes exactly when it delivered no frame: the count of finished
/// voices is zero when every voice delivered frames, the number of voices
/// when none did, and adds up over consecutive voices.
pub proof fn lemma_count_finished(a: Seq<i64>, b: Seq<i64>)
    ensures
        (forall|i: int| 0 <= i < a.len() ==> #[trigger] a[i] != 0) ==> count_finished(a) == 0,
        (forall|i: int| 0 <= i < a.len() ==> #[trigger] a[i] == 0) ==> count_finished(a)
            == a.len(),
        count_finished(a + b) == count_finished(a) + count_finished(b),
        count_finished(a) <= a.len(),
    decreases b.len(),
{
    lemma_count_finished_bounds(a);
    if b.len() > 0 {
        lemma_count_finished(a, b.drop_last());
        assert((a + b).drop_last() =~= a + b.drop_last());
        assert((a + b).last() == b.last());
    } else {
        assert(a + b =~= a);
    }
}

proof fn lemma_count_finished_bounds(a: Seq<i64>)
    ensures
        (forall|i: int| 0 <= i < a.len() ==> #[trigger] a[i] != 0) ==> count_finished(a) == 0,
        (forall|i: int| 0 <= i < a.len() ==> #[trigger] a[i] == 0) ==> count_finished(a)
            == a.len(),
        count_finished(a) <= a.len(),
    decreases a.len(),
{
    if a.len() > 0 {
        lemma_count_finished_bounds(a.drop_last());
        assert forall|i: int| 0 <= i < a.drop_last().len() implies #[trigger] a.drop_last()[i]
            == a[i] by {}
    }
}

} // verus!
