//! The mixer's ducking rule: music is turned down while speech is heard and
//! back up after a stretch of silence. The volume fades and the mixing of
//! samples (in floating point) happen in the application.

use vstd::prelude::*;

use std::sync::{Arc, Mutex};

use crate::buffer::PlaybackBuffer;
use crate::sources::{silence, silence_run, Sample};

verus! {

/// Samples per chunk: 20 ms at 48 kHz, one Discord Opus frame.
pub const CHUNK_SIZE: usize = 960;

/// A speech sample beyond this amplitude counts as sound.
pub const SILENCE_THRESHOLD: i16 = 100;

/// Consecutive silent speech samples after which music comes back up
/// (100 ms at 48 kHz).
pub const UNDUCK_SILENCE_SAMPLES: usize = 4800;

/// A speech sample is heard: either channel beyond the threshold.
pub open spec fn audible(s: Sample) -> bool {
    s.0 > SILENCE_THRESHOLD || s.0 < -SILENCE_THRESHOLD || s.1 > SILENCE_THRESHOLD || s.1
        < -SILENCE_THRESHOLD
}

/// The ducking state (silent samples counted, music turned down) after one
/// speech sample: sound turns the music down at once; silence is counted
/// (up to the largest `usize`) and brings the music back up once it has
/// lasted [UNDUCK_SILENCE_SAMPLES] samples.
pub open spec fn duck_step(count: usize, ducked: bool, s: Sample) -> (usize, bool) {
    if audible(s) {
        (0usize, true)
    } else {
        let c: usize = if count == usize::MAX {
            count
        } else {
            (count + 1) as usize
        };
        (c, ducked && c < UNDUCK_SILENCE_SAMPLES)
    }
}

/// The ducking state after a run of speech samples, in order.
pub open spec fn duck_run(count: usize, ducked: bool, samples: Seq<Sample>) -> (usize, bool)
    decreases samples.len(),
{
    if samples.len() == 0 {
        (count, ducked)
    } else {
        let (c, d) = duck_run(count, ducked, samples.drop_last());
        duck_step(c, d, samples.last())
    }
}

/// Speech turns the music down at once, and it stays down through the
/// silence after it until [UNDUCK_SILENCE_SAMPLES] silent samples have
/// passed: after sound and `n` silent samples, the music is down exactly
/// when `n` is below that count.
pub proof fn law_unduck_after_silence(count: usize, ducked: bool, sound: Sample, n: nat)
    requires
        audible(sound),
    ensures
        duck_run(count, ducked, seq![sound] + silence_run(n)).1 == (n < UNDUCK_SILENCE_SAMPLES),
        duck_run(count, ducked, seq![sound] + silence_run(n)).0 == (if n < usize::MAX {
            n
        } else {
            usize::MAX as nat
        }),
    decreases n,
{
    if n == 0 {
        assert(seq![sound] + silence_run(0) =~= seq![sound]);
        assert(seq![sound].drop_last() =~= Seq::<Sample>::empty());
    } else {
        law_unduck_after_silence(count, ducked, sound, (n - 1) as nat);
        let run = seq![sound] + silence_run(n);
        assert(run.drop_last() =~= seq![sound] + silence_run((n - 1) as nat));
        assert(run.last() == silence());
        assert(!audible(silence()));
    }
}

/// Whether music is turned down, and for how many samples speech has been
/// silent.
pub struct Ducking {
    pub silence_count: usize,
    pub ducked: bool,
}

impl Ducking {
    /// Not ducked, as after a long silence.
    pub fn new() -> (d: Self)
        ensures
            d.silence_count == UNDUCK_SILENCE_SAMPLES,
            !d.ducked,
    {
        Ducking { silence_count: UNDUCK_SILENCE_SAMPLES, ducked: false }
    }

    /// Takes in one speech sample: sound ducks the music at once; silence
    /// brings it back once it has lasted long enough.
    pub fn observe(&mut self, tts: Sample)
        ensures
            (final(self).silence_count, final(self).ducked) == duck_step(
                old(self).silence_count,
                old(self).ducked,
                tts,
            ),
    {
        let heard = tts.0 > SILENCE_THRESHOLD || tts.0 < -SILENCE_THRESHOLD || tts.1
            > SILENCE_THRESHOLD || tts.1 < -SILENCE_THRESHOLD;
        if heard {
            self.silence_count = 0;
            self.ducked = true;
        } else {
            if self.silence_count < usize::MAX {
                self.silence_count = self.silence_count + 1;
            }
            if self.silence_count >= UNDUCK_SILENCE_SAMPLES {
                self.ducked = false;
            }
        }
    }

    /// Whether music is turned down.
    pub fn is_ducked(&self) -> (b: bool)
        ensures
            b == self.ducked,
    {
        self.ducked
    }
}

#[verifier::external_type_specification]
#[verifier::external_body]
#[verifier::reject_recursive_types(T)]
pub struct ExMutex<T: ?Sized>(Mutex<T>);

/// `std::sync::Mutex::new`: a lock around the buffer. The lock is opaque
/// here; nothing is stated of it.
#[verifier::external_body]
fn lock_around(buffer: PlaybackBuffer) -> (m: Mutex<PlaybackBuffer>) {
    Mutex::new(buffer)
}

/// A new empty sample buffer, shared between its producer and the mixer.
pub fn create_source_buffer() -> (b: Arc<Mutex<PlaybackBuffer>>) {
    Arc::new(lock_around(PlaybackBuffer::new()))
}

} // verus!
