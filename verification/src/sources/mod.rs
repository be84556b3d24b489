//! Audio source abstraction shared by the speech and music decoders.

use vstd::prelude::*;

pub mod espeak;
pub mod symphonia;

verus! {

/// A stereo sample pair (left, right) as 16-bit signed integers.
pub type Sample = (i16, i16);

/// Output sample rate for all audio (Discord native format).
pub const OUTPUT_SAMPLE_RATE: u32 = 48000;

/// The silent stereo sample.
pub open spec fn silence() -> Sample {
    (0i16, 0i16)
}

/// `n` silent samples.
pub open spec fn silence_run(n: nat) -> Seq<Sample> {
    Seq::new(n, |i: int| silence())
}

/// Audio sources that can produce samples on demand.
///
/// Sources may have different native sample rates but resample to
/// `OUTPUT_SAMPLE_RATE` before returning samples. `pull_samples` returns
/// `Some(samples)` with at most `count` samples while data remains, and
/// `None` once the source is exhausted.
pub trait AudioSource {
    fn pull_samples(&mut self, count: usize) -> Option<Vec<Sample>>;

    fn has_more(&self) -> bool;
}

} // verus!
