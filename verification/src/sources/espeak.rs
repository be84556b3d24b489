//! Text-to-speech requests and how generated speech enters the speech
//! buffer. The speech itself is generated outside the library.

use vstd::prelude::*;

use crate::buffer::PlaybackBuffer;
use crate::sources::{silence_run, Sample, OUTPUT_SAMPLE_RATE};
use vstd::string::StrSliceExecFns;

verus! {

#[derive(Clone, Debug, PartialEq, Eq, Structural)]
pub enum Priority {
    Low,
    High,
}

impl Default for Priority {
    fn default() -> (p: Self)
        ensures
            p == Priority::Low,
    {
        Priority::Low
    }
}

#[derive(Clone, Debug)]
pub enum TextToSpeechAction {
    Speak { text: String, prio: Priority },
    AllowLowPrio,
    DisallowLowPrio,
}

/// Silence around each utterance: 100 ms at the output rate.
pub const SPEECH_PADDING_SAMPLES: usize = 4800;

/// `n` silent samples.
pub fn silent_samples(n: usize) -> (v: Vec<Sample>)
    ensures
        v@ == silence_run(n as nat),
{
    let mut v: Vec<Sample> = Vec::new();
    let mut i: usize = 0;
    while i < n
        invariant
            i <= n,
            v@ =~= silence_run(i as nat),
        decreases n - i,
    {
        v.push((0, 0));
        i = i + 1;
    }
    v
}

/// Adds a generated utterance to the speech buffer, with 100 ms of silence
/// before and after it. A high priority utterance first drops whatever speech
/// is still pending.
pub fn queue_speech(buffer: &mut PlaybackBuffer, speech: Vec<Sample>, high_prio: bool)
    ensures
        final(buffer).pending() == (if high_prio {
            Seq::<Sample>::empty()
        } else {
            old(buffer).pending()
        }) + silence_run(SPEECH_PADDING_SAMPLES as nat) + speech@ + silence_run(
            SPEECH_PADDING_SAMPLES as nat,
        ),
        final(buffer).paused_flag() == old(buffer).paused_flag(),
        final(buffer).eof_flag() == (!high_prio && old(buffer).eof_flag()),
        final(buffer).consumed() == (if high_prio {
            0
        } else {
            old(buffer).consumed()
        }),
{
    if high_prio {
        buffer.clear();
    }
    let silence = silent_samples(SPEECH_PADDING_SAMPLES);
    let silence_after = silent_samples(SPEECH_PADDING_SAMPLES);
    buffer.push_samples(silence);
    buffer.push_samples(speech);
    buffer.push_samples(silence_after);
}

/// A new empty shared buffer for the speech output.
pub fn create_buffer() -> (b: std::sync::Arc<std::sync::Mutex<PlaybackBuffer>>) {
    crate::mixer::create_source_buffer()
}

/// The text without NUL characters, which the speech engine cannot take.
pub open spec fn without_nul(s: Seq<char>) -> Seq<char>
    decreases s.len(),
{
    if s.len() == 0 {
        s
    } else if s.last() == '\0' {
        without_nul(s.drop_last())
    } else {
        without_nul(s.drop_last()).push(s.last())
    }
}

/// The text without NUL characters.
pub fn strip_nul(text: &str) -> (s: String)
    ensures
        s@ == without_nul(text@),
{
    let n = text.unicode_len();
    let mut s = String::new();
    let mut i: usize = 0;
    while i < n
        invariant
            n == text@.len(),
            i <= n,
            s@ == without_nul(text@.take(i as int)),
        decreases n - i,
    {
        let c = text.get_char(i);
        assert(text@.take(i + 1).drop_last() =~= text@.take(i as int));
        if c != '\0' {
            crate::text::string_push(&mut s, c);
        }
        i = i + 1;
    }
    assert(text@.take(n as int) =~= text@);
    s
}

} // verus!
