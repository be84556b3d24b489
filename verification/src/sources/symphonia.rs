//! Music playback requests, the decoded-sample plumbing around the decoder
//! and end-of-song detection. Decoding itself happens outside the library.

use vstd::prelude::*;

use crate::buffer::PlaybackBuffer;
use crate::sources::{Sample, OUTPUT_SAMPLE_RATE};

verus! {

#[derive(Clone, Debug)]
pub enum SymphoniaAction {
    PlayFile { file_path: String },
    PlayYtUrl { url: String },
    Stop,
    Pause,
    Resume,
}

/// How a decoding run ended.
pub enum DecodeResult {
    EndOfFile { total_samples: usize },
    Cancelled,
}

/// The decoder stops pushing while this many samples are pending (10 s).
pub const BUFFER_HIGH_WATER: usize = 480000;

/// A waiting decoder resumes once fewer samples than this are pending (5 s).
pub const BUFFER_LOW_WATER: usize = 240000;

/// Interleaved samples `l0 r0 l1 r1 ...` as stereo pairs; a trailing unpaired
/// value is dropped.
pub open spec fn pair_up(raw: Seq<i16>) -> Seq<Sample> {
    Seq::new(raw.len() / 2, |i: int| (raw[2 * i], raw[2 * i + 1]))
}

/// Groups interleaved samples into stereo pairs.
pub fn stereo_pairs(raw: &[i16]) -> (pairs: Vec<Sample>)
    ensures
        pairs@ == pair_up(raw@),
{
    let mut pairs: Vec<Sample> = Vec::new();
    let n = raw.len() / 2;
    let mut i: usize = 0;
    while i < n
        invariant
            n == raw@.len() / 2,
            raw@.len() == raw.len(),
            i <= n,
            pairs@ =~= pair_up(raw@).take(i as int),
        decreases n - i,
    {
        assert(2 * i + 1 < raw.len());
        pairs.push((raw[2 * i], raw[2 * i + 1]));
        i = i + 1;
    }
    assert(pair_up(raw@).take(n as int) =~= pair_up(raw@));
    pairs
}

/// What the music buffer does on a playback request before any decoding:
/// a new file or stream empties the buffer and unpauses it, stop and pause
/// pause it, resume unpauses it.
pub fn prepare_buffer(action: &SymphoniaAction, buffer: &mut PlaybackBuffer)
    ensures
        match action {
            SymphoniaAction::PlayFile { .. } | SymphoniaAction::PlayYtUrl { .. } => {
                &&& final(buffer).pending() == Seq::<Sample>::empty()
                &&& !final(buffer).paused_flag()
                &&& !final(buffer).eof_flag()
                &&& final(buffer).consumed() == 0
            },
            SymphoniaAction::Stop | SymphoniaAction::Pause => {
                &&& final(buffer).paused_flag()
                &&& final(buffer).pending() == old(buffer).pending()
                &&& final(buffer).eof_flag() == old(buffer).eof_flag()
                &&& final(buffer).consumed() == old(buffer).consumed()
            },
            SymphoniaAction::Resume => {
                &&& !final(buffer).paused_flag()
                &&& final(buffer).pending() == old(buffer).pending()
                &&& final(buffer).eof_flag() == old(buffer).eof_flag()
                &&& final(buffer).consumed() == old(buffer).consumed()
            },
        },
{
    match action {
        SymphoniaAction::PlayFile { .. } | SymphoniaAction::PlayYtUrl { .. } => {
            buffer.clear();
            buffer.set_paused(false);
        },
        SymphoniaAction::Stop | SymphoniaAction::Pause => {
            buffer.set_paused(true);
        },
        SymphoniaAction::Resume => {
            buffer.set_paused(false);
        },
    }
}

/// One look of the playback monitor at the music buffer: the playback
/// position in whole seconds, and whether the song has ended (the decoder
/// reached the end of the file and every decoded sample has been played).
pub fn monitor_tick(buffer: &PlaybackBuffer) -> (r: (u64, bool))
    ensures
        r.0 == buffer.consumed() / (OUTPUT_SAMPLE_RATE as nat),
        r.1 == (buffer.eof_flag() && buffer.pending().len() == 0),
{
    let position = buffer.total_position_secs(OUTPUT_SAMPLE_RATE);
    let ended = buffer.is_eof() && !buffer.has_data();
    (position, ended)
}

/// A new empty shared buffer for the music output.
pub fn create_buffer() -> (b: std::sync::Arc<std::sync::Mutex<PlaybackBuffer>>) {
    crate::mixer::create_source_buffer()
}

/// What the player does besides the buffer on a playback request: whether
/// it stops the running progress monitor and decoder, and whether it starts
/// decoding a new source.
pub struct PlayerSteps {
    pub cancel_monitor: bool,
    pub cancel_decoder: bool,
    pub start_decoding: bool,
}

/// The player's steps for a request: a new file or stream replaces the
/// running decoder and monitor; stop ends them; pause and resume leave them.
pub fn player_steps(action: &SymphoniaAction) -> (s: PlayerSteps)
    ensures
        match action {
            SymphoniaAction::PlayFile { .. } | SymphoniaAction::PlayYtUrl { .. } => s.cancel_monitor
                && s.cancel_decoder && s.start_decoding,
            SymphoniaAction::Stop => s.cancel_monitor && s.cancel_decoder && !s.start_decoding,
            SymphoniaAction::Pause | SymphoniaAction::Resume => !s.cancel_monitor && !s.cancel_decoder
                && !s.start_decoding,
        },
{
    match action {
        SymphoniaAction::PlayFile { .. } | SymphoniaAction::PlayYtUrl { .. } => PlayerSteps {
            cancel_monitor: true,
            cancel_decoder: true,
            start_decoding: true,
        },
        SymphoniaAction::Stop => PlayerSteps { cancel_monitor: true, cancel_decoder: true, start_decoding: false },
        SymphoniaAction::Pause | SymphoniaAction::Resume => PlayerSteps {
            cancel_monitor: false,
            cancel_decoder: false,
            start_decoding: false,
        },
    }
}

/// Whether the decoder keeps waiting before pushing more samples, with
/// `level` samples pending: at first until fewer than the high water mark
/// are pending, and after a pause until fewer than the low water mark are.
pub fn decoder_waits(level: usize, after_pause: bool) -> (w: bool)
    ensures
        w == if after_pause {
            level >= BUFFER_LOW_WATER
        } else {
            level >= BUFFER_HIGH_WATER
        },
{
    if after_pause {
        level >= BUFFER_LOW_WATER
    } else {
        level >= BUFFER_HIGH_WATER
    }
}

/// Marks the end of the file once decoding ran to completion; a cancelled
/// decoding leaves the buffer as it is.
pub fn decoding_finished(result: &DecodeResult, buffer: &mut PlaybackBuffer)
    ensures
        match result {
            DecodeResult::EndOfFile { .. } => final(buffer).eof_flag(),
            DecodeResult::Cancelled => final(buffer).eof_flag() == old(buffer).eof_flag(),
        },
        final(buffer).pending() == old(buffer).pending(),
        final(buffer).paused_flag() == old(buffer).paused_flag(),
        final(buffer).consumed() == old(buffer).consumed(),
{
    match result {
        DecodeResult::EndOfFile { .. } => buffer.set_eof(true),
        DecodeResult::Cancelled => {},
    }
}

/// The error message shown when playing music failed.
pub fn playback_error(reason: &str) -> (m: crate::message::MessageAction)
    ensures
        m matches crate::message::MessageAction::Send { text, rich, source } && text@
            == "Error during music playback: "@ + reason@ && (rich matches Some(
            crate::message::RichContent::Error { message },
        ) && message@ == text@) && source == crate::message::Platform::Bot,
{
    let mut text = crate::text::str_to_string("Error during music playback: ");
    crate::text::push_str(&mut text, reason);
    assert(text@ =~= "Error during music playback: "@ + reason@);
    crate::message::MessageAction::error(text)
}

} // verus!
