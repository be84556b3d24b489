//! Simple FIFO buffer for audio samples.
//!
//! Audio decoders push samples at the back and the mixer pulls them from the
//! front, padding with silence when the decoders fall behind.

use vstd::prelude::*;

use crate::sources::{silence, silence_run, Sample};

verus! {

/// When the read position reaches this many samples the consumed prefix is
/// dropped (48000 samples are one second of audio at 48 kHz).
pub const COMPACT_THRESHOLD: usize = 48000;

pub struct PlaybackBuffer {
    position: usize,
    buffer: Vec<Sample>,
    eof: bool,
    paused: bool,
    /// Samples consumed since the last `clear`, for progress tracking.
    total_samples_consumed: usize,
}

impl PlaybackBuffer {
    #[verifier::type_invariant]
    closed spec fn read_position_in_range(self) -> bool {
        self.position <= self.buffer@.len()
    }

    /// The samples that have been pushed and not yet pulled, oldest first.
    pub closed spec fn pending(self) -> Seq<Sample> {
        self.buffer@.subrange(self.position as int, self.buffer@.len() as int)
    }

    /// All stored samples, those already pulled (before the read position)
    /// included.
    pub closed spec fn stored(self) -> Seq<Sample> {
        self.buffer@
    }

    pub closed spec fn eof_flag(self) -> bool {
        self.eof
    }

    pub closed spec fn paused_flag(self) -> bool {
        self.paused
    }

    /// Samples pulled since creation or the last `clear`.
    pub closed spec fn consumed(self) -> nat {
        self.total_samples_consumed as nat
    }

    /// Everything the public operations show of the buffer.
    pub open spec fn model(self) -> BufferModel {
        BufferModel {
            pending: self.pending(),
            paused: self.paused_flag(),
            eof: self.eof_flag(),
            consumed: self.consumed(),
        }
    }

    /// An empty buffer that is neither at end of file nor paused.
    pub fn new() -> (b: Self)
        ensures
            b.pending() == Seq::<Sample>::empty(),
            !b.eof_flag(),
            !b.paused_flag(),
            b.consumed() == 0,
            b.model() == fresh_model(),
    {
        PlaybackBuffer {
            position: 0,
            buffer: Vec::new(),
            eof: false,
            paused: false,
            total_samples_consumed: 0,
        }
    }

    /// Drops all pending samples and resets the end-of-file flag and the
    /// consumed-sample counter; the pause flag is kept.
    pub fn clear(&mut self)
        ensures
            final(self).pending() == Seq::<Sample>::empty(),
            !final(self).eof_flag(),
            final(self).paused_flag() == old(self).paused_flag(),
            final(self).consumed() == 0,
            final(self).model() == buffer_step(old(self).model(), BufferOp::Clear),
    {
        self.position = 0;
        self.buffer = Vec::new();
        self.eof = false;
        self.total_samples_consumed = 0;
        assert(self.pending() =~= Seq::<Sample>::empty());
    }

    /// Removes the already consumed prefix of the storage: afterwards the
    /// storage holds exactly the pending samples.
    fn compact(&mut self)
        ensures
            final(self).stored() == old(self).pending(),
            final(self).model() == old(self).model(),
            final(self).pending() == old(self).pending(),
            final(self).eof_flag() == old(self).eof_flag(),
            final(self).paused_flag() == old(self).paused_flag(),
            final(self).consumed() == old(self).consumed(),
    {
        proof {
            use_type_invariant(&*self);
        }
        if self.position > 0 {
            let pos = self.position;
            let mut storage: Vec<Sample> = Vec::new();
            self.position = 0;
            std::mem::swap(&mut storage, &mut self.buffer);
            let rest = storage.split_off(pos);
            self.buffer = rest;
            assert(self.buffer@.subrange(0, self.buffer@.len() as int) =~= self.buffer@);
        }
    }

    /// Reads `count` samples: the oldest pending ones first, padded with
    /// silence when fewer are pending. A paused buffer hands out `count`
    /// silent samples and keeps its pending samples.
    pub fn pull_samples(&mut self, count: usize) -> (samples: Vec<Sample>)
        requires
            old(self).paused_flag() || old(self).consumed() + pull_amount(
                old(self).pending(),
                count,
            ) <= usize::MAX,
        ensures
            samples@ == pulled(old(self).pending(), old(self).paused_flag(), count),
            final(self).pending() == after_pull(old(self).pending(), old(self).paused_flag(), count),
            final(self).consumed() == old(self).consumed() + (if old(self).paused_flag() {
                0
            } else {
                pull_amount(old(self).pending(), count)
            }),
            final(self).eof_flag() == old(self).eof_flag(),
            final(self).paused_flag() == old(self).paused_flag(),
            final(self).model() == buffer_step(old(self).model(), BufferOp::Pull(count)),
    {
        proof {
            use_type_invariant(&*self);
        }
        let mut samples: Vec<Sample> = Vec::with_capacity(count);
        if self.paused {
            let mut i: usize = 0;
            while i < count
                invariant
                    i <= count,
                    samples@ =~= silence_run(i as nat),
                decreases count - i,
            {
                samples.push((0, 0));
                i = i + 1;
            }
            assert(self.pending() =~= after_pull(old(self).pending(), true, count));
            return samples;
        }
        let available = self.buffer.len() - self.position;
        let to_read = if count < available { count } else { available };
        let start = self.position;
        let mut i: usize = 0;
        while i < to_read
            invariant
                i <= to_read,
                to_read <= count,
                start + to_read <= self.buffer.len(),
                samples@ =~= self.buffer@.subrange(start as int, start + i),
            decreases to_read - i,
        {
            samples.push(self.buffer[start + i]);
            i = i + 1;
        }
        self.position = self.position + to_read;
        self.total_samples_consumed = self.total_samples_consumed + to_read;
        let mut j: usize = to_read;
        while j < count
            invariant
                to_read <= j <= count,
                start + to_read <= self.buffer@.len(),
                samples@ =~= self.buffer@.subrange(start as int, start + to_read) + silence_run(
                    (j - to_read) as nat,
                ),
            decreases count - j,
        {
            samples.push((0, 0));
            j = j + 1;
        }
        assert(self.pending() =~= after_pull(old(self).pending(), false, count));
        if self.position >= COMPACT_THRESHOLD {
            self.compact();
        }
        samples
    }

    /// Appends samples at the back.
    pub fn push_samples(&mut self, samples: Vec<Sample>)
        ensures
            final(self).pending() == old(self).pending() + samples@,
            final(self).eof_flag() == old(self).eof_flag(),
            final(self).paused_flag() == old(self).paused_flag(),
            final(self).consumed() == old(self).consumed(),
            final(self).model() == buffer_step(old(self).model(), BufferOp::Push(samples@)),
    {
        proof {
            use_type_invariant(&*self);
        }
        let ghost added = samples@;
        let mut samples = samples;
        let ghost before = self.buffer@;
        let mut storage: Vec<Sample> = Vec::new();
        let pos = self.position;
        self.position = 0;
        std::mem::swap(&mut storage, &mut self.buffer);
        storage.append(&mut samples);
        self.buffer = storage;
        self.position = pos;
        assert(self.buffer@.subrange(self.position as int, self.buffer@.len() as int)
            =~= before.subrange(self.position as int, before.len() as int) + added);
    }

    pub fn is_eof(&self) -> (b: bool)
        ensures
            b == self.eof_flag(),
    {
        self.eof
    }

    pub fn set_eof(&mut self, eof: bool)
        ensures
            final(self).eof_flag() == eof,
            final(self).pending() == old(self).pending(),
            final(self).paused_flag() == old(self).paused_flag(),
            final(self).consumed() == old(self).consumed(),
            final(self).model() == buffer_step(old(self).model(), BufferOp::SetEof(eof)),
    {
        proof {
            use_type_invariant(&*self);
        }
        self.eof = eof;
    }

    pub fn set_paused(&mut self, paused: bool)
        ensures
            final(self).paused_flag() == paused,
            final(self).pending() == old(self).pending(),
            final(self).eof_flag() == old(self).eof_flag(),
            final(self).consumed() == old(self).consumed(),
            final(self).model() == buffer_step(old(self).model(), BufferOp::SetPaused(paused)),
    {
        proof {
            use_type_invariant(&*self);
        }
        self.paused = paused;
    }

    /// Whether any pushed sample has not been pulled yet.
    pub fn has_data(&self) -> (b: bool)
        ensures
            b == (self.pending().len() > 0),
    {
        proof {
            use_type_invariant(self);
        }
        self.position < self.buffer.len()
    }

    /// Number of pending samples.
    pub fn buffer_level(&self) -> (n: usize)
        ensures
            n == self.pending().len(),
            n == self.model().pending.len(),
    {
        proof {
            use_type_invariant(self);
        }
        self.buffer.len() - self.position
    }

    /// Samples pulled since creation or the last `clear`.
    pub fn total_samples_consumed(&self) -> (n: usize)
        ensures
            n == self.consumed(),
    {
        self.total_samples_consumed
    }

    /// Whole seconds of audio pulled since the last `clear` at the given
    /// sample rate.
    pub fn total_position_secs(&self, sample_rate: u32) -> (secs: u64)
        requires
            sample_rate > 0,
        ensures
            secs == self.consumed() / (sample_rate as nat),
    {
        (self.total_samples_consumed as u64) / (sample_rate as u64)
    }
}

impl Default for PlaybackBuffer {
    fn default() -> (b: Self)
        ensures
            b.pending() == Seq::<Sample>::empty(),
            !b.eof_flag(),
            !b.paused_flag(),
            b.consumed() == 0,
    {
        PlaybackBuffer::new()
    }
}

/// How many pending samples a pull of `count` consumes.
pub open spec fn pull_amount(pending: Seq<Sample>, count: usize) -> nat {
    if count < pending.len() {
        count as nat
    } else {
        pending.len()
    }
}

/// What a pull of `count` samples returns.
pub open spec fn pulled(pending: Seq<Sample>, paused: bool, count: usize) -> Seq<Sample> {
    if paused {
        silence_run(count as nat)
    } else {
        let k = pull_amount(pending, count);
        pending.take(k as int) + silence_run((count - k) as nat)
    }
}

/// The pending samples after a pull of `count` samples.
pub open spec fn after_pull(pending: Seq<Sample>, paused: bool, count: usize) -> Seq<Sample> {
    if paused {
        pending
    } else {
        pending.skip(pull_amount(pending, count) as int)
    }
}

/// Samples come out in the order they went in: pulling exactly as many
/// samples as are pending after a push returns the earlier pending samples
/// followed by the pushed ones, and leaves nothing pending.
pub proof fn lemma_fifo_order(pending: Seq<Sample>, pushed: Seq<Sample>, count: usize)
    requires
        count == pending.len() + pushed.len(),
    ensures
        pulled(pending + pushed, false, count) == pending + pushed,
        after_pull(pending + pushed, false, count) == Seq::<Sample>::empty(),
{
    assert((pending + pushed).take(count as int) =~= pending + pushed);
    assert(silence_run(0) =~= Seq::<Sample>::empty());
    assert((pending + pushed) + silence_run(0) =~= pending + pushed);
    assert((pending + pushed).skip(count as int) =~= Seq::<Sample>::empty());
}

/// A pull always hands out exactly the requested number of samples, and the
/// samples it hands out together with those left pending are the samples
/// that were pending before, in order, followed by silence.
pub proof fn lemma_pull_conserves_samples(pending: Seq<Sample>, paused: bool, count: usize)
    ensures
        pulled(pending, paused, count).len() == count,
        !paused ==> pulled(pending, paused, count).take(pull_amount(pending, count) as int)
            + after_pull(pending, paused, count) == pending,
        paused ==> after_pull(pending, paused, count) == pending,
{
    if !paused {
        let k = pull_amount(pending, count);
        assert(pulled(pending, paused, count).take(k as int) =~= pending.take(k as int));
        assert(pending.take(k as int) + pending.skip(k as int) =~= pending);
    }
}

/// Pulling from a paused buffer changes nothing but hands out silence.
pub proof fn lemma_paused_pull_is_silent(pending: Seq<Sample>, count: usize)
    ensures
        pulled(pending, true, count) == silence_run(count as nat),
        after_pull(pending, true, count) == pending,
        forall|i: int| 0 <= i < count ==> #[trigger] pulled(pending, true, count)[i] == silence(),
{
}

/// What the public operations show of a buffer: the pending samples, the
/// pause and end-of-file flags, and the samples pulled since the last clear.
pub struct BufferModel {
    pub pending: Seq<Sample>,
    pub paused: bool,
    pub eof: bool,
    pub consumed: nat,
}

/// An operation on a buffer that changes it.
pub enum BufferOp {
    Push(Seq<Sample>),
    Pull(usize),
    Clear,
    SetPaused(bool),
    SetEof(bool),
}

/// A new buffer: empty, not paused, not at end of file, nothing pulled.
pub open spec fn fresh_model() -> BufferModel {
    BufferModel { pending: Seq::empty(), paused: false, eof: false, consumed: 0 }
}

/// The buffer after one operation.
pub open spec fn buffer_step(m: BufferModel, op: BufferOp) -> BufferModel {
    match op {
        BufferOp::Push(s) => BufferModel { pending: m.pending + s, ..m },
        BufferOp::Pull(count) => BufferModel {
            pending: after_pull(m.pending, m.paused, count),
            consumed: m.consumed + if m.paused {
                0
            } else {
                pull_amount(m.pending, count)
            },
            ..m
        },
        BufferOp::Clear => BufferModel { pending: Seq::empty(), eof: false, consumed: 0, ..m },
        BufferOp::SetPaused(p) => BufferModel { paused: p, ..m },
        BufferOp::SetEof(e) => BufferModel { eof: e, ..m },
    }
}

/// The buffer after operations, in order.
pub open spec fn replay(m: BufferModel, ops: Seq<BufferOp>) -> BufferModel
    decreases ops.len(),
{
    if ops.len() == 0 {
        m
    } else {
        buffer_step(replay(m, ops.drop_last()), ops.last())
    }
}

/// Samples pushed since the last clear among the operations.
pub open spec fn pushed_since_clear(ops: Seq<BufferOp>) -> nat
    decreases ops.len(),
{
    if ops.len() == 0 {
        0
    } else {
        match ops.last() {
            BufferOp::Push(s) => pushed_since_clear(ops.drop_last()) + s.len(),
            BufferOp::Clear => 0,
            _ => pushed_since_clear(ops.drop_last()),
        }
    }
}

/// Samples (not silence) that pulls handed out since the last clear among
/// the operations, on a buffer that started as `m`; a pull while paused
/// hands out only silence.
pub open spec fn taken_since_clear(m: BufferModel, ops: Seq<BufferOp>) -> nat
    decreases ops.len(),
{
    if ops.len() == 0 {
        0
    } else {
        let before = replay(m, ops.drop_last());
        match ops.last() {
            BufferOp::Pull(count) => taken_since_clear(m, ops.drop_last()) + if before.paused {
                0
            } else {
                pull_amount(before.pending, count)
            },
            BufferOp::Clear => 0,
            _ => taken_since_clear(m, ops.drop_last()),
        }
    }
}

/// Over any history of operations on a new buffer, the pending samples are
/// those pushed since the last clear less those pulls handed out since then,
/// and the consumed count is the number pulls handed out.
pub proof fn law_level_is_pushed_minus_pulled(ops: Seq<BufferOp>)
    ensures
        replay(fresh_model(), ops).consumed == taken_since_clear(fresh_model(), ops),
        taken_since_clear(fresh_model(), ops) <= pushed_since_clear(ops),
        replay(fresh_model(), ops).pending.len() == pushed_since_clear(ops) - taken_since_clear(
            fresh_model(),
            ops,
        ),
    decreases ops.len(),
{
    if ops.len() > 0 {
        law_level_is_pushed_minus_pulled(ops.drop_last());
    }
}

} // verus!
