//! The position of the playback in the music: which samples each call of
//! the output callback plays.

use vstd::prelude::*;

verus! {

/// What one call of the output callback puts into its buffer: `count`
/// samples of the music from index `first` on, at the start of the buffer,
/// and then one sample of silence if `silence` holds. What lies behind in
/// the buffer is left as it is.
#[derive(Clone, Copy, Debug, PartialEq, Eq, Structural)]
pub struct Span {
    pub first: usize,
    pub count: usize,
    pub silence: bool,
}

/// The position in the music.
pub struct Playback {
    clock: usize,
}

/// How many samples of a music of `music_len` samples are left to play once
/// the clock stands at `clock`. The sample at index 0 is never played: the
/// clock moves on before each sample is read.
pub open spec fn samples_left(clock: usize, music_len: usize) -> int {
    if clock + 1 < music_len {
        music_len - 1 - clock
    } else {
        0
    }
}

/// What a call plays that has `output_len` samples to fill: as many samples
/// as are left and fit, from the one behind the clock on, and one of silence
/// if the music ends before the buffer does.
pub open spec fn span_at(clock: usize, music_len: usize, output_len: usize) -> Span {
    let left = samples_left(clock, music_len);
    Span {
        first: (clock + 1) as usize,
        count: if left < output_len {
            left as usize
        } else {
            output_len
        },
        silence: left < output_len,
    }
}

impl Playback {
    /// The index of the sample that was played last.
    pub closed spec fn position(&self) -> usize {
        self.clock
    }

    /// A playback at the start of the music.
    pub fn new() -> (playback: Playback)
        ensures
            playback.position() == 0,
    {
        Playback { clock: 0 }
    }

    /// The index of the sample that was played last.
    pub fn clock(&self) -> (clock: usize)
        ensures
            clock == self.position(),
    {
        self.clock
    }

    /// Moves the playback on by one call of the output callback. The clock
    /// moves past every sample that is played, and past the one place at
    /// which the music is found to have ended.
    pub fn advance(&mut self, music_len: usize, output_len: usize) -> (span: Span)
        requires
            old(self).position() < usize::MAX,
        ensures
            span == span_at(old(self).position(), music_len, output_len),
            final(self).position() == old(self).position() + span.count + (if span.silence {
                1int
            } else {
                0int
            }),
            span.count > 0 ==> span.first + span.count <= music_len,
            span.count + (if span.silence {
                1int
            } else {
                0int
            }) <= output_len,
    {
        let first = self.clock + 1;
        let left = if first < music_len {
            music_len - first
        } else {
            0
        };
        if left < output_len {
            self.clock = self.clock + left + 1;
            Span { first, count: left, silence: true }
        } else {
            self.clock = self.clock + output_len;
            Span { first, count: output_len, silence: false }
        }
    }
}

} // verus!
