//! The executable sponge.

use crate::arith::{lemma_next_block, lemma_whole_blocks, lemma_window};
use crate::error::{ConfigError, PhaseError};
use crate::lemmas::{lemma_absorb_block_at, lemma_absorb_blocks_concat};
use crate::model::{absorb_blocks, permute_times, xor_block, Phase, SpongeView};
use crate::padding::{padded, Padding, ZeroPadding};
use crate::permutation::{Permutation, RotateXor};
use vstd::prelude::*;

verus! {

/// A sponge: a state of `rate + capacity` bytes, the permutation that stirs
/// it, the rule by which messages are padded, and how far the sponge has
/// got. It absorbs any number of messages and then gives out any number of
/// bytes; once the first output has been asked for it takes no more input.
///
/// A sponge belongs to one caller and to one message. It is not meant to be
/// shared, and what it has absorbed stays in it: a new message needs a new
/// sponge.
#[derive(Debug)]
pub struct SpongeConstruction<P: Permutation, D: Padding> {
    permutation: P,
    padding: D,
    state: Vec<u8>,
    rate: usize,
    capacity: usize,
    phase: Phase,
    squeeze_cursor: usize,
}

impl<P: Permutation, D: Padding> View for SpongeConstruction<P, D> {
    type V = SpongeView<P, D>;

    closed spec fn view(&self) -> SpongeView<P, D> {
        SpongeView {
            permutation: self.permutation,
            padding: self.padding,
            rate: self.rate as nat,
            capacity: self.capacity as nat,
            state: self.state@,
            phase: self.phase,
            squeeze_cursor: self.squeeze_cursor as nat,
        }
    }
}

impl SpongeConstruction<RotateXor, ZeroPadding> {
    /// Makes a sponge around the demonstration permutation [`RotateXor`],
    /// which is not fit for cryptographic use, and the padding rule
    /// [`ZeroPadding`], which is ambiguous. See
    /// [`SpongeConstruction::with_permutation`] and
    /// [`SpongeConstruction::with_parts`] for a sponge around others.
    ///
    /// A rate of zero is refused. The state must fit in memory: `rate +
    /// capacity` may not exceed `usize::MAX`.
    pub fn new(rate: usize, capacity: usize) -> (result: Result<Self, ConfigError>)
        requires
            rate + capacity <= usize::MAX,
        ensures
            rate == 0 <==> result == Err::<Self, ConfigError>(ConfigError::ZeroRate),
            rate > 0 ==> result is Ok && result->Ok_0@ == SpongeView::fresh(
                RotateXor,
                ZeroPadding,
                rate as nat,
                capacity as nat,
            ),
            result is Ok ==> result->Ok_0.wf(),
    {
        Self::with_parts(rate, capacity, RotateXor, ZeroPadding)
    }
}

impl<P: Permutation> SpongeConstruction<P, ZeroPadding> {
    /// Makes a sponge around `permutation` that pads with zeros, as
    /// [`SpongeConstruction::new`] does.
    ///
    /// A rate of zero is refused. The state must fit in memory: `rate +
    /// capacity` may not exceed `usize::MAX`.
    pub fn with_permutation(rate: usize, capacity: usize, permutation: P) -> (result: Result<
        Self,
        ConfigError,
    >)
        requires
            rate + capacity <= usize::MAX,
        ensures
            rate == 0 <==> result == Err::<Self, ConfigError>(ConfigError::ZeroRate),
            rate > 0 ==> result is Ok && result->Ok_0@ == SpongeView::fresh(
                permutation,
                ZeroPadding,
                rate as nat,
                capacity as nat,
            ),
            result is Ok ==> result->Ok_0.wf(),
    {
        Self::with_parts(rate, capacity, permutation, ZeroPadding)
    }
}

impl<P: Permutation, D: Padding> SpongeConstruction<P, D> {
    /// What holds of every sponge that this library hands out; see
    /// [`SpongeView::wf`].
    pub open spec fn wf(&self) -> bool {
        self@.wf()
    }

    /// Makes a sponge around `permutation` that pads by the rule `padding`,
    /// with a state of `rate + capacity` zero bytes, ready to absorb.
    ///
    /// A rate of zero is refused. The state must fit in memory: `rate +
    /// capacity` may not exceed `usize::MAX`.
    pub fn with_parts(rate: usize, capacity: usize, permutation: P, padding: D) -> (result: Result<
        Self,
        ConfigError,
    >)
        requires
            rate + capacity <= usize::MAX,
        ensures
            rate == 0 <==> result == Err::<Self, ConfigError>(ConfigError::ZeroRate),
            rate > 0 ==> result is Ok && result->Ok_0@ == SpongeView::fresh(
                permutation,
                padding,
                rate as nat,
                capacity as nat,
            ),
            result is Ok ==> result->Ok_0.wf(),
    {
        if rate == 0 {
            return Err(ConfigError::ZeroRate);
        }
        let state_size: usize = rate + capacity;
        let sponge = SpongeConstruction {
            permutation,
            padding,
            state: vec![0u8; state_size],
            rate,
            capacity,
            phase: Phase::Absorbing,
            squeeze_cursor: 0,
        };
        Ok(sponge)
    }

    /// Whether this sponge is well formed, as [`SpongeConstruction::absorb`]
    /// and [`SpongeConstruction::squeeze`] ask. Every sponge that this
    /// library hands out is, and stays so; code that is not verified can
    /// make sure of it here before it calls them.
    pub fn is_well_formed(&self) -> (ok: bool)
        ensures
            ok == self.wf(),
    {
        let cursor_at_rest = match self.phase {
            Phase::Absorbing => self.squeeze_cursor == 0,
            Phase::Squeezing => true,
        };
        self.rate > 0 && self.capacity <= self.state.len() && self.state.len() - self.capacity
            == self.rate && self.squeeze_cursor <= self.rate && cursor_at_rest
    }

    /// The number of state bytes that take input and give output.
    pub fn rate(&self) -> (rate: usize)
        ensures
            rate == self@.rate,
    {
        self.rate
    }

    /// The number of state bytes that are never read or written directly.
    pub fn capacity(&self) -> (capacity: usize)
        ensures
            capacity == self@.capacity,
    {
        self.capacity
    }

    /// Whether the sponge still absorbs or has begun to squeeze.
    pub fn phase(&self) -> (phase: Phase)
        ensures
            phase == self@.phase,
    {
        self.phase
    }

    /// How many of the leading `rate` bytes of the state have been given
    /// out since the state was last permuted.
    pub fn squeeze_cursor(&self) -> (cursor: usize)
        ensures
            cursor == self@.squeeze_cursor,
    {
        self.squeeze_cursor
    }

    /// The whole state, rate bytes first. This is for inspection: what the
    /// capacity bytes hold is what a sponge is meant to keep to itself.
    pub fn state(&self) -> (state: &[u8])
        ensures
            state@ == self@.state,
    {
        self.state.as_slice()
    }

    /// Absorbs `message`: pads it to whole blocks of `rate` bytes and takes
    /// it in block by block, each block folded into the leading `rate` bytes
    /// of the state by exclusive or and followed by a permutation of the
    /// whole state. Messages absorbed one after the other add up, each with
    /// its own padding.
    ///
    /// Refused with [`PhaseError::AlreadySqueezing`], and without effect,
    /// once output has been asked for.
    pub fn absorb(&mut self, message: &[u8]) -> (result: Result<(), PhaseError>)
        requires
            old(self).wf(),
        ensures
            final(self).wf(),
            result == Err::<(), PhaseError>(PhaseError::AlreadySqueezing) <==> old(self)@.phase
                == Phase::Squeezing,
            match result {
                Ok(()) => old(self)@.absorb(message@) == Ok::<SpongeView<P, D>, PhaseError>(
                    final(self)@,
                ),
                Err(e) => old(self)@.absorb(message@) == Err::<SpongeView<P, D>, PhaseError>(e)
                    && final(self)@ == old(self)@,
            },
    {
        match self.phase {
            Phase::Squeezing => {
                return Err(PhaseError::AlreadySqueezing);
            },
            Phase::Absorbing => {},
        }
        let rate = self.rate;
        let len = message.len();
        proof {
            lemma_whole_blocks(len as nat, rate as nat);
        }
        let whole = len - len % rate;
        let mut last: Vec<u8> = Vec::new();
        last.extend_from_slice(&message[whole..len]);
        let padding = self.padding.pad(len, rate);
        last.extend_from_slice(padding.as_slice());
        proof {
            let head = message@.take(whole as int);
            assert(padded(self@.padding, message@, rate as nat) =~= head + last@);
            lemma_absorb_blocks_concat(
                self@.permutation,
                rate as nat,
                self@.state,
                head,
                last@,
            );
        }
        self.absorb_whole_blocks(&message[0..whole]);
        self.absorb_whole_blocks(last.as_slice());
        Ok(())
    }

    /// Gives out the next `output_length` bytes and ends the absorbing phase
    /// for good.
    ///
    /// The bytes come from the leading `rate` bytes of the state, from where
    /// the last call left off. The state is permuted when its `rate` bytes
    /// have all been given out and another byte is needed, and not before:
    /// never after the last byte of a call, and not at all when no byte is
    /// asked for. So the bytes of two calls in a row are those of one call
    /// for both lengths together.
    pub fn squeeze(&mut self, output_length: usize) -> (output: Vec<u8>)
        requires
            old(self).wf(),
        ensures
            final(self).wf(),
            final(self)@ == old(self)@.squeezed(output_length as nat),
            output@ == old(self)@.output(output_length as nat),
    {
        let mut output: Vec<u8> = Vec::new();
        self.phase = Phase::Squeezing;
        let ghost mut windows: nat = 0;
        while output.len() < output_length
            invariant
                self.wf(),
                self@ == (SpongeView {
                    state: self@.state,
                    phase: Phase::Squeezing,
                    squeeze_cursor: self@.squeeze_cursor,
                    ..old(self)@
                }),
                old(self).wf(),
                output@.len() <= output_length,
                self@.state == permute_times(old(self)@.permutation, old(self)@.state, windows),
                windows * self@.rate + self@.squeeze_cursor == old(self)@.squeeze_cursor
                    + output@.len(),
                output@.len() == 0 ==> windows == 0,
                output@.len() > 0 ==> self@.squeeze_cursor > 0,
                output@ == old(self)@.output(output@.len()),
            decreases output_length - output@.len(),
        {
            if self.squeeze_cursor == self.rate {
                self.permutation();
                self.squeeze_cursor = 0;
                proof {
                    lemma_next_block(windows, self@.rate);
                    windows = windows + 1;
                }
            }
            let remaining = output_length - output.len();
            let available = self.rate - self.squeeze_cursor;
            let count = if remaining < available {
                remaining
            } else {
                available
            };
            let ghost before = output@;
            output.extend_from_slice(&self.state[self.squeeze_cursor..self.squeeze_cursor + count]);
            proof {
                assert forall|j: int| 0 <= j < output@.len() implies output@[j] == old(
                    self,
                )@.output_byte(j as nat) by {
                    if j >= before.len() {
                        lemma_window(
                            old(self)@.squeeze_cursor + j as nat,
                            self@.rate,
                            windows,
                            (self@.squeeze_cursor + j - before.len()) as nat,
                        );
                    }
                }
            }
            self.squeeze_cursor += count;
        }
        proof {
            if output_length > 0 {
                lemma_window(
                    (old(self)@.squeeze_cursor + output_length - 1) as nat,
                    self@.rate,
                    windows,
                    (self@.squeeze_cursor - 1) as nat,
                );
            }
        }
        output
    }

    /// Applies the permutation to the whole state, rate and capacity bytes
    /// alike, and leaves the rest of the sponge as it is.
    fn permutation(&mut self)
        requires
            old(self).wf(),
        ensures
            final(self).wf(),
            final(self)@ == (SpongeView {
                state: old(self)@.permutation.permute(old(self)@.state),
                ..old(self)@
            }),
    {
        proof {
            self.permutation.lemma_preserves_len(self.state@);
        }
        self.permutation.apply(self.state.as_mut_slice());
    }

    /// Folds `block` into the leading bytes of the state by exclusive or.
    fn xor_into_state(&mut self, block: &[u8])
        requires
            old(self).wf(),
            block@.len() <= old(self)@.rate,
        ensures
            final(self).wf(),
            final(self)@ == (SpongeView {
                state: xor_block(old(self)@.state, block@),
                ..old(self)@
            }),
    {
        let len = block.len();
        let mut i: usize = 0;
        while i < len
            invariant
                i <= len,
                len == block@.len(),
                len <= self.rate,
                self.wf(),
                self@ == (SpongeView { state: self.state@, ..old(self)@ }),
                self.state@.len() == old(self)@.state.len(),
                forall|j: int| 0 <= j < i ==> self.state@[j] == old(self)@.state[j] ^ block@[j],
                forall|j: int| i <= j < self.state@.len() ==> self.state@[j] == old(self)@.state[j],
            decreases len - i,
        {
            let mixed = self.state[i] ^ block[i];
            self.state[i] = mixed;
            i += 1;
        }
    }

    /// Absorbs the whole blocks of `data` in order: each is folded into the
    /// state, and the state permuted after it. Bytes after the last whole
    /// block are left out.
    fn absorb_whole_blocks(&mut self, data: &[u8])
        requires
            old(self).wf(),
        ensures
            final(self).wf(),
            final(self)@ == (SpongeView {
                state: absorb_blocks(
                    old(self)@.permutation,
                    old(self)@.rate,
                    old(self)@.state,
                    data@,
                ),
                ..old(self)@
            }),
    {
        let rate = self.rate;
        let len = data.len();
        let mut offset: usize = 0;
        assert(data@.skip(0) =~= data@);
        while len - offset >= rate
            invariant
                self.wf(),
                self@ == (SpongeView { state: self@.state, ..old(self)@ }),
                rate == self.rate,
                len == data@.len(),
                offset <= len,
                absorb_blocks(
                    self@.permutation,
                    rate as nat,
                    self@.state,
                    data@.skip(offset as int),
                ) == absorb_blocks(self@.permutation, rate as nat, old(self)@.state, data@),
            decreases len - offset,
        {
            proof {
                lemma_absorb_block_at(
                    self@.permutation,
                    rate as nat,
                    self@.state,
                    data@,
                    offset as nat,
                );
            }
            self.xor_into_state(&data[offset..offset + rate]);
            self.permutation();
            offset += rate;
        }
    }
}

} // verus!
