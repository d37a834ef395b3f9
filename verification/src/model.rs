//! The sponge as mathematics: what a sponge is, what absorbing a message
//! makes of it, and which bytes it gives out. The executable sponge is
//! specified against this model, and the laws of the construction are stated
//! over it.

use crate::error::PhaseError;
use crate::padding::{padded, Padding};
use crate::permutation::Permutation;
use vstd::prelude::*;

verus! {

/// Whether a sponge still takes input or has begun to give output. The only
/// step is from `Absorbing` to `Squeezing`; there is none back.
#[derive(Clone, Copy, Debug, PartialEq, Eq, Structural)]
pub enum Phase {
    /// No output has been asked for yet; messages are accepted.
    Absorbing,
    /// Output has been asked for at least once; messages are refused.
    Squeezing,
}

/// `state` with `block` folded into its leading bytes by exclusive or. The
/// bytes of `state` beyond the length of `block` are kept as they are.
pub open spec fn xor_block(state: Seq<u8>, block: Seq<u8>) -> Seq<u8> {
    Seq::new(
        state.len(),
        |i: int|
            if i < block.len() {
                state[i] ^ block[i]
            } else {
                state[i]
            },
    )
}

/// The state after the blocks of `data` have been absorbed in order, each
/// block being `rate` bytes: the block is folded into the leading `rate`
/// bytes of the state, then the whole state is permuted. Bytes of `data`
/// after its last whole block are left out.
pub open spec fn absorb_blocks<P: Permutation>(
    permutation: P,
    rate: nat,
    state: Seq<u8>,
    data: Seq<u8>,
) -> Seq<u8>
    recommends
        rate > 0,
    decreases data.len(),
{
    if rate == 0 || data.len() < rate {
        state
    } else {
        absorb_blocks(
            permutation,
            rate,
            permutation.permute(xor_block(state, data.take(rate as int))),
            data.skip(rate as int),
        )
    }
}

/// `state` after `times` applications of the permutation.
pub open spec fn permute_times<P: Permutation>(permutation: P, state: Seq<u8>, times: nat) -> Seq<
    u8,
>
    decreases times,
{
    if times == 0 {
        state
    } else {
        permutation.permute(permute_times(permutation, state, (times - 1) as nat))
    }
}

/// A sponge as a mathematical value.
#[verifier::ext_equal]
pub struct SpongeView<P, D> {
    /// The permutation the sponge was made with.
    pub permutation: P,
    /// The padding rule the sponge was made with.
    pub padding: D,
    /// How many bytes of the state take input and give output.
    pub rate: nat,
    /// How many bytes of the state are never read or written directly.
    pub capacity: nat,
    /// The state: `rate` bytes followed by `capacity` bytes.
    pub state: Seq<u8>,
    /// Whether output has been asked for.
    pub phase: Phase,
    /// How many of the leading `rate` bytes of the state have been given out
    /// since the state was last permuted.
    pub squeeze_cursor: nat,
}

impl<P: Permutation, D: Padding> SpongeView<P, D> {
    /// The sponge as it is made: a state of zeros, waiting for input.
    pub open spec fn fresh(permutation: P, padding: D, rate: nat, capacity: nat) -> Self {
        SpongeView {
            permutation,
            padding,
            rate,
            capacity,
            state: Seq::new(rate + capacity, |i: int| 0u8),
            phase: Phase::Absorbing,
            squeeze_cursor: 0,
        }
    }

    /// What holds of every sponge: the rate is positive, the state is
    /// `rate + capacity` bytes long, and the cursor lies within the rate
    /// bytes and has not moved while the sponge is absorbing.
    pub open spec fn wf(self) -> bool {
        &&& self.rate > 0
        &&& self.state.len() == self.rate + self.capacity
        &&& self.squeeze_cursor <= self.rate
        &&& self.phase == Phase::Absorbing ==> self.squeeze_cursor == 0
    }

    /// The sponge after `message` has been padded and absorbed block by
    /// block.
    pub open spec fn absorbed(self, message: Seq<u8>) -> Self {
        SpongeView {
            state: absorb_blocks(
                self.permutation,
                self.rate,
                self.state,
                padded(self.padding, message, self.rate),
            ),
            ..self
        }
    }

    /// What offering `message` to the sponge leads to: the sponge that has
    /// absorbed it, or a refusal once the sponge is squeezing.
    pub open spec fn absorb(self, message: Seq<u8>) -> Result<Self, PhaseError> {
        match self.phase {
            Phase::Absorbing => Ok(self.absorbed(message)),
            Phase::Squeezing => Err(PhaseError::AlreadySqueezing),
        }
    }

    /// The byte that the sponge gives out after `i` others. Counting from
    /// the start of the current state, the bytes to come are the leading
    /// `rate` bytes of the state, then those of the state permuted once, and
    /// so on.
    pub open spec fn output_byte(self, i: nat) -> u8 {
        let position = self.squeeze_cursor + i;
        permute_times(self.permutation, self.state, position / self.rate)[(position
            % self.rate) as int]
    }

    /// The next `len` bytes that the sponge gives out.
    pub open spec fn output(self, len: nat) -> Seq<u8> {
        Seq::new(len, |i: int| self.output_byte(i as nat))
    }

    /// The sponge after it has given out `len` bytes. The state is permuted
    /// only when a byte is needed that the current state does not hold, so
    /// after the last byte it is left as it is, and asking for no bytes
    /// changes nothing but the phase.
    pub open spec fn squeezed(self, len: nat) -> Self {
        if len == 0 {
            SpongeView { phase: Phase::Squeezing, ..self }
        } else {
            let last = (self.squeeze_cursor + len - 1) as nat;
            SpongeView {
                state: permute_times(self.permutation, self.state, last / self.rate),
                phase: Phase::Squeezing,
                squeeze_cursor: last % self.rate + 1,
                ..self
            }
        }
    }
}

} // verus!
