//! The transformation of the whole state that a sponge is built around.
//!
//! The sponge itself knows nothing of the transformation but the contract of
//! [`Permutation`]; any implementation can be handed to it when it is made.

use vstd::prelude::*;

verus! {

/// A bijection on byte strings of every length, applied in place to the
/// whole state of a sponge (rate and capacity bytes alike).
///
/// All the strength of a sponge comes from its permutation. One that is fit
/// for cryptographic use behaves, to an observer, like a permutation drawn at
/// random: flipping a single bit of an absorbed message changes a large share
/// of the bytes squeezed afterwards, and no closed form inverts it. None of
/// that can be stated here. What an implementation has to prove is the
/// structure the sponge relies on: the length is kept, and `invert` undoes
/// `permute` and is undone by it.
pub trait Permutation {
    /// The state that one application makes of `state`.
    spec fn permute(&self, state: Seq<u8>) -> Seq<u8>;

    /// The state of which one application makes `state`.
    spec fn invert(&self, state: Seq<u8>) -> Seq<u8>;

    /// Neither direction changes the length of the state.
    proof fn lemma_preserves_len(&self, state: Seq<u8>)
        ensures
            self.permute(state).len() == state.len(),
            self.invert(state).len() == state.len(),
    ;

    /// The two directions undo each other.
    proof fn lemma_inverse(&self, state: Seq<u8>)
        ensures
            self.invert(self.permute(state)) == state,
            self.permute(self.invert(state)) == state,
    ;

    /// Applies the permutation to `state` in place.
    fn apply(&self, state: &mut [u8])
        ensures
            final(state)@ == self.permute(old(state)@),
    ;
}

/// What [`RotateXor`] makes of one byte: its bits rotated left by three
/// places, then combined by exclusive or with `0x1B`.
pub open spec fn rotate_xor(b: u8) -> u8 {
    ((b << 3u8) | (b >> 5u8)) ^ 0x1Bu8
}

/// The byte of which [`rotate_xor`] makes `b`.
pub open spec fn rotate_xor_inverse(b: u8) -> u8 {
    ((b ^ 0x1Bu8) >> 3u8) | ((b ^ 0x1Bu8) << 5u8)
}

/// What [`ByteSubstitution`] makes of one byte: `167 * b + 13` modulo 256.
pub open spec fn substitute(b: u8) -> u8 {
    ((167 * b + 13) % 256) as u8
}

/// The byte of which [`substitute`] makes `b`: `23 * (b - 13)` modulo 256,
/// since `167 * 23` is 1 modulo 256.
pub open spec fn substitute_inverse(b: u8) -> u8 {
    ((23 * (b + 243)) % 256) as u8
}

/// `rotate_xor` and `rotate_xor_inverse` undo each other on every byte.
pub proof fn lemma_rotate_xor_inverse(b: u8)
    ensures
        rotate_xor_inverse(rotate_xor(b)) == b,
        rotate_xor(rotate_xor_inverse(b)) == b,
{
    assert(rotate_xor_inverse(rotate_xor(b)) == b) by (bit_vector);
    assert(rotate_xor(rotate_xor_inverse(b)) == b) by (bit_vector);
}

/// `substitute` and `substitute_inverse` undo each other on every byte.
pub proof fn lemma_substitute_inverse(b: u8)
    ensures
        substitute_inverse(substitute(b)) == b,
        substitute(substitute_inverse(b)) == b,
{
    assert((23 * (((167 * b + 13) % 256) + 243)) % 256 == b) by (nonlinear_arith)
        requires
            0 <= b < 256,
    ;
    assert((167 * ((23 * (b + 243)) % 256) + 13) % 256 == b) by (nonlinear_arith)
        requires
            0 <= b < 256,
    ;
}

/// The demonstration permutation: every byte of the state is rotated left by
/// three bits and combined by exclusive or with `0x1B`.
///
/// It is a bijection, as the sponge asks, and nothing more. Each byte is
/// transformed on its own, so a change to one byte of the state never reaches
/// another. It is a stand-in for trying the sponge out and must not be used
/// where security matters.
#[derive(Clone, Copy, Debug)]
pub struct RotateXor;

impl Permutation for RotateXor {
    open spec fn permute(&self, state: Seq<u8>) -> Seq<u8> {
        Seq::new(state.len(), |i: int| rotate_xor(state[i]))
    }

    open spec fn invert(&self, state: Seq<u8>) -> Seq<u8> {
        Seq::new(state.len(), |i: int| rotate_xor_inverse(state[i]))
    }

    proof fn lemma_preserves_len(&self, state: Seq<u8>) {
    }

    proof fn lemma_inverse(&self, state: Seq<u8>) {
        assert forall|i: int| 0 <= i < state.len() implies self.invert(self.permute(state))[i]
            == state[i] by {
            lemma_rotate_xor_inverse(state[i]);
        }
        assert forall|i: int| 0 <= i < state.len() implies self.permute(self.invert(state))[i]
            == state[i] by {
            lemma_rotate_xor_inverse(state[i]);
        }
    }

    fn apply(&self, state: &mut [u8]) {
        let len = state.len();
        let mut i: usize = 0;
        while i < len
            invariant
                i <= len,
                state@.len() == len,
                old(state)@.len() == len,
                forall|j: int| 0 <= j < i ==> state@[j] == rotate_xor(old(state)@[j]),
                forall|j: int| i <= j < len ==> state@[j] == old(state)@[j],
            decreases len - i,
        {
            let b = state[i];
            state[i] = ((b << 3u8) | (b >> 5u8)) ^ 0x1Bu8;
            i += 1;
        }
    }
}

/// A second permutation of the same kind: every byte `b` of the state is
/// replaced by `167 * b + 13` modulo 256.
///
/// Like [`RotateXor`] it works on each byte alone and is no more fit for
/// cryptographic use. It is here to be swapped in for the other.
#[derive(Clone, Copy, Debug)]
pub struct ByteSubstitution;

impl Permutation for ByteSubstitution {
    open spec fn permute(&self, state: Seq<u8>) -> Seq<u8> {
        Seq::new(state.len(), |i: int| substitute(state[i]))
    }

    open spec fn invert(&self, state: Seq<u8>) -> Seq<u8> {
        Seq::new(state.len(), |i: int| substitute_inverse(state[i]))
    }

    proof fn lemma_preserves_len(&self, state: Seq<u8>) {
    }

    proof fn lemma_inverse(&self, state: Seq<u8>) {
        assert forall|i: int| 0 <= i < state.len() implies self.invert(self.permute(state))[i]
            == state[i] by {
            lemma_substitute_inverse(state[i]);
        }
        assert forall|i: int| 0 <= i < state.len() implies self.permute(self.invert(state))[i]
            == state[i] by {
            lemma_substitute_inverse(state[i]);
        }
    }

    fn apply(&self, state: &mut [u8]) {
        let len = state.len();
        let mut i: usize = 0;
        while i < len
            invariant
                i <= len,
                state@.len() == len,
                old(state)@.len() == len,
                forall|j: int| 0 <= j < i ==> state@[j] == substitute(old(state)@[j]),
                forall|j: int| i <= j < len ==> state@[j] == old(state)@[j],
            decreases len - i,
        {
            let b = state[i];
            proof {
                lemma_wrapping_substitute(b);
            }
            state[i] = b.wrapping_mul(167).wrapping_add(13);
            i += 1;
        }
    }
}

/// The wrapping multiplication and addition that compute [`substitute`].
proof fn lemma_wrapping_substitute(b: u8)
    ensures
        b.wrapping_mul(167u8).wrapping_add(13u8) == substitute(b),
{
    assert((((b as int * 167) % 256) + 13) % 256 == (167 * b + 13) % 256) by (nonlinear_arith);
}

} // verus!
