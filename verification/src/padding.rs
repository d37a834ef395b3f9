//! The rule by which a message is extended to whole blocks before it is
//! absorbed.
//!
//! The sponge knows nothing of the rule but the contract of [`Padding`]; any
//! implementation can be handed to it when it is made.

use crate::arith::{lemma_next_block, lemma_position, lemma_window};
use vstd::prelude::*;

verus! {

/// A padding rule: which bytes follow a message of a given length, so that
/// message and padding together fill a whole number of blocks of `rate`
/// bytes.
pub trait Padding {
    /// The bytes that follow a message of `len` bytes.
    spec fn padding(&self, len: nat, rate: nat) -> Seq<u8>;

    /// A message and its padding fill whole blocks.
    proof fn lemma_fills_blocks(&self, len: nat, rate: nat)
        requires
            rate > 0,
        ensures
            (len + self.padding(len, rate).len()) % rate == 0,
    ;

    /// Makes the bytes that follow a message of `len` bytes.
    fn pad(&self, len: usize, rate: usize) -> (bytes: Vec<u8>)
        requires
            rate > 0,
        ensures
            bytes@ == self.padding(len as nat, rate as nat),
    ;
}

/// `message` followed by its padding.
pub open spec fn padded<D: Padding>(padding: D, message: Seq<u8>, rate: nat) -> Seq<u8> {
    message + padding.padding(message.len(), rate)
}

/// The number of bytes that [`ZeroPadding`] adds to a message of `len`
/// bytes: what is missing to the next multiple of `rate`, and nothing if
/// `len` is such a multiple already.
pub open spec fn zero_padding_len(len: nat, rate: nat) -> nat {
    if len % rate == 0 {
        0
    } else {
        (rate - len % rate) as nat
    }
}

/// `message` padded by [`ZeroPadding`]: followed by the zero bytes that
/// make its length a multiple of `rate`.
pub open spec fn zero_pad(message: Seq<u8>, rate: nat) -> Seq<u8> {
    padded(ZeroPadding, message, rate)
}

/// Padding with zero bytes up to the next multiple of the rate. A message
/// that ends with a block gets none; the empty message stays empty.
///
/// This rule is ambiguous: zero bytes at the end of a message cannot be told
/// from padding, so messages that differ only in such bytes are absorbed
/// alike. Where that matters, use a rule that marks the end of the message,
/// such as [`OneBitPadding`].
#[derive(Clone, Copy, Debug)]
pub struct ZeroPadding;

impl Padding for ZeroPadding {
    open spec fn padding(&self, len: nat, rate: nat) -> Seq<u8> {
        Seq::new(zero_padding_len(len, rate), |i: int| 0u8)
    }

    proof fn lemma_fills_blocks(&self, len: nat, rate: nat) {
        lemma_position(len, rate);
        if len % rate != 0 {
            lemma_next_block(len / rate, rate);
            lemma_window(len + zero_padding_len(len, rate), rate, len / rate + 1, 0);
        }
    }

    fn pad(&self, len: usize, rate: usize) -> (bytes: Vec<u8>) {
        let rest = len % rate;
        if rest == 0 {
            Vec::new()
        } else {
            let missing = rate - rest;
            vec![0u8; missing]
        }
    }
}

/// Padding with a one bit followed by zero bits: the byte `0x80`, then zero
/// bytes up to the next multiple of the rate. Every message gets at least
/// the marking byte, so a message that ends with a block, the empty one
/// among them, gets a whole block of padding.
///
/// This rule is unambiguous: the last byte that is not zero marks where the
/// message ends, so no two messages are padded to the same bytes.
#[derive(Clone, Copy, Debug)]
pub struct OneBitPadding;

impl Padding for OneBitPadding {
    open spec fn padding(&self, len: nat, rate: nat) -> Seq<u8> {
        seq![0x80u8] + Seq::new((rate - 1 - len % rate) as nat, |i: int| 0u8)
    }

    proof fn lemma_fills_blocks(&self, len: nat, rate: nat) {
        lemma_position(len, rate);
        lemma_next_block(len / rate, rate);
        lemma_window(len + self.padding(len, rate).len(), rate, len / rate + 1, 0);
    }

    fn pad(&self, len: usize, rate: usize) -> (bytes: Vec<u8>) {
        let rest = len % rate;
        let missing = rate - rest;
        let mut bytes = vec![0u8; missing];
        bytes[0] = 0x80u8;
        bytes
    }
}

} // verus!
