use sponge_construction::{OneBitPadding, Permutation, SpongeConstruction};
use std::cell::Cell;
use vstd::seq::Seq;

/// A permutation for looking at the sponge alone: it moves every byte of the
/// state one place on, the last to the front, adds one to the byte that
/// comes to the front, and counts how often it is applied.
///
/// Only `apply` runs. The other members are there for proofs about a
/// permutation; nothing calls them when the library runs.
struct Counting<'a> {
    calls: &'a Cell<usize>,
}

impl<'a> Permutation for Counting<'a> {
    fn permute(&self, state: Seq<u8>) -> Seq<u8> {
        state
    }

    fn invert(&self, state: Seq<u8>) -> Seq<u8> {
        state
    }

    fn lemma_preserves_len(&self, _state: Seq<u8>) {}

    fn lemma_inverse(&self, _state: Seq<u8>) {}

    fn apply(&self, state: &mut [u8]) {
        self.calls.set(self.calls.get() + 1);
        state.rotate_right(1);
        if let Some(front) = state.first_mut() {
            *front = front.wrapping_add(1);
        }
    }
}

fn blocks_of(len: usize, rate: usize) -> usize {
    (len + rate - 1) / rate
}

#[test]
fn hello_world_takes_one_permutation_to_absorb_and_one_to_squeeze() {
    let calls = Cell::new(0);
    let mut sponge =
        SpongeConstruction::with_permutation(16, 16, Counting { calls: &calls }).unwrap();
    assert_eq!(calls.get(), 0);
    sponge.absorb(b"Hello, world!").unwrap();
    assert_eq!(calls.get(), 1);
    let output = sponge.squeeze(32);
    assert_eq!(output.len(), 32);
    assert_eq!(calls.get(), 2);
}

#[test]
fn empty_message_and_no_output_take_no_permutation() {
    let calls = Cell::new(0);
    let mut sponge =
        SpongeConstruction::with_permutation(16, 16, Counting { calls: &calls }).unwrap();
    sponge.absorb(&[]).unwrap();
    assert_eq!(calls.get(), 0);
    assert!(sponge.squeeze(0).is_empty());
    assert_eq!(calls.get(), 0);
    assert_eq!(sponge.state(), &[0u8; 32][..]);
}

#[test]
fn absorb_permutes_once_for_each_block_of_the_padded_message() {
    for rate in 1usize..=8 {
        for len in 0usize..=(4 * rate) {
            let calls = Cell::new(0);
            let mut sponge =
                SpongeConstruction::with_permutation(rate, 3, Counting { calls: &calls }).unwrap();
            sponge.absorb(&vec![0x5a; len]).unwrap();
            assert_eq!(calls.get(), blocks_of(len, rate));
        }
    }
}

#[test]
fn squeeze_permutes_only_when_another_window_is_needed() {
    for rate in 1usize..=8 {
        for len in 0usize..=(4 * rate) {
            let calls = Cell::new(0);
            let mut sponge =
                SpongeConstruction::with_permutation(rate, 3, Counting { calls: &calls }).unwrap();
            sponge.squeeze(len);
            let windows = blocks_of(len, rate);
            assert_eq!(calls.get(), windows.saturating_sub(1));
        }
    }
}

#[test]
fn squeeze_in_parts_permutes_as_often_as_squeeze_at_once() {
    let rate = 4;
    for first in 0usize..=9 {
        for second in 0usize..=9 {
            let calls = Cell::new(0);
            let mut sponge =
                SpongeConstruction::with_permutation(rate, 2, Counting { calls: &calls }).unwrap();
            sponge.squeeze(first);
            sponge.squeeze(second);
            assert_eq!(
                calls.get(),
                blocks_of(first + second, rate).saturating_sub(1)
            );
        }
    }
}

#[test]
fn one_bit_padding_permutes_once_more_for_whole_blocks() {
    for rate in 1usize..=8 {
        for len in 0usize..=(4 * rate) {
            let calls = Cell::new(0);
            let mut sponge = SpongeConstruction::with_parts(
                rate,
                3,
                Counting { calls: &calls },
                OneBitPadding,
            )
            .unwrap();
            sponge.absorb(&vec![0x5a; len]).unwrap();
            assert_eq!(calls.get(), len / rate + 1);
        }
    }
}

#[test]
fn a_refused_absorb_takes_no_permutation() {
    let calls = Cell::new(0);
    let mut sponge =
        SpongeConstruction::with_permutation(4, 4, Counting { calls: &calls }).unwrap();
    sponge.squeeze(4);
    assert_eq!(calls.get(), 0);
    assert!(sponge.absorb(&[1, 2, 3, 4, 5]).is_err());
    assert_eq!(calls.get(), 0);
}

#[test]
fn the_sponge_works_around_a_permutation_that_moves_bytes() {
    // rate 2, capacity 1: the block [7, 9] is folded into [0, 0, 0], the
    // state is moved on by one place and its new front byte raised by one.
    let calls = Cell::new(0);
    let mut sponge =
        SpongeConstruction::with_permutation(2, 1, Counting { calls: &calls }).unwrap();
    sponge.absorb(&[7, 9]).unwrap();
    assert_eq!(sponge.state(), &[1, 7, 9][..]);
    // [1, 7] comes out, then the state becomes [10, 1, 7], then [8, 10, 1].
    assert_eq!(sponge.squeeze(5), vec![1, 7, 10, 1, 8]);
    assert_eq!(sponge.state(), &[8, 10, 1][..]);
    assert_eq!(calls.get(), 3);
}
