//! Facts about the model that the proofs of the sponge and of its laws share.

use crate::model::{absorb_blocks, permute_times, xor_block};
use crate::permutation::Permutation;
use vstd::arithmetic::div_mod::{lemma_mod_multiples_vanish, lemma_small_mod};
use vstd::prelude::*;

verus! {

/// Folding a block into a state keeps the length of the state, and so does
/// absorbing any number of blocks, and so does permuting any number of times.
pub proof fn lemma_lengths<P: Permutation>(
    permutation: P,
    rate: nat,
    state: Seq<u8>,
    data: Seq<u8>,
    times: nat,
)
    ensures
        xor_block(state, data).len() == state.len(),
        absorb_blocks(permutation, rate, state, data).len() == state.len(),
        permute_times(permutation, state, times).len() == state.len(),
    decreases data.len(), times,
{
    if rate > 0 && data.len() >= rate {
        let next = permutation.permute(xor_block(state, data.take(rate as int)));
        permutation.lemma_preserves_len(xor_block(state, data.take(rate as int)));
        lemma_lengths(permutation, rate, next, data.skip(rate as int), 0);
    }
    if times > 0 {
        lemma_lengths(permutation, rate, state, Seq::empty(), (times - 1) as nat);
        permutation.lemma_preserves_len(permute_times(permutation, state, (times - 1) as nat));
    }
}

/// Absorbing the blocks of `data` from `offset` on is absorbing the block
/// that begins there and then the blocks after it.
pub proof fn lemma_absorb_block_at<P: Permutation>(
    permutation: P,
    rate: nat,
    state: Seq<u8>,
    data: Seq<u8>,
    offset: nat,
)
    requires
        rate > 0,
        offset + rate <= data.len(),
    ensures
        absorb_blocks(permutation, rate, state, data.skip(offset as int)) == absorb_blocks(
            permutation,
            rate,
            permutation.permute(
                xor_block(state, data.subrange(offset as int, (offset + rate) as int)),
            ),
            data.skip((offset + rate) as int),
        ),
{
    let rest = data.skip(offset as int);
    assert(rest.take(rate as int) =~= data.subrange(offset as int, (offset + rate) as int));
    assert(rest.skip(rate as int) =~= data.skip((offset + rate) as int));
}

/// Absorbing the blocks of `first` and then those of `second` is absorbing
/// the blocks of both in one go, where `first` holds whole blocks only.
pub proof fn lemma_absorb_blocks_concat<P: Permutation>(
    permutation: P,
    rate: nat,
    state: Seq<u8>,
    first: Seq<u8>,
    second: Seq<u8>,
)
    requires
        rate > 0,
        first.len() % rate == 0,
    ensures
        absorb_blocks(permutation, rate, state, first + second) == absorb_blocks(
            permutation,
            rate,
            absorb_blocks(permutation, rate, state, first),
            second,
        ),
    decreases first.len(),
{
    if first.len() > 0 {
        if first.len() < rate {
            lemma_small_mod(first.len(), rate);
        }
        let next = permutation.permute(xor_block(state, first.take(rate as int)));
        assert((first + second).take(rate as int) =~= first.take(rate as int));
        assert((first + second).skip(rate as int) =~= first.skip(rate as int) + second);
        assert(first.skip(rate as int).len() % rate == 0) by {
            lemma_mod_multiples_vanish(-1, first.len() as int, rate as int);
        }
        lemma_absorb_blocks_concat(permutation, rate, next, first.skip(rate as int), second);
    }
}

/// Folding the same block into two states of one length keeps them apart.
pub proof fn lemma_xor_block_injective(a: Seq<u8>, b: Seq<u8>, block: Seq<u8>)
    requires
        a.len() == b.len(),
        xor_block(a, block) == xor_block(b, block),
    ensures
        a == b,
{
    assert forall|i: int| 0 <= i < a.len() implies a[i] == b[i] by {
        let x = a[i];
        let y = b[i];
        let k = block[i];
        assert(xor_block(a, block)[i] == if i < block.len() { x ^ k } else { x });
        assert(xor_block(b, block)[i] == if i < block.len() { y ^ k } else { y });
        assert(x ^ k == y ^ k ==> x == y) by (bit_vector);
    }
    assert(a =~= b);
}

/// Absorbing the same blocks into two states of one length keeps them
/// apart, and so does permuting both as many times: each step is undone by
/// folding the block in once more or by inverting the permutation.
pub proof fn lemma_steps_injective<P: Permutation>(
    permutation: P,
    rate: nat,
    a: Seq<u8>,
    b: Seq<u8>,
    data: Seq<u8>,
    times: nat,
)
    requires
        a.len() == b.len(),
    ensures
        absorb_blocks(permutation, rate, a, data) == absorb_blocks(permutation, rate, b, data)
            ==> a == b,
        permute_times(permutation, a, times) == permute_times(permutation, b, times) ==> a == b,
    decreases data.len(), times,
{
    if rate > 0 && data.len() >= rate {
        let block = data.take(rate as int);
        let next_a = permutation.permute(xor_block(a, block));
        let next_b = permutation.permute(xor_block(b, block));
        permutation.lemma_preserves_len(xor_block(a, block));
        permutation.lemma_preserves_len(xor_block(b, block));
        lemma_steps_injective(permutation, rate, next_a, next_b, data.skip(rate as int), 0);
        if next_a == next_b {
            permutation.lemma_inverse(xor_block(a, block));
            permutation.lemma_inverse(xor_block(b, block));
            lemma_xor_block_injective(a, b, block);
        }
    }
    if times > 0 {
        let before_a = permute_times(permutation, a, (times - 1) as nat);
        let before_b = permute_times(permutation, b, (times - 1) as nat);
        lemma_steps_injective(permutation, rate, a, b, Seq::empty(), (times - 1) as nat);
        permutation.lemma_inverse(before_a);
        permutation.lemma_inverse(before_b);
    }
}

/// Permuting `a` times and then `b` times is permuting `a + b` times.
pub proof fn lemma_permute_times_add<P: Permutation>(
    permutation: P,
    state: Seq<u8>,
    a: nat,
    b: nat,
)
    ensures
        permute_times(permutation, permute_times(permutation, state, a), b) == permute_times(
            permutation,
            state,
            a + b,
        ),
    decreases b,
{
    if b > 0 {
        lemma_permute_times_add(permutation, state, a, (b - 1) as nat);
    }
}

} // verus!
