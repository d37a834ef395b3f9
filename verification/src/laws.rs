//! What holds of every sponge, whatever its permutation and its padding
//! rule, and what holds of the padding rules of this library, stated over
//! the model that the executable sponge is specified against.

use crate::arith::{lemma_next_block, lemma_position, lemma_window};
use crate::error::PhaseError;
use crate::lemmas::{
    lemma_absorb_blocks_concat,
    lemma_lengths,
    lemma_permute_times_add,
    lemma_steps_injective,
};
use crate::model::{absorb_blocks, Phase, SpongeView};
use crate::padding::{padded, zero_pad, zero_padding_len, OneBitPadding, Padding, ZeroPadding};
use crate::permutation::Permutation;
use vstd::arithmetic::div_mod::lemma_mod_multiples_vanish;
use vstd::prelude::*;

verus! {

/// A permutation is a bijection on the states of each length: two states
/// that it maps to the same state are the same, and every state is what it
/// makes of some state of the same length.
pub proof fn lemma_permutation_bijective<P: Permutation>(permutation: P, a: Seq<u8>, b: Seq<u8>)
    ensures
        permutation.permute(a) == permutation.permute(b) ==> a == b,
        exists|origin: Seq<u8>|
            origin.len() == b.len() && #[trigger] permutation.permute(origin) == b,
{
    permutation.lemma_inverse(a);
    permutation.lemma_inverse(b);
    permutation.lemma_preserves_len(b);
}

/// A padded message begins with the message and fills whole blocks.
pub proof fn lemma_padded_whole_blocks<D: Padding>(padding: D, message: Seq<u8>, rate: nat)
    requires
        rate > 0,
    ensures
        padded(padding, message, rate).len() % rate == 0,
        padded(padding, message, rate).len() >= message.len(),
        padded(padding, message, rate).take(message.len() as int) == message,
{
    padding.lemma_fills_blocks(message.len(), rate);
}

/// A message padded with zeros is as long as the least multiple of the rate
/// that is not less than the length of the message: it is such a multiple,
/// and no such multiple is smaller. All that follows the message is zero. A
/// message whose length is a multiple of the rate already, the empty one
/// among them, is left as it is.
pub proof fn lemma_zero_pad_least_multiple(message: Seq<u8>, rate: nat, multiple: nat)
    requires
        rate > 0,
        multiple % rate == 0,
        multiple >= message.len(),
    ensures
        zero_pad(message, rate).len() % rate == 0,
        message.len() <= zero_pad(message, rate).len() <= multiple,
        zero_pad(message, rate).take(message.len() as int) == message,
        forall|i: int|
            message.len() <= i < zero_pad(message, rate).len() ==> zero_pad(message, rate)[i] == 0,
        message.len() % rate == 0 ==> zero_pad(message, rate) == message,
{
    let padded_len = zero_pad(message, rate).len();
    lemma_padded_whole_blocks(ZeroPadding, message, rate);
    lemma_position(multiple, rate);
    lemma_position(padded_len, rate);
    if multiple < padded_len {
        let m = multiple / rate;
        let p = padded_len / rate;
        assert(m < p) by (nonlinear_arith)
            requires
                m * rate < p * rate,
                rate > 0,
        ;
        assert((m + 1) * rate <= p * rate) by (nonlinear_arith)
            requires
                m + 1 <= p,
                rate > 0,
        ;
        lemma_next_block(m, rate);
    }
}

/// Padded with zeros, the empty message is absorbed without a trace: no
/// block is taken in and the state is not permuted. Squeezing no bytes
/// after it gives no bytes and changes nothing but the phase.
pub proof fn lemma_empty_message_no_output<P: Permutation>(sponge: SpongeView<P, ZeroPadding>)
    requires
        sponge.wf(),
    ensures
        sponge.absorbed(Seq::empty()) == sponge,
        sponge.output(0) == Seq::<u8>::empty(),
        sponge.squeezed(0) == (SpongeView { phase: Phase::Squeezing, ..sponge }),
{
}

/// Padding with zeros is ambiguous: zero bytes at the end of a message
/// cannot be told from padding. A message followed by no more zero bytes
/// than its padding holds is padded to the same bytes, and so absorbed to
/// the same state, as the message alone.
pub proof fn lemma_zero_padding_ambiguous<P: Permutation>(
    sponge: SpongeView<P, ZeroPadding>,
    message: Seq<u8>,
    zeros: nat,
)
    requires
        sponge.wf(),
        zeros <= zero_padding_len(message.len(), sponge.rate),
    ensures
        zero_pad(message + Seq::new(zeros, |i: int| 0u8), sponge.rate) == zero_pad(
            message,
            sponge.rate,
        ),
        sponge.absorb(message + Seq::new(zeros, |i: int| 0u8)) == sponge.absorb(message),
{
    let rate = sponge.rate;
    let len = message.len();
    lemma_position(len, rate);
    if zeros > 0 {
        if zeros == zero_padding_len(len, rate) {
            lemma_next_block(len / rate, rate);
            lemma_window(len + zeros, rate, len / rate + 1, 0);
        } else {
            lemma_window(len + zeros, rate, len / rate, len % rate + zeros);
        }
    }
}

/// Padding with a one bit and zeros is unambiguous: messages that are
/// padded to the same bytes are the same message.
pub proof fn lemma_one_bit_padding_unambiguous(a: Seq<u8>, b: Seq<u8>, rate: nat)
    requires
        rate > 0,
        padded(OneBitPadding, a, rate) == padded(OneBitPadding, b, rate),
    ensures
        a == b,
{
    let bytes = padded(OneBitPadding, a, rate);
    if a.len() != b.len() {
        // The byte after the shorter message is the mark; seen from the
        // longer one it is a byte of the message or, after it, a zero.
        let (short, long) = if a.len() < b.len() {
            (a, b)
        } else {
            (b, a)
        };
        let short_padding = OneBitPadding.padding(short.len(), rate);
        let long_padding = OneBitPadding.padding(long.len(), rate);
        let end = long.len() as int;
        assert(bytes == long + long_padding);
        assert((short + short_padding)[end] == short_padding[end - short.len()]);
    }
    assert(a =~= bytes.take(a.len() as int));
    assert(b =~= bytes.take(b.len() as int));
}

/// The state of a sponge is `rate + capacity` bytes long when it is made
/// and stays so, with the same rate and capacity, whatever it absorbs and
/// however much is squeezed from it; and all else that holds of a sponge
/// holds on as well.
pub proof fn lemma_state_len_invariant<P: Permutation, D: Padding>(
    sponge: SpongeView<P, D>,
    message: Seq<u8>,
    len: nat,
)
    requires
        sponge.wf(),
    ensures
        SpongeView::fresh(sponge.permutation, sponge.padding, sponge.rate, sponge.capacity).wf(),
        sponge.absorbed(message).wf(),
        sponge.absorbed(message).state.len() == sponge.rate + sponge.capacity,
        sponge.absorbed(message).rate == sponge.rate,
        sponge.absorbed(message).capacity == sponge.capacity,
        sponge.squeezed(len).wf(),
        sponge.squeezed(len).state.len() == sponge.rate + sponge.capacity,
        sponge.squeezed(len).rate == sponge.rate,
        sponge.squeezed(len).capacity == sponge.capacity,
{
    lemma_lengths(
        sponge.permutation,
        sponge.rate,
        sponge.state,
        padded(sponge.padding, message, sponge.rate),
        0,
    );
    if len > 0 {
        let last = (sponge.squeeze_cursor + len - 1) as nat;
        lemma_lengths(
            sponge.permutation,
            sponge.rate,
            sponge.state,
            Seq::empty(),
            last / sponge.rate,
        );
        lemma_position(last, sponge.rate);
    }
}

/// No state is lost: since the permutation is a bijection, two sponges made
/// alike that differ in their states still differ after they have absorbed
/// the same message, and after the same number of bytes has been squeezed
/// from each at the same place.
pub proof fn lemma_states_kept_apart<P: Permutation, D: Padding>(
    a: SpongeView<P, D>,
    b: SpongeView<P, D>,
    message: Seq<u8>,
    len: nat,
)
    requires
        a.wf(),
        b.wf(),
        a.permutation == b.permutation,
        a.padding == b.padding,
        a.rate == b.rate,
        a.capacity == b.capacity,
        a.squeeze_cursor == b.squeeze_cursor,
        a.state != b.state,
    ensures
        a.absorbed(message).state != b.absorbed(message).state,
        a.squeezed(len).state != b.squeezed(len).state,
{
    lemma_steps_injective(
        a.permutation,
        a.rate,
        a.state,
        b.state,
        padded(a.padding, message, a.rate),
        if len == 0 {
            0
        } else {
            (a.squeeze_cursor + len - 1) as nat / a.rate
        },
    );
}

/// Two messages absorbed one after the other leave the state that the
/// blocks of the first, padded, followed by the blocks of the second,
/// padded, lead to. The padding of the first message is absorbed with it
/// and is not taken back by what follows.
pub proof fn lemma_absorb_successive<P: Permutation, D: Padding>(
    sponge: SpongeView<P, D>,
    first: Seq<u8>,
    second: Seq<u8>,
)
    requires
        sponge.wf(),
    ensures
        sponge.absorbed(first).absorbed(second) == (SpongeView {
            state: absorb_blocks(
                sponge.permutation,
                sponge.rate,
                sponge.state,
                padded(sponge.padding, first, sponge.rate) + padded(
                    sponge.padding,
                    second,
                    sponge.rate,
                ),
            ),
            ..sponge
        }),
{
    let rate = sponge.rate;
    lemma_padded_whole_blocks(sponge.padding, first, rate);
    lemma_absorb_blocks_concat(
        sponge.permutation,
        rate,
        sponge.state,
        padded(sponge.padding, first, rate),
        padded(sponge.padding, second, rate),
    );
}

/// Whether padding `first` where it ends changes nothing of the blocks that
/// are absorbed: the blocks of `first` followed by those of `second` are
/// the blocks of the two messages joined.
pub open spec fn pads_alike<D: Padding>(
    padding: D,
    first: Seq<u8>,
    second: Seq<u8>,
    rate: nat,
) -> bool {
    padded(padding, first, rate) + padded(padding, second, rate) == padded(
        padding,
        first + second,
        rate,
    )
}

/// Padded with zeros, the blocks of two messages are those of the messages
/// joined where the first message ends with a block, and where the second
/// is empty.
pub proof fn lemma_zero_padding_pads_alike(first: Seq<u8>, second: Seq<u8>, rate: nat)
    requires
        rate > 0,
        first.len() % rate == 0 || second.len() == 0,
    ensures
        pads_alike(ZeroPadding, first, second, rate),
{
    if first.len() % rate == 0 {
        lemma_position(first.len(), rate);
        lemma_mod_multiples_vanish(
            (first.len() / rate) as int,
            second.len() as int,
            rate as int,
        );
        assert(rate * (first.len() / rate) == (first.len() / rate) * rate) by (nonlinear_arith);
        assert(zero_pad(first + second, rate) =~= first + zero_pad(second, rate));
    }
}

/// Absorbing two messages one after the other leaves the sponge as
/// absorbing the two joined does, and is refused where that is refused.
///
/// This holds where the padding of the first message, which is absorbed
/// with it, is not in the way: see [`pads_alike`], and
/// [`lemma_zero_padding_pads_alike`] for what that means when the padding
/// is zeros. For all other messages see [`lemma_absorb_successive`].
pub proof fn lemma_absorb_concat<P: Permutation, D: Padding>(
    sponge: SpongeView<P, D>,
    first: Seq<u8>,
    second: Seq<u8>,
)
    requires
        sponge.wf(),
        pads_alike(sponge.padding, first, second, sponge.rate),
    ensures
        match sponge.absorb(first) {
            Ok(next) => next.absorb(second) == sponge.absorb(first + second),
            Err(e) => sponge.absorb(first + second) == Err::<SpongeView<P, D>, PhaseError>(e),
        },
{
    lemma_absorb_successive(sponge, first, second);
}

/// Squeezing `first_len` bytes and then `second_len` bytes gives, one after
/// the other, the bytes that squeezing `first_len + second_len` bytes at
/// once gives, and leaves the sponge in the same state.
pub proof fn lemma_squeeze_streaming<P: Permutation, D: Padding>(
    sponge: SpongeView<P, D>,
    first_len: nat,
    second_len: nat,
)
    requires
        sponge.wf(),
    ensures
        sponge.output(first_len) + sponge.squeezed(first_len).output(second_len) == sponge.output(
            first_len + second_len,
        ),
        sponge.squeezed(first_len).squeezed(second_len) == sponge.squeezed(first_len + second_len),
{
    let rate = sponge.rate;
    let next = sponge.squeezed(first_len);
    if first_len > 0 {
        let last = (sponge.squeeze_cursor + first_len - 1) as nat;
        let windows = last / rate;
        lemma_position(last, rate);
        assert forall|i: nat| #![trigger next.output_byte(i)]
            next.output_byte(i) == sponge.output_byte(first_len + i) && (next.squeeze_cursor + i)
                / rate + windows == (sponge.squeeze_cursor + first_len + i) / rate && (
            next.squeeze_cursor + i) % rate == (sponge.squeeze_cursor + first_len + i) % rate by {
            let position = next.squeeze_cursor + i;
            lemma_position(position, rate);
            assert((windows + position / rate) * rate == windows * rate + (position / rate) * rate)
                by (nonlinear_arith);
            lemma_window(
                sponge.squeeze_cursor + first_len + i,
                rate,
                windows + position / rate,
                position % rate,
            );
            lemma_permute_times_add(sponge.permutation, sponge.state, windows, position / rate);
        }
        if second_len > 0 {
            let i = (second_len - 1) as nat;
            assert(next.output_byte(i) == sponge.output_byte(first_len + i));
            lemma_permute_times_add(
                sponge.permutation,
                sponge.state,
                windows,
                (next.squeeze_cursor + i) / rate,
            );
        }
    }
}

/// Nothing but what the model names decides what a sponge does: sponges
/// that are made alike, or have come to agree in permutation, padding rule,
/// rate, capacity, state, phase and cursor, answer the same message alike,
/// give out the same bytes, and are left alike.
pub proof fn lemma_deterministic<P: Permutation, D: Padding>(
    a: SpongeView<P, D>,
    b: SpongeView<P, D>,
    message: Seq<u8>,
    len: nat,
)
    requires
        a.permutation == b.permutation,
        a.padding == b.padding,
        a.rate == b.rate,
        a.capacity == b.capacity,
        a.state == b.state,
        a.phase == b.phase,
        a.squeeze_cursor == b.squeeze_cursor,
    ensures
        SpongeView::fresh(a.permutation, a.padding, a.rate, a.capacity) == SpongeView::fresh(
            b.permutation,
            b.padding,
            b.rate,
            b.capacity,
        ),
        a.absorb(message) == b.absorb(message),
        a.output(len) == b.output(len),
        a.squeezed(len) == b.squeezed(len),
{
}

/// Once output has been asked for, be it no bytes at all, the sponge is
/// squeezing and stays so, and every message offered to it is refused with
/// [`PhaseError::AlreadySqueezing`]. A sponge that absorbs stays in its
/// phase.
pub proof fn lemma_phase_one_way<P: Permutation, D: Padding>(
    sponge: SpongeView<P, D>,
    len: nat,
    message: Seq<u8>,
)
    ensures
        sponge.squeezed(len).phase == Phase::Squeezing,
        sponge.squeezed(len).absorb(message) == Err::<SpongeView<P, D>, PhaseError>(
            PhaseError::AlreadySqueezing,
        ),
        sponge.phase == Phase::Squeezing ==> sponge.absorb(message) == Err::<
            SpongeView<P, D>,
            PhaseError,
        >(PhaseError::AlreadySqueezing),
        sponge.absorbed(message).phase == sponge.phase,
{
}

} // verus!
