//! Positions and lengths measured in blocks: quotients and remainders by
//! the rate.

use vstd::arithmetic::div_mod::{lemma_fundamental_div_mod, lemma_fundamental_div_mod_converse};
use vstd::arithmetic::mul::lemma_mul_is_commutative;
use vstd::prelude::*;

verus! {

/// A position that lies `offset` bytes into block `block` has that block as
/// its quotient by the rate and that offset as its remainder.
pub proof fn lemma_window(position: nat, rate: nat, block: nat, offset: nat)
    requires
        offset < rate,
        position == block * rate + offset,
    ensures
        position / rate == block,
        position % rate == offset,
{
    lemma_fundamental_div_mod_converse(position as int, rate as int, block as int, offset as int);
}

/// Every position lies in the block given by its quotient by the rate, at
/// the offset given by its remainder.
pub proof fn lemma_position(position: nat, rate: nat)
    requires
        rate > 0,
    ensures
        position == (position / rate) * rate + position % rate,
        position % rate < rate,
{
    lemma_fundamental_div_mod(position as int, rate as int);
    lemma_mul_is_commutative(rate as int, position as int / rate as int);
}

/// The block after block `block` begins `rate` bytes after it.
pub proof fn lemma_next_block(block: nat, rate: nat)
    ensures
        (block + 1) * rate == block * rate + rate,
{
    assert((block + 1) * rate == block * rate + rate) by (nonlinear_arith);
}

/// A length without its remainder by the rate is a multiple of the rate.
pub proof fn lemma_whole_blocks(len: nat, rate: nat)
    requires
        rate > 0,
    ensures
        len % rate <= len,
        ((len - len % rate) as nat) % rate == 0,
{
    lemma_position(len, rate);
    assert((len / rate) * rate >= 0) by (nonlinear_arith)
        requires
            len / rate >= 0,
            rate > 0,
    ;
    lemma_window((len - len % rate) as nat, rate, len / rate, 0);
}

} // verus!
