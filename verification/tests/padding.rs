use sponge_construction::{
    ByteSubstitution, OneBitPadding, Padding, PhaseError, RotateXor, SpongeConstruction,
    ZeroPadding,
};

#[test]
fn zero_padding_fills_up_to_the_next_multiple_of_the_rate() {
    assert_eq!(ZeroPadding.pad(13, 16), vec![0u8; 3]);
    assert_eq!(ZeroPadding.pad(1, 4), vec![0u8; 3]);
    assert_eq!(ZeroPadding.pad(2, 4), vec![0u8; 2]);
    assert_eq!(ZeroPadding.pad(3, 4), vec![0u8; 1]);
    assert_eq!(ZeroPadding.pad(5, 4), vec![0u8; 3]);
    assert_eq!(ZeroPadding.pad(17, 16), vec![0u8; 15]);
}

#[test]
fn zero_padding_adds_nothing_to_whole_blocks() {
    assert_eq!(ZeroPadding.pad(0, 16), Vec::<u8>::new());
    assert_eq!(ZeroPadding.pad(16, 16), Vec::<u8>::new());
    assert_eq!(ZeroPadding.pad(32, 16), Vec::<u8>::new());
    assert_eq!(ZeroPadding.pad(7, 1), Vec::<u8>::new());
    assert_eq!(ZeroPadding.pad(0, 1), Vec::<u8>::new());
}

#[test]
fn zero_padding_reaches_the_least_multiple_and_no_more() {
    for rate in 1usize..=9 {
        for len in 0usize..=40 {
            let padding = ZeroPadding.pad(len, rate);
            assert!(padding.iter().all(|&b| b == 0));
            assert_eq!((len + padding.len()) % rate, 0);
            assert!(padding.len() < rate);
        }
    }
}

#[test]
fn one_bit_padding_marks_the_end_and_fills_up_with_zeros() {
    assert_eq!(OneBitPadding.pad(13, 16), vec![0x80, 0, 0]);
    assert_eq!(OneBitPadding.pad(1, 4), vec![0x80, 0, 0]);
    assert_eq!(OneBitPadding.pad(2, 4), vec![0x80, 0]);
    assert_eq!(OneBitPadding.pad(3, 4), vec![0x80]);
    assert_eq!(OneBitPadding.pad(5, 4), vec![0x80, 0, 0]);
}

#[test]
fn one_bit_padding_adds_a_block_to_whole_blocks() {
    assert_eq!(OneBitPadding.pad(0, 4), vec![0x80, 0, 0, 0]);
    assert_eq!(OneBitPadding.pad(4, 4), vec![0x80, 0, 0, 0]);
    assert_eq!(OneBitPadding.pad(8, 4), vec![0x80, 0, 0, 0]);
    assert_eq!(OneBitPadding.pad(0, 1), vec![0x80]);
    assert_eq!(OneBitPadding.pad(5, 1), vec![0x80]);
}

#[test]
fn one_bit_padding_fills_whole_blocks() {
    for rate in 1usize..=9 {
        for len in 0usize..=40 {
            let padding = OneBitPadding.pad(len, rate);
            assert_eq!(padding[0], 0x80);
            assert!(padding[1..].iter().all(|&b| b == 0));
            assert_eq!((len + padding.len()) % rate, 0);
            assert!(1 <= padding.len() && padding.len() <= rate);
        }
    }
}

#[test]
fn new_pads_with_zeros() {
    let mut plain = SpongeConstruction::new(4, 2).unwrap();
    let mut explicit = SpongeConstruction::with_parts(4, 2, RotateXor, ZeroPadding).unwrap();
    let mut by_hand = SpongeConstruction::new(4, 2).unwrap();
    plain.absorb(&[1, 2, 3, 4, 5]).unwrap();
    explicit.absorb(&[1, 2, 3, 4, 5]).unwrap();
    by_hand.absorb(&[1, 2, 3, 4, 5, 0, 0, 0]).unwrap();
    assert_eq!(plain.state(), explicit.state());
    assert_eq!(plain.state(), by_hand.state());
}

#[test]
fn the_padding_rule_can_be_swapped() {
    let mut sponge = SpongeConstruction::with_parts(4, 2, RotateXor, OneBitPadding).unwrap();
    sponge.absorb(&[1, 2, 3]).unwrap();
    assert_eq!(sponge.state(), &[0x13, 0x0b, 0x03, 0x1f, 0x1b, 0x1b][..]);

    // The same as the block [1, 2, 3, 0x80] absorbed with no padding at all.
    let mut by_hand = SpongeConstruction::new(4, 2).unwrap();
    by_hand.absorb(&[1, 2, 3, 0x80]).unwrap();
    assert_eq!(sponge.state(), by_hand.state());
}

#[test]
fn one_bit_padding_gives_a_whole_block_its_own_padding_block() {
    let mut sponge = SpongeConstruction::with_parts(4, 2, RotateXor, OneBitPadding).unwrap();
    sponge.absorb(&[1, 2, 3, 4]).unwrap();
    assert_eq!(sponge.state(), &[0x87, 0x43, 0x03, 0xc2, 0xc3, 0xc3][..]);
    assert_eq!(
        sponge.squeeze(6),
        vec![0x87, 0x43, 0x03, 0xc2, 0x27, 0x01]
    );
}

#[test]
fn one_bit_padding_absorbs_a_block_for_the_empty_message() {
    let mut sponge = SpongeConstruction::with_parts(4, 2, RotateXor, OneBitPadding).unwrap();
    sponge.absorb(&[]).unwrap();
    assert_eq!(sponge.state(), &[0x1f, 0x1b, 0x1b, 0x1b, 0x1b, 0x1b][..]);
}

#[test]
fn one_bit_padding_tells_trailing_zeros_from_padding() {
    let mut short = SpongeConstruction::with_parts(4, 2, RotateXor, OneBitPadding).unwrap();
    let mut long = SpongeConstruction::with_parts(4, 2, RotateXor, OneBitPadding).unwrap();
    short.absorb(&[1, 2]).unwrap();
    long.absorb(&[1, 2, 0]).unwrap();
    assert_eq!(short.state(), &[0x13, 0x0b, 0x1f, 0x1b, 0x1b, 0x1b][..]);
    assert_eq!(long.state(), &[0x13, 0x0b, 0x1b, 0x1f, 0x1b, 0x1b][..]);
}

#[test]
fn both_parts_can_be_swapped_at_once() {
    let mut sponge =
        SpongeConstruction::with_parts(3, 1, ByteSubstitution, OneBitPadding).unwrap();
    sponge.absorb(&[9]).unwrap();
    // The block [9, 0x80, 0] folded into zeros, every byte then replaced
    // by 167 times itself plus 13.
    let expected: Vec<u8> = [9u8, 0x80, 0, 0]
        .iter()
        .map(|&b| b.wrapping_mul(167).wrapping_add(13))
        .collect();
    assert_eq!(sponge.state(), &expected[..]);
}

#[test]
fn the_phase_is_enforced_whatever_the_padding() {
    let mut sponge = SpongeConstruction::with_parts(4, 2, RotateXor, OneBitPadding).unwrap();
    sponge.squeeze(0);
    assert_eq!(sponge.absorb(&[]), Err(PhaseError::AlreadySqueezing));
    assert_eq!(sponge.state(), &[0u8; 6][..]);
}

#[test]
fn squeezing_in_parts_is_squeezing_the_whole_whatever_the_padding() {
    for first in 0usize..=9 {
        for second in 0usize..=9 {
            let mut in_parts =
                SpongeConstruction::with_parts(4, 2, RotateXor, OneBitPadding).unwrap();
            in_parts.absorb(b"abc").unwrap();
            let mut output = in_parts.squeeze(first);
            output.extend(in_parts.squeeze(second));
            let mut at_once =
                SpongeConstruction::with_parts(4, 2, RotateXor, OneBitPadding).unwrap();
            at_once.absorb(b"abc").unwrap();
            assert_eq!(output, at_once.squeeze(first + second));
        }
    }
}
