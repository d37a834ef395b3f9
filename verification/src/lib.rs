//! A sponge construction over bytes: a state of `rate + capacity` bytes that
//! absorbs a message block by block and then gives out as many bytes as are
//! asked for, with a permutation of the whole state between the blocks.
//!
//! [`SpongeConstruction`] is the sponge. The permutation at its heart and the
//! rule by which messages are padded are handed to it when it is made; see
//! [`Permutation`] and [`Padding`]. The permutations that come with the
//! library show the construction at work and are not meant to protect
//! anything.
//!
//! What the sponge computes is defined in [`model`], and every function
//! here is proved to compute just that. What follows from the definitions,
//! such as that output may be asked for in pieces, is proved in [`laws`].

mod arith;
pub mod error;
pub mod laws;
pub mod lemmas;
pub mod model;
pub mod padding;
pub mod permutation;
pub mod sponge;

pub use error::{ConfigError, PhaseError};
pub use model::Phase;
pub use padding::{OneBitPadding, Padding, ZeroPadding};
pub use permutation::{ByteSubstitution, Permutation, RotateXor};
pub use sponge::SpongeConstruction;
