//! Encoder for a compact binary lighting-pattern protocol, and the
//! address-selection rule used when the encoded message is multicast
//! to LED-controller firmware.
//!
//! The pattern model is a small value tree (gradients, animations,
//! randomized-gradient parameters, a "popping spot" effect); `encode`
//! turns it into a fixed-layout little-endian byte buffer. The wire
//! format is stated as spec functions over byte sequences, and the
//! executable encoder is proved to produce exactly those bytes.

pub mod encode;
pub mod model;
pub mod net;
