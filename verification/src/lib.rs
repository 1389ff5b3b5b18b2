//! Deterministic fixed-point arithmetic for a constant-product automated
//! market maker.
//!
//! Every operation is a pure, total function over unsigned integers: given a
//! pool's reserves and a trade or liquidity-change request, it computes the
//! exact token amounts to move, the fees to withhold, and the
//! liquidity-share conversions, with a fixed rounding direction that always
//! favors the pool.  Any overflow, underflow, or zero divisor is reported as
//! an absent result; nothing ever wraps or panics.

pub mod arith;
pub mod curve;
