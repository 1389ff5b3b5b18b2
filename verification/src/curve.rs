//! The constant-product pool engine: fee computation, the fee-free curve,
//! and the swap orchestrator that composes the two.

pub mod calculator;
pub mod constant_product;
pub mod fees;
