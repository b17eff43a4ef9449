//! Factorials of 64-bit arguments, obtained in two ways: by plain recursion,
//! as a worker runs it before it hands the value over, and as a chain of
//! dependent levels in which every level waits for the one nested inside it.
//! Both are proved to give the same value, which is the mathematical
//! factorial reduced to 64 bits.

pub mod chain;
pub mod handoff;
pub mod laws;
pub mod math;
pub mod recursive;

pub use recursive::factorial;
