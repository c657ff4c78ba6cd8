//! Combinational logic built from a single universal gate.
//!
//! Every gate in this library is derived, directly or transitively, from
//! NAND: `nand` is the only function whose body touches the host
//! language's native Boolean operators. Scalar gates are lifted pointwise
//! to width-16 bitvectors, fanned out into 4-way and 8-way selectors, and
//! finally composed into a 16-bit ripple-carry adder and increment whose
//! contracts state the arithmetic meaning of the bits: little-endian, with
//! the carry out of the top position discarded, so addition is exact
//! modulo 2^16.

pub mod arithmetic;
pub mod bits;
pub mod logic;
