//! A small geometric-algebra kernel: a 4-component homogeneous tuple type
//! used to represent 3D points (w = 1) and direction vectors (w = 0), with
//! component-wise arithmetic, epsilon-tolerant equality, and the vector
//! operations (magnitude, normalization, dot product, cross product) that
//! downstream geometry code builds on.
//!
//! Coordinates are fixed-point values: an [`scalar::Scalar`] holds a signed
//! count of `1 / SCALE` units, so every kernel operation is exact integer
//! arithmetic with a stated rounding rule, and every contract pins the result
//! down to the unit.

pub mod arith;
pub mod entity;
pub mod laws;
pub mod model;
pub mod point;
pub mod scalar;
pub mod traits;
pub mod trajectory;
pub mod tuples;
pub mod vector;
