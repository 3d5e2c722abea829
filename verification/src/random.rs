//! Pseudo-random numbers for food placement.

pub mod random;
