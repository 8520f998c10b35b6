//! Classic two-dimensional Perlin noise: the integer core.
//!
//! This crate builds the doubled permutation table, picks the gradient of
//! each lattice corner, locates a grid coordinate in its lattice cell and
//! works out each corner's influence on it as an exact integer numerator.
//! Turning those numerators into a real-valued sample (easing and linear
//! blending) is left to the caller.

pub mod config;
pub mod error;
pub mod gradient;
pub mod table;
pub mod sampler;

pub use config::NoiseConfig;
pub use error::NoiseError;
pub use gradient::{corner_gradient, Gradient};
pub use table::{
    generate_permutation_table, generate_permutation_table_with, PermutationTable, PERIOD,
    TABLE_LEN,
};
pub use sampler::{cell_at_coordinates, lattice_cell, CellSample, Corner, LatticeCell};
