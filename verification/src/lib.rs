//! Witnesses for a topological signature scheme: words in the fundamental
//! group of a genus-g surface, evaluated as 2x2 matrices of determinant one
//! over the scalar field of BN254.
pub mod ceremony;
pub mod circom;
pub mod digest;
pub mod encoding;
pub mod field;
pub mod holonomy;
pub mod manifold;
pub mod matrix;
pub mod parameters;
pub mod path;
pub mod srs;
pub mod text;
pub mod witness;
