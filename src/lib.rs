//! A bidirectional type checker and normalizer for a small dependently
//! typed lambda calculus with stratified universes.
pub mod binder;
pub mod context;
pub mod desugar;
pub mod equality;
pub mod errors;
pub mod module;
pub mod normalize;
pub mod syntax;
pub mod typing;

pub use crate::module::check_module;
pub use crate::normalize::normalize;
pub use crate::typing::{check, infer};
