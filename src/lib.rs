//! A small statistical-modelling toolkit: named numeric vectors, input
//! validation and result assembly for ordinary-least-squares regression,
//! length checks for regression metrics, and a positional train/test split.
//!
//! The library is generic over the element type of its arrays and never
//! inspects element values, so everything here is verified structurally:
//! which inputs are rejected, which observation lands where, and which
//! coefficient belongs to which predictor.

pub mod array;
pub mod errors;
pub mod linear_model;
pub mod metrics;
pub mod model_selection;
