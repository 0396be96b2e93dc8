//! Exact spatial algebra on the integer lattice.
//!
//! Coordinates are `i64` values and every operation computes the exact
//! mathematical result: lattice vectors with their dot and cross products,
//! quaternions with the Hamilton product and the two vector-rotation
//! conventions, and angles counted in whole arcseconds with their two canonical
//! domains. Each type has a mathematical model over `int`; the contracts and
//! the algebraic laws are stated over those models.

pub mod angle_ops;
pub mod constants;
pub mod decimal;
pub mod exact;
pub mod product_laws;
pub mod quaternions;
pub mod ring;
pub mod rotation_laws;
pub mod vector;
pub mod vector_laws;
pub mod vector_ops;
