//! Ophthalmic-lens optics: the eye and prism-base direction rules that decide
//! how a signed prism component is reported clinically.
pub mod base;
pub mod eye;
pub mod laws;

pub use base::{HorizontalBase, VerticalBase};
pub use eye::Eye;
