//! A small two-component numeric vector library.
//!
//! The core type is [`Vec2`], a pair of scalars of some numeric domain.
//! Arithmetic, ordering helpers, conversions and the textual form are
//! available according to the capabilities of the element type, expressed by
//! the [`Scalar`], [`OrderScalar`], [`SignedScalar`] and [`TextScalar`]
//! traits. Every contract is stated over the integer model of the scalars,
//! and the laws the operations obey are proved in [`laws`].

pub mod laws;
pub mod scalar;
pub mod text;
pub mod vec2;

pub use scalar::fits;
pub use scalar::trunc_div;
pub use scalar::trunc_rem;
pub use scalar::OrderScalar;
pub use scalar::Scalar;
pub use scalar::SignedScalar;
pub use text::TextScalar;
pub use vec2::greater_of;
pub use vec2::lesser_of;
pub use vec2::Vec2;
pub use vec2::Vec2Error;
