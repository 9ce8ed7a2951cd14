//! Unique identity tokens.
//!
//! A [`Unique`] token is an opaque identity value: the only meaningful
//! operation on it is equality, and two tokens compare equal exactly when
//! they stem from the same creation call, directly or through duplication.
//! Identifiers are drawn from a monotonic counter, held explicitly in a
//! [`UniqueSource`]; zero is reserved as the sentinel that marks an
//! exhausted counter, so a valid token never carries identifier zero.

pub mod render;
pub mod token;

pub use token::Unique;
pub use token::UniqueSource;
