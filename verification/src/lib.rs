//! A generic single-axis indexing contract for array-like containers: a
//! requested position or range, either bound possibly negative in the
//! Python-style count-from-the-end sense and possibly open, is normalized
//! against the dimension size and handed to a small set of storage
//! primitives that a container supplies.

pub mod mark;
pub mod normalize;
pub mod tensor_accessor;
pub mod tensor_trait;

pub use normalize::CanonicalRange;
pub use normalize::OutOfBounds;
pub use normalize::normalize_range;
