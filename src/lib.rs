//! Transform a `Vec` element by element into a `Vec` of another type, keeping
//! the elements in order. The mapping may fail: the first error stops the
//! transformation, and every value it made or did not reach is dropped once.

mod buffer;
mod cursor;
mod vec_ext;

pub use buffer::{same_layout, spec_same_layout};
pub use cursor::{callable_on, fails_first, mapped, never_fails};
pub use vec_ext::VecExt;
