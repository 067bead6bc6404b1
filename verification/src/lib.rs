//! Sequences whose type states how many elements they hold.
//!
//! An at-least wrapper holds at least one, two, three or four elements; an
//! at-most wrapper holds a single element. Every wrapper offers the same
//! read-only access through [`AtCollection`]. A wrapper is built from the
//! elements it must hold, which cannot fail, or from a vector of any length,
//! which is refused when the vector is too short.

pub mod at_least_four;
pub mod at_least_one;
pub mod at_least_three;
pub mod at_least_two;
pub mod at_most_one;
pub mod at_most_three;
pub mod at_most_two;
pub mod class;
pub mod collection;
pub mod error;
pub mod literal;

pub use crate::at_least_four::AtLeastFour;
pub use crate::at_least_one::AtLeastOne;
pub use crate::at_least_three::AtLeastThree;
pub use crate::at_least_two::AtLeastTwo;
pub use crate::at_most_one::AtMostOne;
pub use crate::at_most_three::AtMostThree;
pub use crate::at_most_two::AtMostTwo;
pub use crate::class::AtLeast;
pub use crate::collection::AtCollection;
pub use crate::error::BoundError;
pub use crate::literal::{atl1, atl2, atl3, atl4};
