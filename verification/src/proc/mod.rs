//! Processing of the types of a program: their layout in memory.

pub mod alignment;
pub mod laws;
pub mod layouter;
pub mod rules;

pub use alignment::Alignment;
pub use layouter::{Layouter, TypeLayout};
pub use rules::{LayoutError, LayoutErrorKind};
