//! The traits and types a caller usually wants in scope.

pub use crate::parameters::PageParameters;
pub use crate::parameters::SortParameters;

pub use crate::sort::Sort;
