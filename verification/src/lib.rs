//! Core of a small file finder: path predicates compiled from query flags,
//! a size-comparison language, and the per-entry filter that a concurrent
//! directory walk evaluates against every entry it visits.

pub mod flags;
pub mod path_check;
pub mod pattern;
pub mod scan;
pub mod size;
pub mod text;

pub use flags::Flags;
pub use path_check::Check;
pub use path_check::PathCheck;
pub use size::Size;
pub use size::SizeComparison;
