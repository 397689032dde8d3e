//! A chess puzzle session: the catalog, the cursor over the active puzzle's
//! solution, hints, and promotion notation.
pub mod puzzles;
pub mod styles;
