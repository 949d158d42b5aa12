//! Line, word, byte and character counting with fixed-width reports, plus the
//! small text utilities that share its conventions.
pub mod counter;
pub mod selection;
pub mod format;
pub mod total;
pub mod session;
pub mod cat;
pub mod head;
pub mod uniq;
pub mod echo;
