//! Small types that the rest of the library shares.

pub mod either;
pub mod timestamp;
