//! What holds on every input: of the preset table, of the grammar of
//! argument lists, of resolution, of synthesis, and of the target strings
//! that detection composes.

pub mod arguments;
pub mod detection;
pub mod resolution;
pub mod sequences;
pub mod synthesis;
pub mod table;
