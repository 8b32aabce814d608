//! Resolution of target presets for runtime-dispatched function variants.
//!
//! An annotated function declaration names presets (`"x86-64-v3"`) or raw
//! target strings (`"aarch64+neon+dotprod"`). This library resolves them,
//! sorts the resulting targets by architecture family, and puts one
//! conditional directive per family in front of the declaration. Each
//! directive hands the family's targets to the generator of runtime-dispatched
//! variants. A declaration without arguments gets the presets that the build
//! switched on; a kill switch turns every annotation into a passthrough.
//!
//! The way through the library, in the order of the work:
//!
//! - [`args`]: the argument list of an annotation, read from its tokens;
//! - [`presets`]: the preset table, and what one argument resolves to;
//! - [`family`]: the architecture family of a target string;
//! - [`defaults`]: the targets of an annotation without arguments;
//! - [`resolve`]: all arguments of an annotation, resolved and sorted by family;
//! - [`synthesize`]: the directives, and their text;
//! - [`expand`]: all of the above in one call.
//!
//! Beside it, [`x86_features`] and [`aarch64_features`] name what a processor
//! can report and compose the target string of a given processor, on top of
//! [`features`]. [`text`] holds the string primitives that everything uses,
//! and [`laws`] what is proved of the whole on every input.

pub mod aarch64_features;
pub mod args;
pub mod defaults;
pub mod expand;
pub mod family;
pub mod features;
pub mod laws;
pub mod presets;
pub mod resolve;
pub mod synthesize;
pub mod text;
pub mod x86_features;

pub use crate::expand::{multiversed, multiversed_impl};
