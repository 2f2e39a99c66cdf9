//! Partial updates of values: a patch describes sparse changes to a target,
//! and applying it merges those changes into the target in place.
use vstd::prelude::*;

pub mod laws;
pub mod patch;
pub mod records;

pub use patch::Patchable;
pub use records::{Bar, BarPatch, MyPatch, MyStruct, Person, PersonPatch};
