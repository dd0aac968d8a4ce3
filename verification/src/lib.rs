//! Local settings store for a desktop application shell: a small typed
//! preferences record, kept in one JSON file, with lenient-write /
//! strict-read semantics, plus the accumulator behind update-download
//! progress reports.

pub mod json;
pub mod settings;
pub mod store;
pub mod text;
pub mod update;

use vstd::prelude::*;

verus! {

/// The greeting the frontend gets back for a name.
pub fn greet(name: &str) -> (r: String)
    ensures
        r@ == "Hello, "@ + name@ + "! You've been greeted from Rust!"@,
{
    crate::text::concat3("Hello, ", name, "! You've been greeted from Rust!")
}

} // verus!
