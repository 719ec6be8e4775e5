//! Document location manager: tracks the configurable documents directory of
//! a desktop application, persists that choice through a small configuration
//! record, and builds validated file paths under the effective directory.
//!
//! The library holds the state and the decisions: which directory is in
//! effect, what the configuration record must contain, which file names are
//! accepted under the sandboxed default directory, and how filesystem
//! outcomes map to results. The surrounding shell performs the actual
//! filesystem work and feeds each outcome back in as a plain value.

pub mod errors;
pub mod pathtext;
pub mod location;
pub mod resolver;
pub mod ops;
pub mod report;
pub mod laws;

use vstd::prelude::*;

verus! {

/// The demonstration greeting of the application shell.
pub fn greet(name: &str) -> (r: String)
    ensures
        r@ == "Hello, "@ + name@ + "! You've been greeted from Rust!"@,
{
    let mut r = "Hello, ".to_owned();
    r.append(name);
    r.append("! You've been greeted from Rust!");
    r
}

} // verus!
