//! The Mojo extension: its language server, debug adapter and debug configurations.

use vstd::prelude::*;

verus! {

/// The Mojo extension.
#[derive(Clone, Debug, PartialEq, Eq)]
pub struct MojoExtension;

impl MojoExtension {
    /// A new extension.
    pub fn new() -> (r: Self)
        ensures
            r == MojoExtension,
    {
        MojoExtension
    }
}

} // verus!
