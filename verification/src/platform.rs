//! The host's operating system and what depends on it.

use vstd::prelude::*;

verus! {

/// The operating system that the editor runs on.
#[derive(Clone, Copy, Debug, PartialEq, Eq, Structural)]
pub enum Os {
    Mac,
    Linux,
    Windows,
}

/// The file extension of a shared library on `os`.
pub open spec fn library_extension_of(os: Os) -> Seq<char> {
    match os {
        Os::Mac => "dylib"@,
        _ => "so"@,
    }
}

} // verus!
