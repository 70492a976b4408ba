//! The error taxonomy of a build run. Every error is fatal to the run.

use vstd::prelude::*;

verus! {

/// Why a build run stopped short of producing a bundle.
#[derive(Clone, Copy, Debug, PartialEq, Eq, Structural)]
pub enum BuildError {
    /// No `*.runtimeconfig.json` sidecar file was found, and no other
    /// inference strategy exists.
    UnsupportedInference,
    /// A filesystem step (listing, permission change, write) or a process
    /// spawn failed in the driver.
    Io,
    /// The manifest-to-build-tree compiler exited unsuccessfully.
    CompilerFailed,
    /// The build-tree-to-bundle bundler exited unsuccessfully.
    BundlerFailed,
}

impl BuildError {
    /// The diagnostic line reported for this error.
    pub open spec fn spec_message(self) -> Seq<char> {
        match self {
            BuildError::UnsupportedInference => "No runtimeconfig.json found, executable names from game name are not supported sorry"@,
            BuildError::Io => "A filesystem or process operation failed"@,
            BuildError::CompilerFailed => "flatpak-builder exited with an error"@,
            BuildError::BundlerFailed => "flatpak build-bundle exited with an error"@,
        }
    }

    /// Renders the diagnostic line.
    pub fn message(&self) -> (r: String)
        ensures
            r@ == self.spec_message(),
    {
        match self {
            BuildError::UnsupportedInference => String::from_str(
                "No runtimeconfig.json found, executable names from game name are not supported sorry",
            ),
            BuildError::Io => String::from_str("A filesystem or process operation failed"),
            BuildError::CompilerFailed => String::from_str("flatpak-builder exited with an error"),
            BuildError::BundlerFailed => String::from_str(
                "flatpak build-bundle exited with an error",
            ),
        }
    }
}

} // verus!
