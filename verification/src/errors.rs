//! Construction-time failures of the binding.
//!
//! Both failures are deterministic: retrying with the same path and the same
//! library reproduces them, so no retry policy applies. Failures after
//! successful construction belong to the native library, not to this layer.

use vstd::prelude::*;
use vstd::string::StringExecFns;

verus! {

/// Why the binding could not be constructed.
///
/// Either the dynamic library could not be opened at all, or one required
/// entry point was absent from the opened library. Both carry the OS-level
/// loader diagnostic text; `target` names the library respectively the
/// entry point concerned.
#[derive(Debug)]
pub enum LoadError {
    /// A required entry point was absent from the opened library.
    LoadFunction {
        /// The OS loader's diagnostic text for the failed lookup.
        inner: String,
        /// The name of the entry point that could not be resolved.
        target: String,
    },
    /// The dynamic library itself could not be opened.
    LoadLLVM {
        /// The OS loader's diagnostic text for the failed open.
        inner: String,
        /// The name of the library that could not be opened.
        target: String,
    },
}

impl LoadError {
    /// The diagnostic text of this error.
    pub open spec fn spec_message(&self) -> Seq<char> {
        match self {
            LoadError::LoadFunction { inner, target } => "failed to resolve entry point "@
                + target@ + ": "@ + inner@
                + " (the loaded library's version may be incompatible with the expected entry-point set)"@,
            LoadError::LoadLLVM { inner, target } => "failed to open library "@ + target@ + ": "@
                + inner@,
        }
    }

    /// Renders the error as one line of diagnostic text.
    pub fn message(&self) -> (m: String)
        ensures
            m@ == self.spec_message(),
    {
        match self {
            LoadError::LoadFunction { inner, target } => {
                let mut m = String::from_str("failed to resolve entry point ");
                m.append(target.as_str());
                m.append(": ");
                m.append(inner.as_str());
                m.append(
                    " (the loaded library's version may be incompatible with the expected entry-point set)",
                );
                m
            },
            LoadError::LoadLLVM { inner, target } => {
                let mut m = String::from_str("failed to open library ");
                m.append(target.as_str());
                m.append(": ");
                m.append(inner.as_str());
                m
            },
        }
    }
}

} // verus!
