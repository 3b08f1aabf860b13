//! The build-information report handed to the caller of the version
//! route. The values themselves are baked in at build time by the
//! surrounding program.

use vstd::prelude::*;

verus! {

/// The externally visible build information.
pub struct VersionInformation {
    /// The version of the backend which is currently running.
    pub backend_version: &'static str,
    /// The architecture the backend was built for.
    pub backend_arch: &'static str,
    /// The version of the rustc compiler used to compile the backend.
    pub rustc_version: &'static str,
    /// The date on which the backend was built.
    pub build_date: &'static str,
    /// The time at which the backend was built.
    pub build_time: &'static str,
}

} // verus!
