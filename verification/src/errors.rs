//! The failure taxonomy of the cache manager.

use vstd::prelude::*;
use crate::paths::AbsPath;

verus! {

/// Why an invocation failed before, or instead of, running the external build.
///
/// A non-zero exit status of the external build is *not* an error of this
/// library: it is propagated unchanged as the invocation's own outcome. A
/// missing external-source directory is a non-fatal warning, not a variant
/// here.
#[derive(Debug)]
pub enum Error {
    /// No cache root could be determined: no override was supplied and the
    /// user's home directory could not be found.
    ConfigurationError,
    /// A configuration file was found but could not be parsed. Carries the
    /// directory that held the file and the parser's diagnostic.
    ConfigParseError { dir: AbsPath, message: String },
    /// The sentinel of `triple`'s sysroot could not be opened or locked.
    LockError { triple: String },
    /// The external build process could not be started at all. Distinct from
    /// a build that ran and exited non-zero.
    BuildLaunchError,
}

} // verus!
