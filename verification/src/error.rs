//! The failures that are reported to the caller. None is ever retried.
use vstd::prelude::*;

verus! {

/// Why a repository was not fetched.
#[derive(Debug, PartialEq, Eq, Clone, Copy, Structural)]
pub enum FetchError {
    /// The repository store is not there: the space was never initialized.
    Path,
    /// The remote refused the credential.
    Auth,
    /// The remote could not be reached, or the transfer broke.
    Network,
    /// The destination cannot be read or created.
    Filesystem,
}

/// A failure of the filesystem that is reported, never retried.
#[derive(Debug, PartialEq, Eq, Clone, Copy, Structural)]
pub enum FilesystemError {
    /// Something that is not the expected link already has the name.
    Occupied,
    /// The operating system refused the operation.
    Denied,
}

} // verus!
