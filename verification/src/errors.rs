use vstd::prelude::*;

verus! {

/// Error raised while unpacking a modpack archive into a directory tree.
///
/// `Io` is reserved for filesystem failures reported by the caller that
/// executes the unpack plan; the planning code itself never produces it.
#[derive(Debug, Clone, PartialEq, Eq)]
pub enum ExtractError {
    /// A filesystem operation failed while materializing the plan.
    Io(String),
    /// The archive's structure could not be read, or an entry could not be
    /// decompressed.
    MalformedArchive,
    /// An entry name would escape the output root (parent-directory
    /// traversal or an absolute path); the offending name is carried along.
    PathTraversalRejected(String),
}

/// Error raised while locating and decoding the modpack manifest.
#[derive(Debug, Clone, Copy, PartialEq, Eq, Structural)]
pub enum ManifestError {
    /// No manifest file is present at the expected name.
    NotFound,
    /// The manifest exists but does not decode to a well-formed manifest:
    /// invalid text, a missing required field, a wrongly typed field, an
    /// unsupported format version, or an unrecognized dependency key.
    Malformed,
}

/// Error raised while fetching one manifest-declared file.
#[derive(Debug, Clone, PartialEq, Eq)]
pub enum FetchError {
    /// The entry lists no candidate download URL; detected before any
    /// network activity.
    NoDownloads(String),
    /// The entry's destination path would escape the installation root.
    PathTraversalRejected(String),
    /// The transport failed before a status line was received.
    Network(String),
    /// The server answered with a non-success HTTP status.
    HttpStatus(u16),
    /// Writing the body to the destination failed.
    Io(String),
}

/// Error from one installation run, tagged with the step that failed.
#[derive(Debug, Clone, PartialEq, Eq)]
pub enum InstallError {
    Extract(ExtractError),
    Manifest(ManifestError),
    /// Fetching failed; carries the index of the manifest entry.
    Fetch(usize, FetchError),
}

/// General error type of the client library.
///
/// The transport, filesystem and decoding failures carry the reporting
/// layer's message as plain text.
#[derive(Debug, Clone, PartialEq, Eq)]
pub enum SynrinthErr {
    IOError(String),
    JSONError(String),
    RequestError(String),
    /// A dependency key in a manifest was not one of the recognized names.
    InvalidDependency(String),
}

} // verus!
