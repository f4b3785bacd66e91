use vstd::prelude::*;

verus! {

/// The failures that the installer reports. Each carries a short
/// description for the user.
#[derive(Clone, Debug, PartialEq, Eq)]
pub enum InstallError {
    /// The configuration text lacks a required key (the key is carried).
    Config(String),
    /// A path placeholder could not be resolved.
    EnvironmentResolution(String),
    /// The server's answer cannot be used (no usable length header).
    Protocol(String),
    /// The connection or the transfer of the body failed.
    Network(String),
    /// The archive is missing, unreadable or not an archive.
    ArchiveOpen(String),
    /// An entry of the archive could not be written.
    ArchiveExtract(String),
    /// The executable could not be started.
    Launch(String),
    /// A directory could not be deleted.
    Removal(String),
}

} // verus!
