//! What can go wrong between the client, the index server and the release
//! host.

use vstd::prelude::*;

verus! {

/// A failure of the index client.
#[derive(Clone, Debug, PartialEq, Eq)]
pub enum IndexClientError {
    /// A request could not be sent, or its response could not be received.
    RequestError,
    /// The index server answered with a status that is neither a success nor
    /// `404`. The status is carried.
    StatusCodeNotOk(u16),
    /// The index server's answer could not be read as the document that was
    /// asked for.
    JsonParsingError,
    /// The HTTP client could not be set up.
    TlsBackendInitError,
    /// The index server knows no package of the name asked for.
    PackageNotFound,
    /// The release host gave no latest release. The owner and the name of the
    /// repository that was asked for are carried.
    GitHubReleaseError(String, String),
    /// The index server speaks another protocol version. The version this
    /// client expects comes first, the server's second.
    ProtocolVersionMismatch(u8, u8),
    /// The index server's protocol version is no number that was understood.
    ProtocolVersionParseError,
    /// The call needs a credential, and the client has none.
    NoPat,
}

} // verus!
