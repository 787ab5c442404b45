//! The index protocol client.
//!
//! The client never touches the network. Each operation is split in two: a
//! first step says what to ask the server for, and whether to ask at all; a
//! second step takes what came of the exchange, as an [`Exchange`], and
//! decides the result. Whoever owns the connection carries the request from
//! the one to the other.
//!
//! A client starts out unversioned, as a [`Handshake`]. Only a handshake
//! that the server's protocol version completes yields an [`IndexClient`].

use vstd::prelude::*;
use vstd::string::StringExecFns;
use crate::credential::{token_of, Credential};
use crate::error::IndexClientError;
use crate::metadata::{facts_of, is_sound, PackageDocument, PackageMetadata};
use crate::protocol::{check_protocol_version, handshake_spec};

verus! {

/// The version of this client, as its user agent states it.
pub const CLIENT_VERSION: &'static str = "0.1.0";

/// What came of one HTTP exchange with the index server.
#[derive(Clone, Debug, PartialEq, Eq)]
pub enum Exchange<T> {
    /// The HTTP client could not be set up, so nothing was sent.
    NoBackend,
    /// The request could not be sent, or the response could not be received.
    Failed,
    /// A response came with the given status, and its body could not be
    /// decoded.
    Undecodable { status: u16 },
    /// A response came with the given status, and its body was decoded.
    Completed { status: u16, body: T },
}

/// The failure that a response's status stands for, if it stands for one:
/// `404` says that what was asked for does not exist, and any other status
/// outside the successes is handed on as it is.
pub open spec fn status_failure(status: u16) -> Option<IndexClientError> {
    if status == 404 {
        Some(IndexClientError::PackageNotFound)
    } else if 200 <= status < 300 {
        None
    } else {
        Some(IndexClientError::StatusCodeNotOk(status))
    }
}

/// The decoded body of an exchange, or the failure that the exchange stands
/// for. A failing status counts before the body does.
pub open spec fn classify_spec<T>(exchange: Exchange<T>) -> Result<T, IndexClientError> {
    match exchange {
        Exchange::NoBackend => Err(IndexClientError::TlsBackendInitError),
        Exchange::Failed => Err(IndexClientError::RequestError),
        Exchange::Undecodable { status } => match status_failure(status) {
            Some(failure) => Err(failure),
            None => Err(IndexClientError::JsonParsingError),
        },
        Exchange::Completed { status, body } => match status_failure(status) {
            Some(failure) => Err(failure),
            None => Ok(body),
        },
    }
}

/// What the handshake makes of the exchange that asked for the server's
/// protocol version. The status of the response is not looked at: whatever
/// the body is, it has to state the version.
pub open spec fn handshake_outcome(exchange: Exchange<String>) -> Result<(), IndexClientError> {
    match exchange {
        Exchange::NoBackend => Err(IndexClientError::TlsBackendInitError),
        Exchange::Failed => Err(IndexClientError::RequestError),
        Exchange::Undecodable { status } => Err(IndexClientError::ProtocolVersionParseError),
        Exchange::Completed { status, body } => handshake_spec(body@),
    }
}

/// The user agent of a client that serves a program of version
/// `user_version`.
pub open spec fn user_agent_spec(user_version: Seq<char>) -> Seq<char> {
    "SnowdropIndexClient/"@ + CLIENT_VERSION@ + " SnowdropCLI/"@ + user_version
}

/// Where an index states its protocol version.
pub open spec fn version_endpoint_spec(index: Seq<char>) -> Seq<char> {
    index + "/proto_version"@
}

/// Where an index keeps the document of the package `name`.
pub open spec fn package_endpoint_spec(index: Seq<char>, name: Seq<char>) -> Seq<char> {
    index + "/packages/"@ + name + ".json"@
}

/// Where an index keeps the list of its packages' names.
pub open spec fn names_endpoint_spec(index: Seq<char>) -> Seq<char> {
    index + "/names.json"@
}

/// The failure that a response's status stands for, if it stands for one.
pub fn status_to_failure(status: u16) -> (failure: Option<IndexClientError>)
    ensures
        failure == status_failure(status),
{
    if status == 404 {
        Some(IndexClientError::PackageNotFound)
    } else if 200 <= status && status < 300 {
        None
    } else {
        Some(IndexClientError::StatusCodeNotOk(status))
    }
}

/// The decoded body of an exchange, or the failure that the exchange stands
/// for.
pub fn classify<T>(exchange: Exchange<T>) -> (body: Result<T, IndexClientError>)
    ensures
        body == classify_spec(exchange),
{
    match exchange {
        Exchange::NoBackend => Err(IndexClientError::TlsBackendInitError),
        Exchange::Failed => Err(IndexClientError::RequestError),
        Exchange::Undecodable { status } => match status_to_failure(status) {
            Some(failure) => Err(failure),
            None => Err(IndexClientError::JsonParsingError),
        },
        Exchange::Completed { status, body } => match status_to_failure(status) {
            Some(failure) => Err(failure),
            None => Ok(body),
        },
    }
}

/// The mathematical content of a [`Handshake`].
pub struct HandshakeFacts {
    /// The root URL of the index.
    pub index: Seq<char>,
    /// The user agent to make requests under.
    pub user_agent: Seq<char>,
}

/// The mathematical content of an [`IndexClient`].
pub struct ClientFacts {
    /// The root URL of the index.
    pub index: Seq<char>,
    /// The user agent to make requests under.
    pub user_agent: Seq<char>,
    /// The token that authenticated calls are made with.
    pub pat: Option<Seq<char>>,
}

/// The mathematical content of a [`PackageQuery`].
pub struct PackageQueryFacts {
    /// The URL to fetch.
    pub endpoint: Seq<char>,
    /// The token that authenticates the request.
    pub token: Seq<char>,
}

/// An unversioned client: one that has yet to learn the server's protocol
/// version.
pub struct Handshake {
    index: String,
    user_agent: String,
}

/// A versioned client: one whose handshake with the index server succeeded.
pub struct IndexClient {
    index: String,
    user_agent: String,
    pat: Option<Credential>,
}

/// A request for a package's document that is ready to be sent.
pub struct PackageQuery {
    endpoint: String,
    credential: Credential,
}

/// A request for the list of package names that is ready to be sent.
pub struct NamesQuery {
    endpoint: String,
}

impl View for Handshake {
    type V = HandshakeFacts;

    closed spec fn view(&self) -> HandshakeFacts {
        HandshakeFacts { index: self.index@, user_agent: self.user_agent@ }
    }
}

impl View for IndexClient {
    type V = ClientFacts;

    closed spec fn view(&self) -> ClientFacts {
        ClientFacts { index: self.index@, user_agent: self.user_agent@, pat: token_of(self.pat) }
    }
}

impl View for PackageQuery {
    type V = PackageQueryFacts;

    closed spec fn view(&self) -> PackageQueryFacts {
        PackageQueryFacts { endpoint: self.endpoint@, token: self.credential@ }
    }
}

impl View for NamesQuery {
    type V = Seq<char>;

    closed spec fn view(&self) -> Seq<char> {
        self.endpoint@
    }
}

impl Handshake {
    /// The URL that states the server's protocol version.
    pub fn endpoint(&self) -> (endpoint: String)
        ensures
            endpoint@ == version_endpoint_spec(self@.index),
    {
        let mut endpoint = self.index.clone();
        endpoint.append("/proto_version");
        endpoint
    }

    /// The user agent to make requests under.
    pub fn user_agent(&self) -> (user_agent: &str)
        ensures
            user_agent@ == self@.user_agent,
    {
        self.user_agent.as_str()
    }

    /// Settles the handshake with what came of the version request. A body
    /// that states this client's protocol version yields the versioned
    /// client, without a credential; one that states another version, or
    /// none, ends the handshake for good.
    pub fn complete(self, reply: Exchange<String>) -> (client: Result<IndexClient, IndexClientError>)
        ensures
            match client {
                Ok(client) => handshake_outcome(reply) is Ok && client@ == (ClientFacts {
                    index: self@.index,
                    user_agent: self@.user_agent,
                    pat: None,
                }),
                Err(error) => handshake_outcome(reply) == Err::<(), IndexClientError>(error),
            },
    {
        let agreed = match reply {
            Exchange::NoBackend => Err(IndexClientError::TlsBackendInitError),
            Exchange::Failed => Err(IndexClientError::RequestError),
            Exchange::Undecodable { status } => Err(IndexClientError::ProtocolVersionParseError),
            Exchange::Completed { status, body } => check_protocol_version(body.as_str()),
        };
        match agreed {
            Ok(()) => Ok(IndexClient { index: self.index, user_agent: self.user_agent, pat: None }),
            Err(error) => Err(error),
        }
    }
}

impl IndexClient {
    /// Starts a client for the index at `index`, on behalf of a program of
    /// version `user_version`. The client is unversioned until the handshake
    /// is completed.
    pub fn from_index_and_user_version(index: String, user_version: &str) -> (handshake: Handshake)
        ensures
            handshake@ == (HandshakeFacts {
                index: index@,
                user_agent: user_agent_spec(user_version@),
            }),
    {
        let mut user_agent = "SnowdropIndexClient/".to_owned();
        user_agent.append(CLIENT_VERSION);
        user_agent.append(" SnowdropCLI/");
        user_agent.append(user_version);
        Handshake { index, user_agent }
    }

    /// Sets, or takes away, the credential that authenticated calls are made
    /// with.
    pub fn with_pat(&mut self, pat: Option<Credential>) -> (client: &mut IndexClient)
        ensures
            client@ == (ClientFacts { pat: token_of(pat), ..old(self)@ }),
            *final(client) == *final(self),
    {
        self.pat = pat;
        self
    }

    /// The root URL of the index.
    pub fn index(&self) -> (index: &str)
        ensures
            index@ == self@.index,
    {
        self.index.as_str()
    }

    /// The user agent to make requests under.
    pub fn user_agent(&self) -> (user_agent: &str)
        ensures
            user_agent@ == self@.user_agent,
    {
        self.user_agent.as_str()
    }

    /// Prepares the request for the document of the package `name`. The call
    /// is an authenticated one: a client without a credential answers
    /// `NoPat`, and there is no request to send.
    pub fn get_package(&self, name: &str) -> (query: Result<PackageQuery, IndexClientError>)
        ensures
            match query {
                Ok(query) => self@.pat == Some(query@.token) && query@.endpoint
                    == package_endpoint_spec(self@.index, name@),
                Err(error) => self@.pat is None && error == IndexClientError::NoPat,
            },
    {
        match &self.pat {
            Some(credential) => {
                let mut endpoint = self.index.clone();
                endpoint.append("/packages/");
                endpoint.append(name);
                endpoint.append(".json");
                Ok(PackageQuery { endpoint, credential: credential.duplicate() })
            },
            None => Err(IndexClientError::NoPat),
        }
    }

    /// Prepares the request for the list of all package names.
    pub fn get_names(&self) -> (query: NamesQuery)
        ensures
            query@ == names_endpoint_spec(self@.index),
    {
        let mut endpoint = self.index.clone();
        endpoint.append("/names.json");
        NamesQuery { endpoint }
    }
}

impl PackageQuery {
    /// The URL to fetch.
    pub fn endpoint(&self) -> (endpoint: &str)
        ensures
            endpoint@ == self@.endpoint,
    {
        self.endpoint.as_str()
    }

    /// The credential to send along.
    pub fn credential(&self) -> (credential: &Credential)
        ensures
            credential@ == self@.token,
    {
        &self.credential
    }

    /// Settles the request with what came of the exchange. A sound document
    /// becomes the package's metadata, which carries the request's
    /// credential on to the release lookup. A document whose repository is
    /// not a pair counts as one that could not be decoded.
    pub fn complete(self, reply: Exchange<PackageDocument>) -> (metadata: Result<
        PackageMetadata,
        IndexClientError,
    >)
        ensures
            match classify_spec(reply) {
                Ok(document) => if is_sound(document) {
                    metadata matches Ok(metadata) && metadata@ == facts_of(
                        document,
                        Some(self@.token),
                    )
                } else {
                    metadata matches Err(error) && error == IndexClientError::JsonParsingError
                },
                Err(failure) => metadata matches Err(error) && error == failure,
            },
    {
        match classify(reply) {
            Ok(document) => match PackageMetadata::from_document(document) {
                Some(metadata) => Ok(metadata.with_pat(Some(self.credential))),
                None => Err(IndexClientError::JsonParsingError),
            },
            Err(failure) => Err(failure),
        }
    }
}

impl NamesQuery {
    /// The URL to fetch.
    pub fn endpoint(&self) -> (endpoint: &str)
        ensures
            endpoint@ == self@,
    {
        self.endpoint.as_str()
    }

    /// Settles the request with what came of the exchange: the names, as
    /// they were decoded, or the failure that the exchange stands for.
    pub fn complete(self, reply: Exchange<Vec<String>>) -> (names: Result<
        Vec<String>,
        IndexClientError,
    >)
        ensures
            names == classify_spec(reply),
    {
        classify(reply)
    }
}

} // verus!
