//! Package metadata, as the index server publishes it, and the lookup of a
//! package's latest release on the release host.

use vstd::prelude::*;
use crate::credential::{token_of, Credential};
use crate::error::IndexClientError;
use crate::picker::ReleaseAsset;

verus! {

/// A package document as it was decoded from the index server's answer,
/// before it is known that the document is sound.
#[derive(Clone, Debug, PartialEq, Eq)]
pub struct PackageDocument {
    /// The name the index knows the package by.
    pub name: String,
    /// The name to show to people.
    pub pretty_name: String,
    /// The repository that publishes the releases: owner, then name.
    pub repo: Vec<String>,
    /// The template that the file names of the package's assets follow.
    pub naming_scheme: String,
}

/// The mathematical content of a [`PackageMetadata`].
pub struct PackageFacts {
    /// The name the index knows the package by.
    pub name: Seq<char>,
    /// The name to show to people.
    pub pretty_name: Seq<char>,
    /// The owner of the repository that publishes the releases.
    pub owner: Seq<char>,
    /// The name of that repository.
    pub repository: Seq<char>,
    /// The template that the file names of the package's assets follow.
    pub naming_scheme: Seq<char>,
    /// The token that release lookups for this package are made with.
    pub pat: Option<Seq<char>>,
}

/// What the index server says of one package. The repository is a pair by
/// construction: an owner and a name, never more or fewer.
pub struct PackageMetadata {
    name: String,
    pretty_name: String,
    repo: [String; 2],
    naming_scheme: String,
    pat: Option<Credential>,
}

/// A published release and its files.
#[derive(Clone, Debug, PartialEq, Eq)]
pub struct Release {
    /// The number the release host gave the release.
    pub id: u64,
    /// The release's title, if it has one.
    pub name: Option<String>,
    /// The files of the release, in the order the release host lists them.
    pub assets: Vec<ReleaseAsset>,
}

/// A lookup of a repository's latest release that is ready to be made: whom
/// to ask about, and the credential to ask with.
pub struct ReleaseQuery {
    owner: String,
    repo: String,
    credential: Credential,
}

/// The mathematical content of a [`ReleaseQuery`].
pub struct ReleaseQueryFacts {
    /// The owner of the repository.
    pub owner: Seq<char>,
    /// The name of the repository.
    pub repository: Seq<char>,
    /// The token that authenticates the lookup.
    pub token: Seq<char>,
}

/// A document is sound when its repository is a pair.
pub open spec fn is_sound(document: PackageDocument) -> bool {
    document.repo@.len() == 2
}

/// The metadata that a sound document and a credential make.
pub open spec fn facts_of(document: PackageDocument, pat: Option<Seq<char>>) -> PackageFacts {
    PackageFacts {
        name: document.name@,
        pretty_name: document.pretty_name@,
        owner: document.repo@[0]@,
        repository: document.repo@[1]@,
        naming_scheme: document.naming_scheme@,
        pat,
    }
}

impl View for PackageMetadata {
    type V = PackageFacts;

    closed spec fn view(&self) -> PackageFacts {
        PackageFacts {
            name: self.name@,
            pretty_name: self.pretty_name@,
            owner: self.repo@[0]@,
            repository: self.repo@[1]@,
            naming_scheme: self.naming_scheme@,
            pat: token_of(self.pat),
        }
    }
}

impl View for ReleaseQuery {
    type V = ReleaseQueryFacts;

    closed spec fn view(&self) -> ReleaseQueryFacts {
        ReleaseQueryFacts {
            owner: self.owner@,
            repository: self.repo@,
            token: self.credential@,
        }
    }
}

impl PackageMetadata {
    /// The name the index knows the package by.
    pub fn name(&self) -> (name: &str)
        ensures
            name@ == self@.name,
    {
        self.name.as_str()
    }

    /// The name to show to people.
    pub fn pretty_name(&self) -> (pretty_name: &str)
        ensures
            pretty_name@ == self@.pretty_name,
    {
        self.pretty_name.as_str()
    }

    /// The repository that publishes the releases: owner, then name.
    pub fn repo(&self) -> (repo: &[String; 2])
        ensures
            repo@[0]@ == self@.owner,
            repo@[1]@ == self@.repository,
    {
        &self.repo
    }

    /// The template that the file names of the package's assets follow.
    pub fn naming_scheme(&self) -> (naming_scheme: &str)
        ensures
            naming_scheme@ == self@.naming_scheme,
    {
        self.naming_scheme.as_str()
    }

    /// Makes metadata, without a credential, of a decoded document. A
    /// document whose repository is not a pair makes none.
    pub fn from_document(document: PackageDocument) -> (metadata: Option<PackageMetadata>)
        ensures
            metadata is Some <==> is_sound(document),
            metadata matches Some(m) ==> m@ == facts_of(document, None),
    {
        let PackageDocument { name, pretty_name, repo, naming_scheme } = document;
        let mut parts = repo;
        if parts.len() != 2 {
            return None;
        }
        let repository = parts.pop().unwrap();
        let owner = parts.pop().unwrap();
        Some(PackageMetadata { name, pretty_name, repo: [owner, repository], naming_scheme, pat: None })
    }

    /// Sets the credential that release lookups for this package are made
    /// with.
    pub fn with_pat(self, pat: Option<Credential>) -> (metadata: PackageMetadata)
        ensures
            metadata@ == (PackageFacts { pat: token_of(pat), ..self@ }),
    {
        PackageMetadata {
            name: self.name,
            pretty_name: self.pretty_name,
            repo: self.repo,
            naming_scheme: self.naming_scheme,
            pat,
        }
    }

    /// Prepares the lookup of the latest release of this package's
    /// repository. Without a credential there is no lookup to make, and the
    /// answer is `NoPat`.
    pub fn get_latest_release(&self) -> (query: Result<ReleaseQuery, IndexClientError>)
        ensures
            match query {
                Ok(query) => self@.pat == Some(query@.token) && query@.owner == self@.owner
                    && query@.repository == self@.repository,
                Err(error) => self@.pat is None && error == IndexClientError::NoPat,
            },
    {
        match &self.pat {
            Some(credential) => Ok(
                ReleaseQuery {
                    owner: self.repo[0].clone(),
                    repo: self.repo[1].clone(),
                    credential: credential.duplicate(),
                },
            ),
            None => Err(IndexClientError::NoPat),
        }
    }
}

impl ReleaseQuery {
    /// The owner of the repository to ask about.
    pub fn owner(&self) -> (owner: &str)
        ensures
            owner@ == self@.owner,
    {
        self.owner.as_str()
    }

    /// The name of the repository to ask about.
    pub fn repo(&self) -> (repo: &str)
        ensures
            repo@ == self@.repository,
    {
        self.repo.as_str()
    }

    /// The credential to ask with.
    pub fn credential(&self) -> (credential: &Credential)
        ensures
            credential@ == self@.token,
    {
        &self.credential
    }

    /// Settles the lookup with what the release host gave: the release, or
    /// nothing. Where it gave nothing the failure names the repository that
    /// was asked about.
    pub fn complete(self, found: Option<Release>) -> (release: Result<Release, IndexClientError>)
        ensures
            match found {
                Some(found) => release == Ok::<Release, IndexClientError>(found),
                None => release matches Err(IndexClientError::GitHubReleaseError(owner, repo))
                    && owner@ == self@.owner && repo@ == self@.repository,
            },
    {
        match found {
            Some(found) => Ok(found),
            None => Err(IndexClientError::GitHubReleaseError(self.owner, self.repo)),
        }
    }
}

} // verus!
