//! The personal access token that authenticates the client.

use vstd::prelude::*;

verus! {

/// A secret token. It is handed to the index server and to the release host,
/// and to nobody else: it cannot be printed or compared, and it is read only
/// through [`Credential::expose`].
pub struct Credential {
    token: String,
}

impl View for Credential {
    type V = Seq<char>;

    closed spec fn view(&self) -> Seq<char> {
        self.token@
    }
}

impl Credential {
    /// Wraps a token.
    pub fn new(token: String) -> (credential: Credential)
        ensures
            credential@ == token@,
    {
        Credential { token }
    }

    /// The token itself, for the request that it authenticates.
    pub fn expose(&self) -> (token: &str)
        ensures
            token@ == self@,
    {
        self.token.as_str()
    }

    /// Another credential with the same token.
    pub fn duplicate(&self) -> (copy: Credential)
        ensures
            copy@ == self@,
    {
        Credential { token: self.token.clone() }
    }
}

/// The token of a credential that may be absent.
pub open spec fn token_of(credential: Option<Credential>) -> Option<Seq<char>> {
    match credential {
        Some(credential) => Some(credential@),
        None => None,
    }
}

} // verus!
