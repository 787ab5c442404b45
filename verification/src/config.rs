//! The settings that the client is run with.

use vstd::prelude::*;
use crate::credential::Credential;
use crate::defaults::{default_index_spec, default_package_index};
use crate::error::IndexClientError;

verus! {

/// The settings of one run.
pub struct Config {
    /// The root URL of the package index.
    pub index: String,
    /// The GitHub token, if one was set up.
    pub pat: Option<Credential>,
}

impl Config {
    /// The settings that were read, with the default index where none was
    /// set.
    pub fn new(index: Option<String>, pat: Option<Credential>) -> (config: Config)
        ensures
            config.pat == pat,
            config.index@ == match index {
                Some(index) => index@,
                None => default_index_spec(),
            },
    {
        let index = match index {
            Some(index) => index,
            None => default_package_index(),
        };
        Config { index, pat }
    }

    /// The token, or `NoPat` where none was set up.
    pub fn get_pat(&self) -> (pat: Result<&Credential, IndexClientError>)
        ensures
            match pat {
                Ok(pat) => self.pat == Some(*pat),
                Err(error) => self.pat is None && error == IndexClientError::NoPat,
            },
    {
        match &self.pat {
            Some(pat) => Ok(pat),
            None => Err(IndexClientError::NoPat),
        }
    }
}

} // verus!
