//! The decisions of an installation: what the user is asked, and what is
//! installed once they have answered.

use vstd::prelude::*;
use vstd::string::StringExecFns;
use crate::metadata::{PackageMetadata, Release};
use crate::picker::{choose_spec, AssetPicker, ChooseError, ReleaseAsset};
use crate::template::expand_spec;

verus! {

/// Why nothing is installed.
#[derive(Clone, Debug, PartialEq, Eq)]
pub enum InstallError {
    /// The user declined.
    Aborted,
    /// No asset was chosen.
    NoAsset(ChooseError),
}

/// The title of a release, or the words that stand for a missing one.
pub open spec fn title_spec(release: Release) -> Seq<char> {
    match release.name {
        Some(name) => name@,
        None => "(version unspecified)"@,
    }
}

/// The question that is put to the user before a release is installed.
pub open spec fn prompt_spec(release: Release) -> Seq<char> {
    "Install "@ + title_spec(release) + "?"@
}

/// What an installation comes to, for an expanded naming scheme, the assets
/// of the release and the user's answer.
pub open spec fn install_spec(pattern: Seq<char>, assets: Vec<ReleaseAsset>, confirmed: bool)
    -> Result<ReleaseAsset, InstallError> {
    if confirmed {
        match choose_spec(pattern, assets) {
            Ok(asset) => Ok(asset),
            Err(error) => Err(InstallError::NoAsset(error)),
        }
    } else {
        Err(InstallError::Aborted)
    }
}

/// The command that installs a package.
pub struct Install;

impl Install {
    /// The question that is put to the user before `release` is installed.
    pub fn prompt(release: &Release) -> (prompt: String)
        ensures
            prompt@ == prompt_spec(*release),
    {
        let mut prompt = "Install ".to_owned();
        match &release.name {
            Some(name) => prompt.append(name.as_str()),
            None => prompt.append("(version unspecified)"),
        }
        prompt.append("?");
        prompt
    }

    /// Decides what is installed of `release`, once the user has answered
    /// the prompt. Nothing is, unless they confirmed; then it is the asset
    /// that the package's naming scheme describes on the picker's platform.
    pub fn execute(
        picker: &AssetPicker,
        metadata: &PackageMetadata,
        release: Release,
        confirmed: bool,
    ) -> (installed: Result<ReleaseAsset, InstallError>)
        ensures
            installed == install_spec(
                expand_spec(metadata@.naming_scheme, picker.platform_spec()@),
                release.assets,
                confirmed,
            ),
    {
        if !confirmed {
            return Err(InstallError::Aborted);
        }
        match picker.choose_asset(release.assets, metadata.naming_scheme().to_owned()) {
            Ok(asset) => Ok(asset),
            Err(error) => Err(InstallError::NoAsset(error)),
        }
    }
}

} // verus!
