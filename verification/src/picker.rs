//! The asset resolver: picks, out of the files of a release, the one that a
//! package's naming scheme describes for the platform at hand.

use vstd::prelude::*;
use crate::glob::{accepts, accepts_spec, compiles, compiles_spec};
use crate::platform::PlatformDescriptor;
use crate::template::{expand, expand_spec};

verus! {

/// One downloadable file of a release.
#[derive(Clone, Debug, PartialEq, Eq)]
pub struct ReleaseAsset {
    /// The number the release host gave the file.
    pub id: u64,
    /// The file's name.
    pub name: String,
    /// The file's size in bytes.
    pub size: u64,
    /// Where the file can be fetched.
    pub download_url: String,
}

/// Why no asset was chosen.
#[derive(Clone, Debug, PartialEq, Eq)]
pub enum ChooseError {
    /// The expanded naming scheme is no glob pattern that can be compiled.
    FailedToCompile,
    /// The pattern matches none of the assets. The assets are handed back,
    /// unchanged and in their order, for the caller to choose among by other
    /// means.
    NoMatch(Vec<ReleaseAsset>),
}

/// `i` is the first position, among `count` candidates, whose verdict is
/// true. A verdict that is missing counts as false.
pub open spec fn is_first_match(verdicts: Seq<bool>, count: int, i: int) -> bool {
    &&& 0 <= i < count
    &&& i < verdicts.len()
    &&& verdicts[i]
    &&& forall|j: int| 0 <= j < i ==> !verdicts[j]
}

/// The first position, among `count` candidates, whose verdict is true.
pub open spec fn first_match(verdicts: Seq<bool>, count: int) -> Option<int> {
    if exists|i: int| is_first_match(verdicts, count, i) {
        Some(choose|i: int| is_first_match(verdicts, count, i))
    } else {
        None
    }
}

/// The selection policy: the first asset whose verdict is true is chosen; if
/// there is none, the assets go back to the caller.
pub open spec fn select_spec(assets: Vec<ReleaseAsset>, verdicts: Seq<bool>) -> Result<
    ReleaseAsset,
    ChooseError,
> {
    match first_match(verdicts, assets@.len() as int) {
        Some(i) => Ok(assets@[i]),
        None => Err(ChooseError::NoMatch(assets)),
    }
}

/// The verdict of `pattern` on each asset's file name.
pub open spec fn verdicts_spec(pattern: Seq<char>, assets: Seq<ReleaseAsset>) -> Seq<bool> {
    Seq::new(assets.len(), |i: int| accepts_spec(pattern, assets[i].name@))
}

/// What the resolver answers for an expanded naming scheme and a list of
/// assets.
pub open spec fn choose_spec(pattern: Seq<char>, assets: Vec<ReleaseAsset>) -> Result<
    ReleaseAsset,
    ChooseError,
> {
    if compiles_spec(pattern) {
        select_spec(assets, verdicts_spec(pattern, assets@))
    } else {
        Err(ChooseError::FailedToCompile)
    }
}

/// More than one of the verdicts is true.
pub open spec fn ambiguous_spec(verdicts: Seq<bool>) -> bool {
    exists|i: int, j: int|
        0 <= i < j < verdicts.len() && #[trigger] verdicts[i] && #[trigger] verdicts[j]
}

/// A first match is the only first match.
pub proof fn lemma_first_match(verdicts: Seq<bool>, count: int, i: int)
    requires
        is_first_match(verdicts, count, i),
    ensures
        first_match(verdicts, count) == Some(i),
{
}

/// Applies the selection policy to assets whose verdicts are known: the
/// first asset with a true verdict is chosen, whatever follows it.
pub fn select_first(assets: Vec<ReleaseAsset>, verdicts: &Vec<bool>) -> (chosen: Result<
    ReleaseAsset,
    ChooseError,
>)
    ensures
        chosen == select_spec(assets, verdicts@),
{
    let mut candidates = assets;
    let mut i: usize = 0;
    while i < candidates.len() && i < verdicts.len()
        invariant
            candidates == assets,
            i <= candidates.len(),
            i <= verdicts.len(),
            forall|j: int| 0 <= j < i ==> !verdicts@[j],
        decreases candidates.len() - i,
    {
        if verdicts[i] {
            proof {
                lemma_first_match(verdicts@, assets@.len() as int, i as int);
            }
            return Ok(candidates.remove(i));
        }
        i += 1;
    }
    Err(ChooseError::NoMatch(candidates))
}

/// Whether more than one of the verdicts is true: the sign of a naming
/// scheme that does not tell the assets of one platform apart. The first
/// match is chosen all the same.
pub fn is_ambiguous(verdicts: &Vec<bool>) -> (yes: bool)
    ensures
        yes == ambiguous_spec(verdicts@),
{
    let mut first: Option<usize> = None;
    let mut i: usize = 0;
    while i < verdicts.len()
        invariant
            i <= verdicts.len(),
            match first {
                Some(k) => k < i && verdicts@[k as int] && forall|j: int|
                    0 <= j < i && j != k ==> !verdicts@[j],
                None => forall|j: int| 0 <= j < i ==> !verdicts@[j],
            },
        decreases verdicts.len() - i,
    {
        if verdicts[i] {
            match first {
                Some(k) => {
                    return true;
                },
                None => {
                    first = Some(i);
                },
            }
        }
        i += 1;
    }
    false
}

/// Chooses release assets for one platform.
pub struct AssetPicker {
    platform: PlatformDescriptor,
}

impl AssetPicker {
    /// The platform that assets are chosen for.
    pub closed spec fn platform_spec(&self) -> PlatformDescriptor {
        self.platform
    }

    /// A picker for the platform this library was compiled for, on an
    /// operating system of the given name.
    pub fn new(os: &str) -> (picker: AssetPicker)
        ensures
            picker.platform_spec()@.basic_platform == os@,
    {
        AssetPicker { platform: PlatformDescriptor::current(os) }
    }

    /// A picker for the given platform.
    pub fn for_platform(platform: PlatformDescriptor) -> (picker: AssetPicker)
        ensures
            picker.platform_spec() == platform,
    {
        AssetPicker { platform }
    }

    /// The platform that assets are chosen for.
    pub fn platform(&self) -> (platform: &PlatformDescriptor)
        ensures
            *platform == self.platform_spec(),
    {
        &self.platform
    }

    /// The verdict of `naming_scheme`, expanded for this picker's platform,
    /// on the file name of each asset, in the order of the assets. More than
    /// one true verdict tells of a scheme that does not tell the assets of
    /// one platform apart.
    pub fn verdicts(&self, assets: &Vec<ReleaseAsset>, naming_scheme: &str) -> (verdicts: Result<
        Vec<bool>,
        ChooseError,
    >)
        ensures
            match verdicts {
                Ok(verdicts) => compiles_spec(expand_spec(naming_scheme@, self.platform_spec()@))
                    && verdicts@ == verdicts_spec(
                    expand_spec(naming_scheme@, self.platform_spec()@),
                    assets@,
                ),
                Err(error) => !compiles_spec(expand_spec(naming_scheme@, self.platform_spec()@))
                    && error == ChooseError::FailedToCompile,
            },
    {
        let pattern = expand(naming_scheme, &self.platform);
        if !compiles(pattern.as_str()) {
            return Err(ChooseError::FailedToCompile);
        }
        let mut verdicts: Vec<bool> = Vec::new();
        let mut i: usize = 0;
        while i < assets.len()
            invariant
                i <= assets.len(),
                compiles_spec(pattern@),
                verdicts@.len() == i,
                forall|j: int|
                    0 <= j < i ==> verdicts@[j] == accepts_spec(pattern@, assets@[j].name@),
            decreases assets.len() - i,
        {
            verdicts.push(accepts(pattern.as_str(), assets[i].name.as_str()));
            i += 1;
        }
        Ok(verdicts)
    }

    /// Chooses the asset that `naming_scheme` describes on this picker's
    /// platform. The scheme is expanded and compiled as a glob pattern, and
    /// the first asset, in the order given, whose file name the pattern
    /// matches is the answer, whether or not a later one matches too. Where
    /// the pattern does not compile the answer is `FailedToCompile`; where it
    /// matches no asset the answer is `NoMatch`, with the assets as they
    /// came.
    pub fn choose_asset(&self, assets: Vec<ReleaseAsset>, naming_scheme: String) -> (chosen: Result<
        ReleaseAsset,
        ChooseError,
    >)
        ensures
            chosen == choose_spec(expand_spec(naming_scheme@, self.platform_spec()@), assets),
    {
        match self.verdicts(&assets, naming_scheme.as_str()) {
            Ok(verdicts) => select_first(assets, &verdicts),
            Err(error) => Err(error),
        }
    }
}

/// Where exactly one asset has a true verdict, that asset is chosen, wherever
/// in the list it stands.
pub proof fn lemma_select_single_match(assets: Vec<ReleaseAsset>, verdicts: Seq<bool>, only: int)
    requires
        0 <= only < assets@.len(),
        only < verdicts.len(),
        verdicts[only],
        forall|j: int| 0 <= j < verdicts.len() && j != only ==> !verdicts[j],
    ensures
        select_spec(assets, verdicts) == Ok::<ReleaseAsset, ChooseError>(assets@[only]),
{
    lemma_first_match(verdicts, assets@.len() as int, only);
}

/// Where no asset has a true verdict, the answer is `NoMatch`, and it carries
/// the list that was given.
pub proof fn lemma_select_no_match(assets: Vec<ReleaseAsset>, verdicts: Seq<bool>)
    requires
        forall|j: int| 0 <= j < verdicts.len() && j < assets@.len() ==> !verdicts[j],
    ensures
        select_spec(assets, verdicts) == Err::<ReleaseAsset, ChooseError>(
            ChooseError::NoMatch(assets),
        ),
{
}

/// The first match wins: where a pattern that compiles matches the file name
/// of an asset and of none before it, the resolver answers with that asset,
/// whatever the pattern makes of the assets behind it.
pub proof fn lemma_choose_first_match(pattern: Seq<char>, assets: Vec<ReleaseAsset>, first: int)
    requires
        compiles_spec(pattern),
        0 <= first < assets@.len(),
        accepts_spec(pattern, assets@[first].name@),
        forall|j: int| 0 <= j < first ==> !accepts_spec(pattern, (#[trigger] assets@[j]).name@),
    ensures
        choose_spec(pattern, assets) == Ok::<ReleaseAsset, ChooseError>(assets@[first]),
{
    lemma_first_match(verdicts_spec(pattern, assets@), assets@.len() as int, first);
}

/// Where a pattern that compiles matches the file name of exactly one asset,
/// the resolver answers with that asset, wherever in the list it stands.
pub proof fn lemma_choose_single_match(pattern: Seq<char>, assets: Vec<ReleaseAsset>, only: int)
    requires
        compiles_spec(pattern),
        0 <= only < assets@.len(),
        accepts_spec(pattern, assets@[only].name@),
        forall|j: int|
            0 <= j < assets@.len() && j != only ==> !accepts_spec(
                pattern,
                (#[trigger] assets@[j]).name@,
            ),
    ensures
        choose_spec(pattern, assets) == Ok::<ReleaseAsset, ChooseError>(assets@[only]),
{
    lemma_choose_first_match(pattern, assets, only);
}

/// Where a pattern that compiles matches no asset's file name, the resolver
/// answers `NoMatch`, and the answer carries the list that was given.
pub proof fn lemma_choose_no_match(pattern: Seq<char>, assets: Vec<ReleaseAsset>)
    requires
        compiles_spec(pattern),
        forall|j: int|
            0 <= j < assets@.len() ==> !accepts_spec(pattern, (#[trigger] assets@[j]).name@),
    ensures
        choose_spec(pattern, assets) == Err::<ReleaseAsset, ChooseError>(
            ChooseError::NoMatch(assets),
        ),
{
    lemma_select_no_match(assets, verdicts_spec(pattern, assets@));
}

} // verus!
