//! Values used when the configuration leaves a setting out.

use vstd::prelude::*;

verus! {

/// Root URL of the package index that is consulted when none is configured.
pub open spec fn default_index_spec() -> Seq<char> {
    "https://raw.githubusercontent.com/snowdroppm/index/main"@
}

/// Root URL of the package index that is consulted when none is configured.
pub fn default_package_index() -> (index: String)
    ensures
        index@ == default_index_spec(),
{
    "https://raw.githubusercontent.com/snowdroppm/index/main".to_string()
}

} // verus!
