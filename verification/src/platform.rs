//! The platform descriptor: what is known of the machine that a package is
//! installed on, under the names that naming schemes use for it.

use vstd::prelude::*;

verus! {

/// A placeholder that a naming scheme may hold.
#[derive(Clone, Copy, Debug, PartialEq, Eq, Structural)]
pub enum Placeholder {
    /// The full target triple, such as `x86_64-unknown-linux-gnu`.
    LlvmTriple,
    /// The operating system's name, such as `linux` or `macos`.
    BasicPlatform,
    /// The operating system's name as release file names often spell it:
    /// `osx` for macOS, and the plain name for every other system.
    BasicPlatformOsx,
}

impl Placeholder {
    /// The text that stands for this placeholder in a naming scheme.
    pub open spec fn text(self) -> Seq<char> {
        match self {
            Placeholder::LlvmTriple => "{{llvm_triple}}"@,
            Placeholder::BasicPlatform => "{{basic_platform}}"@,
            Placeholder::BasicPlatformOsx => "{{basic_platform_osx}}"@,
        }
    }

    /// The text that stands for this placeholder in a naming scheme.
    pub fn token(self) -> (token: &'static str)
        ensures
            token@ == self.text(),
    {
        match self {
            Placeholder::LlvmTriple => "{{llvm_triple}}",
            Placeholder::BasicPlatform => "{{basic_platform}}",
            Placeholder::BasicPlatformOsx => "{{basic_platform_osx}}",
        }
    }
}

/// The name under which release file names know an operating system: `osx`
/// for `macos`, and the system's own name for any other.
pub open spec fn osx_alias(os: Seq<char>) -> Seq<char> {
    if os == "macos"@ {
        "osx"@
    } else {
        os
    }
}

/// The mathematical content of a [`PlatformDescriptor`].
pub struct PlatformFacts {
    /// The target triple.
    pub llvm_triple: Seq<char>,
    /// The operating system's name.
    pub basic_platform: Seq<char>,
}

impl PlatformFacts {
    /// The value that a placeholder resolves to on this platform.
    pub open spec fn value(self, placeholder: Placeholder) -> Seq<char> {
        match placeholder {
            Placeholder::LlvmTriple => self.llvm_triple,
            Placeholder::BasicPlatform => self.basic_platform,
            Placeholder::BasicPlatformOsx => osx_alias(self.basic_platform),
        }
    }
}

/// A fixed set of facts about one platform. The alias is kept beside the two
/// facts it is derived from, so that looking a placeholder up never allocates.
pub struct PlatformDescriptor {
    llvm_triple: String,
    basic_platform: String,
    basic_platform_osx: String,
}

impl View for PlatformDescriptor {
    type V = PlatformFacts;

    closed spec fn view(&self) -> PlatformFacts {
        PlatformFacts { llvm_triple: self.llvm_triple@, basic_platform: self.basic_platform@ }
    }
}

impl PlatformDescriptor {
    #[verifier::type_invariant]
    spec fn alias_is_derived(self) -> bool {
        self.basic_platform_osx@ == osx_alias(self.basic_platform@)
    }

    /// Describes the platform with the given target triple and operating
    /// system name.
    pub fn new(llvm_triple: &str, os: &str) -> (platform: PlatformDescriptor)
        ensures
            platform@ == (PlatformFacts { llvm_triple: llvm_triple@, basic_platform: os@ }),
    {
        let basic_platform = os.to_owned();
        let is_macos = basic_platform == "macos".to_owned();
        let basic_platform_osx = if is_macos {
            "osx".to_owned()
        } else {
            os.to_owned()
        };
        PlatformDescriptor { llvm_triple: llvm_triple.to_owned(), basic_platform, basic_platform_osx }
    }

    /// Describes the platform this library was compiled for, on an operating
    /// system of the given name. Nothing is known of the triple beforehand.
    pub fn current(os: &str) -> (platform: PlatformDescriptor)
        ensures
            platform@.basic_platform == os@,
    {
        PlatformDescriptor::new(compiled_for(), os)
    }

    /// The value that a placeholder resolves to on this platform.
    pub fn value(&self, placeholder: Placeholder) -> (value: &str)
        ensures
            value@ == self@.value(placeholder),
    {
        proof {
            use_type_invariant(self);
        }
        match placeholder {
            Placeholder::LlvmTriple => self.llvm_triple.as_str(),
            Placeholder::BasicPlatform => self.basic_platform.as_str(),
            Placeholder::BasicPlatformOsx => self.basic_platform_osx.as_str(),
        }
    }
}

/// Reads `current_platform::CURRENT_PLATFORM`, the target triple that the
/// build was made for. The text differs from build to build, so nothing is
/// claimed of it.
#[verifier::external_body]
fn compiled_for() -> &'static str {
    current_platform::CURRENT_PLATFORM
}

} // verus!
