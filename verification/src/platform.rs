//! Platforms, and where the backend executable lies on each.

use vstd::prelude::*;
use vstd::string::StringSliceAdditionalSpecFns;
use vstd::utf8::encode_utf8_decode_utf8;

verus! {

/// The platform the shell runs on, as far as the backend's name depends on it.
#[derive(Clone, Copy, Debug, PartialEq, Eq, Structural)]
pub enum Platform {
    Windows,
    MacOs,
    Linux,
    /// Any other operating system.
    Other,
}

/// The platform that an operating system's name stands for.
pub open spec fn platform_named(os_name: Seq<char>) -> Platform {
    if os_name == "windows"@ {
        Platform::Windows
    } else if os_name == "macos"@ {
        Platform::MacOs
    } else if os_name == "linux"@ {
        Platform::Linux
    } else {
        Platform::Other
    }
}

/// The name of the backend executable on `platform`.
pub open spec fn backend_file_name_of(platform: Platform) -> Seq<char> {
    if platform is Windows {
        "sonosano-backend.exe"@
    } else {
        "sonosano-backend"@
    }
}

/// The directory below the resource root that holds the backend executable.
pub open spec fn backend_dir_name() -> Seq<char> {
    "backend"@
}

/// Whether two strings hold the same characters.
pub fn same_text(a: &str, b: &str) -> (same: bool)
    ensures
        same == (a@ == b@),
{
    let x = a.as_bytes();
    let y = b.as_bytes();
    proof {
        // Equal encodings decode to equal texts.
        encode_utf8_decode_utf8(a@);
        encode_utf8_decode_utf8(b@);
    }
    if x.len() != y.len() {
        return false;
    }
    let mut i: usize = 0;
    while i < x.len()
        invariant
            i <= x.len(),
            x.len() == y.len(),
            x@ == a.spec_bytes(),
            y@ == b.spec_bytes(),
            forall|k: int| 0 <= k < i ==> x@[k] == y@[k],
        decreases x.len() - i,
    {
        if x[i] != y[i] {
            return false;
        }
        i += 1;
    }
    assert(x@ =~= y@);
    true
}

impl Platform {
    /// The platform that an operating system's name stands for, in the
    /// spelling of `std::env::consts::OS`. A name that is not known gives
    /// `Other`.
    pub fn from_os_name(os_name: &str) -> (platform: Platform)
        ensures
            platform == platform_named(os_name@),
    {
        if same_text(os_name, "windows") {
            Platform::Windows
        } else if same_text(os_name, "macos") {
            Platform::MacOs
        } else if same_text(os_name, "linux") {
            Platform::Linux
        } else {
            Platform::Other
        }
    }
}

/// The name of the backend executable on `platform`.
pub fn backend_file_name(platform: Platform) -> (name: &'static str)
    ensures
        name@ == backend_file_name_of(platform),
{
    match platform {
        Platform::Windows => "sonosano-backend.exe",
        _ => "sonosano-backend",
    }
}

/// The directory below the resource root that holds the backend executable.
pub fn backend_dir() -> (name: &'static str)
    ensures
        name@ == backend_dir_name(),
{
    "backend"
}

/// Where the backend executable is looked for: below `root`, in the directory
/// `backend_dir()`, under the name that `platform` gives it. The host joins
/// the three with its own path rules.
#[derive(Debug, PartialEq, Eq)]
pub struct BackendLocation<R> {
    /// The directory from which bundled resources are served.
    pub root: R,
    /// The platform whose executable is wanted.
    pub platform: Platform,
}

impl<R> BackendLocation<R> {
    /// The directory below `root`.
    pub open spec fn dir_name(self) -> Seq<char> {
        backend_dir_name()
    }

    /// The executable's name in that directory.
    pub open spec fn file_name_of(self) -> Seq<char> {
        backend_file_name_of(self.platform)
    }

    /// The directory below `root`.
    pub fn dir(&self) -> (name: &'static str)
        ensures
            name@ == self.dir_name(),
    {
        backend_dir()
    }

    /// The executable's name in that directory.
    pub fn file_name(&self) -> (name: &'static str)
        ensures
            name@ == self.file_name_of(),
    {
        backend_file_name(self.platform)
    }
}

/// The executable has one name on every platform but Windows, and on Windows
/// that name with `.exe` behind it.
pub proof fn law_windows_name_is_suffixed(platform: Platform)
    ensures
        platform !is Windows ==> backend_file_name_of(platform) == "sonosano-backend"@,
        backend_file_name_of(Platform::Windows) == "sonosano-backend"@ + ".exe"@,
{
    reveal_strlit("sonosano-backend.exe");
    reveal_strlit("sonosano-backend");
    reveal_strlit(".exe");
    assert(backend_file_name_of(Platform::Windows) =~= "sonosano-backend"@ + ".exe"@);
}

} // verus!
