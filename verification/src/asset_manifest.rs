//! The manifest crate's types: OS variants and platforms read from their
//! names, manifest formats, manifest entries, and the version records of
//! the matsurihi.me API.

use vstd::prelude::*;

use crate::asset::{is_ascii_text, lemma_platform_names_lowercase, lowercase_text, platform_name, platform_user_agent, to_lowercase};
use crate::asset_extract::image_format::ascii_lowercase;
use crate::chars::{push_chars, same_text};

verus! {

/// Why a manifest operation failed, where no I/O is involved.
#[derive(Debug, Clone, PartialEq, Eq)]
pub enum ManifestError {
    /// The OS variant or platform name is not known; it is given in
    /// lowercase.
    UnknownVariant(String),
}

/// Reads `android` or `ios` in any case: `Some(true)` for Android,
/// `Some(false)` for iOS, or the lowercase name that is neither.
fn read_variant(s: &str) -> (r: Result<bool, String>)
    ensures
        lowercase_text(s@) == "android"@ ==> r == Ok::<bool, String>(true),
        lowercase_text(s@) == "ios"@ ==> r == Ok::<bool, String>(false),
        lowercase_text(s@) != "android"@ && lowercase_text(s@) != "ios"@ ==> (r matches Err(n)
            && n@ == lowercase_text(s@)),
        is_ascii_text(s@) ==> lowercase_text(s@) == ascii_lowercase(s@),
{
    proof {
        reveal_strlit("android");
        reveal_strlit("ios");
        assert("ios"@.len() != "android"@.len());
    }
    let lower = to_lowercase(s);
    if same_text(lower.as_str(), "android") {
        Ok(true)
    } else if same_text(lower.as_str(), "ios") {
        Ok(false)
    } else {
        Err(lower)
    }
}

/// The operating system a client runs on.
#[derive(Debug, Clone, Copy, PartialEq, Eq, Structural)]
pub enum OsVariant {
    Android,
    IOS,
}

/// The name of an OS variant.
pub open spec fn os_variant_name(v: OsVariant) -> Seq<char> {
    match v {
        OsVariant::Android => "Android"@,
        OsVariant::IOS => "iOS"@,
    }
}

/// The `User-Agent` of the game client on the variant.
pub open spec fn os_variant_user_agent(v: OsVariant) -> Seq<char> {
    match v {
        OsVariant::Android => "UnityPlayer/2020.3.32f1 (UnityWebRequest/1.0, libcurl/7.80.0-DEV)"@,
        OsVariant::IOS => "ProductName/5.2.000 CFNetwork/1333.0.4 Darwin/21.5.0"@,
    }
}

impl OsVariant {
    /// The variant's name.
    pub fn as_str(&self) -> (s: &'static str)
        ensures
            s@ == os_variant_name(*self),
    {
        match self {
            OsVariant::Android => "Android",
            OsVariant::IOS => "iOS",
        }
    }

    /// The `User-Agent` of the game client on the variant.
    pub fn user_agent(&self) -> (s: &'static str)
        ensures
            s@ == os_variant_user_agent(*self),
    {
        match self {
            OsVariant::Android => "UnityPlayer/2020.3.32f1 (UnityWebRequest/1.0, libcurl/7.80.0-DEV)",
            OsVariant::IOS => "ProductName/5.2.000 CFNetwork/1333.0.4 Darwin/21.5.0",
        }
    }

    /// The variant's name, as `Display` writes it.
    pub fn to_string(&self) -> (s: String)
        ensures
            s@ == os_variant_name(*self),
    {
        let mut s = String::new();
        push_chars(&mut s, self.as_str());
        s
    }
}

impl OsVariant {
    /// The variant named `s`, in any case: `android` or `ios`.
    pub fn from_str(s: &str) -> (r: Result<OsVariant, ManifestError>)
        ensures
            lowercase_text(s@) == "android"@ ==> r == Ok::<OsVariant, ManifestError>(OsVariant::Android),
            lowercase_text(s@) == "ios"@ ==> r == Ok::<OsVariant, ManifestError>(OsVariant::IOS),
            lowercase_text(s@) != "android"@ && lowercase_text(s@) != "ios"@ ==> (r matches Err(
                ManifestError::UnknownVariant(n)) && n@ == lowercase_text(s@)),
            forall|v: OsVariant| #[trigger] os_variant_name(v) == s@ ==> r == Ok::<OsVariant, ManifestError>(v),
    {
        proof {
            lemma_platform_names_lowercase();
            assert(os_variant_name(OsVariant::Android) == platform_name(crate::asset::Platform::Android));
            assert(os_variant_name(OsVariant::IOS) == platform_name(crate::asset::Platform::IOS));
        }
        match read_variant(s) {
            Ok(true) => Ok(OsVariant::Android),
            Ok(false) => Ok(OsVariant::IOS),
            Err(n) => Err(ManifestError::UnknownVariant(n)),
        }
    }
}

/// The platform a manifest is for.
#[derive(Debug, Clone, Copy, PartialEq, Eq, Structural)]
pub enum Platform {
    Android,
    IOS,
}

/// The same platform in the asset module's terms.
pub open spec fn as_asset_platform(p: Platform) -> crate::asset::Platform {
    match p {
        Platform::Android => crate::asset::Platform::Android,
        Platform::IOS => crate::asset::Platform::IOS,
    }
}

impl Platform {
    /// The platform's name.
    pub fn as_str(&self) -> (s: &'static str)
        ensures
            s@ == platform_name(as_asset_platform(*self)),
    {
        match self {
            Platform::Android => "Android",
            Platform::IOS => "iOS",
        }
    }

    /// The `User-Agent` of the platform's game client.
    pub fn user_agent(&self) -> (s: &'static str)
        ensures
            s@ == platform_user_agent(as_asset_platform(*self)),
    {
        match self {
            Platform::Android => "UnityPlayer/2020.3.32f1 (UnityWebRequest/1.0, libcurl/7.80.0-DEV)",
            Platform::IOS => "ProductName/5.2.000 CFNetwork/1333.0.4 Darwin/21.5.0",
        }
    }

    /// The platform's name, as `Display` writes it.
    pub fn to_string(&self) -> (s: String)
        ensures
            s@ == platform_name(as_asset_platform(*self)),
    {
        let mut s = String::new();
        push_chars(&mut s, self.as_str());
        s
    }

    /// The platform named `s`, in any case: `android` or `ios`.
    pub fn from_str(s: &str) -> (r: Result<Platform, ManifestError>)
        ensures
            lowercase_text(s@) == "android"@ ==> r == Ok::<Platform, ManifestError>(Platform::Android),
            lowercase_text(s@) == "ios"@ ==> r == Ok::<Platform, ManifestError>(Platform::IOS),
            lowercase_text(s@) != "android"@ && lowercase_text(s@) != "ios"@ ==> (r matches Err(
                ManifestError::UnknownVariant(n)) && n@ == lowercase_text(s@)),
            forall|p: Platform| #[trigger] platform_name(as_asset_platform(p)) == s@ ==> r == Ok::<Platform, ManifestError>(p),
    {
        proof {
            lemma_platform_names_lowercase();
            reveal_strlit("android");
            reveal_strlit("ios");
            assert("ios"@.len() != "android"@.len());
        }
        match read_variant(s) {
            Ok(true) => Ok(Platform::Android),
            Ok(false) => Ok(Platform::IOS),
            Err(n) => Err(ManifestError::UnknownVariant(n)),
        }
    }
}

/// The format a manifest is saved in.
#[derive(Debug, Clone, Copy, PartialEq, Eq, Structural)]
pub enum ManifestFormat {
    Msgpack,
    JSON,
    YAML,
}

/// The name of a manifest format.
pub open spec fn manifest_format_name(f: ManifestFormat) -> Seq<char> {
    match f {
        ManifestFormat::Msgpack => "msgpack"@,
        ManifestFormat::JSON => "json"@,
        ManifestFormat::YAML => "yaml"@,
    }
}

impl ManifestFormat {
    /// The format's name, as `Display` writes it.
    pub fn to_string(&self) -> (s: String)
        ensures
            s@ == manifest_format_name(*self),
    {
        let mut s = String::new();
        match self {
            ManifestFormat::Msgpack => push_chars(&mut s, "msgpack"),
            ManifestFormat::JSON => push_chars(&mut s, "json"),
            ManifestFormat::YAML => push_chars(&mut s, "yaml"),
        }
        s
    }
}

/// An entry of a manifest: the file's SHA-1 hash, its name on the server
/// and its size.
#[derive(Debug, Clone, PartialEq, Eq)]
pub struct ManifestEntry(pub String, pub String, pub usize);

/// An app version of the matsurihi.me API.
#[derive(Debug, Clone)]
pub struct AppVersion {
    pub version: String,
    pub updated_at: String,
    pub revision: u64,
}

/// An asset version of the matsurihi.me API.
#[derive(Debug, Clone)]
pub struct AssetVersion {
    /// File name of the manifest on the asset server.
    pub filename: String,
    pub updated_at: String,
    pub version: u64,
}

/// The latest versions of the matsurihi.me API.
#[derive(Debug, Clone)]
pub struct VersionInfo {
    pub app_version: AppVersion,
    pub asset_version: AssetVersion,
}

} // verus!
