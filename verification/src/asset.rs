//! The assets of the game's asset server: platforms, asset descriptions
//! and their download URLs.

use vstd::prelude::*;

use crate::asset_extract::image_format::ascii_lowercase;
use crate::chars::{decimal, push_chars, push_decimal, same_text};
use crate::error::{Error, Repr};
use crate::net::AssetVersion;

verus! {

/// Base URL of the asset server.
pub const ASSET_URL_BASE: &'static str = "https://td-assets.bn765.com";

/// Unity version of the game client.
pub const UNITY_VERSION: &'static str = "2020.3.32f1";

/// The platform a manifest is for. The two platforms' manifests differ
/// though they look the same.
#[derive(Debug, Clone, Copy, PartialEq, Eq, Structural)]
pub enum Platform {
    Android,
    IOS,
}

/// The name of a platform.
pub open spec fn platform_name(p: Platform) -> Seq<char> {
    match p {
        Platform::Android => "Android"@,
        Platform::IOS => "iOS"@,
    }
}

/// The `User-Agent` the game client sends on a platform.
pub open spec fn platform_user_agent(p: Platform) -> Seq<char> {
    match p {
        Platform::Android => "UnityPlayer/2020.3.32f1 (UnityWebRequest/1.0, libcurl/7.80.0-DEV)"@,
        Platform::IOS => "ProductName/5.2.000 CFNetwork/1333.0.4 Darwin/21.5.0"@,
    }
}

/// The full lowercase form of a string (`str::to_lowercase`).
pub uninterp spec fn lowercase_text(s: Seq<char>) -> Seq<char>;

/// Whether every character of `s` is ASCII.
pub open spec fn is_ascii_text(s: Seq<char>) -> bool {
    forall|i: int| 0 <= i < s.len() ==> (#[trigger] s[i] as u32) < 128
}

/// Lowercases a string with `str::to_lowercase`.
///
/// Trusted: the result is the Unicode lowercase of the argument; on ASCII
/// text that maps `A` to `Z` to `a` to `z` and keeps every other
/// character, as std's documentation of `to_lowercase` and
/// `to_ascii_lowercase` says.
#[verifier::external_body]
pub(crate) fn to_lowercase(s: &str) -> (r: String)
    ensures
        r@ == lowercase_text(s@),
        is_ascii_text(s@) ==> r@ == ascii_lowercase(s@),
{
    s.to_lowercase()
}

/// The platform names are ASCII, and lowercase to `android` and `ios`.
pub proof fn lemma_platform_names_lowercase()
    ensures
        is_ascii_text(platform_name(Platform::Android)),
        is_ascii_text(platform_name(Platform::IOS)),
        ascii_lowercase(platform_name(Platform::Android)) == "android"@,
        ascii_lowercase(platform_name(Platform::IOS)) == "ios"@,
{
    reveal_strlit("Android");
    reveal_strlit("iOS");
    reveal_strlit("android");
    reveal_strlit("ios");
    assert(ascii_lowercase("Android"@) =~= "android"@);
    assert(ascii_lowercase("iOS"@) =~= "ios"@);
}

impl Platform {
    /// The platform's name.
    pub fn as_str(&self) -> (s: &'static str)
        ensures
            s@ == platform_name(*self),
    {
        match self {
            Platform::Android => "Android",
            Platform::IOS => "iOS",
        }
    }

    /// The `User-Agent` of the platform's game client.
    pub fn user_agent(&self) -> (s: &'static str)
        ensures
            s@ == platform_user_agent(*self),
    {
        match self {
            Platform::Android => "UnityPlayer/2020.3.32f1 (UnityWebRequest/1.0, libcurl/7.80.0-DEV)",
            Platform::IOS => "ProductName/5.2.000 CFNetwork/1333.0.4 Darwin/21.5.0",
        }
    }

    /// The platform's name, as `Display` writes it.
    pub fn to_string(&self) -> (s: String)
        ensures
            s@ == platform_name(*self),
    {
        let mut s = String::new();
        push_chars(&mut s, self.as_str());
        s
    }

    /// The platform named `s`, in any case: `android` or `ios`.
    pub fn from_str(s: &str) -> (r: Result<Platform, Error>)
        ensures
            lowercase_text(s@) == "android"@ ==> r == Ok::<Platform, Error>(Platform::Android),
            lowercase_text(s@) == "ios"@ ==> r == Ok::<Platform, Error>(Platform::IOS),
            lowercase_text(s@) != "android"@ && lowercase_text(s@) != "ios"@ ==> (r matches Err(e)
                && e.spec_repr() matches Repr::UnknownPlatform(name) && name@ == lowercase_text(s@)),
            forall|p: Platform| #[trigger] platform_name(p) == s@ ==> r == Ok::<Platform, Error>(p),
    {
        proof {
            reveal_strlit("android");
            reveal_strlit("ios");
            assert("ios"@.len() != "android"@.len());
            lemma_platform_names_lowercase();
        }
        let lower = to_lowercase(s);
        if same_text(lower.as_str(), "android") {
            Ok(Platform::Android)
        } else if same_text(lower.as_str(), "ios") {
            Ok(Platform::IOS)
        } else {
            Err(Error::new(Repr::UnknownPlatform(lower)))
        }
    }
}

/// Where an asset is: its file name, platform and asset version.
#[derive(Debug, Clone)]
pub struct AssetInfo {
    pub filename: String,
    pub platform: Platform,
    pub version: AssetVersion,
}

/// The URL of an asset: `{base}/{version}/production/2018/{platform}/{filename}`.
pub open spec fn asset_url(version: u64, platform: Platform, filename: Seq<char>) -> Seq<char> {
    ASSET_URL_BASE@ + "/"@ + decimal(version as nat) + "/production/2018/"@ + platform_name(platform)
        + "/"@ + filename
}

impl AssetInfo {
    /// The URL of the asset on the asset server.
    pub fn to_url(&self) -> (url: String)
        ensures
            url@ == asset_url(self.version.version, self.platform, self.filename@),
    {
        let mut url = String::new();
        push_chars(&mut url, ASSET_URL_BASE);
        push_chars(&mut url, "/");
        push_decimal(&mut url, self.version.version);
        push_chars(&mut url, "/production/2018/");
        push_chars(&mut url, self.platform.as_str());
        push_chars(&mut url, "/");
        push_chars(&mut url, self.filename.as_str());
        url
    }
}

/// An asset downloaded from the asset server: its bytes and where it is.
#[derive(Debug, Clone)]
pub struct Asset {
    pub data: Vec<u8>,
    pub info: AssetInfo,
}

} // verus!
