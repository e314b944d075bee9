//! The standalone downloader's types: client OS variants, whose Android
//! requests present a browser's `User-Agent`, and manifest entries.

use vstd::prelude::*;

use crate::chars::push_chars;

verus! {

/// The operating system a client runs on.
#[derive(Debug, Clone, Copy, PartialEq, Eq, Structural)]
pub enum OsVariant {
    Android,
    IOS,
}

/// The name of an OS variant.
pub open spec fn os_variant_name(v: OsVariant) -> Seq<char> {
    match v {
        OsVariant::Android => "Android"@,
        OsVariant::IOS => "iOS"@,
    }
}

/// The `User-Agent` sent on the variant.
pub open spec fn os_variant_user_agent(v: OsVariant) -> Seq<char> {
    match v {
        OsVariant::Android => "Mozilla/5.0 (Linux; Android 13) AppleWebKit/537.36 (KHTML, like Gecko) Chrome/110.0.5481.63 Mobile Safari/537.36"@,
        OsVariant::IOS => "ProductName/5.2.000 CFNetwork/1333.0.4 Darwin/21.5.0"@,
    }
}

impl OsVariant {
    /// The variant's name.
    pub fn as_str(&self) -> (s: &'static str)
        ensures
            s@ == os_variant_name(*self),
    {
        match self {
            OsVariant::Android => "Android",
            OsVariant::IOS => "iOS",
        }
    }

    /// The `User-Agent` sent on the variant.
    pub fn user_agent(&self) -> (s: &'static str)
        ensures
            s@ == os_variant_user_agent(*self),
    {
        match self {
            OsVariant::Android => "Mozilla/5.0 (Linux; Android 13) AppleWebKit/537.36 (KHTML, like Gecko) Chrome/110.0.5481.63 Mobile Safari/537.36",
            OsVariant::IOS => "ProductName/5.2.000 CFNetwork/1333.0.4 Darwin/21.5.0",
        }
    }

    /// The variant's name, as `Display` writes it.
    pub fn to_string(&self) -> (s: String)
        ensures
            s@ == os_variant_name(*self),
    {
        let mut s = String::new();
        push_chars(&mut s, self.as_str());
        s
    }
}

/// An entry of a manifest: the file's SHA-1 hash, its name on the server
/// and its size, in this order in the manifest's arrays.
#[derive(Debug, Clone, PartialEq, Eq)]
pub struct ManifestEntry {
    pub hash: String,
    pub filename: String,
    pub size: u64,
}

} // verus!
