//! What the object readers need to know of the serialized file that holds
//! an object: its Unity version, its format version and its byte order.

use vstd::prelude::*;

use super::reader::{ParseError, Read};
use super::version::{spec_parse_version, Version, VersionView};

verus! {

/// The serialized file (a CAB inside an asset bundle) that an object
/// belongs to, as far as reading its objects is concerned.
pub struct SerializedFile {
    /// The Unity version that wrote the file, such as `2020.3.32f1`.
    pub unity_version: String,
    /// The format version in the file's header.
    pub format_version: u32,
    /// Whether the file's objects are stored big-endian.
    pub big_endian: bool,
}

impl SerializedFile {
    /// Parses the file's Unity version.
    pub fn version(&self) -> (r: Result<Version, ParseError>)
        ensures
            r matches Ok(v) ==> spec_parse_version(self.unity_version@) == Some(v@),
            r is Err <==> spec_parse_version(self.unity_version@) is None,
            r matches Err(e) ==> e == ParseError::InvalidUnityVersion,
    {
        match Version::from_str(self.unity_version.as_str()) {
            Ok(v) => Ok(v),
            Err(_) => Err(ParseError::InvalidUnityVersion),
        }
    }
}

/// An object read from the start of its data, once the file's version
/// string has been parsed: fails if it does not parse, and otherwise
/// reads with `body`.
pub open spec fn with_version<T>(
    unity_version: Seq<char>,
    body: spec_fn(VersionView) -> Read<T>,
) -> Read<T> {
    match spec_parse_version(unity_version) {
        None => Err(ParseError::InvalidUnityVersion),
        Some(v) => body(v),
    }
}

/// An optional field: read with `r` when present, else absent with the
/// position unchanged.
pub open spec fn spec_opt<T>(present: bool, r: Read<T>, p: usize) -> Read<Option<T>> {
    if present {
        match r {
            Ok((x, q)) => Ok((Some(x), q)),
            Err(e) => Err(e),
        }
    } else {
        Ok((None, p))
    }
}

} // verus!
