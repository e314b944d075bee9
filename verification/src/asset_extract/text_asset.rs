//! The `TextAsset` class: a named blob, which in this game holds audio
//! (ACB) and encrypted text.

use vstd::prelude::*;

use super::reader::{
    pos_ok, read_aligned_string, read_bytes, spec_read_aligned_string, spec_read_bytes, ParseError,
    Read,
};
use super::serialized::{spec_opt, with_version, SerializedFile};
use super::version::{unity, version_between, Version, VersionView};
use crate::chars::chars_of;

verus! {

/// A Unity `TextAsset` object.
#[derive(Debug, Clone)]
pub struct TextAsset {
    pub name: String,
    pub path_name: Option<String>,
    /// The asset's content, as bytes: in this game it is mostly binary.
    pub script: Vec<u8>,
}

/// The abstract value of a [`TextAsset`].
pub struct TextAssetView {
    pub name: Seq<char>,
    pub path_name: Option<Seq<char>>,
    pub script: Seq<u8>,
}

impl View for TextAsset {
    type V = TextAssetView;

    open spec fn view(&self) -> TextAssetView {
        TextAssetView { name: self.name@, path_name: self.path_name.deep_view(), script: self.script@ }
    }
}

/// A text asset as version `v` lays it out, read from the start of `d`:
/// name (aligned), path name (aligned, 3.4.0 to 2017.1.0b1), content.
pub open spec fn spec_text_asset(d: Seq<u8>, v: VersionView, be: bool) -> Read<TextAssetView> {
    match spec_read_aligned_string(d, 0, be) { Err(e) => Err(e), Ok((name, p)) =>
    match spec_opt(version_between(v, unity(3, 4, 0, ""), unity(2017, 1, 0, "b1")), spec_read_aligned_string(d, p, be), p) { Err(e) => Err(e), Ok((path_name, p)) =>
    match spec_read_bytes(d, p, be) { Err(e) => Err(e), Ok((script, p)) =>
    Ok((TextAssetView { name, path_name, script }, p))
    }}}
}

/// Reads a text asset from the start of `d`, laid out by version `v`.
pub fn read_text_asset(d: &[u8], v: &Version, be: bool) -> (r: Result<TextAsset, ParseError>)
    requires
        d@.len() <= isize::MAX,
    ensures
        (match r {
            Ok(t) => spec_text_asset(d@, v@, be) matches Ok((tv, _)) && tv == t@,
            Err(e) => spec_text_asset(d@, v@, be) == Err::<(TextAssetView, usize), ParseError>(e),
        }),
{
    let (name, p) = read_aligned_string(d, 0, be)?;
    let (path_name, p) = if v.between(&Version::new(3, 4, 0, ""), &Version::new(2017, 1, 0, "b1")) {
        let (x, q) = read_aligned_string(d, p, be)?;
        (Some(x), q)
    } else {
        (None, p)
    };
    let (script, _p) = read_bytes(d, p, be)?;
    Ok(TextAsset { name, path_name, script })
}

/// Reads a `TextAsset` object from its data, with the Unity version and
/// byte order of the serialized file that holds it.
pub fn construct_text_asset(data: &[u8], serialized_file: &SerializedFile) -> (r: Result<TextAsset, ParseError>)
    requires
        data@.len() <= isize::MAX,
    ensures
        (match r {
            Ok(t) => with_version(serialized_file.unity_version@, |v: VersionView| spec_text_asset(data@, v, serialized_file.big_endian)) matches Ok((tv, _)) && tv == t@,
            Err(e) => with_version(serialized_file.unity_version@, |v: VersionView| spec_text_asset(data@, v, serialized_file.big_endian)) == Err::<(TextAssetView, usize), ParseError>(e),
        }),
{
    let v = serialized_file.version()?;
    read_text_asset(data, &v, serialized_file.big_endian)
}

/// Whether `part` occurs in `s`.
pub open spec fn contains_text(s: Seq<char>, part: Seq<char>) -> bool {
    exists|i: int| 0 <= i && i + part.len() <= s.len() && #[trigger] s.subrange(i, i + part.len()) == part
}

/// Whether a text asset of this name holds CRI audio: its name contains
/// `.acb`.
pub fn is_audio_text_asset(name: &str) -> (r: bool)
    ensures
        r == contains_text(name@, ".acb"@),
{
    proof { reveal_strlit(".acb"); }
    let c = chars_of(name);
    let n = c.len();
    let mut i: usize = 0;
    while i < n && 4 <= n - i
        invariant
            n == c@.len(),
            c@ == name@,
            i <= n,
            forall|j: int| 0 <= j < i && j + 4 <= n ==> #[trigger] c@.subrange(j, j + 4) != ".acb"@,
        decreases n - i,
    {
        proof { reveal_strlit(".acb"); }
        if c[i] == '.' && c[i + 1] == 'a' && c[i + 2] == 'c' && c[i + 3] == 'b' {
            assert(c@.subrange(i as int, i + 4) =~= ".acb"@);
            return true;
        }
        assert(c@.subrange(i as int, i + 4) != ".acb"@) by {
            if c@.subrange(i as int, i + 4) == ".acb"@ {
                assert(c@.subrange(i as int, i + 4)[0] == c@[i as int]);
                assert(c@.subrange(i as int, i + 4)[1] == c@[i + 1]);
                assert(c@.subrange(i as int, i + 4)[2] == c@[i + 2]);
                assert(c@.subrange(i as int, i + 4)[3] == c@[i + 3]);
            }
        }
        i += 1;
    }
    assert(!contains_text(name@, ".acb"@)) by {
        if contains_text(name@, ".acb"@) {
            let j = choose|j: int| 0 <= j && j + ".acb"@.len() <= name@.len() && #[trigger] name@.subrange(j, j + ".acb"@.len()) == ".acb"@;
            assert(c@.subrange(j, j + 4) == ".acb"@);
        }
    }
    false
}

} // verus!
