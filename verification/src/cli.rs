//! The command line's own logic: parsing option values, the extractor's
//! options, and deciding how an extracted text asset is handled.

use vstd::prelude::*;

use crate::asset_extract::image_format::{format_of_extension, image_format_from_extension, ImageFormat};
use crate::chars::{
    chars_of, decimal, parse_u32, spec_parse_u32, copy_range, ends_with, find_first, find_last, first_index, last_index, push_chars,
    push_decimal, same_text, string_of, text_ends_with,
};
use crate::extract::puzzle::PieceRect;
use crate::extract::text::{ENCRYPTED_FILE_EXTENSIONS, UNENCRYPTED_FILE_EXTENSIONS};

verus! {

/// What parsing `-KEY=value` gives: the key and the value around the
/// first `=`, or the message of what is missing.
pub open spec fn key_val(s: Seq<char>) -> Result<(Seq<char>, Seq<char>), Seq<char>> {
    if s.len() == 0 || s[0] != '-' {
        Err("invalid -KEY=value: no `-` found in `"@ + s + "`"@)
    } else {
        match first_index(s, '=') {
            None => Err("invalid -KEY=value: no `=` found in `"@ + s + "`"@),
            Some(p) => Ok((s.subrange(1, p), s.skip(p + 1))),
        }
    }
}

/// Parses a `-KEY=value` option value into its key and value.
#[verifier::rlimit(40)]
pub fn parse_key_val(s: &str) -> (r: Result<(String, String), String>)
    ensures
        match r {
            Ok((k, v)) => key_val(s@) == Ok::<(Seq<char>, Seq<char>), Seq<char>>((k@, v@)),
            Err(m) => key_val(s@) == Err::<(Seq<char>, Seq<char>), Seq<char>>(m@),
        },
{
    let c = chars_of(s);
    if c.len() == 0 || c[0] != '-' {
        let mut m = String::new();
        push_chars(&mut m, "invalid -KEY=value: no `-` found in `");
        push_chars(&mut m, s);
        push_chars(&mut m, "`");
        return Err(m);
    }
    match find_first(&c, '=') {
        None => {
            let mut m = String::new();
            push_chars(&mut m, "invalid -KEY=value: no `=` found in `");
            push_chars(&mut m, s);
            push_chars(&mut m, "`");
            Err(m)
        },
        Some(p) => {
            let key = string_of(&c, 1, p);
            let val = string_of(&c, p + 1, c.len());
            assert(c@.subrange(p + 1, c@.len() as int) =~= c@.skip(p + 1));
            Ok((key, val))
        },
    }
}

/// Parses an image file extension into its format, or the message
/// `invalid image format: {s}`.
pub fn parse_image_format(s: &str) -> (r: Result<ImageFormat, String>)
    ensures
        match format_of_extension(s@) {
            Some(f) => r == Ok::<ImageFormat, String>(f),
            None => r matches Err(m) && m@ == "invalid image format: "@ + s@,
        },
{
    match image_format_from_extension(s) {
        Some(f) => Ok(f),
        None => {
            let mut m = String::new();
            push_chars(&mut m, "invalid image format: ");
            push_chars(&mut m, s);
            Err(m)
        },
    }
}

/// The options of the `extract` command.
#[derive(Debug, Clone)]
pub struct ExtractorArgs {
    /// The input files; glob patterns are allowed.
    pub input_paths: Vec<String>,
    /// The output directory.
    pub output: String,
    /// Extension of the audio output format.
    pub audio_format: String,
    /// Audio output codec.
    pub audio_codec: String,
    /// Options for the ffmpeg audio encoder.
    pub audio_args: Vec<(String, String)>,
    /// Format of the image output.
    pub image_ext: ImageFormat,
    /// How many assets to extract at once.
    pub parallel: u32,
    /// Path of the AssetRipper executable.
    pub asset_ripper_path: String,
}

impl ExtractorArgs {
    /// The options for `input_paths`, `parallel` at once and the
    /// AssetRipper at `asset_ripper_path`, the rest at their defaults:
    /// output to `./output`, `wav` audio with `pcm_s16le`, no encoder
    /// options, PNG images.
    pub fn with_defaults(input_paths: Vec<String>, parallel: u32, asset_ripper_path: String) -> (a: ExtractorArgs)
        ensures
            a.input_paths@ == input_paths@,
            a.output@ == "./output"@,
            a.audio_format@ == "wav"@,
            a.audio_codec@ == "pcm_s16le"@,
            a.audio_args@.len() == 0,
            a.image_ext == ImageFormat::Png,
            a.parallel == parallel,
            a.asset_ripper_path@ == asset_ripper_path@,
    {
        let mut output = String::new();
        push_chars(&mut output, "./output");
        let mut audio_format = String::new();
        push_chars(&mut audio_format, "wav");
        let mut audio_codec = String::new();
        push_chars(&mut audio_codec, "pcm_s16le");
        ExtractorArgs {
            input_paths,
            output,
            audio_format,
            audio_codec,
            audio_args: Vec::new(),
            image_ext: ImageFormat::Png,
            parallel,
            asset_ripper_path,
        }
    }
}

/// The options of the `manifest diff` command: the two manifests.
#[derive(Debug, Clone)]
pub struct ManifestDiffArgs {
    pub first: String,
    pub second: String,
}

/// A file name split at its last dot into stem and extension, as
/// `Path::file_stem` and `Path::extension` split it: `..`, names without
/// a dot and names whose only dot is the first character have no
/// extension.
pub open spec fn split_extension(name: Seq<char>) -> (Seq<char>, Option<Seq<char>>) {
    if name == ".."@ {
        (name, None)
    } else {
        match last_index(name, '.') {
            None => (name, None),
            Some(i) => if i == 0 {
                (name, None)
            } else {
                (name.take(i), Some(name.skip(i + 1)))
            },
        }
    }
}

/// Splits a file name into stem and extension.
#[verifier::rlimit(40)]
pub fn split_file_name(name: &str) -> (r: (String, Option<String>))
    ensures
        r.0@ == split_extension(name@).0,
        match r.1 {
            Some(e) => split_extension(name@).1 == Some(e@),
            None => split_extension(name@).1 is None,
        },
{
    let c = chars_of(name);
    let _n = c.len();
    if same_text(name, "..") {
        return (string_of(&c, 0, c.len()), None);
    }
    assert(c@.subrange(0, c@.len() as int) =~= c@);
    match find_last(&c, '.') {
        None => (string_of(&c, 0, c.len()), None),
        Some(i) => {
            if i == 0 {
                (string_of(&c, 0, c.len()), None)
            } else {
                assert(c@.subrange(0, i as int) =~= c@.take(i as int));
                assert(c@.subrange(i + 1, c@.len() as int) =~= c@.skip(i + 1));
                (string_of(&c, 0, i), Some(string_of(&c, i + 1, c.len())))
            }
        },
    }
}

/// Whether a text asset holds binary data: its file stem ends with one
/// of the binary extensions (`gtx`, `mld`, `acb`, `awb`, `mp4`).
pub open spec fn is_binary_stem(stem: Seq<char>) -> bool {
    ends_with(stem, "gtx"@) || ends_with(stem, "mld"@) || ends_with(stem, "acb"@)
        || ends_with(stem, "awb"@) || ends_with(stem, "mp4"@)
}

/// Whether the text asset with file stem `stem` holds binary data.
pub fn is_binary_text_asset(stem: &str) -> (r: bool)
    ensures
        r == is_binary_stem(stem@),
{
    let exts = ENCRYPTED_FILE_EXTENSIONS;
    let more = UNENCRYPTED_FILE_EXTENSIONS;
    text_ends_with(stem, exts[0]) || text_ends_with(stem, exts[1]) || text_ends_with(stem, more[0])
        || text_ends_with(stem, more[1]) || text_ends_with(stem, more[2])
}

/// How a binary text asset is extracted.
#[derive(Debug, Clone, PartialEq, Eq)]
pub enum BinaryAsset {
    /// CRI audio (`.acb`, `.awb`), decoded to audio files.
    Audio,
    /// Encrypted text (`.gtx`, `.mld`), decrypted to a file of this name.
    EncryptedText(String),
    /// A video, copied to a file of this name.
    Video(String),
}

/// The abstract value of a [`BinaryAsset`].
pub enum BinaryAssetView {
    Audio,
    EncryptedText(Seq<char>),
    Video(Seq<char>),
}

/// How the binary text asset whose file is named `name` (with its
/// `.bytes` extension) is extracted: by the extension under `.bytes`;
/// `None` where there is none that is handled.
pub open spec fn binary_asset_of(name: Seq<char>) -> Option<BinaryAssetView> {
    let base = split_extension(name).0;
    match split_extension(base).1 {
        None => None,
        Some(ext) => if ext == "acb"@ || ext == "awb"@ {
            Some(BinaryAssetView::Audio)
        } else if ext == "gtx"@ || ext == "mld"@ {
            Some(BinaryAssetView::EncryptedText(base))
        } else if ext == "mp4"@ {
            Some(BinaryAssetView::Video(base))
        } else {
            None
        },
    }
}

/// Decides how the binary text asset whose file is named `name` is
/// extracted.
pub fn binary_asset(name: &str) -> (r: Option<BinaryAsset>)
    ensures
        match r {
            None => binary_asset_of(name@) is None,
            Some(BinaryAsset::Audio) => binary_asset_of(name@) == Some(BinaryAssetView::Audio),
            Some(BinaryAsset::EncryptedText(n)) => binary_asset_of(name@) == Some(BinaryAssetView::EncryptedText(n@)),
            Some(BinaryAsset::Video(n)) => binary_asset_of(name@) == Some(BinaryAssetView::Video(n@)),
        },
        split_extension(split_extension(name@).0).1 == Some("mp4"@) ==> (r matches Some(BinaryAsset::Video(n))
            && n@ == split_extension(name@).0),
{
    proof {
        reveal_strlit("mp4");
        reveal_strlit("acb");
        reveal_strlit("awb");
        reveal_strlit("gtx");
        reveal_strlit("mld");
        assert("mp4"@[0] != "acb"@[0] && "mp4"@[0] != "awb"@[0]);
        assert("mp4"@[0] != "gtx"@[0]);
        assert("mp4"@ != "acb"@ && "mp4"@ != "awb"@ && "mp4"@ != "gtx"@);
        assert("mp4"@ != "mld"@) by {
            assert("mp4"@[1] != "mld"@[1]);
        }
    }
    let (base, _) = split_file_name(name);
    let (_, ext) = split_file_name(base.as_str());
    match ext {
        None => None,
        Some(e) => {
            let e = e.as_str();
            if same_text(e, "acb") || same_text(e, "awb") {
                Some(BinaryAsset::Audio)
            } else if same_text(e, "gtx") || same_text(e, "mld") {
                Some(BinaryAsset::EncryptedText(base))
            } else if same_text(e, "mp4") {
                Some(BinaryAsset::Video(base))
            } else {
                None
            }
        },
    }
}

/// The file name of the `i`-th image solved from texture `name`:
/// `{name}_{i}.{ext}`.
pub fn image_file_name(name: &str, i: u64, ext: &str) -> (r: String)
    ensures
        r@ == name@ + "_"@ + decimal(i as nat) + "."@ + ext@,
{
    let mut r = String::new();
    push_chars(&mut r, name);
    push_chars(&mut r, "_");
    push_decimal(&mut r, i);
    push_chars(&mut r, ".");
    push_chars(&mut r, ext);
    r
}

/// What the extractor does with an asset of a class.
#[derive(Debug, Clone, Copy, PartialEq, Eq, Structural)]
pub enum AssetAction {
    /// A text asset: written out as text, or as binary data by its name.
    TextAsset,
    /// A texture: written out as images, with its sprites' puzzle solved.
    Texture2D,
    /// Sprites (handled with their texture) and asset bundles (which only
    /// describe the bundle): nothing.
    Skip,
    /// A class that is not extracted.
    Unknown,
}

/// The action for an asset of class `class`.
pub open spec fn action_of(class: Seq<char>) -> AssetAction {
    if class == "TextAsset"@ {
        AssetAction::TextAsset
    } else if class == "Texture2D"@ {
        AssetAction::Texture2D
    } else if class == "Sprite"@ || class == "AssetBundle"@ {
        AssetAction::Skip
    } else {
        AssetAction::Unknown
    }
}

/// Decides what to do with an asset of class `class`.
pub fn asset_action(class: &str) -> (r: AssetAction)
    ensures
        r == action_of(class@),
{
    if same_text(class, "TextAsset") {
        AssetAction::TextAsset
    } else if same_text(class, "Texture2D") {
        AssetAction::Texture2D
    } else if same_text(class, "Sprite") || same_text(class, "AssetBundle") {
        AssetAction::Skip
    } else {
        AssetAction::Unknown
    }
}

/// The number of a sprite named `{texture}_{n}`: the integer after its
/// last `_`.
pub open spec fn sprite_number(name: Seq<char>) -> Option<u32> {
    match last_index(name, '_') {
        None => None,
        Some(i) => spec_parse_u32(name.skip(i + 1)),
    }
}

/// Reads the number of a sprite from its name.
pub fn sprite_id(name: &str) -> (r: Option<u32>)
    ensures
        r == sprite_number(name@),
{
    let c = chars_of(name);
    let _n = c.len();
    match find_last(&c, '_') {
        None => None,
        Some(i) => {
            let tail = copy_range(&c, i + 1, c.len());
            assert(tail@ =~= c@.skip(i + 1));
            parse_u32(&tail)
        },
    }
}

/// The pieces by number when `pairs` are put in a map in order, a later
/// piece replacing an earlier one of the same number.
pub open spec fn piece_map_of(pairs: Seq<(u32, PieceRect)>) -> Map<u32, PieceRect>
    decreases pairs.len(),
{
    if pairs.len() == 0 {
        Map::empty()
    } else {
        piece_map_of(pairs.drop_last()).insert(pairs.last().0, pairs.last().1)
    }
}

/// Whether `r` lists the entries of `m` in increasing order of number.
pub open spec fn lists_in_order(r: Seq<(u32, PieceRect)>, m: Map<u32, PieceRect>) -> bool {
    &&& forall|i: int, j: int| 0 <= i < j < r.len() ==> r[i].0 < r[j].0
    &&& forall|i: int| 0 <= i < r.len() ==> m.contains_key(#[trigger] r[i].0) && m[r[i].0] == r[i].1
    &&& forall|k: u32| m.contains_key(k) ==> exists|i: int| 0 <= i < r.len() && #[trigger] r[i].0 == k
}

/// Orders the pieces of a texture by number, as a map from numbers to
/// pieces orders them; of pieces with the same number the last counts.
pub fn order_pieces(pairs: &[(u32, PieceRect)]) -> (r: Vec<(u32, PieceRect)>)
    ensures
        lists_in_order(r@, piece_map_of(pairs@)),
{
    let mut r: Vec<(u32, PieceRect)> = Vec::new();
    let mut n: usize = 0;
    assert(pairs@.take(0) =~= Seq::<(u32, PieceRect)>::empty());
    while n < pairs.len()
        invariant
            n <= pairs@.len(),
            lists_in_order(r@, piece_map_of(pairs@.take(n as int))),
        decreases pairs.len() - n,
    {
        let (k, v) = pairs[n];
        let ghost m = piece_map_of(pairs@.take(n as int));
        assert(pairs@.take(n + 1).drop_last() =~= pairs@.take(n as int));
        let ghost m2 = piece_map_of(pairs@.take(n + 1));
        assert(m2 == m.insert(k, v));
        let mut i: usize = 0;
        while i < r.len() && r[i].0 < k
            invariant
                i <= r@.len(),
                forall|j: int| 0 <= j < i ==> r@[j].0 < k,
            decreases r.len() - i,
        {
            i += 1;
        }
        let ghost old_r = r@;
        if i < r.len() && r[i].0 == k {
            r.set(i, (k, v));
            assert forall|k2: u32| m2.contains_key(k2) implies exists|j: int| 0 <= j < r@.len() && #[trigger] r@[j].0 == k2 by {
                if k2 != k {
                    let j = choose|j: int| 0 <= j < old_r.len() && old_r[j].0 == k2;
                    assert(r@[j].0 == k2);
                } else {
                    assert(r@[i as int].0 == k2);
                }
            }
        } else {
            r.insert(i, (k, v));
            assert forall|a: int, b: int| 0 <= a < b < r@.len() implies r@[a].0 < r@[b].0 by {
                if b < i {
                } else if a < i && b == i {
                } else if a < i {
                    assert(r@[b] == old_r[b - 1]);
                } else if a == i {
                    assert(r@[b] == old_r[b - 1]);
                    if i < old_r.len() {
                        assert(old_r[i as int].0 >= k);
                        assert(old_r[i as int].0 != k);
                    }
                } else {
                    assert(r@[a] == old_r[a - 1]);
                    assert(r@[b] == old_r[b - 1]);
                }
            }
            assert forall|j: int| 0 <= j < r@.len() implies m2.contains_key(#[trigger] r@[j].0) && m2[r@[j].0] == r@[j].1 by {
                if j < i {
                    assert(r@[j] == old_r[j]);
                } else if j > i {
                    assert(r@[j] == old_r[j - 1]);
                    assert(old_r[j - 1].0 != k) by {
                        if i < old_r.len() {
                            assert(old_r[i as int].0 > k);
                        }
                    }
                }
            }
            assert forall|k2: u32| m2.contains_key(k2) implies exists|j: int| 0 <= j < r@.len() && #[trigger] r@[j].0 == k2 by {
                if k2 != k {
                    let j = choose|j: int| 0 <= j < old_r.len() && old_r[j].0 == k2;
                    if j < i {
                        assert(r@[j].0 == k2);
                    } else {
                        assert(r@[j + 1].0 == k2);
                    }
                } else {
                    assert(r@[i as int].0 == k2);
                }
            }
        }
        n += 1;
    }
    assert(pairs@.take(pairs@.len() as int) =~= pairs@);
    r
}

} // verus!
