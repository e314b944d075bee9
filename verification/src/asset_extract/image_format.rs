//! Image file formats that extracted textures can be written in, named by
//! their file extensions.

use image::ImageFormat as Fmt;
use vstd::prelude::*;

use crate::chars::{chars_of, push_char, push_chars, same_text};

verus! {

/// An image file format, as the `image` crate knows them.
#[derive(Debug, Clone, Copy, PartialEq, Eq, Hash, Structural)]
pub enum ImageFormat {
    Png,
    Jpeg,
    Gif,
    WebP,
    Pnm,
    Tiff,
    Tga,
    Dds,
    Bmp,
    Ico,
    Hdr,
    OpenExr,
    Farbfeld,
    Avif,
    Qoi,
}

/// `s` with ASCII uppercase letters made lowercase.
pub open spec fn ascii_lowercase(s: Seq<char>) -> Seq<char> {
    s.map_values(|c: char| if 'A' <= c && c <= 'Z' { ((c as u32) + 32) as char } else { c })
}

/// The format of a lowercase file extension, if any.
pub open spec fn format_of_lowercase_extension(e: Seq<char>) -> Option<ImageFormat> {
    if e == "avif"@ {
        Some(ImageFormat::Avif)
    } else if e == "jpg"@ || e == "jpeg"@ || e == "jfif"@ {
        Some(ImageFormat::Jpeg)
    } else if e == "png"@ || e == "apng"@ {
        Some(ImageFormat::Png)
    } else if e == "gif"@ {
        Some(ImageFormat::Gif)
    } else if e == "webp"@ {
        Some(ImageFormat::WebP)
    } else if e == "tif"@ || e == "tiff"@ {
        Some(ImageFormat::Tiff)
    } else if e == "tga"@ {
        Some(ImageFormat::Tga)
    } else if e == "dds"@ {
        Some(ImageFormat::Dds)
    } else if e == "bmp"@ {
        Some(ImageFormat::Bmp)
    } else if e == "ico"@ {
        Some(ImageFormat::Ico)
    } else if e == "hdr"@ {
        Some(ImageFormat::Hdr)
    } else if e == "exr"@ {
        Some(ImageFormat::OpenExr)
    } else if e == "pbm"@ || e == "pam"@ || e == "ppm"@ || e == "pgm"@ || e == "pnm"@ {
        Some(ImageFormat::Pnm)
    } else if e == "ff"@ {
        Some(ImageFormat::Farbfeld)
    } else if e == "qoi"@ {
        Some(ImageFormat::Qoi)
    } else {
        None
    }
}

/// The format of a file extension, in any ASCII case.
pub open spec fn format_of_extension(ext: Seq<char>) -> Option<ImageFormat> {
    format_of_lowercase_extension(ascii_lowercase(ext))
}

/// Looks an extension up with `image::ImageFormat::from_extension`.
///
/// Trusted: the crate lowercases the ASCII letters of the extension and
/// looks it up in its table of extensions, which
/// `format_of_lowercase_extension` restates.
#[verifier::external_body]
pub(crate) fn image_format_from_extension(ext: &str) -> (r: Option<ImageFormat>)
    ensures
        r == format_of_extension(ext@),
{
    Some(match Fmt::from_extension(ext)? {
        Fmt::Png => ImageFormat::Png, Fmt::Jpeg => ImageFormat::Jpeg, Fmt::Gif => ImageFormat::Gif,
        Fmt::WebP => ImageFormat::WebP, Fmt::Pnm => ImageFormat::Pnm, Fmt::Tiff => ImageFormat::Tiff,
        Fmt::Tga => ImageFormat::Tga, Fmt::Dds => ImageFormat::Dds, Fmt::Bmp => ImageFormat::Bmp,
        Fmt::Ico => ImageFormat::Ico, Fmt::Hdr => ImageFormat::Hdr, Fmt::OpenExr => ImageFormat::OpenExr,
        Fmt::Farbfeld => ImageFormat::Farbfeld, Fmt::Avif => ImageFormat::Avif, Fmt::Qoi => ImageFormat::Qoi,
        _ => return None,
    })
}

/// An image format chosen for output.
#[derive(Debug, Clone, Copy, PartialEq, Eq, Hash)]
pub struct MyImageFormat(pub ImageFormat);

/// The name under which an output format is offered, if it is offered.
pub open spec fn possible_value(f: ImageFormat) -> Option<Seq<char>> {
    match f {
        ImageFormat::Avif => Some("avif"@),
        ImageFormat::Bmp => Some("bmp"@),
        ImageFormat::Jpeg => Some("jpeg"@),
        ImageFormat::Png => Some("png"@),
        ImageFormat::Tiff => Some("tiff"@),
        ImageFormat::WebP => Some("webp"@),
        _ => None,
    }
}

impl MyImageFormat {
    /// The format of an extension, or the message
    /// `unsupported image format: {s}`.
    pub fn from_str(s: &str) -> (r: Result<MyImageFormat, String>)
        ensures
            match format_of_extension(s@) {
                Some(f) => r matches Ok(m) && m.0 == f,
                None => r matches Err(msg) && msg@ == "unsupported image format: "@ + s@,
            },
    {
        match image_format_from_extension(s) {
            Some(f) => Ok(MyImageFormat(f)),
            None => {
                let mut msg = String::new();
                push_chars(&mut msg, "unsupported image format: ");
                push_chars(&mut msg, s);
                Err(msg)
            },
        }
    }

    /// The formats offered for output.
    pub fn value_variants() -> (v: Vec<MyImageFormat>)
        ensures
            v@.len() == 6,
            v@[0].0 == ImageFormat::Avif,
            v@[1].0 == ImageFormat::Bmp,
            v@[2].0 == ImageFormat::Jpeg,
            v@[3].0 == ImageFormat::Png,
            v@[4].0 == ImageFormat::Tiff,
            v@[5].0 == ImageFormat::WebP,
    {
        vec![
            MyImageFormat(ImageFormat::Avif),
            MyImageFormat(ImageFormat::Bmp),
            MyImageFormat(ImageFormat::Jpeg),
            MyImageFormat(ImageFormat::Png),
            MyImageFormat(ImageFormat::Tiff),
            MyImageFormat(ImageFormat::WebP),
        ]
    }

    /// The name under which this format is offered, if it is offered.
    pub fn to_possible_value(&self) -> (r: Option<&'static str>)
        ensures
            match r {
                Some(s) => possible_value(self.0) == Some(s@),
                None => possible_value(self.0) is None,
            },
    {
        match self.0 {
            ImageFormat::Avif => Some("avif"),
            ImageFormat::Bmp => Some("bmp"),
            ImageFormat::Jpeg => Some("jpeg"),
            ImageFormat::Png => Some("png"),
            ImageFormat::Tiff => Some("tiff"),
            ImageFormat::WebP => Some("webp"),
            _ => None,
        }
    }
}

/// An audio output format.
#[derive(Debug, Clone, Copy, PartialEq, Eq, Structural)]
pub enum AudioFormat {
    Wav,
    Flac,
}

/// The name of an audio format, which is also its extension.
pub open spec fn audio_format_name(f: AudioFormat) -> Seq<char> {
    match f {
        AudioFormat::Wav => "wav"@,
        AudioFormat::Flac => "flac"@,
    }
}

impl AudioFormat {
    /// The audio formats offered.
    pub fn value_variants() -> (v: Vec<AudioFormat>)
        ensures
            v@ == seq![AudioFormat::Wav, AudioFormat::Flac],
    {
        vec![AudioFormat::Wav, AudioFormat::Flac]
    }

    /// The name under which the format is offered.
    pub fn to_possible_value(&self) -> (s: &'static str)
        ensures
            s@ == audio_format_name(*self),
    {
        match self {
            AudioFormat::Wav => "wav",
            AudioFormat::Flac => "flac",
        }
    }

    /// The format's name, as `Display` writes it.
    pub fn to_string(&self) -> (s: String)
        ensures
            s@ == audio_format_name(*self),
    {
        let mut s = String::new();
        push_chars(&mut s, self.to_possible_value());
        s
    }
}

/// How an image is encoded for output.
#[derive(Debug, Clone, Copy, PartialEq, Eq, Structural)]
pub enum ImageEncoding {
    /// AVIF at the given quality (speed 5, sRGB, one thread).
    Avif { quality: u8 },
    Bmp,
    /// JPEG at the given quality.
    Jpeg { quality: u8 },
    /// PNG with the best compression and adaptive filtering.
    Png,
    Tiff,
    /// Lossless WebP.
    WebPLossless,
    /// Lossy WebP at the given quality.
    WebPLossy { quality: u8 },
}

/// The name of an image format, as `Debug` writes it.
pub open spec fn format_debug_name(f: ImageFormat) -> Seq<char> {
    match f {
        ImageFormat::Png => "Png"@,
        ImageFormat::Jpeg => "Jpeg"@,
        ImageFormat::Gif => "Gif"@,
        ImageFormat::WebP => "WebP"@,
        ImageFormat::Pnm => "Pnm"@,
        ImageFormat::Tiff => "Tiff"@,
        ImageFormat::Tga => "Tga"@,
        ImageFormat::Dds => "Dds"@,
        ImageFormat::Bmp => "Bmp"@,
        ImageFormat::Ico => "Ico"@,
        ImageFormat::Hdr => "Hdr"@,
        ImageFormat::OpenExr => "OpenExr"@,
        ImageFormat::Farbfeld => "Farbfeld"@,
        ImageFormat::Avif => "Avif"@,
        ImageFormat::Qoi => "Qoi"@,
    }
}

/// The name of an image format, as `Debug` writes it.
pub fn format_debug_str(f: ImageFormat) -> (s: &'static str)
    ensures
        s@ == format_debug_name(f),
{
    match f {
        ImageFormat::Png => "Png",
        ImageFormat::Jpeg => "Jpeg",
        ImageFormat::Gif => "Gif",
        ImageFormat::WebP => "WebP",
        ImageFormat::Pnm => "Pnm",
        ImageFormat::Tiff => "Tiff",
        ImageFormat::Tga => "Tga",
        ImageFormat::Dds => "Dds",
        ImageFormat::Bmp => "Bmp",
        ImageFormat::Ico => "Ico",
        ImageFormat::Hdr => "Hdr",
        ImageFormat::OpenExr => "OpenExr",
        ImageFormat::Farbfeld => "Farbfeld",
        ImageFormat::Avif => "Avif",
        ImageFormat::Qoi => "Qoi",
    }
}

/// The encoding of output images of `format` at `quality`: WebP is
/// lossless at quality 100 and lossy below; formats other than AVIF,
/// BMP, JPEG, PNG, TIFF and WebP are refused.
pub open spec fn encoding_of(format: ImageFormat, quality: u8) -> Option<ImageEncoding> {
    match format {
        ImageFormat::Avif => Some(ImageEncoding::Avif { quality }),
        ImageFormat::Bmp => Some(ImageEncoding::Bmp),
        ImageFormat::Jpeg => Some(ImageEncoding::Jpeg { quality }),
        ImageFormat::Png => Some(ImageEncoding::Png),
        ImageFormat::Tiff => Some(ImageEncoding::Tiff),
        ImageFormat::WebP => if quality == 100 {
            Some(ImageEncoding::WebPLossless)
        } else {
            Some(ImageEncoding::WebPLossy { quality })
        },
        _ => None,
    }
}

/// Chooses the encoding of output images, or the message
/// `unsupported image format: {format:?}`.
pub fn image_encoding(format: ImageFormat, quality: u8) -> (r: Result<ImageEncoding, String>)
    ensures
        match encoding_of(format, quality) {
            Some(e) => r == Ok::<ImageEncoding, String>(e),
            None => r matches Err(m) && m@ == "unsupported image format: "@ + format_debug_name(format),
        },
{
    match format {
        ImageFormat::Avif => Ok(ImageEncoding::Avif { quality }),
        ImageFormat::Bmp => Ok(ImageEncoding::Bmp),
        ImageFormat::Jpeg => Ok(ImageEncoding::Jpeg { quality }),
        ImageFormat::Png => Ok(ImageEncoding::Png),
        ImageFormat::Tiff => Ok(ImageEncoding::Tiff),
        ImageFormat::WebP => if quality == 100 {
            Ok(ImageEncoding::WebPLossless)
        } else {
            Ok(ImageEncoding::WebPLossy { quality })
        },
        _ => {
            let mut m = String::new();
            push_chars(&mut m, "unsupported image format: ");
            push_chars(&mut m, format_debug_str(format));
            Err(m)
        },
    }
}

/// Each output format is written by its own encoder, whatever the quality:
/// PNG, BMP and TIFF by their encoders, JPEG and AVIF at the quality asked
/// for, WebP losslessly at quality 100 and lossily at the quality asked for
/// below it; every other format is refused.
pub proof fn law_output_encodings(q: u8)
    ensures
        encoding_of(ImageFormat::Png, q) == Some(ImageEncoding::Png),
        encoding_of(ImageFormat::Bmp, q) == Some(ImageEncoding::Bmp),
        encoding_of(ImageFormat::Tiff, q) == Some(ImageEncoding::Tiff),
        encoding_of(ImageFormat::Jpeg, q) == (Some(ImageEncoding::Jpeg { quality: q })),
        encoding_of(ImageFormat::Avif, q) == (Some(ImageEncoding::Avif { quality: q })),
        q == 100 ==> encoding_of(ImageFormat::WebP, q) == Some(ImageEncoding::WebPLossless),
        q != 100 ==> encoding_of(ImageFormat::WebP, q) == (Some(ImageEncoding::WebPLossy { quality: q })),
        encoding_of(ImageFormat::Gif, q) is None,
        encoding_of(ImageFormat::Pnm, q) is None,
        encoding_of(ImageFormat::Tga, q) is None,
        encoding_of(ImageFormat::Dds, q) is None,
        encoding_of(ImageFormat::Ico, q) is None,
        encoding_of(ImageFormat::Hdr, q) is None,
        encoding_of(ImageFormat::OpenExr, q) is None,
        encoding_of(ImageFormat::Farbfeld, q) is None,
        encoding_of(ImageFormat::Qoi, q) is None,
{
}

} // verus!
