//! The options of the asset bundle extractor.

use vstd::prelude::*;

use crate::chars::{push_chars, push_signed, signed_decimal, spec_parse_i32};

use super::image_format::{ImageFormat, MyImageFormat};

verus! {

/// What the extractor is asked to do.
#[derive(Debug, Clone)]
pub struct ExtractorArgs {
    /// The input directory or file.
    pub input: String,
    /// The output directory.
    pub output: String,
    /// The number of threads to use.
    pub parallel: usize,
    /// The format of extracted images.
    pub image_format: MyImageFormat,
    /// The quality of extracted images, from 0 to 100.
    pub image_quality: u8,
}

impl ExtractorArgs {
    /// The options for `input` with `parallel` threads, the rest at their
    /// defaults: output to `./output`, WebP images at quality 100.
    pub fn with_defaults(input: String, parallel: usize) -> (a: ExtractorArgs)
        ensures
            a.input@ == input@,
            a.output@ == "./output"@,
            a.parallel == parallel,
            a.image_format.0 == ImageFormat::WebP,
            a.image_quality == 100,
    {
        let mut output = String::new();
        push_chars(&mut output, "./output");
        ExtractorArgs {
            input,
            output,
            parallel,
            image_format: MyImageFormat(ImageFormat::WebP),
            image_quality: 100,
        }
    }
}

/// The message of the error of parsing `s` as an `i32`.
pub uninterp spec fn parse_int_error_text(s: Seq<char>) -> Seq<char>;

/// Parses an `i32` with `str::parse::<i32>`.
///
/// Trusted: it accepts an optional sign and decimal digits whose value
/// fits an `i32`, as the documentation of `i32::from_str` says; on
/// failure the message is the error's text for this input.
#[verifier::external_body]
fn parse_i32_text(s: &str) -> (r: Result<i32, String>)
    ensures
        match r {
            Ok(n) => spec_parse_i32(s@) == Some(n),
            Err(m) => spec_parse_i32(s@) is None && m@ == parse_int_error_text(s@),
        },
{
    match s.parse::<i32>() {
        Ok(n) => Ok(n),
        Err(e) => Err(e.to_string()),
    }
}

/// Parses an image quality: an integer from 0 to 100.
pub fn number_range(s: &str) -> (r: Result<u8, String>)
    ensures
        match spec_parse_i32(s@) {
            None => r matches Err(m) && m@ == parse_int_error_text(s@),
            Some(n) => if 0 <= n <= 100 {
                r == Ok::<u8, String>(n as u8)
            } else {
                r matches Err(m) && m@ == signed_decimal(n as i64) + " is out of range [0, 100]"@
            },
        },
{
    let n = parse_i32_text(s)?;
    if n < 0 || n > 100 {
        let mut m = String::new();
        push_signed(&mut m, n as i64);
        push_chars(&mut m, " is out of range [0, 100]");
        return Err(m);
    }
    Ok(n as u8)
}

} // verus!
