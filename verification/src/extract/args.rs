//! The options of the library's extractor.

use vstd::prelude::*;

use crate::chars::push_chars;

verus! {

/// What the extractor is asked to do.
#[derive(Debug, Clone)]
pub struct ExtractorArgs {
    /// The input directories or files.
    pub input_paths: Vec<String>,
    /// The output directory.
    pub output: String,
    /// Extension of the audio output format.
    pub audio_format: String,
    /// Audio output codec.
    pub audio_codec: String,
    /// Options for the ffmpeg audio encoder.
    pub audio_args: Vec<(String, String)>,
    /// Extension of the image output.
    pub image_ext: String,
    /// Options for ffmpeg's image output.
    pub image_args: String,
    /// The number of threads to use.
    pub parallel: u32,
}

impl ExtractorArgs {
    /// The options for `input_paths` with `parallel` threads, the rest at
    /// their defaults: output to `./output`, `wav` audio with `pcm_s16le`,
    /// `png` images, no encoder options.
    pub fn with_defaults(input_paths: Vec<String>, parallel: u32) -> (a: ExtractorArgs)
        ensures
            a.input_paths@ == input_paths@,
            a.output@ == "./output"@,
            a.audio_format@ == "wav"@,
            a.audio_codec@ == "pcm_s16le"@,
            a.audio_args@.len() == 0,
            a.image_ext@ == "png"@,
            a.image_args@.len() == 0,
            a.parallel == parallel,
    {
        let mut output = String::new();
        push_chars(&mut output, "./output");
        let mut audio_format = String::new();
        push_chars(&mut audio_format, "wav");
        let mut audio_codec = String::new();
        push_chars(&mut audio_codec, "pcm_s16le");
        let mut image_ext = String::new();
        push_chars(&mut image_ext, "png");
        ExtractorArgs {
            input_paths,
            output,
            audio_format,
            audio_codec,
            audio_args: Vec::new(),
            image_ext,
            image_args: String::new(),
            parallel,
        }
    }
}

} // verus!
