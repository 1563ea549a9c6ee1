//! The catalog of audio formats: for each format the encoding profile that
//! the conversion service is asked for and the extension of the local file.

use vstd::prelude::*;

verus! {

/// An audio format that the conversion service can deliver.
#[derive(Debug, Clone, Copy, PartialEq, Eq, Structural)]
pub enum AudioFormat {
    FLAC,
    M4A,
    MP3,
    OGG,
    OPUS,
    WAV,
}

impl AudioFormat {
    /// The encoding profile that the service is asked for.
    pub open spec fn downscale(self) -> Seq<char> {
        match self {
            AudioFormat::FLAC => "flac-16"@,
            AudioFormat::M4A => "m4a-320"@,
            AudioFormat::MP3 => "mp3-320"@,
            AudioFormat::OGG => "ogg-320"@,
            AudioFormat::OPUS => "opus-320"@,
            AudioFormat::WAV => "wav"@,
        }
    }

    /// The extension of the local file, without the dot.
    pub open spec fn extension(self) -> Seq<char> {
        match self {
            AudioFormat::FLAC => "flac"@,
            AudioFormat::M4A => "m4a"@,
            AudioFormat::MP3 => "mp3"@,
            AudioFormat::OGG => "ogg"@,
            AudioFormat::OPUS => "opus"@,
            AudioFormat::WAV => "wav"@,
        }
    }

    pub fn to_downscale_string(&self) -> (profile: &'static str)
        ensures
            profile@ == self.downscale(),
    {
        match self {
            AudioFormat::FLAC => "flac-16",
            AudioFormat::M4A => "m4a-320",
            AudioFormat::MP3 => "mp3-320",
            AudioFormat::OGG => "ogg-320",
            AudioFormat::OPUS => "opus-320",
            AudioFormat::WAV => "wav",
        }
    }

    pub fn to_extension(&self) -> (extension: &'static str)
        ensures
            extension@ == self.extension(),
    {
        match self {
            AudioFormat::FLAC => "flac",
            AudioFormat::M4A => "m4a",
            AudioFormat::MP3 => "mp3",
            AudioFormat::OGG => "ogg",
            AudioFormat::OPUS => "opus",
            AudioFormat::WAV => "wav",
        }
    }
}

/// What the service is asked to deliver: a format of the catalog, or the
/// track as the source holds it.
#[derive(Debug, Clone, Copy, PartialEq, Eq, Structural)]
pub enum Encoding {
    /// One of the catalog's formats.
    Catalog(AudioFormat),
    /// No conversion: the profile is `original` and the file is kept as FLAC.
    Original,
}

impl Encoding {
    /// The encoding profile that the service is asked for.
    pub open spec fn downscale(self) -> Seq<char> {
        match self {
            Encoding::Catalog(format) => format.downscale(),
            Encoding::Original => "original"@,
        }
    }

    /// The extension of the local file, without the dot.
    pub open spec fn extension(self) -> Seq<char> {
        match self {
            Encoding::Catalog(format) => format.extension(),
            Encoding::Original => "flac"@,
        }
    }

    pub fn to_downscale_string(&self) -> (profile: &'static str)
        ensures
            profile@ == self.downscale(),
    {
        match self {
            Encoding::Catalog(format) => format.to_downscale_string(),
            Encoding::Original => "original",
        }
    }

    pub fn to_extension(&self) -> (extension: &'static str)
        ensures
            extension@ == self.extension(),
    {
        match self {
            Encoding::Catalog(format) => format.to_extension(),
            Encoding::Original => "flac",
        }
    }
}

} // verus!
