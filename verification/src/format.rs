//! The WAV acceptance policy: which header values the tool works with, and
//! which conversions the samples need before they reach the speech model.

use vstd::prelude::*;

verus! {

/// The only sample rate the speech model takes, in Hz.
pub const SAMPLE_RATE: u32 = 16000;

/// How a WAV file stores one sample.
#[derive(Clone, Copy, Debug, PartialEq, Eq, Structural)]
pub enum SampleFormat {
    /// IEEE floating point.
    Float,
    /// Signed integer PCM.
    Int,
}

/// The header values of a WAV file that the policy looks at.
#[derive(Clone, Copy, Debug, PartialEq, Eq, Structural)]
pub struct WavSpec {
    /// Number of interleaved channels.
    pub channels: u16,
    /// Samples per second and channel.
    pub sample_rate: u32,
    /// Bits that one sample carries.
    pub bits_per_sample: u16,
    /// Integer or floating point samples.
    pub sample_format: SampleFormat,
}

/// Why a header is turned down. Only the first failing check is reported:
/// sample rate, then channel count, then sample encoding.
#[derive(Clone, Copy, Debug, PartialEq, Eq, Structural)]
pub enum FormatError {
    /// The sample rate is not [`SAMPLE_RATE`]; holds the rate found.
    SampleRate(u32),
    /// Neither mono nor stereo; holds the channel count found.
    Channels(u16),
    /// Neither 16-bit integer nor 32-bit float; holds the bits per sample
    /// and the sample format found.
    Encoding(u16, SampleFormat),
}

/// What has to happen to the samples of an accepted file.
#[derive(Clone, Copy, Debug, PartialEq, Eq, Structural)]
pub struct Conversion {
    /// The file is stereo: each pair of samples is mixed down to one.
    pub stereo_to_mono: bool,
    /// The samples are 16-bit integers and are scaled to floating point.
    pub int_to_float: bool,
}

/// The format that a normalised file is written in: 16 kHz, mono, 16-bit
/// integer samples.
pub open spec fn normalized() -> WavSpec {
    WavSpec {
        channels: 1,
        sample_rate: SAMPLE_RATE,
        bits_per_sample: 16,
        sample_format: SampleFormat::Int,
    }
}

/// A normalised file is accepted, and its samples only need scaling.
pub proof fn lemma_normalized_is_accepted()
    ensures
        normalized().verdict() == Ok::<Conversion, FormatError>(
            Conversion { stereo_to_mono: false, int_to_float: true },
        ),
{
}

impl WavSpec {
    /// The two encodings that are taken: 16-bit integer and 32-bit float.
    pub open spec fn encoding_supported(self) -> bool {
        ||| self.bits_per_sample == 16 && self.sample_format == SampleFormat::Int
        ||| self.bits_per_sample == 32 && self.sample_format == SampleFormat::Float
    }

    /// The first check that the header fails, if any.
    pub open spec fn rejection(self) -> Option<FormatError> {
        if self.sample_rate != SAMPLE_RATE {
            Some(FormatError::SampleRate(self.sample_rate))
        } else if self.channels != 1 && self.channels != 2 {
            Some(FormatError::Channels(self.channels))
        } else if !self.encoding_supported() {
            Some(FormatError::Encoding(self.bits_per_sample, self.sample_format))
        } else {
            None
        }
    }

    /// The conversions that the samples of this file need.
    pub open spec fn conversion(self) -> Conversion {
        Conversion {
            stereo_to_mono: self.channels == 2,
            int_to_float: self.sample_format == SampleFormat::Int,
        }
    }

    /// The policy as one value: the conversions for an accepted header, the
    /// first failing check for any other.
    pub open spec fn verdict(self) -> Result<Conversion, FormatError> {
        match self.rejection() {
            Some(e) => Err(e),
            None => Ok(self.conversion()),
        }
    }

    /// A header is accepted exactly if its sample rate is [`SAMPLE_RATE`],
    /// it has one or two channels, and its encoding is one of the two that
    /// are taken.
    pub proof fn lemma_accepted_exactly(self)
        ensures
            self.verdict() is Ok <==> {
                &&& self.sample_rate == SAMPLE_RATE
                &&& (self.channels == 1 || self.channels == 2)
                &&& self.encoding_supported()
            },
    {
    }

    /// Applies the acceptance policy to a header.
    pub fn check(&self) -> (r: Result<Conversion, FormatError>)
        ensures
            r == self.verdict(),
    {
        if self.sample_rate != SAMPLE_RATE {
            return Err(FormatError::SampleRate(self.sample_rate));
        }
        let stereo_to_mono = match self.channels {
            1 => false,
            2 => true,
            n => {
                return Err(FormatError::Channels(n));
            },
        };
        let int_to_float = match (self.bits_per_sample, self.sample_format) {
            (16, SampleFormat::Int) => true,
            (32, SampleFormat::Float) => false,
            (bits, fmt) => {
                return Err(FormatError::Encoding(bits, fmt));
            },
        };
        Ok(Conversion { stereo_to_mono, int_to_float })
    }
}

} // verus!
