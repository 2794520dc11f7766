//! Reading a WAV file that is held in memory: the container is parsed by the
//! `hound` crate, the acceptance policy and the narrowing of integer samples
//! are this library's. Floating-point samples are left in the file for the
//! caller to read.

use vstd::prelude::*;
use crate::format::{FormatError, SampleFormat, WavSpec};

verus! {

/// The streaming WAV parser of `hound`. Opaque here: what the library knows of
/// a reader is what [`reader_spec`] and [`reader_pending`] say.
#[verifier::external_type_specification]
#[verifier::external_body]
#[verifier::reject_recursive_types(R)]
pub struct ExWavReader<R>(hound::WavReader<R>);

/// The error type of `hound`. Opaque here; it is carried to the caller as it
/// came.
#[verifier::external_type_specification]
#[verifier::external_body]
pub struct ExWavError(hound::Error);

/// What `hound::WavReader::new` makes of a file's bytes: `None` where it
/// turns them down, else the header it found and, for each sample of the
/// file in order, what reading it as `i32` will give (`None` for a read that
/// fails).
pub uninterp spec fn wav_contents(bytes: Seq<u8>) -> Option<(WavSpec, Seq<Option<i32>>)>;

/// The header that a reader found when it was made.
pub uninterp spec fn reader_spec(reader: hound::WavReader<&[u8]>) -> WavSpec;

/// What the reads that a reader has still to make will give, in order:
/// the sample, or `None` for a read that fails.
pub uninterp spec fn reader_pending(reader: hound::WavReader<&[u8]>) -> Seq<Option<i32>>;

/// `hound::WavReader::new` on a byte slice. The contract names the outcome by
/// [`wav_contents`], and adds what the constructor checks before it returns a
/// reader: there is at least one channel, and the number of samples is a
/// multiple of the number of channels.
#[verifier::external_body]
fn open<'a>(bytes: &'a [u8]) -> (r: Result<hound::WavReader<&'a [u8]>, hound::Error>)
    ensures
        match r {
            Ok(reader) => {
                &&& wav_contents(bytes@) == Some((reader_spec(reader), reader_pending(reader)))
                &&& reader_spec(reader).channels > 0
                &&& reader_pending(reader).len() % (reader_spec(reader).channels as nat) == 0
            },
            Err(_) => wav_contents(bytes@) is None,
        },
{
    hound::WavReader::new(bytes)
}

/// `hound::WavReader::spec`, with the header copied field by field into the
/// library's own type.
#[verifier::external_body]
fn header(reader: &hound::WavReader<&[u8]>) -> (s: WavSpec)
    ensures
        s == reader_spec(*reader),
{
    let s = reader.spec();
    WavSpec {
        channels: s.channels,
        sample_rate: s.sample_rate,
        bits_per_sample: s.bits_per_sample,
        sample_format: match s.sample_format {
            hound::SampleFormat::Float => SampleFormat::Float,
            hound::SampleFormat::Int => SampleFormat::Int,
        },
    }
}

/// One step of the iterator that `hound::WavReader::samples` returns, for
/// `i32` samples. With nothing left it returns `None` and leaves the reader
/// as it was; else it takes the first pending read off the reader and returns
/// what that read gave. The header stays the same.
#[verifier::external_body]
fn next_sample(reader: &mut hound::WavReader<&[u8]>) -> (r: Option<Result<i32, hound::Error>>)
    ensures
        reader_spec(*final(reader)) == reader_spec(*old(reader)),
        match r {
            None => {
                &&& reader_pending(*old(reader)).len() == 0
                &&& reader_pending(*final(reader)) == reader_pending(*old(reader))
            },
            Some(outcome) => {
                &&& reader_pending(*old(reader)).len() > 0
                &&& reader_pending(*final(reader)) == reader_pending(*old(reader)).skip(1)
                &&& reader_pending(*old(reader))[0] == match outcome {
                    Ok(sample) => Some(sample),
                    Err(_) => None,
                }
            },
        },
{
    reader.samples::<i32>().next()
}

/// The samples of an accepted file.
#[derive(Debug, PartialEq, Eq)]
pub enum Samples {
    /// 16-bit integer samples, still to be scaled to floating point.
    Pcm16(Vec<i16>),
    /// The file holds floating-point samples. They are handed on as they
    /// are, so the caller reads them from the file.
    Float,
}

/// An accepted file: its samples, interleaved by channel, and whether they
/// are stereo pairs that are still to be mixed down.
#[derive(Debug, PartialEq, Eq)]
pub struct Audio {
    pub samples: Samples,
    pub stereo: bool,
}

/// Why reading a WAV file failed.
#[derive(Debug)]
pub enum ReadError {
    /// The container could not be parsed, or a sample could not be read.
    Wav(hound::Error),
    /// The file is a WAV file, but not one that the policy accepts.
    Format(FormatError),
}

/// The value of the low 16 bits of `x`, read as a signed number.
pub open spec fn wrap16(x: int) -> int {
    (x + 32768) % 65536 - 32768
}

/// The samples that a run of reads gave, if none of them failed.
pub open spec fn all_read(outcomes: Seq<Option<i32>>) -> Option<Seq<i32>> {
    if forall|i: int| 0 <= i < outcomes.len() ==> (#[trigger] outcomes[i]) is Some {
        Some(outcomes.map_values(|o: Option<i32>| o.unwrap()))
    } else {
        None
    }
}

impl Audio {
    /// Stereo audio comes in whole pairs, so that the mix-down cannot fail.
    pub open spec fn wf(&self) -> bool {
        self.stereo ==> (self.samples matches Samples::Pcm16(v) ==> v@.len() % 2 == 0)
    }

    /// Whether this is the audio of an integer file with the samples `raw`:
    /// every sample narrowed to 16 bits, in order.
    pub open spec fn scaled_from(&self, stereo: bool, raw: Seq<i32>) -> bool {
        &&& self.stereo == stereo
        &&& self.samples matches Samples::Pcm16(v)
        &&& v@.map_values(|x: i16| x as int) == raw.map_values(|x: i32| wrap16(x as int))
    }

    /// Whether this is the audio of a floating-point file: no samples are
    /// held, only whether they come in stereo pairs.
    pub open spec fn passed_through(&self, stereo: bool) -> bool {
        &&& self.stereo == stereo
        &&& self.samples is Float
    }
}

/// The cast of a 32-bit sample to 16 bits computes [`wrap16`].
proof fn lemma_low16(x: i32)
    ensures
        (#[verifier::truncate] (x as i16)) as int == wrap16(x as int),
{
    let q = ((x as int + 32768) / 65536) as i32;
    let y = (x as int - 65536 * q) as i32;
    assert(#[verifier::truncate] (x as i16) == y) by (bit_vector)
        requires
            -32768 <= q <= 32768,
            -32768 <= y <= 32767,
            x == y + 65536 * q,
    ;
}

/// Keeps the low 16 bits of a sample.
pub fn narrow_sample(x: i32) -> (r: i16)
    ensures
        r as int == wrap16(x as int),
        i16::MIN <= x <= i16::MAX ==> r == x,
{
    let r = #[verifier::truncate] (x as i16);
    proof {
        lemma_low16(x);
    }
    r
}

/// Keeps the low 16 bits of every sample.
pub fn narrow(raw: &Vec<i32>) -> (r: Vec<i16>)
    ensures
        r@.map_values(|x: i16| x as int) == raw@.map_values(|x: i32| wrap16(x as int)),
{
    let mut out: Vec<i16> = Vec::new();
    let mut i: usize = 0;
    while i < raw.len()
        invariant
            i <= raw.len(),
            out.len() == i,
            forall|k: int| 0 <= k < i ==> out@[k] as int == wrap16(#[trigger] raw@[k] as int),
        decreases raw.len() - i,
    {
        out.push(narrow_sample(raw[i]));
        i += 1;
    }
    out
}

/// Reads every sample that the reader has left, and stops at the first read
/// that fails.
fn read_samples(reader: &mut hound::WavReader<&[u8]>) -> (r: Result<Vec<i32>, hound::Error>)
    ensures
        match r {
            Ok(v) => all_read(reader_pending(*old(reader))) == Some(v@),
            Err(_) => all_read(reader_pending(*old(reader))) is None,
        },
{
    let ghost start = reader_pending(*reader);
    let mut samples: Vec<i32> = Vec::new();
    loop
        invariant
            start == reader_pending(*old(reader)),
            samples@.len() <= start.len(),
            reader_pending(*reader) == start.skip(samples@.len() as int),
            forall|i: int| 0 <= i < samples@.len() ==> start[i] == Some(samples@[i]),
        decreases reader_pending(*reader).len(),
    {
        let ghost before = reader_pending(*reader);
        match next_sample(reader) {
            None => {
                assert(all_read(start).unwrap() =~= samples@);
                return Ok(samples);
            },
            Some(Ok(v)) => {
                assert(before[0] == start[samples@.len() as int]);
                samples.push(v);
                assert(before.skip(1) =~= start.skip(samples@.len() as int));
            },
            Some(Err(e)) => {
                assert(before[0] == start[samples@.len() as int]);
                return Err(e);
            },
        }
    }
}

/// Reads a WAV file from its bytes. The container must parse and the header
/// must pass the acceptance policy. The samples of an integer file are read
/// and narrowed to 16 bits, and the first read that fails gives the error.
/// The samples of a floating-point file are not read here: the file is
/// accepted as it is, and its samples are the caller's to read and hand on
/// unchanged. Stereo audio holds whole pairs, in the file as in the result.
pub fn read_wav(bytes: &[u8]) -> (r: Result<Audio, ReadError>)
    ensures
        match wav_contents(bytes@) {
            None => r matches Err(ReadError::Wav(_)),
            Some((spec, outcomes)) => match spec.verdict() {
                Err(e) => r matches Err(ReadError::Format(f)) && f == e,
                Ok(conversion) => if conversion.int_to_float {
                    match all_read(outcomes) {
                        None => r matches Err(ReadError::Wav(_)),
                        Some(raw) => r matches Ok(a) && a.scaled_from(
                            conversion.stereo_to_mono,
                            raw,
                        ) && a.wf(),
                    }
                } else {
                    r matches Ok(a) && a.passed_through(conversion.stereo_to_mono) && (a.stereo
                        ==> outcomes.len() % 2 == 0)
                },
            },
        },
        match wav_contents(bytes@) {
            None => r is Err,
            Some((spec, outcomes)) => (spec.sample_format == SampleFormat::Int ==> all_read(
                outcomes,
            ) is Some) ==> (r is Ok <==> spec.verdict() is Ok),
        },
{
    let mut reader = match open(bytes) {
        Ok(reader) => reader,
        Err(e) => {
            return Err(ReadError::Wav(e));
        },
    };
    let spec = header(&reader);
    let conversion = match spec.check() {
        Ok(conversion) => conversion,
        Err(e) => {
            return Err(ReadError::Format(e));
        },
    };
    if !conversion.int_to_float {
        return Ok(Audio { samples: Samples::Float, stereo: conversion.stereo_to_mono });
    }
    let ghost outcomes = reader_pending(reader);
    let raw = match read_samples(&mut reader) {
        Ok(raw) => raw,
        Err(e) => {
            return Err(ReadError::Wav(e));
        },
    };
    let pcm = narrow(&raw);
    proof {
        let narrowed = pcm@.map_values(|x: i16| x as int);
        let wrapped = raw@.map_values(|x: i32| wrap16(x as int));
        assert(narrowed.len() == pcm@.len());
        assert(wrapped.len() == raw@.len());
        assert(raw@.len() == outcomes.len());
    }
    Ok(Audio { samples: Samples::Pcm16(pcm), stereo: conversion.stereo_to_mono })
}

} // verus!
