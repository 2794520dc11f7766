use transcribe::format::{Conversion, FormatError, SampleFormat, WavSpec, SAMPLE_RATE};

fn spec(channels: u16, sample_rate: u32, bits_per_sample: u16, sample_format: SampleFormat) -> WavSpec {
    WavSpec { channels, sample_rate, bits_per_sample, sample_format }
}

#[test]
fn sample_rate_is_16_khz() {
    assert_eq!(SAMPLE_RATE, 16000);
}

#[test]
fn mono_16_bit_is_scaled_only() {
    assert_eq!(
        spec(1, 16000, 16, SampleFormat::Int).check(),
        Ok(Conversion { stereo_to_mono: false, int_to_float: true })
    );
}

#[test]
fn stereo_16_bit_is_mixed_and_scaled() {
    assert_eq!(
        spec(2, 16000, 16, SampleFormat::Int).check(),
        Ok(Conversion { stereo_to_mono: true, int_to_float: true })
    );
}

#[test]
fn mono_32_bit_float_passes_through() {
    assert_eq!(
        spec(1, 16000, 32, SampleFormat::Float).check(),
        Ok(Conversion { stereo_to_mono: false, int_to_float: false })
    );
}

#[test]
fn stereo_32_bit_float_is_mixed_only() {
    assert_eq!(
        spec(2, 16000, 32, SampleFormat::Float).check(),
        Ok(Conversion { stereo_to_mono: true, int_to_float: false })
    );
}

#[test]
fn other_sample_rates_are_rejected() {
    for rate in [0u32, 8000, 15999, 16001, 22050, 44100, 48000, u32::MAX] {
        assert_eq!(
            spec(1, rate, 16, SampleFormat::Int).check(),
            Err(FormatError::SampleRate(rate))
        );
    }
}

#[test]
fn other_channel_counts_are_rejected() {
    for channels in [0u16, 3, 4, 6, u16::MAX] {
        assert_eq!(
            spec(channels, 16000, 16, SampleFormat::Int).check(),
            Err(FormatError::Channels(channels))
        );
    }
}

#[test]
fn other_encodings_are_rejected() {
    let cases = [
        (8u16, SampleFormat::Int),
        (24, SampleFormat::Int),
        (32, SampleFormat::Int),
        (16, SampleFormat::Float),
        (64, SampleFormat::Float),
        (0, SampleFormat::Int),
    ];
    for (bits, format) in cases {
        assert_eq!(
            spec(1, 16000, bits, format).check(),
            Err(FormatError::Encoding(bits, format))
        );
        assert_eq!(
            spec(2, 16000, bits, format).check(),
            Err(FormatError::Encoding(bits, format))
        );
    }
}

#[test]
fn sample_rate_is_reported_before_channels() {
    assert_eq!(
        spec(5, 44100, 8, SampleFormat::Int).check(),
        Err(FormatError::SampleRate(44100))
    );
}

#[test]
fn channels_are_reported_before_encoding() {
    assert_eq!(
        spec(5, 16000, 8, SampleFormat::Float).check(),
        Err(FormatError::Channels(5))
    );
}

#[test]
fn acceptance_is_exactly_the_three_conditions() {
    let rates = [0u32, 8000, 16000, 16001, 44100];
    let channels = [0u16, 1, 2, 3];
    let bits = [8u16, 16, 24, 32];
    let formats = [SampleFormat::Int, SampleFormat::Float];
    for rate in rates {
        for ch in channels {
            for b in bits {
                for f in formats {
                    let encoding = (b == 16 && f == SampleFormat::Int)
                        || (b == 32 && f == SampleFormat::Float);
                    let expected = rate == 16000 && (ch == 1 || ch == 2) && encoding;
                    let verdict = spec(ch, rate, b, f).check();
                    assert_eq!(verdict.is_ok(), expected);
                    if let Ok(conversion) = verdict {
                        assert_eq!(conversion.stereo_to_mono, ch == 2);
                        assert_eq!(conversion.int_to_float, f == SampleFormat::Int);
                    }
                }
            }
        }
    }
}
