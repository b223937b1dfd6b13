use audio_stream::config::supported_output_formats;
use audio_stream::config::AudioConfig;
use audio_stream::config::ConfigRange;
use audio_stream::config::SampleFormat;
use audio_stream::stream::StreamError;

fn family(channels: u16, min: u32, max: u32, f: SampleFormat) -> ConfigRange {
    ConfigRange { channels, min_sample_rate: min, max_sample_rate: max, sample_format: f }
}

fn cfg(channels: u16, rate: u32, f: SampleFormat) -> AudioConfig {
    AudioConfig { channels, sample_rate: rate, sample_format: f }
}

#[test]
fn straddling_family_gives_three_candidates() {
    let r = supported_output_formats(&vec![family(2, 8_000, 96_000, SampleFormat::F32)]).unwrap();
    assert_eq!(
        r,
        vec![
            cfg(2, 96_000, SampleFormat::F32),
            cfg(2, 44_100, SampleFormat::F32),
            cfg(2, 8_000, SampleFormat::F32)
        ]
    );
}

#[test]
fn family_not_straddling_gives_two_candidates() {
    let r = supported_output_formats(&vec![family(1, 48_000, 96_000, SampleFormat::I16)]).unwrap();
    assert_eq!(r, vec![cfg(1, 96_000, SampleFormat::I16), cfg(1, 48_000, SampleFormat::I16)]);
    let r = supported_output_formats(&vec![family(1, 8_000, 44_100, SampleFormat::I16)]).unwrap();
    assert_eq!(r, vec![cfg(1, 44_100, SampleFormat::I16), cfg(1, 8_000, SampleFormat::I16)]);
}

#[test]
fn single_rate_family_gives_two_equal_candidates() {
    let r = supported_output_formats(&vec![family(2, 44_100, 44_100, SampleFormat::U8)]).unwrap();
    assert_eq!(r, vec![cfg(2, 44_100, SampleFormat::U8), cfg(2, 44_100, SampleFormat::U8)]);
}

#[test]
fn families_keep_their_order() {
    let fams = vec![
        family(2, 44_100, 48_000, SampleFormat::F32),
        family(2, 8_000, 192_000, SampleFormat::I32),
        family(6, 48_000, 48_000, SampleFormat::U16),
    ];
    let r = supported_output_formats(&fams).unwrap();
    assert_eq!(
        r,
        vec![
            cfg(2, 48_000, SampleFormat::F32),
            cfg(2, 44_100, SampleFormat::F32),
            cfg(2, 192_000, SampleFormat::I32),
            cfg(2, 44_100, SampleFormat::I32),
            cfg(2, 8_000, SampleFormat::I32),
            cfg(6, 48_000, SampleFormat::U16),
            cfg(6, 48_000, SampleFormat::U16),
        ]
    );
    assert_eq!(supported_output_formats(&fams), Ok(r.clone()));
    assert!(!r.is_empty());
}

#[test]
fn no_families_is_unsupported_format() {
    assert_eq!(supported_output_formats(&vec![]), Err(StreamError::UnsupportedFormat));
}

#[test]
fn family_rate_helpers() {
    let f = family(2, 8_000, 96_000, SampleFormat::F64);
    assert_eq!(f.with_max_sample_rate(), cfg(2, 96_000, SampleFormat::F64));
    assert_eq!(f.with_sample_rate(22_050), cfg(2, 22_050, SampleFormat::F64));
}
