use audio_stream::config::AudioConfig;
use audio_stream::config::ConfigRange;
use audio_stream::config::SampleFormat;
use audio_stream::stream::route_to_mixer;
use audio_stream::stream::BuildStreamError;
use audio_stream::stream::DeviceAction;
use audio_stream::stream::DeviceChoice;
use audio_stream::stream::DeviceSearch;
use audio_stream::stream::OpenAction;
use audio_stream::stream::PlayError;
use audio_stream::stream::StreamError;
use audio_stream::stream::StreamOpener;
use audio_stream::stream::SupportedStreamConfigsError;
use std::sync::Arc;

fn preferred() -> AudioConfig {
    AudioConfig { channels: 2, sample_rate: 48_000, sample_format: SampleFormat::F32 }
}

fn families() -> Vec<ConfigRange> {
    vec![
        ConfigRange { channels: 2, min_sample_rate: 8_000, max_sample_rate: 96_000, sample_format: SampleFormat::I16 },
        ConfigRange { channels: 1, min_sample_rate: 48_000, max_sample_rate: 48_000, sample_format: SampleFormat::U8 },
    ]
}

/// Drives an opener where the preferred configuration fails with `first` and
/// the build of candidate `i` succeeds exactly when `ok(i)`; each other
/// candidate fails with its own error. Returns the final action and the
/// configurations whose build was asked for, in order.
fn drive(ok: &dyn Fn(usize) -> bool, first: BuildStreamError) -> (OpenAction, Vec<AudioConfig>) {
    let (mut opener, mut action) = StreamOpener::new(preferred());
    let mut built = Vec::new();
    let mut candidate = 0usize;
    loop {
        action = match action {
            OpenAction::Build(c) => {
                built.push(c);
                if built.len() == 1 {
                    opener.on_built(Err(first.clone()))
                } else {
                    let i = candidate;
                    candidate += 1;
                    if ok(i) {
                        opener.on_built(Ok(()))
                    } else {
                        opener.on_built(Err(BuildStreamError::BackendSpecific(format!("candidate {}", i))))
                    }
                }
            }
            OpenAction::ListSupported => opener.on_supported(Ok(families())),
            done => return (done, built),
        }
    }
}

#[test]
fn preferred_config_opens_without_candidates() {
    let (mut opener, action) = StreamOpener::new(preferred());
    assert_eq!(action, OpenAction::Build(preferred()));
    assert_eq!(opener.on_built(Ok(())), OpenAction::Opened(preferred()));
}

#[test]
fn last_candidate_opens_after_n_plus_one_builds() {
    let (action, built) = drive(&|i| i == 4, BuildStreamError::StreamConfigNotSupported);
    let last = AudioConfig { channels: 1, sample_rate: 48_000, sample_format: SampleFormat::U8 };
    assert_eq!(action, OpenAction::Opened(last));
    assert_eq!(built.len(), 6);
    assert_eq!(built[0], preferred());
    assert_eq!(built[1], AudioConfig { channels: 2, sample_rate: 96_000, sample_format: SampleFormat::I16 });
    assert_eq!(built[2], AudioConfig { channels: 2, sample_rate: 44_100, sample_format: SampleFormat::I16 });
    assert_eq!(built[3], AudioConfig { channels: 2, sample_rate: 8_000, sample_format: SampleFormat::I16 });
    assert_eq!(built[4], last);
    assert_eq!(built[5], last);
}

#[test]
fn first_success_stops_the_search() {
    let (action, built) = drive(&|i| i >= 1, BuildStreamError::DeviceNotAvailable);
    assert_eq!(
        action,
        OpenAction::Opened(AudioConfig { channels: 2, sample_rate: 44_100, sample_format: SampleFormat::I16 })
    );
    assert_eq!(built.len(), 3);
}

#[test]
fn exhaustion_reports_the_preferred_error() {
    let (action, built) = drive(&|_| false, BuildStreamError::InvalidArgument);
    assert_eq!(action, OpenAction::Failed(StreamError::BuildStreamError(BuildStreamError::InvalidArgument)));
    assert_eq!(built.len(), 6);
}

#[test]
fn listing_error_ends_the_attempt() {
    let (mut opener, _) = StreamOpener::new(preferred());
    assert_eq!(opener.on_built(Err(BuildStreamError::StreamIdOverflow)), OpenAction::ListSupported);
    assert_eq!(
        opener.on_supported(Err(SupportedStreamConfigsError::DeviceNotAvailable)),
        OpenAction::Failed(StreamError::SupportedStreamConfigsError(SupportedStreamConfigsError::DeviceNotAvailable))
    );
}

#[test]
fn no_families_reports_unsupported_format() {
    let (mut opener, _) = StreamOpener::new(preferred());
    opener.on_built(Err(BuildStreamError::BackendSpecific("busy".to_string())));
    assert_eq!(opener.on_supported(Ok(vec![])), OpenAction::Failed(StreamError::UnsupportedFormat));
}

#[test]
fn no_default_device() {
    let (_, action) = DeviceSearch::start(false);
    assert_eq!(action, DeviceAction::Failed(StreamError::NoDevice));
}

#[test]
fn default_device_opens() {
    let (mut s, action) = DeviceSearch::start(true);
    assert_eq!(action, DeviceAction::TryDefault);
    assert_eq!(s.on_opened(Ok(())), DeviceAction::Opened(DeviceChoice::Default));
}

#[test]
fn other_device_opens_when_default_fails() {
    let (mut s, _) = DeviceSearch::start(true);
    assert_eq!(s.on_opened(Err(StreamError::NoDevice)), DeviceAction::ListDevices);
    assert_eq!(s.on_listed(Some(3)), DeviceAction::TryDevice(0));
    assert_eq!(s.on_opened(Err(StreamError::BuildStreamError(BuildStreamError::InvalidArgument))), DeviceAction::TryDevice(1));
    assert_eq!(s.on_opened(Ok(())), DeviceAction::Opened(DeviceChoice::Listed(1)));
}

#[test]
fn no_device_opens_reports_default_error() {
    let original = StreamError::BuildStreamError(BuildStreamError::DeviceNotAvailable);
    let (mut s, _) = DeviceSearch::start(true);
    s.on_opened(Err(original.clone()));
    assert_eq!(s.on_listed(Some(2)), DeviceAction::TryDevice(0));
    assert_eq!(s.on_opened(Err(StreamError::NoDevice)), DeviceAction::TryDevice(1));
    assert_eq!(s.on_opened(Err(StreamError::NoDevice)), DeviceAction::Failed(original.clone()));
    let (mut s, _) = DeviceSearch::start(true);
    s.on_opened(Err(original.clone()));
    assert_eq!(s.on_listed(None), DeviceAction::Failed(original.clone()));
    let (mut s, _) = DeviceSearch::start(true);
    s.on_opened(Err(original.clone()));
    assert_eq!(s.on_listed(Some(0)), DeviceAction::Failed(original));
}

#[test]
fn play_reaches_live_mixer() {
    let mixer = Arc::new(7u8);
    let handle = Arc::downgrade(&mixer);
    let (reached, source) = route_to_mixer(handle.upgrade(), 5u32).unwrap();
    assert!(Arc::ptr_eq(&reached, &mixer));
    assert_eq!(source, 5);
}

#[test]
fn dropped_stream_gives_no_device() {
    for _ in 0..100 {
        let mixer = Arc::new(7u8);
        let handle = Arc::downgrade(&mixer);
        drop(mixer);
        assert_eq!(route_to_mixer(handle.upgrade(), 1u32).map(|(_, s)| s), Err(PlayError::NoDevice));
    }
}

#[test]
fn run_of_results_opens_last_candidate_or_reports_first_error() {
    let (mut opener, _) = StreamOpener::new(preferred());
    opener.on_built(Err(BuildStreamError::StreamIdOverflow));
    assert_eq!(
        opener.on_supported(Ok(families())),
        OpenAction::Build(AudioConfig { channels: 2, sample_rate: 96_000, sample_format: SampleFormat::I16 })
    );
    let mut run: Vec<Result<(), BuildStreamError>> =
        (0..4).map(|i| Err(BuildStreamError::BackendSpecific(format!("c{}", i)))).collect();
    run.push(Ok(()));
    assert_eq!(
        opener.on_built_run(run),
        OpenAction::Opened(AudioConfig { channels: 1, sample_rate: 48_000, sample_format: SampleFormat::U8 })
    );

    let (mut opener, _) = StreamOpener::new(preferred());
    opener.on_built(Err(BuildStreamError::StreamIdOverflow));
    opener.on_supported(Ok(families()));
    let run: Vec<Result<(), BuildStreamError>> = (0..5).map(|_| Err(BuildStreamError::InvalidArgument)).collect();
    assert_eq!(
        opener.on_built_run(run),
        OpenAction::Failed(StreamError::BuildStreamError(BuildStreamError::StreamIdOverflow))
    );
}
