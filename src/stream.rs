use vstd::prelude::*;
use std::sync::Arc;
use crate::config::AudioConfig;
use crate::config::ConfigRange;
use crate::config::candidate_list;
use crate::config::supported_output_formats;
use crate::config::lemma_candidates_nonempty_deterministic;

verus! {

/// Why a stream could not be built for a configuration.
#[derive(Clone, Debug, PartialEq, Eq)]
pub enum BuildStreamError {
    DeviceNotAvailable,
    StreamConfigNotSupported,
    InvalidArgument,
    StreamIdOverflow,
    BackendSpecific(String),
}

/// Why a built stream could not be started.
#[derive(Clone, Debug, PartialEq, Eq)]
pub enum PlayStreamError {
    DeviceNotAvailable,
    BackendSpecific(String),
}

/// Why a device's default configuration could not be read.
#[derive(Clone, Debug, PartialEq, Eq)]
pub enum DefaultStreamConfigError {
    DeviceNotAvailable,
    StreamTypeNotSupported,
    BackendSpecific(String),
}

/// Why a device's supported configurations could not be listed.
#[derive(Clone, Debug, PartialEq, Eq)]
pub enum SupportedStreamConfigsError {
    DeviceNotAvailable,
    InvalidArgument,
    BackendSpecific(String),
}

/// Errors that might occur when interfacing with audio output.
#[derive(Clone, Debug, PartialEq, Eq)]
pub enum StreamError {
    /// The stream was built but could not be started.
    PlayStreamError(PlayStreamError),
    /// The device's default configuration could not be read.
    DefaultStreamConfigError(DefaultStreamConfigError),
    /// No stream could be built; carries the first failure.
    BuildStreamError(BuildStreamError),
    /// The device's supported configurations could not be listed.
    SupportedStreamConfigsError(SupportedStreamConfigsError),
    /// The device reports no supported configuration.
    UnsupportedFormat,
    /// No output device was found.
    NoDevice,
}

/// An error occurred while attempting to play a sound.
#[derive(Clone, Debug, PartialEq, Eq)]
pub enum PlayError {
    /// Decoding the audio failed.
    DecoderError(String),
    /// The output stream is gone.
    NoDevice,
}

/// Routes `source` to the mixer that a stream handle reached: with a live
/// mixer the source goes to that very mixer, unchanged, for the caller to
/// add; a handle whose stream is gone fails with `NoDevice`.
pub fn route_to_mixer<M, S>(mixer: Option<Arc<M>>, source: S) -> (r: Result<(Arc<M>, S), PlayError>)
    ensures
        match mixer {
            Some(m) => r == Ok::<(Arc<M>, S), PlayError>((m, source)),
            None => r == Err::<(Arc<M>, S), PlayError>(PlayError::NoDevice),
        },
{
    match mixer {
        Some(m) => Ok((m, source)),
        None => Err(PlayError::NoDevice),
    }
}

/// What the caller of a [`StreamOpener`] is to do next.
#[derive(Clone, Debug, PartialEq, Eq)]
pub enum OpenAction {
    /// Try to build a stream with this configuration and report the result.
    Build(AudioConfig),
    /// List the device's supported configuration families, ordered from most
    /// to least preferred, and report them.
    ListSupported,
    /// A stream was built with this configuration.
    Opened(AudioConfig),
    /// No stream can be built.
    Failed(StreamError),
}

/// Where an opening attempt stands.
#[derive(Clone, Copy, Debug, PartialEq, Eq, Structural)]
pub enum OpenPhase {
    Preferred,
    Listing,
    Fallback,
    Finished,
}

/// Abstract state of an opening attempt.
pub ghost struct OpenerState {
    pub preferred: AudioConfig,
    pub phase: OpenPhase,
    pub first_error: Option<BuildStreamError>,
    pub candidates: Seq<AudioConfig>,
    pub next: nat,
    pub attempts: nat,
}

/// The state of an attempt that has just asked to build `preferred`.
pub open spec fn start_state(preferred: AudioConfig) -> OpenerState {
    OpenerState {
        preferred,
        phase: OpenPhase::Preferred,
        first_error: None,
        candidates: seq![],
        next: 0,
        attempts: 1,
    }
}

/// The error reported once every candidate failed: the failure of the
/// preferred configuration.
pub open spec fn exhausted_error(s: OpenerState) -> StreamError {
    StreamError::BuildStreamError(s.first_error->Some_0)
}

/// The step taken on the result of a build attempt. The preferred
/// configuration opens at once or asks for the candidate list; a candidate
/// opens, or gives way to the next, or, being the last, ends the attempt
/// with the preferred configuration's error.
pub open spec fn build_step(s: OpenerState, r: Result<(), BuildStreamError>) -> (OpenerState, OpenAction) {
    match s.phase {
        OpenPhase::Preferred => match r {
            Ok(_) => (OpenerState { phase: OpenPhase::Finished, ..s }, OpenAction::Opened(s.preferred)),
            Err(e) => (
                OpenerState { phase: OpenPhase::Listing, first_error: Some(e), ..s },
                OpenAction::ListSupported,
            ),
        },
        OpenPhase::Fallback => match r {
            Ok(_) => (
                OpenerState { phase: OpenPhase::Finished, ..s },
                OpenAction::Opened(s.candidates[s.next as int]),
            ),
            Err(_) => if s.next + 1 < s.candidates.len() {
                (
                    OpenerState { next: s.next + 1, attempts: s.attempts + 1, ..s },
                    OpenAction::Build(s.candidates[s.next + 1int]),
                )
            } else {
                (
                    OpenerState { phase: OpenPhase::Finished, first_error: None, ..s },
                    OpenAction::Failed(exhausted_error(s)),
                )
            },
        },
        _ => (s, OpenAction::Failed(StreamError::NoDevice)),
    }
}

/// The step taken on the listing of the device's families: a listing error
/// ends the attempt, and so does a device with no families, reported as
/// `UnsupportedFormat`; otherwise the first candidate is tried.
pub open spec fn listing_step(
    s: OpenerState,
    families: Result<Seq<ConfigRange>, SupportedStreamConfigsError>,
) -> (OpenerState, OpenAction) {
    match families {
        Err(e) => (
            OpenerState { phase: OpenPhase::Finished, first_error: None, ..s },
            OpenAction::Failed(StreamError::SupportedStreamConfigsError(e)),
        ),
        Ok(f) => {
            let c = candidate_list(f);
            if f.len() == 0 {
                (
                    OpenerState { phase: OpenPhase::Finished, first_error: None, ..s },
                    OpenAction::Failed(StreamError::UnsupportedFormat),
                )
            } else {
                (
                    OpenerState {
                        phase: OpenPhase::Fallback,
                        candidates: c,
                        next: 0,
                        attempts: s.attempts + 1,
                        ..s
                    },
                    OpenAction::Build(c[0]),
                )
            }
        },
    }
}

/// The outcome of a run of build results, each fed to the attempt in turn;
/// at least one result is expected.
pub open spec fn run_builds(s: OpenerState, rs: Seq<Result<(), BuildStreamError>>) -> (OpenerState, OpenAction)
    decreases rs.len(),
{
    if rs.len() <= 1 {
        build_step(s, rs[0])
    } else {
        run_builds(build_step(s, rs[0]).0, rs.drop_first())
    }
}

/// Opens an output stream for a device: tries the preferred configuration
/// first and, if that fails, each candidate of the device's families in
/// turn. The caller does the device work that each [`OpenAction`] asks for
/// and reports back.
pub struct StreamOpener {
    preferred: AudioConfig,
    phase: OpenPhase,
    first_error: Option<BuildStreamError>,
    candidates: Vec<AudioConfig>,
    next: usize,
    attempts: Ghost<nat>,
}

impl View for StreamOpener {
    type V = OpenerState;

    closed spec fn view(&self) -> OpenerState {
        OpenerState {
            preferred: self.preferred,
            phase: self.phase,
            first_error: self.first_error,
            candidates: self.candidates@,
            next: self.next as nat,
            attempts: self.attempts@,
        }
    }
}

impl StreamOpener {
    pub open spec fn wf(&self) -> bool {
        let s = self@;
        &&& (s.phase == OpenPhase::Listing ==> s.first_error is Some)
        &&& (s.phase == OpenPhase::Fallback ==> s.first_error is Some && s.next < s.candidates.len())
    }

    /// Starts opening with `preferred`; the first action is to build it.
    pub fn new(preferred: AudioConfig) -> (r: (StreamOpener, OpenAction))
        ensures
            r.0.wf(),
            r.0@ == start_state(preferred),
            r.1 == OpenAction::Build(preferred),
    {
        let s = StreamOpener {
            preferred,
            phase: OpenPhase::Preferred,
            first_error: None,
            candidates: Vec::new(),
            next: 0,
            attempts: Ghost(1),
        };
        assert(s@.candidates =~= Seq::<AudioConfig>::empty());
        (s, OpenAction::Build(preferred))
    }

    pub fn phase(&self) -> (r: OpenPhase)
        ensures
            r == self@.phase,
    {
        self.phase
    }

    /// Reports the result of the build that the last action asked for.
    pub fn on_built(&mut self, result: Result<(), BuildStreamError>) -> (a: OpenAction)
        requires
            old(self).wf(),
            old(self)@.phase == OpenPhase::Preferred || old(self)@.phase == OpenPhase::Fallback,
        ensures
            final(self).wf(),
            (final(self)@, a) == build_step(old(self)@, result),
    {
        if self.phase == OpenPhase::Preferred {
            match result {
                Ok(()) => {
                    self.phase = OpenPhase::Finished;
                    OpenAction::Opened(self.preferred)
                },
                Err(e) => {
                    self.phase = OpenPhase::Listing;
                    self.first_error = Some(e);
                    OpenAction::ListSupported
                },
            }
        } else {
            match result {
                Ok(()) => {
                    self.phase = OpenPhase::Finished;
                    OpenAction::Opened(self.candidates[self.next])
                },
                Err(_) => {
                    if self.next < self.candidates.len() - 1 {
                        self.next = self.next + 1;
                        self.attempts = Ghost(self.attempts@ + 1);
                        OpenAction::Build(self.candidates[self.next])
                    } else {
                        self.phase = OpenPhase::Finished;
                        self.fail_exhausted()
                    }
                },
            }
        }
    }

    /// Ends the attempt with the preferred configuration's error.
    fn fail_exhausted(&mut self) -> (a: OpenAction)
        requires
            old(self).first_error is Some,
        ensures
            a == OpenAction::Failed(exhausted_error(old(self)@)),
            final(self)@ == (OpenerState { first_error: None, ..old(self)@ }),
    {
        match self.first_error.take() {
            Some(e) => OpenAction::Failed(StreamError::BuildStreamError(e)),
            None => OpenAction::Failed(StreamError::NoDevice),
        }
    }

    /// Reports the device's configuration families, ordered from most to
    /// least preferred, or the error from listing them.
    pub fn on_supported(
        &mut self,
        families: Result<Vec<ConfigRange>, SupportedStreamConfigsError>,
    ) -> (a: OpenAction)
        requires
            old(self).wf(),
            old(self)@.phase == OpenPhase::Listing,
        ensures
            final(self).wf(),
            (final(self)@, a) == listing_step(
                old(self)@,
                match families {
                    Ok(f) => Ok(f@),
                    Err(e) => Err(e),
                },
            ),
    {
        match families {
            Err(e) => {
                self.phase = OpenPhase::Finished;
                self.first_error = None;
                OpenAction::Failed(StreamError::SupportedStreamConfigsError(e))
            },
            Ok(f) => {
                match supported_output_formats(&f) {
                    Err(e) => {
                        self.phase = OpenPhase::Finished;
                        self.first_error = None;
                        OpenAction::Failed(e)
                    },
                    Ok(c) => {
                        proof {
                            lemma_candidates_nonempty_deterministic(f@, f@);
                        }
                        self.candidates = c;
                        self.phase = OpenPhase::Fallback;
                        self.next = 0;
                        self.attempts = Ghost(self.attempts@ + 1);
                        OpenAction::Build(self.candidates[0])
                    },
                }
            },
        }
    }
}

impl StreamOpener {
    /// Feeds the build results of the remaining candidates to the attempt,
    /// one after another, as the caller would report them; the attempt ends
    /// with the last of them. Every result but the last is a failure.
    pub fn on_built_run(&mut self, results: Vec<Result<(), BuildStreamError>>) -> (a: OpenAction)
        requires
            old(self).wf(),
            old(self)@.phase == OpenPhase::Fallback,
            results@.len() == old(self)@.candidates.len() - old(self)@.next,
            forall|i: int| 0 <= i < results@.len() - 1 ==> results@[i] is Err,
        ensures
            final(self).wf(),
            (final(self)@, a) == run_builds(old(self)@, results@),
    {
        let mut results = results;
        let ghost all = results@;
        let ghost start = self@;
        let mut a = self.on_built(results.remove(0));
        while results.len() > 0
            invariant
                self.wf(),
                all.len() >= 1,
                results@.len() < all.len(),
                results@ == all.subrange(all.len() - results@.len(), all.len() as int),
                results@.len() > 0 ==> self@.phase == OpenPhase::Fallback,
                results@.len() > 0 ==> results@.len() == self@.candidates.len() - self@.next,
                forall|i: int| 0 <= i < all.len() - 1 ==> all[i] is Err,
                results@.len() > 0 ==> run_builds(start, all) == run_builds(self@, results@),
                results@.len() == 0 ==> run_builds(start, all) == (self@, a),
            decreases results@.len(),
        {
            let ghost before = self@;
            let ghost rest = results@;
            proof {
                assert(rest[0] == all[all.len() - rest.len()]);
                if rest.len() > 1 {
                    assert(rest.drop_first() =~= all.subrange(all.len() - (rest.len() - 1), all.len() as int));
                }
            }
            a = self.on_built(results.remove(0));
            proof {
                assert(results@ =~= rest.drop_first());
                assert(results@ =~= all.subrange(all.len() - results@.len(), all.len() as int));
            }
        }
        a
    }
}

/// A run through the candidates from `s` on, where every build but the last
/// fails, ends with the last candidate opened or, if it failed too, with the
/// preferred configuration's error; one build is made per candidate.
proof fn lemma_fallback_run(s: OpenerState, rs: Seq<Result<(), BuildStreamError>>)
    requires
        s.phase == OpenPhase::Fallback,
        s.first_error is Some,
        s.next < s.candidates.len(),
        rs.len() == s.candidates.len() - s.next,
        forall|i: int| 0 <= i < rs.len() - 1 ==> rs[i] is Err,
    ensures
        run_builds(s, rs).0.attempts == s.attempts + rs.len() - 1,
        rs.last() is Ok ==> run_builds(s, rs).1 == OpenAction::Opened(s.candidates.last()),
        rs.last() is Err ==> run_builds(s, rs).1 == OpenAction::Failed(exhausted_error(s)),
    decreases rs.len(),
{
    if rs.len() > 1 {
        let t = build_step(s, rs[0]).0;
        let rest = rs.drop_first();
        assert forall|i: int| 0 <= i < rest.len() - 1 implies rest[i] is Err by {
            assert(rest[i] == rs[i + 1]);
        }
        lemma_fallback_run(t, rest);
        assert(rest.last() == rs.last());
    }
}

/// When the preferred configuration builds, the stream opens with it after a
/// single build, and no candidate list is asked for.
pub proof fn lemma_preferred_opens_at_once(preferred: AudioConfig)
    ensures
        build_step(start_state(preferred), Ok(())).1 == OpenAction::Opened(preferred),
        build_step(start_state(preferred), Ok(())).0.phase == OpenPhase::Finished,
        build_step(start_state(preferred), Ok(())).0.attempts == 1,
{
}

/// When the preferred configuration fails and, of the N candidates that the
/// families give, only the last builds, the stream opens with that last
/// candidate after exactly N + 1 builds: the preferred one, then each
/// candidate in order.
pub proof fn lemma_last_candidate_opens(
    preferred: AudioConfig,
    first: BuildStreamError,
    families: Seq<ConfigRange>,
    rs: Seq<Result<(), BuildStreamError>>,
)
    requires
        rs.len() == candidate_list(families).len(),
        rs.len() > 0,
        forall|i: int| 0 <= i < rs.len() - 1 ==> rs[i] is Err,
        rs.last() is Ok,
    ensures
        ({
            let listing = build_step(start_state(preferred), Err(first));
            let fallback = listing_step(listing.0, Ok(families));
            &&& listing.1 == OpenAction::ListSupported
            &&& fallback.1 == OpenAction::Build(candidate_list(families)[0])
            &&& run_builds(fallback.0, rs).1 == OpenAction::Opened(candidate_list(families).last())
            &&& run_builds(fallback.0, rs).0.attempts == rs.len() + 1
        }),
{
    let listing = build_step(start_state(preferred), Err(first));
    let fallback = listing_step(listing.0, Ok(families));
    lemma_candidates_nonempty_deterministic(families, families);
    lemma_fallback_run(fallback.0, rs);
}

/// When the preferred configuration and every candidate fail, whatever each
/// candidate's own error, the attempt ends with the preferred
/// configuration's error. A device with no families ends it with
/// `UnsupportedFormat` instead.
pub proof fn lemma_exhaustion_reports_first_error(
    preferred: AudioConfig,
    first: BuildStreamError,
    families: Seq<ConfigRange>,
    rs: Seq<Result<(), BuildStreamError>>,
)
    requires
        rs.len() == candidate_list(families).len(),
        forall|i: int| 0 <= i < rs.len() ==> rs[i] is Err,
    ensures
        ({
            let listing = build_step(start_state(preferred), Err(first));
            let fallback = listing_step(listing.0, Ok(families));
            let failure = OpenAction::Failed(StreamError::BuildStreamError(first));
            &&& rs.len() == 0 ==> fallback.1 == OpenAction::Failed(StreamError::UnsupportedFormat)
            &&& rs.len() > 0 ==> run_builds(fallback.0, rs).1 == failure
        }),
{
    let listing = build_step(start_state(preferred), Err(first));
    let fallback = listing_step(listing.0, Ok(families));
    lemma_candidates_nonempty_deterministic(families, families);
    if rs.len() > 0 {
        lemma_fallback_run(fallback.0, rs);
    }
}

/// A device that a [`DeviceSearch`] settled on.
#[derive(Clone, Copy, Debug, PartialEq, Eq, Structural)]
pub enum DeviceChoice {
    /// The host's default output device.
    Default,
    /// The output device at this position in the host's list.
    Listed(usize),
}

/// What the caller of a [`DeviceSearch`] is to do next.
#[derive(Clone, Debug, PartialEq, Eq)]
pub enum DeviceAction {
    /// Open a stream on the default device and report the result.
    TryDefault,
    /// List the host's output devices and report how many there are.
    ListDevices,
    /// Open a stream on the listed device at this position and report the
    /// result.
    TryDevice(usize),
    /// A stream was opened on this device.
    Opened(DeviceChoice),
    /// No stream can be opened.
    Failed(StreamError),
}

/// Opens a stream on the default output device, or, if that fails, on the
/// first of the host's output devices that opens, in the host's order. When
/// none opens, the default device's error is reported.
pub struct DeviceSearch {
    phase: OpenPhase,
    first_error: Option<StreamError>,
    count: usize,
    next: usize,
}

impl DeviceSearch {
    pub closed spec fn phase_spec(&self) -> OpenPhase {
        self.phase
    }

    pub closed spec fn first_error_spec(&self) -> Option<StreamError> {
        self.first_error
    }

    pub closed spec fn count_spec(&self) -> nat {
        self.count as nat
    }

    pub closed spec fn next_spec(&self) -> nat {
        self.next as nat
    }

    pub open spec fn wf(&self) -> bool {
        &&& (self.phase_spec() == OpenPhase::Listing ==> self.first_error_spec() is Some)
        &&& (self.phase_spec() == OpenPhase::Fallback ==> self.first_error_spec() is Some
            && self.next_spec() < self.count_spec())
    }

    /// Starts the search; `has_default` tells whether the host has a default
    /// output device. Without one the search fails with `NoDevice`.
    pub fn start(has_default: bool) -> (r: (DeviceSearch, DeviceAction))
        ensures
            r.0.wf(),
            has_default ==> r.1 == DeviceAction::TryDefault && r.0.phase_spec() == OpenPhase::Preferred,
            !has_default ==> r.1 == DeviceAction::Failed(StreamError::NoDevice) && r.0.phase_spec()
                == OpenPhase::Finished,
    {
        if has_default {
            (DeviceSearch { phase: OpenPhase::Preferred, first_error: None, count: 0, next: 0 }, DeviceAction::TryDefault)
        } else {
            (
                DeviceSearch { phase: OpenPhase::Finished, first_error: None, count: 0, next: 0 },
                DeviceAction::Failed(StreamError::NoDevice),
            )
        }
    }

    /// Ends the search with the default device's error.
    fn fail_with_first(&mut self) -> (a: DeviceAction)
        requires
            old(self).first_error_spec() is Some,
        ensures
            a == DeviceAction::Failed(old(self).first_error_spec()->Some_0),
            final(self).phase_spec() == OpenPhase::Finished,
    {
        self.phase = OpenPhase::Finished;
        match self.first_error.take() {
            Some(e) => DeviceAction::Failed(e),
            None => DeviceAction::Failed(StreamError::NoDevice),
        }
    }

    /// Reports the result of opening a stream on the device that the last
    /// action named.
    pub fn on_opened(&mut self, result: Result<(), StreamError>) -> (a: DeviceAction)
        requires
            old(self).wf(),
            old(self).phase_spec() == OpenPhase::Preferred || old(self).phase_spec() == OpenPhase::Fallback,
        ensures
            final(self).wf(),
            old(self).phase_spec() == OpenPhase::Preferred ==> match result {
                Ok(_) => a == DeviceAction::Opened(DeviceChoice::Default) && final(self).phase_spec()
                    == OpenPhase::Finished,
                Err(e) => a == DeviceAction::ListDevices && final(self).phase_spec() == OpenPhase::Listing
                    && final(self).first_error_spec() == Some(e),
            },
            old(self).phase_spec() == OpenPhase::Fallback ==> match result {
                Ok(_) => a == DeviceAction::Opened(DeviceChoice::Listed(old(self).next_spec() as usize))
                    && final(self).phase_spec() == OpenPhase::Finished,
                Err(_) => if old(self).next_spec() + 1 < old(self).count_spec() {
                    &&& a == DeviceAction::TryDevice((old(self).next_spec() + 1) as usize)
                    &&& final(self).phase_spec() == OpenPhase::Fallback
                    &&& final(self).next_spec() == old(self).next_spec() + 1
                    &&& final(self).count_spec() == old(self).count_spec()
                    &&& final(self).first_error_spec() == old(self).first_error_spec()
                } else {
                    &&& a == DeviceAction::Failed(old(self).first_error_spec()->Some_0)
                    &&& final(self).phase_spec() == OpenPhase::Finished
                },
            },
    {
        if self.phase == OpenPhase::Preferred {
            match result {
                Ok(()) => {
                    self.phase = OpenPhase::Finished;
                    DeviceAction::Opened(DeviceChoice::Default)
                },
                Err(e) => {
                    self.phase = OpenPhase::Listing;
                    self.first_error = Some(e);
                    DeviceAction::ListDevices
                },
            }
        } else {
            match result {
                Ok(()) => {
                    self.phase = OpenPhase::Finished;
                    DeviceAction::Opened(DeviceChoice::Listed(self.next))
                },
                Err(_) => {
                    if self.next < self.count - 1 {
                        self.next = self.next + 1;
                        DeviceAction::TryDevice(self.next)
                    } else {
                        self.fail_with_first()
                    }
                },
            }
        }
    }

    /// Reports how many output devices the host lists, or `None` where the
    /// listing failed; either way without devices to try, the search ends with
    /// the default device's error.
    pub fn on_listed(&mut self, count: Option<usize>) -> (a: DeviceAction)
        requires
            old(self).wf(),
            old(self).phase_spec() == OpenPhase::Listing,
        ensures
            final(self).wf(),
            match count {
                Some(n) if n > 0 => {
                    &&& a == DeviceAction::TryDevice(0)
                    &&& final(self).phase_spec() == OpenPhase::Fallback
                    &&& final(self).next_spec() == 0
                    &&& final(self).count_spec() == n
                    &&& final(self).first_error_spec() == old(self).first_error_spec()
                },
                _ => {
                    &&& a == DeviceAction::Failed(old(self).first_error_spec()->Some_0)
                    &&& final(self).phase_spec() == OpenPhase::Finished
                },
            },
    {
        match count {
            Some(n) => {
                if n > 0 {
                    self.phase = OpenPhase::Fallback;
                    self.count = n;
                    self.next = 0;
                    DeviceAction::TryDevice(0)
                } else {
                    self.fail_with_first()
                }
            },
            None => self.fail_with_first(),
        }
    }
}

} // verus!
