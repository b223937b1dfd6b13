use vstd::prelude::*;
use crate::stream::StreamError;

verus! {

/// The standard sample rate that the candidate list favours.
pub const STANDARD_SAMPLE_RATE: u32 = 44_100;

/// Sample formats an output device may ask for.
#[derive(Clone, Copy, Debug, PartialEq, Eq, Structural)]
pub enum SampleFormat {
    I8,
    I16,
    I32,
    I64,
    U8,
    U16,
    U32,
    U64,
    F32,
    F64,
}

/// A concrete stream configuration: channel count, rate and sample format.
#[derive(Clone, Copy, Debug, PartialEq, Eq, Structural)]
pub struct AudioConfig {
    pub channels: u16,
    pub sample_rate: u32,
    pub sample_format: SampleFormat,
}

/// A family of configurations a device supports: fixed channel count and
/// format, any rate from `min_sample_rate` to `max_sample_rate`.
#[derive(Clone, Copy, Debug, PartialEq, Eq, Structural)]
pub struct ConfigRange {
    pub channels: u16,
    pub min_sample_rate: u32,
    pub max_sample_rate: u32,
    pub sample_format: SampleFormat,
}

/// The configuration of family `f` at rate `rate`.
pub open spec fn at_rate(f: ConfigRange, rate: u32) -> AudioConfig {
    AudioConfig { channels: f.channels, sample_rate: rate, sample_format: f.sample_format }
}

/// Whether the standard rate lies strictly inside the family's range.
pub open spec fn straddles_standard(f: ConfigRange) -> bool {
    f.min_sample_rate < STANDARD_SAMPLE_RATE && STANDARD_SAMPLE_RATE < f.max_sample_rate
}

/// The candidates one family contributes: its maximum rate, the standard
/// rate where the range holds it strictly, and its minimum rate.
pub open spec fn family_candidates(f: ConfigRange) -> Seq<AudioConfig> {
    if straddles_standard(f) {
        seq![at_rate(f, f.max_sample_rate), at_rate(f, STANDARD_SAMPLE_RATE), at_rate(f, f.min_sample_rate)]
    } else {
        seq![at_rate(f, f.max_sample_rate), at_rate(f, f.min_sample_rate)]
    }
}

/// The candidate list of families given in order of preference: each
/// family's candidates, family after family.
pub open spec fn candidate_list(families: Seq<ConfigRange>) -> Seq<AudioConfig>
    decreases families.len(),
{
    if families.len() == 0 {
        seq![]
    } else {
        candidate_list(families.drop_last()) + family_candidates(families.last())
    }
}

impl ConfigRange {
    /// The configuration of this family at `rate`.
    pub fn with_sample_rate(&self, rate: u32) -> (r: AudioConfig)
        ensures
            r == at_rate(*self, rate),
    {
        AudioConfig { channels: self.channels, sample_rate: rate, sample_format: self.sample_format }
    }

    /// The configuration of this family at its maximum rate.
    pub fn with_max_sample_rate(&self) -> (r: AudioConfig)
        ensures
            r == at_rate(*self, self.max_sample_rate),
    {
        self.with_sample_rate(self.max_sample_rate)
    }
}

/// The fallback list for families already ordered from most to least
/// preferred: for each family in that order, a candidate at its maximum rate,
/// one at the standard rate if its range holds that rate strictly, and one at
/// its minimum rate. Duplicates are kept. A device with no families has no
/// supported configuration, which is reported as `UnsupportedFormat`.
pub fn supported_output_formats(families: &Vec<ConfigRange>) -> (r: Result<Vec<AudioConfig>, StreamError>)
    ensures
        families@.len() == 0 <==> r is Err,
        r is Err ==> r == Err::<Vec<AudioConfig>, StreamError>(StreamError::UnsupportedFormat),
        r is Ok ==> r->Ok_0@ == candidate_list(families@),
{
    if families.len() == 0 {
        return Err(StreamError::UnsupportedFormat);
    }
    let mut out: Vec<AudioConfig> = Vec::new();
    let mut i: usize = 0;
    while i < families.len()
        invariant
            i <= families@.len(),
            out@ == candidate_list(families@.subrange(0, i as int)),
        decreases families.len() - i,
    {
        let f = families[i];
        let ghost before = out@;
        out.push(f.with_max_sample_rate());
        if f.min_sample_rate < STANDARD_SAMPLE_RATE && STANDARD_SAMPLE_RATE < f.max_sample_rate {
            out.push(f.with_sample_rate(STANDARD_SAMPLE_RATE));
        }
        out.push(f.with_sample_rate(f.min_sample_rate));
        proof {
            let next = families@.subrange(0, i + 1);
            assert(next.drop_last() =~= families@.subrange(0, i as int));
            assert(next.last() == f);
            assert(out@ =~= before + family_candidates(f));
        }
        i = i + 1;
    }
    assert(families@.subrange(0, families@.len() as int) =~= families@);
    Ok(out)
}

/// The candidates of a list of families run family after family: the list of
/// `a + b` is the list of `a` followed by the list of `b`.
pub proof fn lemma_candidates_concat(a: Seq<ConfigRange>, b: Seq<ConfigRange>)
    ensures
        candidate_list(a + b) == candidate_list(a) + candidate_list(b),
    decreases b.len(),
{
    if b.len() == 0 {
        assert(a + b =~= a);
        assert(candidate_list(a) + candidate_list(b) =~= candidate_list(a));
    } else {
        assert((a + b).drop_last() =~= a + b.drop_last());
        assert((a + b).last() == b.last());
        lemma_candidates_concat(a, b.drop_last());
        assert(candidate_list(a + b) =~= candidate_list(a) + candidate_list(b));
    }
}

/// Every family contributes two candidates, or three when its range holds
/// the standard rate strictly: maximum, standard, minimum, in that order.
/// A family whose minimum equals its maximum gives two equal candidates.
pub proof fn lemma_family_burst(f: ConfigRange)
    ensures
        candidate_list(seq![f]) == family_candidates(f),
        straddles_standard(f) ==> candidate_list(seq![f]) == seq![
            at_rate(f, f.max_sample_rate),
            at_rate(f, STANDARD_SAMPLE_RATE),
            at_rate(f, f.min_sample_rate),
        ],
        !straddles_standard(f) ==> candidate_list(seq![f]) == seq![
            at_rate(f, f.max_sample_rate),
            at_rate(f, f.min_sample_rate),
        ],
        candidate_list(seq![f]).len() == if straddles_standard(f) { 3int } else { 2int },
        f.min_sample_rate == f.max_sample_rate ==> candidate_list(seq![f])[0] == candidate_list(
            seq![f],
        )[1],
{
    let one = seq![f];
    assert(one.drop_last() =~= Seq::<ConfigRange>::empty());
    assert(one.last() == f);
    assert(candidate_list(one.drop_last()) =~= Seq::<AudioConfig>::empty());
    assert(candidate_list(one) =~= family_candidates(f));
}

/// The candidate list holds between two and three entries per family, so it
/// is non-empty as soon as one family is given; it is a function of the
/// families alone, so equal inputs give equal lists.
pub proof fn lemma_candidates_nonempty_deterministic(
    families: Seq<ConfigRange>,
    again: Seq<ConfigRange>,
)
    ensures
        2 * families.len() <= candidate_list(families).len() <= 3 * families.len(),
        families.len() > 0 ==> candidate_list(families).len() > 0,
        families == again ==> candidate_list(families) == candidate_list(again),
    decreases families.len(),
{
    if families.len() > 0 {
        lemma_candidates_nonempty_deterministic(families.drop_last(), families.drop_last());
    }
}

} // verus!
