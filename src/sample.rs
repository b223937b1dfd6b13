use vstd::prelude::*;

verus! {

/// An integer sample type of an output buffer, with the value that stands
/// for silence: zero for signed types, the midpoint of the range for
/// unsigned ones.
pub trait OutputSample: Sized + Copy {
    spec fn spec_silence() -> Self;

    fn silence() -> (r: Self)
        ensures
            r == Self::spec_silence(),
    ;
}

impl OutputSample for i8 {
    open spec fn spec_silence() -> i8 {
        0
    }

    fn silence() -> (r: i8) {
        0
    }
}

impl OutputSample for i16 {
    open spec fn spec_silence() -> i16 {
        0
    }

    fn silence() -> (r: i16) {
        0
    }
}

impl OutputSample for i32 {
    open spec fn spec_silence() -> i32 {
        0
    }

    fn silence() -> (r: i32) {
        0
    }
}

impl OutputSample for i64 {
    open spec fn spec_silence() -> i64 {
        0
    }

    fn silence() -> (r: i64) {
        0
    }
}

impl OutputSample for u8 {
    open spec fn spec_silence() -> u8 {
        127
    }

    fn silence() -> (r: u8) {
        u8::MAX / 2
    }
}

impl OutputSample for u16 {
    open spec fn spec_silence() -> u16 {
        32767
    }

    fn silence() -> (r: u16) {
        u16::MAX / 2
    }
}

impl OutputSample for u32 {
    open spec fn spec_silence() -> u32 {
        2147483647
    }

    fn silence() -> (r: u32) {
        u32::MAX / 2
    }
}

impl OutputSample for u64 {
    open spec fn spec_silence() -> u64 {
        9223372036854775807
    }

    fn silence() -> (r: u64) {
        u64::MAX / 2
    }
}

/// What the output callback writes for one slot: the sample the mixer gave,
/// or silence where it gave none.
pub open spec fn slot_value<T: OutputSample>(pulled: Option<T>) -> T {
    match pulled {
        Some(v) => v,
        None => T::spec_silence(),
    }
}

pub fn output_sample<T: OutputSample>(pulled: Option<T>) -> (r: T)
    ensures
        r == slot_value(pulled),
{
    match pulled {
        Some(v) => v,
        None => T::silence(),
    }
}

/// Fills an output buffer from the samples pulled for it, slot by slot:
/// every slot for which no sample came holds silence.
pub fn fill_buffer<T: OutputSample>(data: &mut Vec<T>, pulled: &Vec<Option<T>>)
    requires
        old(data).len() == pulled.len(),
    ensures
        final(data).len() == old(data).len(),
        forall|i: int| 0 <= i < pulled.len() ==> final(data)[i] == slot_value(#[trigger] pulled[i]),
{
    let mut i: usize = 0;
    while i < data.len()
        invariant
            data.len() == pulled.len(),
            i <= data.len(),
            forall|j: int| 0 <= j < i ==> data[j] == slot_value(#[trigger] pulled[j]),
        decreases data.len() - i,
    {
        let v = output_sample(pulled[i]);
        data.set(i, v);
        i = i + 1;
    }
}

} // verus!
