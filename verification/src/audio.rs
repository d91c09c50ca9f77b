//! Choosing the microphone input configuration. The samples themselves are
//! floating point and are handled outside this library.
use vstd::prelude::*;

verus! {

/// The sample rate that transcription expects.
pub const TARGET_SAMPLE_RATE: u32 = 16_000;

/// The sample formats an input device may offer.
#[derive(Debug, Clone, Copy, PartialEq, Eq, Structural)]
pub enum SampleFormatKind {
    F32,
    F64,
    I8,
    I16,
    I32,
    U8,
    U16,
    U32,
    /// A format the recorder cannot convert.
    Other,
}

/// One range of input configurations a device supports.
#[derive(Debug, Clone, Copy)]
pub struct InputRange {
    pub channels: u16,
    pub min_sample_rate: u32,
    pub max_sample_rate: u32,
    pub format: SampleFormatKind,
}

/// A range that can record at the target rate directly, in a format that
/// needs no more than a cheap conversion.
pub open spec fn records_at_target(r: InputRange) -> bool {
    &&& r.channels != 0
    &&& r.min_sample_rate <= TARGET_SAMPLE_RATE <= r.max_sample_rate
    &&& (r.format == SampleFormatKind::F32 || r.format == SampleFormatKind::I16 || r.format
        == SampleFormatKind::U16)
}

fn is_preferred_format(format: SampleFormatKind) -> (b: bool)
    ensures
        b == (format == SampleFormatKind::F32 || format == SampleFormatKind::I16 || format
            == SampleFormatKind::U16),
{
    match format {
        SampleFormatKind::F32 | SampleFormatKind::I16 | SampleFormatKind::U16 => true,
        _ => false,
    }
}

/// The first range that records at the target rate, if any; without one the
/// device's default configuration is used.
pub fn preferred_input_range(ranges: &Vec<InputRange>) -> (choice: Option<usize>)
    ensures
        match choice {
            Some(i) => i < ranges@.len() && records_at_target(ranges@[i as int]) && forall|j: int|
                0 <= j < i ==> !records_at_target(#[trigger] ranges@[j]),
            None => forall|j: int| 0 <= j < ranges@.len() ==> !records_at_target(#[trigger] ranges@[j]),
        },
{
    let mut i: usize = 0;
    while i < ranges.len()
        invariant
            i <= ranges@.len(),
            forall|j: int| 0 <= j < i ==> !records_at_target(#[trigger] ranges@[j]),
        decreases ranges@.len() - i,
    {
        let r = ranges[i];
        if r.channels != 0 && r.min_sample_rate <= TARGET_SAMPLE_RATE && r.max_sample_rate
            >= TARGET_SAMPLE_RATE && is_preferred_format(r.format) {
            return Some(i);
        }
        i = i + 1;
    }
    None
}

/// A range records at the target rate when it has channels, its rates span
/// 16 kHz, and its format is F32, I16 or U16.
pub proof fn lemma_records_at_target(r: InputRange)
    ensures
        records_at_target(r) <==> (r.channels > 0 && r.min_sample_rate <= 16_000
            && 16_000 <= r.max_sample_rate && (r.format == SampleFormatKind::F32 || r.format
            == SampleFormatKind::I16 || r.format == SampleFormatKind::U16)),
{
}

/// What `preferred_input_range` returns: the first range with channels whose
/// rates span 16 kHz in format F32, I16 or U16, or none when no range does.
pub proof fn lemma_preferred_input_range(ranges: Seq<InputRange>, choice: Option<usize>)
    requires
        match choice {
            Some(i) => i < ranges.len() && records_at_target(ranges[i as int]) && forall|j: int|
                0 <= j < i ==> !records_at_target(#[trigger] ranges[j]),
            None => forall|j: int| 0 <= j < ranges.len() ==> !records_at_target(#[trigger] ranges[j]),
        },
    ensures
        forall|j: int|
            #![trigger ranges[j]]
            0 <= j < ranges.len() && ranges[j].channels > 0 && ranges[j].min_sample_rate <= 16_000
                && 16_000 <= ranges[j].max_sample_rate && (ranges[j].format == SampleFormatKind::F32
                || ranges[j].format == SampleFormatKind::I16 || ranges[j].format
                == SampleFormatKind::U16) ==> (choice matches Some(i) && i <= j),
        choice matches Some(i) ==> ({
            let r = ranges[i as int];
            &&& r.channels > 0
            &&& r.min_sample_rate <= 16_000 <= r.max_sample_rate
            &&& (r.format == SampleFormatKind::F32 || r.format == SampleFormatKind::I16
                || r.format == SampleFormatKind::U16)
        }),
{
    assert forall|j: int|
        #![trigger ranges[j]]
        0 <= j < ranges.len() && ranges[j].channels > 0 && ranges[j].min_sample_rate <= 16_000
            && 16_000 <= ranges[j].max_sample_rate && (ranges[j].format == SampleFormatKind::F32
            || ranges[j].format == SampleFormatKind::I16 || ranges[j].format
            == SampleFormatKind::U16) implies (choice matches Some(i) && i <= j) by {
        lemma_records_at_target(ranges[j]);
    }
    if let Some(i) = choice {
        lemma_records_at_target(ranges[i as int]);
    }
}

/// How many interleaved samples make one frame; a device reporting no
/// channels is read as mono.
pub fn frame_width(channels: u16) -> (w: usize)
    ensures
        w == if channels == 0 {
            1
        } else {
            channels as usize
        },
{
    if channels == 0 {
        1
    } else {
        channels as usize
    }
}

/// Whether audio recorded at `input_rate` must be resampled for
/// transcription.
pub fn needs_resample(input_rate: u32) -> (b: bool)
    ensures
        b == (input_rate != TARGET_SAMPLE_RATE),
{
    input_rate != TARGET_SAMPLE_RATE
}

} // verus!
