//! Source selection for the fused heading: prefer the IMU (index 0), fall back to the
//! GNSS dual-antenna heading (index 1); with neither reporting the heading is empty.

use vstd::prelude::*;

verus! {

/// Position of the IMU heading among the fused inputs.
pub const BNO085_INDEX: usize = 0;
/// Position of the GNSS heading among the fused inputs.
pub const GNSS_INDEX: usize = 1;

/// The input at position `i`, or nothing when there is no such position.
pub open spec fn input_at(inputs: Seq<Option<u16>>, i: int) -> Option<u16> {
    if 0 <= i < inputs.len() { inputs[i] } else { None }
}

/// The raw heading the fusion reports: the IMU's if present, else the GNSS one, else
/// none.
pub open spec fn fused_raw(inputs: Seq<Option<u16>>) -> Option<u16> {
    match input_at(inputs, BNO085_INDEX as int) {
        Some(r) => Some(r),
        None => input_at(inputs, GNSS_INDEX as int),
    }
}

/// Chooses the raw heading (in the providers' fixed-point encoding) to decode.
pub struct HeadingFusion {}

impl HeadingFusion {
    pub fn new() -> (f: Self) {
        HeadingFusion {}
    }

    fn input_or_none(inputs: &[Option<u16>], i: usize) -> (r: Option<u16>)
        ensures
            r == input_at(inputs@, i as int),
    {
        if i < inputs.len() {
            inputs[i]
        } else {
            None
        }
    }

    /// Picks the raw heading for this read from the per-provider readings (`None` where a
    /// provider has no fresh value); `None` when neither source reports.
    pub fn select(&self, inputs: &[Option<u16>]) -> (r: Option<u16>)
        ensures
            r == fused_raw(inputs@),
    {
        match Self::input_or_none(inputs, BNO085_INDEX) {
            Some(v) => Some(v),
            None => Self::input_or_none(inputs, GNSS_INDEX),
        }
    }
}

/// The IMU wins whenever it reports, whatever the GNSS says and whatever came before.
pub proof fn lemma_prefers_imu(inputs: Seq<Option<u16>>)
    requires
        inputs.len() >= 1,
        inputs[0] is Some,
    ensures
        fused_raw(inputs) == inputs[0],
{
}

/// Without an IMU reading, the GNSS reading is used.
pub proof fn lemma_falls_back_to_gnss(inputs: Seq<Option<u16>>)
    requires
        inputs.len() >= 2,
        inputs[0] is None,
        inputs[1] is Some,
    ensures
        fused_raw(inputs) == inputs[1],
{
}

/// With neither source reporting, the heading is empty.
pub proof fn lemma_neither_is_empty(inputs: Seq<Option<u16>>)
    requires
        forall|i: int| 0 <= i < inputs.len() ==> #[trigger] inputs[i] is None,
    ensures
        fused_raw(inputs) is None,
{
    if inputs.len() > 0 {
        assert(inputs[0] is None);
    }
    if inputs.len() > 1 {
        assert(inputs[1] is None);
    }
}

/// A provider feeding the fused heading.
#[derive(Debug, Clone, Copy, PartialEq, Eq, Structural)]
pub enum HeadingSource {
    /// The BNO085 IMU heading.
    Bno085,
    /// The GNSS dual-antenna heading.
    Gnss,
}

/// The fused heading chain: the sources to read, in the order the fusion expects its
/// inputs, and the fusion itself.
pub struct HeadingFusionChain {
    sources: Vec<HeadingSource>,
    fusion: HeadingFusion,
}

impl HeadingFusionChain {
    /// The sources, in the order their readings are handed to `read`.
    pub closed spec fn spec_sources(&self) -> Seq<HeadingSource> {
        self.sources@
    }


    /// The sources, in the order their readings are handed to `read`.
    pub fn sources(&self) -> (r: &Vec<HeadingSource>)
        ensures
            r@ == self.spec_sources(),
    {
        &self.sources
    }

    /// Fuses one round of readings, given in the order of `sources`.
    pub fn read(&self, inputs: &[Option<u16>]) -> (r: Option<u16>)
        ensures
            r == fused_raw(inputs@),
    {
        self.fusion.select(inputs)
    }
}

/// Builds the heading chain with its sources in the fixed order the fusion reads them
/// (IMU at `BNO085_INDEX`, GNSS at `GNSS_INDEX`), so callers cannot get it wrong.
pub fn new_heading_fusion_chain() -> (c: HeadingFusionChain)
    ensures
        c.spec_sources() == seq![HeadingSource::Bno085, HeadingSource::Gnss],
        c.spec_sources()[BNO085_INDEX as int] == HeadingSource::Bno085,
        c.spec_sources()[GNSS_INDEX as int] == HeadingSource::Gnss,
{
    let mut sources: Vec<HeadingSource> = Vec::new();
    sources.push(HeadingSource::Bno085);
    sources.push(HeadingSource::Gnss);
    assert(sources@ =~= seq![HeadingSource::Bno085, HeadingSource::Gnss]);
    HeadingFusionChain { sources, fusion: HeadingFusion::new() }
}

} // verus!
