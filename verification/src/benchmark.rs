//! The deterministic synthetic reconstruction suite: which targets it holds,
//! in which order, and what each is.
use vstd::prelude::*;

verus! {

pub const BENCHMARK_VERSION: u32 = 1;

pub const MIN_BENCHMARK_RESOLUTION: usize = 16;

pub const MAX_BENCHMARK_RESOLUTION: usize = 2048;

/// A synthetic target, each asymmetric by design.
#[derive(Clone, Copy, Debug, PartialEq, Eq, Structural)]
pub enum SyntheticTargetKind {
    OffsetCircle,
    OffsetSquare,
    Diagonal,
    BrokenGrid,
    NestedShapes,
    AsymmetricBlobs,
    Branching,
}

/// The suite in its stable order.
pub open spec fn spec_synthetic_targets() -> Seq<SyntheticTargetKind> {
    seq![
        SyntheticTargetKind::OffsetCircle,
        SyntheticTargetKind::OffsetSquare,
        SyntheticTargetKind::Diagonal,
        SyntheticTargetKind::BrokenGrid,
        SyntheticTargetKind::NestedShapes,
        SyntheticTargetKind::AsymmetricBlobs,
        SyntheticTargetKind::Branching,
    ]
}

pub fn synthetic_targets() -> (r: Vec<SyntheticTargetKind>)
    ensures
        r@ == spec_synthetic_targets(),
{
    let mut v: Vec<SyntheticTargetKind> = Vec::new();
    v.push(SyntheticTargetKind::OffsetCircle);
    v.push(SyntheticTargetKind::OffsetSquare);
    v.push(SyntheticTargetKind::Diagonal);
    v.push(SyntheticTargetKind::BrokenGrid);
    v.push(SyntheticTargetKind::NestedShapes);
    v.push(SyntheticTargetKind::AsymmetricBlobs);
    v.push(SyntheticTargetKind::Branching);
    assert(v@ =~= spec_synthetic_targets());
    v
}

impl SyntheticTargetKind {
    pub open spec fn spec_id(self) -> Seq<char> {
        match self {
            SyntheticTargetKind::OffsetCircle => "offset-circle"@,
            SyntheticTargetKind::OffsetSquare => "offset-square"@,
            SyntheticTargetKind::Diagonal => "diagonal"@,
            SyntheticTargetKind::BrokenGrid => "broken-grid"@,
            SyntheticTargetKind::NestedShapes => "nested-shapes"@,
            SyntheticTargetKind::AsymmetricBlobs => "asymmetric-blobs"@,
            SyntheticTargetKind::Branching => "branching"@,
        }
    }

    /// The stable identifier of the target.
    pub fn id(self) -> (r: &'static str)
        ensures
            r@ == self.spec_id(),
    {
        match self {
            SyntheticTargetKind::OffsetCircle => "offset-circle",
            SyntheticTargetKind::OffsetSquare => "offset-square",
            SyntheticTargetKind::Diagonal => "diagonal",
            SyntheticTargetKind::BrokenGrid => "broken-grid",
            SyntheticTargetKind::NestedShapes => "nested-shapes",
            SyntheticTargetKind::AsymmetricBlobs => "asymmetric-blobs",
            SyntheticTargetKind::Branching => "branching",
        }
    }

    pub open spec fn spec_description(self) -> Seq<char> {
        match self {
            SyntheticTargetKind::OffsetCircle => "off-center circle with a small satellite"@,
            SyntheticTargetKind::OffsetSquare => "upper-right square with an asymmetric notch"@,
            SyntheticTargetKind::Diagonal => "rising diagonal with unequal endpoints"@,
            SyntheticTargetKind::BrokenGrid => "offset checker grid with missing cells"@,
            SyntheticTargetKind::NestedShapes => "non-concentric nested rectangle and ellipse"@,
            SyntheticTargetKind::AsymmetricBlobs => "unequal connected organic lobes"@,
            SyntheticTargetKind::Branching => "one-sided deterministic branching structure"@,
        }
    }

    /// What the target draws.
    pub fn description(self) -> (r: &'static str)
        ensures
            r@ == self.spec_description(),
    {
        match self {
            SyntheticTargetKind::OffsetCircle => "off-center circle with a small satellite",
            SyntheticTargetKind::OffsetSquare => "upper-right square with an asymmetric notch",
            SyntheticTargetKind::Diagonal => "rising diagonal with unequal endpoints",
            SyntheticTargetKind::BrokenGrid => "offset checker grid with missing cells",
            SyntheticTargetKind::NestedShapes => "non-concentric nested rectangle and ellipse",
            SyntheticTargetKind::AsymmetricBlobs => "unequal connected organic lobes",
            SyntheticTargetKind::Branching => "one-sided deterministic branching structure",
        }
    }
}

/// What a target of the suite records about itself.
#[derive(Clone, Debug)]
pub struct BenchmarkTargetMetadata {
    pub benchmark_version: u32,
    pub index: usize,
    pub id: &'static str,
    pub description: &'static str,
    pub asymmetric_by_design: bool,
    pub width: usize,
    pub height: usize,
}

/// A resolution the suite is drawn at.
pub open spec fn valid_resolution(resolution: usize) -> bool {
    MIN_BENCHMARK_RESOLUTION <= resolution <= MAX_BENCHMARK_RESOLUTION
}

/// The resolution is outside 16..=2048.
#[derive(Clone, Copy, Debug, PartialEq, Eq, Structural)]
pub struct ResolutionOutOfRange {
    pub resolution: usize,
}

pub fn validate_resolution(resolution: usize) -> (r: Result<(), ResolutionOutOfRange>)
    ensures
        r is Ok <==> valid_resolution(resolution),
        r matches Err(e) ==> e.resolution == resolution,
{
    if !(MIN_BENCHMARK_RESOLUTION <= resolution && resolution <= MAX_BENCHMARK_RESOLUTION) {
        return Err(ResolutionOutOfRange { resolution });
    }
    Ok(())
}

/// `m` describes the target at `index` of a suite drawn at `resolution`.
pub open spec fn describes(m: BenchmarkTargetMetadata, index: int, resolution: usize) -> bool {
    let kind = spec_synthetic_targets()[index];
    &&& m.benchmark_version == BENCHMARK_VERSION
    &&& m.index == index
    &&& m.id@ == kind.spec_id()
    &&& m.description@ == kind.spec_description()
    &&& m.asymmetric_by_design
    &&& m.width == resolution
    &&& m.height == resolution
}

/// The metadata of the whole suite at `resolution`, in the suite's order.
pub fn suite_metadata(resolution: usize) -> (r: Result<Vec<BenchmarkTargetMetadata>, ResolutionOutOfRange>)
    ensures
        match r {
            Ok(v) => valid_resolution(resolution) && v@.len() == spec_synthetic_targets().len()
                && forall|i: int| 0 <= i < v@.len() ==> describes(#[trigger] v@[i], i, resolution),
            Err(e) => !valid_resolution(resolution) && e.resolution == resolution,
        },
{
    match validate_resolution(resolution) {
        Ok(()) => {},
        Err(e) => return Err(e),
    }
    let kinds = synthetic_targets();
    let mut out: Vec<BenchmarkTargetMetadata> = Vec::new();
    let mut i: usize = 0;
    while i < kinds.len()
        invariant
            kinds@ == spec_synthetic_targets(),
            valid_resolution(resolution),
            i <= kinds@.len(),
            out@.len() == i,
            forall|j: int| 0 <= j < i ==> describes(#[trigger] out@[j], j, resolution),
        decreases kinds@.len() - i,
    {
        let kind = kinds[i];
        out.push(
            BenchmarkTargetMetadata {
                benchmark_version: BENCHMARK_VERSION,
                index: i,
                id: kind.id(),
                description: kind.description(),
                asymmetric_by_design: true,
                width: resolution,
                height: resolution,
            },
        );
        i = i + 1;
    }
    Ok(out)
}

/// The suite holds the seven targets in their stable order, each under its
/// identifier and description.
pub proof fn lemma_suite_catalogue()
    ensures
        spec_synthetic_targets() == seq![
            SyntheticTargetKind::OffsetCircle,
            SyntheticTargetKind::OffsetSquare,
            SyntheticTargetKind::Diagonal,
            SyntheticTargetKind::BrokenGrid,
            SyntheticTargetKind::NestedShapes,
            SyntheticTargetKind::AsymmetricBlobs,
            SyntheticTargetKind::Branching,
        ],
        SyntheticTargetKind::OffsetCircle.spec_id() == "offset-circle"@,
        SyntheticTargetKind::OffsetSquare.spec_id() == "offset-square"@,
        SyntheticTargetKind::Diagonal.spec_id() == "diagonal"@,
        SyntheticTargetKind::BrokenGrid.spec_id() == "broken-grid"@,
        SyntheticTargetKind::NestedShapes.spec_id() == "nested-shapes"@,
        SyntheticTargetKind::AsymmetricBlobs.spec_id() == "asymmetric-blobs"@,
        SyntheticTargetKind::Branching.spec_id() == "branching"@,
        SyntheticTargetKind::OffsetCircle.spec_description() == "off-center circle with a small satellite"@,
        SyntheticTargetKind::OffsetSquare.spec_description() == "upper-right square with an asymmetric notch"@,
        SyntheticTargetKind::Diagonal.spec_description() == "rising diagonal with unequal endpoints"@,
        SyntheticTargetKind::BrokenGrid.spec_description() == "offset checker grid with missing cells"@,
        SyntheticTargetKind::NestedShapes.spec_description() == "non-concentric nested rectangle and ellipse"@,
        SyntheticTargetKind::AsymmetricBlobs.spec_description() == "unequal connected organic lobes"@,
        SyntheticTargetKind::Branching.spec_description() == "one-sided deterministic branching structure"@,
{
}

/// The suite is drawn at 16 through 2048 pixels, and nowhere else.
pub proof fn lemma_resolution_range(resolution: usize)
    ensures
        valid_resolution(resolution) <==> 16 <= resolution && resolution <= 2048,
{
}

} // verus!
