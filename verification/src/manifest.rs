//! The manifest's fixed stage surface.
//!
//! A build manifest must define seven named zero-argument functions, one per
//! pipeline stage. Validation of a compiled manifest checks that every
//! required stage function is present, so that a missing stage is reported at
//! compile time and no stage body ever runs.

use vstd::prelude::*;

verus! {

/// The seven named entry points a manifest must define, in pipeline order.
#[derive(PartialEq, Eq, Structural, Clone, Copy, Debug)]
pub enum Stage {
    Version,
    Conflicts,
    BoteDependencies,
    InstalledProgramDependencies,
    Prepare,
    Download,
    Install,
}

/// The function name a manifest uses for a stage.
pub open spec fn spec_stage_name(s: Stage) -> Seq<char> {
    match s {
        Stage::Version => "version"@,
        Stage::Conflicts => "conflicts"@,
        Stage::BoteDependencies => "bote_dependencies"@,
        Stage::InstalledProgramDependencies => "installed_program_dependencies"@,
        Stage::Prepare => "prepare"@,
        Stage::Download => "download"@,
        Stage::Install => "install"@,
    }
}

impl Stage {
    /// The function name a manifest uses for this stage.
    pub fn name(&self) -> (r: String)
        ensures
            r@ == spec_stage_name(*self),
    {
        match self {
            Stage::Version => String::from_str("version"),
            Stage::Conflicts => String::from_str("conflicts"),
            Stage::BoteDependencies => String::from_str("bote_dependencies"),
            Stage::InstalledProgramDependencies => String::from_str(
                "installed_program_dependencies",
            ),
            Stage::Prepare => String::from_str("prepare"),
            Stage::Download => String::from_str("download"),
            Stage::Install => String::from_str("install"),
        }
    }
}

/// The required stages, in pipeline order.
pub open spec fn spec_required_stages() -> Seq<Stage> {
    seq![
        Stage::Version,
        Stage::Conflicts,
        Stage::BoteDependencies,
        Stage::InstalledProgramDependencies,
        Stage::Prepare,
        Stage::Download,
        Stage::Install,
    ]
}

/// Returns the required stages, in pipeline order.
pub fn required_stages() -> (r: Vec<Stage>)
    ensures
        r@ == spec_required_stages(),
{
    let r = vec![
        Stage::Version,
        Stage::Conflicts,
        Stage::BoteDependencies,
        Stage::InstalledProgramDependencies,
        Stage::Prepare,
        Stage::Download,
        Stage::Install,
    ];
    proof {
        assert(r@ =~= spec_required_stages());
    }
    r
}

/// Whether a stage's function name occurs among the defined function names.
pub open spec fn spec_stage_defined(defined: Seq<Seq<char>>, s: Stage) -> bool {
    exists|i: int| 0 <= i < defined.len() && defined[i] == spec_stage_name(s)
}

/// The first stage, in pipeline order, whose function a manifest does not
/// define: `None` when all seven are present.
pub open spec fn spec_first_missing(stages: Seq<Stage>, defined: Seq<Seq<char>>) -> Option<Stage>
    decreases stages.len(),
{
    if stages.len() == 0 {
        Option::None
    } else if !spec_stage_defined(defined, stages[0]) {
        Option::Some(stages[0])
    } else {
        spec_first_missing(stages.drop_first(), defined)
    }
}

/// A checked prefix of present stages does not hold the first missing one.
proof fn lemma_first_missing_prefix(stages: Seq<Stage>, defined: Seq<Seq<char>>, k: int)
    requires
        0 <= k <= stages.len(),
        forall|j: int| 0 <= j < k ==> spec_stage_defined(defined, #[trigger] stages[j]),
    ensures
        spec_first_missing(stages, defined) == spec_first_missing(
            stages.subrange(k, stages.len() as int),
            defined,
        ),
    decreases k,
{
    if k == 0 {
        assert(stages.subrange(0, stages.len() as int) =~= stages);
    } else {
        lemma_first_missing_prefix(stages.drop_first(), defined, k - 1);
        assert(stages.drop_first().subrange(k - 1, stages.drop_first().len() as int) =~= stages
            .subrange(k, stages.len() as int));
    }
}

/// Whether a function name occurs among the defined function names.
fn name_defined(defined: &Vec<String>, name: &String) -> (b: bool)
    ensures
        b == exists|i: int| 0 <= i < defined.deep_view().len() && defined.deep_view()[i] == name@,
{
    let mut i: usize = 0;
    while i < defined.len()
        invariant
            0 <= i <= defined.len(),
            forall|j: int| 0 <= j < i ==> defined.deep_view()[j] != name@,
        decreases defined.len() - i,
    {
        if defined[i] == *name {
            proof {
                assert(defined.deep_view()[i as int] == name@);
            }
            return true;
        }
        i = i + 1;
    }
    false
}

/// Checks that a manifest defines every required stage function.
///
/// Succeeds exactly when all seven stage names occur among the defined
/// function names; otherwise reports the first missing stage in pipeline
/// order. This runs before any stage is called, so a manifest missing a stage
/// never executes anything.
pub fn check_required_stages(defined: &Vec<String>) -> (r: Result<(), Stage>)
    ensures
        r is Ok <==> spec_first_missing(spec_required_stages(), defined.deep_view()) is None,
        r matches Err(s) ==> Option::Some(s) == spec_first_missing(
            spec_required_stages(),
            defined.deep_view(),
        ),
{
    let stages = required_stages();
    let ghost sv = spec_required_stages();
    let ghost dv = defined.deep_view();
    let mut i: usize = 0;
    while i < stages.len()
        invariant
            0 <= i <= stages.len(),
            stages@ == sv,
            sv == spec_required_stages(),
            dv == defined.deep_view(),
            forall|j: int| 0 <= j < i ==> spec_stage_defined(dv, #[trigger] sv[j]),
        decreases stages.len() - i,
    {
        let ghost remaining = sv.subrange(i as int, sv.len() as int);
        proof {
            lemma_first_missing_prefix(sv, dv, i as int);
            assert(remaining[0] == sv[i as int]);
            assert(remaining.drop_first() =~= sv.subrange(i + 1, sv.len() as int));
        }
        let stage = stages[i];
        let name = stage.name();
        if !name_defined(defined, &name) {
            proof {
                assert(!spec_stage_defined(dv, sv[i as int]));
                assert(spec_first_missing(remaining, dv) == Option::Some(sv[i as int]));
            }
            return Err(stage);
        }
        i = i + 1;
    }
    proof {
        lemma_first_missing_prefix(sv, dv, sv.len() as int);
        assert(sv.subrange(sv.len() as int, sv.len() as int) =~= Seq::<Stage>::empty());
    }
    Ok(())
}

} // verus!
