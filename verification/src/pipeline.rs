//! The staged test pipeline. Each stage consumes the previous stage's value
//! and produces the next, so stages cannot run out of order: a `TestRunner`
//! plans builds and becomes a `ReadyPipeline` once fixtures are known; the
//! ready pipeline plans one run per unit and becomes a `RanPipeline` once
//! every outcome is in; the ran pipeline plans cleanup and yields the
//! summary. All commands the plans name are spawned by the embedding binary,
//! which reports plain results back.

use vstd::prelude::*;
use crate::command::CommandSpec;
use crate::errors::Error;
use crate::fixture::TestFixture;
use crate::orchestrator::BuildCache;
use crate::orchestrator::artifact_lookup;
use crate::orchestrator::artifact_path_spec;
use crate::pattern::glob_match;
use crate::pattern::glob_match_of;
use crate::pattern::glob_pattern_ok;
use crate::pattern::glob_pattern_valid;
use crate::platform::cannon_load_args;
use crate::platform::cannon_run_args;
use crate::program::ProgramHostInputs;
use crate::program::ProgramHostSource;
use crate::registry::BuildInstructions;
use crate::registry::FPRegistry;
use crate::registry::PlatformAndPrograms;
use crate::registry::PlatformKind;
use crate::registry::ProgramKind;
use crate::registry::TestConfig;
use crate::registry::idx_seq;
use crate::text::dec_rep;
use crate::text::hex_display;
use crate::text::path_join;

verus! {

/// The aggregate result of a run stage: how many units reproduced their
/// fixture's expected status, and how many did not.
#[derive(Clone, Copy, Debug, PartialEq, Eq, Structural)]
pub struct TestSummary {
    /// Units whose reported status equalled the expected status.
    pub passed: usize,
    /// Units whose reported status differed from the expected status.
    pub failed: usize,
}

/// One fixture found on disk: its directory name (the fixture's identity),
/// the directory path, and the parsed descriptor.
#[derive(Debug)]
pub struct DiscoveredFixture {
    /// The directory name, equal to the fixture's name.
    pub name: String,
    /// The path of the fixture directory.
    pub dir: String,
    /// The parsed fixture descriptor.
    pub fixture: TestFixture,
}

/// One scheduled execution: a fixture against a platform and a program, all
/// three as indices — into the discovered-fixture list and the registry.
/// Units are created once at setup and never mutated.
#[derive(Clone, Copy, Debug, PartialEq, Eq, Structural)]
pub struct RunnableTest {
    /// Index of the platform entry in the registry.
    pub platform: usize,
    /// Index of the program entry in the registry.
    pub program: usize,
    /// Index of the fixture in the discovered-fixture list.
    pub fixture: usize,
}

/// One build the setup stage must ensure: a program's component or a
/// platform's component, by registry index.
#[derive(Clone, Copy, Debug, PartialEq, Eq, Structural)]
pub enum BuildJob {
    /// Build the program entry at this registry index.
    Program {
        /// The registry index.
        index: usize,
    },
    /// Build the platform entry at this registry index.
    Platform {
        /// The registry index.
        index: usize,
    },
}

/// The build jobs one matrix entry contributes: its programs in order, then
/// the platform itself if it has build instructions.
pub open spec fn jobs_of_entry(reg: FPRegistry, e: PlatformAndPrograms) -> Seq<BuildJob> {
    e.programs@.map_values(|j: usize| BuildJob::Program { index: j }) + if e.platform
        < reg.platforms@.len() && reg.platforms@[e.platform as int].build is Some {
        seq![BuildJob::Platform { index: e.platform }]
    } else {
        Seq::empty()
    }
}

/// The build jobs of a whole matrix, entry by entry.
pub open spec fn build_jobs_spec(reg: FPRegistry, matrix: Seq<PlatformAndPrograms>) -> Seq<BuildJob>
    decreases matrix.len(),
{
    if matrix.len() == 0 {
        Seq::empty()
    } else {
        build_jobs_spec(reg, matrix.drop_last()) + jobs_of_entry(reg, matrix.last())
    }
}

/// Every index a matrix holds is a valid index into the registry.
pub open spec fn matrix_in_bounds(reg: FPRegistry, m: Seq<PlatformAndPrograms>) -> bool {
    &&& forall|k: int| 0 <= k < m.len() ==> (#[trigger] m[k]).platform < reg.platforms@.len()
    &&& forall|k: int, t: int|
        0 <= k < m.len() && 0 <= t < m[k].programs@.len() ==> (#[trigger] m[k].programs@[t])
            < reg.programs@.len()
}

/// The initialized pipeline: a selection and a resolved matrix, before any
/// build or fixture discovery.
#[derive(Debug)]
pub struct TestRunner {
    /// The selection driving this invocation.
    pub cfg: TestConfig,
    /// The resolved compatibility matrix.
    pub matrix: Vec<PlatformAndPrograms>,
}

impl TestRunner {
    /// A pipeline over a selection and a resolved matrix.
    pub fn new(cfg: TestConfig, matrix: Vec<PlatformAndPrograms>) -> (r: Self)
        ensures
            r.cfg == cfg,
            r.matrix == matrix,
    {
        TestRunner { cfg, matrix }
    }

    /// Plans the builds of every component the matrix needs: for each entry,
    /// its admissible programs in order, then the platform itself where it
    /// has build instructions. Independent of any on-disk state.
    pub fn build_jobs(&self, reg: &FPRegistry) -> (r: Vec<BuildJob>)
        requires
            matrix_in_bounds(*reg, self.matrix@),
        ensures
            r@ == build_jobs_spec(*reg, self.matrix@),
    {
        let mut jobs: Vec<BuildJob> = Vec::new();
        let n = self.matrix.len();
        let mut k: usize = 0;
        proof {
            assert(self.matrix@.take(0) =~= Seq::<PlatformAndPrograms>::empty());
        }
        while k < n
            invariant
                k <= n,
                n == self.matrix@.len(),
                matrix_in_bounds(*reg, self.matrix@),
                jobs@ == build_jobs_spec(*reg, self.matrix@.take(k as int)),
            decreases n - k,
        {
            let entry = &self.matrix[k];
            let ghost before = jobs@;
            let m = entry.programs.len();
            let mut t: usize = 0;
            proof {
                assert(entry.programs@.take(0) =~= Seq::<usize>::empty());
                assert(before + entry.programs@.take(0).map_values(
                    |j: usize| BuildJob::Program { index: j },
                ) =~= before);
            }
            while t < m
                invariant
                    t <= m,
                    m == entry.programs@.len(),
                    jobs@ == before + entry.programs@.take(t as int).map_values(
                        |j: usize| BuildJob::Program { index: j },
                    ),
                decreases m - t,
            {
                jobs.push(BuildJob::Program { index: entry.programs[t] });
                proof {
                    assert(entry.programs@.take(t as int + 1) =~= entry.programs@.take(
                        t as int,
                    ).push(entry.programs@[t as int]));
                    assert(entry.programs@.take(t as int).push(
                        entry.programs@[t as int],
                    ).map_values(|j: usize| BuildJob::Program { index: j })
                        =~= entry.programs@.take(t as int).map_values(
                        |j: usize| BuildJob::Program { index: j },
                    ).push(BuildJob::Program { index: entry.programs@[t as int] }));
                    assert(jobs@ =~= before + entry.programs@.take(t as int + 1).map_values(
                        |j: usize| BuildJob::Program { index: j },
                    ));
                }
                t = t + 1;
            }
            proof {
                assert(entry.programs@.take(m as int) =~= entry.programs@);
            }
            let has_build = match &reg.platforms[entry.platform].build {
                Some(_) => true,
                None => false,
            };
            if has_build {
                jobs.push(BuildJob::Platform { index: entry.platform });
            }
            proof {
                assert(jobs@ =~= before + jobs_of_entry(*reg, self.matrix@[k as int]));
                assert(self.matrix@.take(k as int + 1).drop_last() =~= self.matrix@.take(k as int));
                assert(self.matrix@.take(k as int + 1).last() == self.matrix@[k as int]);
                assert(jobs@ =~= build_jobs_spec(*reg, self.matrix@.take(k as int + 1)));
            }
            k = k + 1;
        }
        proof {
            assert(self.matrix@.take(n as int) =~= self.matrix@);
        }
        jobs
    }
}

/// Whether a selection keeps a discovered fixture: kept unless a name glob
/// is given and the fixture's name does not match it.
pub open spec fn fixture_kept(cfg: TestConfig, fixtures: Seq<DiscoveredFixture>, i: int) -> bool {
    match cfg.test {
        None => true,
        Some(p) => glob_match_of(p@, fixtures[i].name@),
    }
}

/// The keep predicate over fixture indices.
pub open spec fn kept_pred(cfg: TestConfig, fixtures: Seq<DiscoveredFixture>) -> spec_fn(
    usize,
) -> bool {
    |i: usize| fixture_kept(cfg, fixtures, i as int)
}

/// The indices of the fixtures a selection keeps, in discovery order.
pub open spec fn kept_idxs(cfg: TestConfig, fixtures: Seq<DiscoveredFixture>) -> Seq<usize> {
    idx_seq(fixtures.len()).filter(kept_pred(cfg, fixtures))
}

/// The units of one (platform, program) pair: one per kept fixture.
pub open spec fn units_of_prog(platform: usize, program: usize, kept: Seq<usize>) -> Seq<
    RunnableTest,
> {
    kept.map_values(|f: usize| RunnableTest { platform, program, fixture: f })
}

/// The units of one matrix entry: its programs in order, each crossed with
/// every kept fixture.
pub open spec fn units_of_programs(platform: usize, programs: Seq<usize>, kept: Seq<usize>) -> Seq<
    RunnableTest,
>
    decreases programs.len(),
{
    if programs.len() == 0 {
        Seq::empty()
    } else {
        units_of_programs(platform, programs.drop_last(), kept) + units_of_prog(
            platform,
            programs.last(),
            kept,
        )
    }
}

/// The full unit set: the cross-product of the matrix — entry by entry,
/// program by program — with the kept fixtures.
pub open spec fn units_spec(matrix: Seq<PlatformAndPrograms>, kept: Seq<usize>) -> Seq<RunnableTest>
    decreases matrix.len(),
{
    if matrix.len() == 0 {
        Seq::empty()
    } else {
        units_spec(matrix.drop_last(), kept) + units_of_programs(
            matrix.last().platform,
            matrix.last().programs@,
            kept,
        )
    }
}

/// The number of (platform, program) pairs a matrix holds.
pub open spec fn total_programs(matrix: Seq<PlatformAndPrograms>) -> int
    decreases matrix.len(),
{
    if matrix.len() == 0 {
        0
    } else {
        total_programs(matrix.drop_last()) + matrix.last().programs@.len()
    }
}

proof fn lemma_units_of_programs_len(platform: usize, programs: Seq<usize>, kept: Seq<usize>)
    ensures
        units_of_programs(platform, programs, kept).len() == programs.len() * kept.len(),
    decreases programs.len(),
{
    if programs.len() == 0 {
        assert(0 * kept.len() == 0) by (nonlinear_arith);
    } else {
        lemma_units_of_programs_len(platform, programs.drop_last(), kept);
        assert((programs.len() - 1) * kept.len() + kept.len() == programs.len() * kept.len())
            by (nonlinear_arith);
    }
}

/// Law: the unit set is the full cross-product of the resolved matrix with
/// the kept fixtures — one unit per (platform, program) pair per kept
/// fixture, no more and no fewer.
pub proof fn lemma_units_are_full_cross_product(
    matrix: Seq<PlatformAndPrograms>,
    kept: Seq<usize>,
)
    ensures
        units_spec(matrix, kept).len() == total_programs(matrix) * kept.len(),
    decreases matrix.len(),
{
    if matrix.len() == 0 {
        assert(0 * kept.len() == 0) by (nonlinear_arith);
    } else {
        lemma_units_are_full_cross_product(matrix.drop_last(), kept);
        lemma_units_of_programs_len(matrix.last().platform, matrix.last().programs@, kept);
        let a = total_programs(matrix.drop_last());
        let b = matrix.last().programs@.len() as int;
        let k = kept.len() as int;
        assert(a * k + b * k == (a + b) * k) by (nonlinear_arith);
    }
}

/// Discovered fixtures are identified by their on-disk directory: no two
/// hold the same one. True of any discovery that lists one directory once.
pub open spec fn fixtures_dirs_distinct(fixtures: Seq<DiscoveredFixture>) -> bool {
    forall|a: int, b: int|
        #![trigger fixtures[a], fixtures[b]]
        0 <= a < b < fixtures.len() ==> fixtures[a].dir@ != fixtures[b].dir@
}

/// The ready pipeline: fixtures are discovered and filtered, the unit set is
/// formed, and nothing has run yet.
#[derive(Debug)]
pub struct ReadyPipeline {
    /// The selection driving this invocation.
    pub cfg: TestConfig,
    /// Every discovered fixture, in discovery order.
    pub fixtures: Vec<DiscoveredFixture>,
    /// The scheduled units; their fixture indices point into `fixtures`.
    pub units: Vec<RunnableTest>,
}

impl ReadyPipeline {
    /// Every unit's fixture index is in range, and fixtures are uniquely
    /// identified by their directory.
    pub open spec fn wf(&self) -> bool {
        &&& forall|k: int|
            0 <= k < self.units@.len() ==> (#[trigger] self.units@[k]).fixture
                < self.fixtures@.len()
        &&& fixtures_dirs_distinct(self.fixtures@)
    }
}

impl TestRunner {
    /// Forms the unit set from the discovered fixtures and becomes the ready
    /// pipeline: fixtures are filtered by the selection's name glob, and the
    /// matrix is crossed — entry by entry, program by program — with the
    /// kept fixtures. Compatibility was already enforced by matrix
    /// resolution, so no further filtering happens here. An invalid glob
    /// pattern is rejected before anything else.
    pub fn into_ready(self, fixtures: Vec<DiscoveredFixture>) -> (r: Result<ReadyPipeline, Error>)
        requires
            fixtures_dirs_distinct(fixtures@),
        ensures
            (match self.cfg.test {
                Some(p) => !glob_pattern_ok(p@),
                None => false,
            }) ==> (r matches Err(Error::InvalidGlob { pattern }) && (
            self.cfg.test matches Some(p) && pattern@ == p@)),
            (match self.cfg.test {
                Some(p) => glob_pattern_ok(p@),
                None => true,
            }) ==> (r matches Ok(ready) && ready.cfg == self.cfg && ready.fixtures == fixtures
                && ready.units@ == units_spec(self.matrix@, kept_idxs(self.cfg, fixtures@))
                && ready.wf()),
    {
        let ghost cfgv = self.cfg;
        match &self.cfg.test {
            Some(p) => {
                if !glob_pattern_valid(p.as_str()) {
                    return Err(Error::InvalidGlob { pattern: String::from_str(p.as_str()) });
                }
            },
            None => {},
        }
        let nfix = fixtures.len();
        let mut kept: Vec<usize> = Vec::new();
        let mut i: usize = 0;
        proof {
            assert(idx_seq(0) =~= Seq::<usize>::empty());
        }
        while i < nfix
            invariant
                i <= nfix,
                nfix == fixtures@.len(),
                cfgv == self.cfg,
                match self.cfg.test {
                    Some(p) => glob_pattern_ok(p@),
                    None => true,
                },
                kept@ == idx_seq(i as nat).filter(kept_pred(cfgv, fixtures@)),
                forall|t: int| 0 <= t < kept@.len() ==> #[trigger] kept@[t] < nfix,
            decreases nfix - i,
        {
            let keep = match &self.cfg.test {
                None => true,
                Some(p) => match glob_match(p.as_str(), fixtures[i].name.as_str()) {
                    Some(b) => b,
                    None => unreached(),
                },
            };
            proof {
                assert(keep == kept_pred(cfgv, fixtures@)(i));
                assert(idx_seq(i as nat + 1) =~= idx_seq(i as nat).push(i));
                crate::registry::lemma_filter_push(
                    idx_seq(i as nat),
                    kept_pred(cfgv, fixtures@),
                    i,
                );
            }
            if keep {
                kept.push(i);
            }
            i = i + 1;
        }
        let mut units: Vec<RunnableTest> = Vec::new();
        let n = self.matrix.len();
        let mut k: usize = 0;
        proof {
            assert(self.matrix@.take(0) =~= Seq::<PlatformAndPrograms>::empty());
        }
        while k < n
            invariant
                k <= n,
                n == self.matrix@.len(),
                kept@ == kept_idxs(cfgv, fixtures@),
                forall|t: int| 0 <= t < kept@.len() ==> #[trigger] kept@[t] < fixtures@.len(),
                units@ == units_spec(self.matrix@.take(k as int), kept@),
                forall|t: int|
                    0 <= t < units@.len() ==> (#[trigger] units@[t]).fixture < fixtures@.len(),
            decreases n - k,
        {
            let entry = &self.matrix[k];
            let ghost before_entry = units@;
            let m = entry.programs.len();
            let mut t: usize = 0;
            proof {
                assert(entry.programs@.take(0) =~= Seq::<usize>::empty());
            }
            while t < m
                invariant
                    t <= m,
                    m == entry.programs@.len(),
                    kept@ == kept_idxs(cfgv, fixtures@),
                    forall|w: int| 0 <= w < kept@.len() ==> #[trigger] kept@[w] < fixtures@.len(),
                    units@ == before_entry + units_of_programs(
                        entry.platform,
                        entry.programs@.take(t as int),
                        kept@,
                    ),
                    forall|w: int|
                        0 <= w < units@.len() ==> (#[trigger] units@[w]).fixture < fixtures@.len(),
                decreases m - t,
            {
                let program = entry.programs[t];
                let ghost before_prog = units@;
                let nk = kept.len();
                let mut f: usize = 0;
                proof {
                    assert(kept@.take(0) =~= Seq::<usize>::empty());
                    assert(units_of_prog(entry.platform, program, kept@.take(0))
                        =~= Seq::<RunnableTest>::empty());
                }
                while f < nk
                    invariant
                        f <= nk,
                        nk == kept@.len(),
                        forall|w: int| 0 <= w < kept@.len() ==> #[trigger] kept@[w] < fixtures@.len(),
                        units@ == before_prog + units_of_prog(
                            entry.platform,
                            program,
                            kept@.take(f as int),
                        ),
                        forall|w: int|
                            0 <= w < units@.len() ==> (#[trigger] units@[w]).fixture
                                < fixtures@.len(),
                    decreases nk - f,
                {
                    units.push(
                        RunnableTest { platform: entry.platform, program, fixture: kept[f] },
                    );
                    proof {
                        assert(kept@.take(f as int + 1) =~= kept@.take(f as int).push(
                            kept@[f as int],
                        ));
                        assert(units_of_prog(entry.platform, program, kept@.take(f as int + 1))
                            =~= units_of_prog(entry.platform, program, kept@.take(f as int)).push(
                            RunnableTest {
                                platform: entry.platform,
                                program,
                                fixture: kept@[f as int],
                            },
                        ));
                        assert(units@ =~= before_prog + units_of_prog(
                            entry.platform,
                            program,
                            kept@.take(f as int + 1),
                        ));
                    }
                    f = f + 1;
                }
                proof {
                    assert(kept@.take(nk as int) =~= kept@);
                    assert(entry.programs@.take(t as int + 1).drop_last() =~= entry.programs@.take(
                        t as int,
                    ));
                    assert(entry.programs@.take(t as int + 1).last() == entry.programs@[t as int]);
                    assert(units@ =~= before_entry + units_of_programs(
                        entry.platform,
                        entry.programs@.take(t as int + 1),
                        kept@,
                    ));
                }
                t = t + 1;
            }
            proof {
                assert(entry.programs@.take(m as int) =~= entry.programs@);
                assert(self.matrix@.take(k as int + 1).drop_last() =~= self.matrix@.take(k as int));
                assert(self.matrix@.take(k as int + 1).last() == self.matrix@[k as int]);
                assert(units@ =~= units_spec(self.matrix@.take(k as int + 1), kept@));
            }
            k = k + 1;
        }
        proof {
            assert(self.matrix@.take(n as int) =~= self.matrix@);
        }
        Ok(ReadyPipeline { cfg: self.cfg, fixtures, units })
    }
}

/// The first occurrence of each value of a sequence, in order of first
/// appearance.
pub open spec fn distinct_spec(s: Seq<usize>) -> Seq<usize>
    decreases s.len(),
{
    if s.len() == 0 {
        Seq::empty()
    } else {
        let d = distinct_spec(s.drop_last());
        if d.contains(s.last()) {
            d
        } else {
            d.push(s.last())
        }
    }
}

/// Law: de-duplication is exact — the schedule derived from the unit set
/// holds every fixture some unit references, and holds none of them twice.
/// This is what makes decompression and cleanup run exactly once per
/// distinct fixture, however many units share it.
pub proof fn lemma_distinct_exact(s: Seq<usize>)
    ensures
        forall|x: usize| #[trigger] distinct_spec(s).contains(x) <==> s.contains(x),
        forall|i: int, j: int|
            0 <= i < j < distinct_spec(s).len() ==> distinct_spec(s)[i] != distinct_spec(s)[j],
    decreases s.len(),
{
    if s.len() == 0 {
    } else {
        let pre = s.drop_last();
        let d = distinct_spec(pre);
        lemma_distinct_exact(pre);
        assert forall|x: usize| #[trigger] distinct_spec(s).contains(x) <==> s.contains(x) by {
            if distinct_spec(s).contains(x) {
                if d.contains(x) {
                    let w = choose|w: int| 0 <= w < pre.len() && pre[w] == x;
                    assert(s[w] == x);
                } else {
                    assert(x == s.last());
                    assert(s[s.len() - 1] == x);
                }
            }
            if s.contains(x) {
                let w = choose|w: int| 0 <= w < s.len() && s[w] == x;
                if w < s.len() - 1 {
                    assert(pre[w] == x);
                    assert(d.contains(x));
                    if !d.contains(s.last()) {
                        let v = choose|v: int| 0 <= v < d.len() && d[v] == x;
                        assert(distinct_spec(s)[v] == x);
                    }
                } else {
                    assert(x == s.last());
                    if d.contains(x) {
                    } else {
                        assert(distinct_spec(s).last() == x);
                    }
                }
            }
        }
    }
}

/// The fixture index of each unit, in schedule order.
pub open spec fn unit_fixtures(units: Seq<RunnableTest>) -> Seq<usize> {
    units.map_values(|u: RunnableTest| u.fixture)
}

/// The directories of a list of fixture indices.
pub open spec fn dirs_of(fixtures: Seq<DiscoveredFixture>, idxs: Seq<usize>) -> Seq<Seq<char>> {
    idxs.map_values(|i: usize| fixtures[i as int].dir@)
}

/// The directory of each distinct fixture a unit set references, keyed by
/// the fixture's identity, first occurrence first.
pub open spec fn distinct_dirs_spec(
    fixtures: Seq<DiscoveredFixture>,
    units: Seq<RunnableTest>,
) -> Seq<Seq<char>> {
    dirs_of(fixtures, distinct_spec(unit_fixtures(units)))
}

/// Whether a list holds an index.
fn contains_usize(v: &Vec<usize>, x: usize) -> (r: bool)
    ensures
        r == v@.contains(x),
{
    let mut i: usize = 0;
    while i < v.len()
        invariant
            i <= v@.len(),
            forall|t: int| 0 <= t < i ==> v@[t] != x,
        decreases v@.len() - i,
    {
        if v[i] == x {
            return true;
        }
        i = i + 1;
    }
    false
}

/// Collects the distinct fixture indices of a unit set, first occurrence
/// first.
fn distinct_fixtures(units: &Vec<RunnableTest>) -> (r: Vec<usize>)
    ensures
        r@ == distinct_spec(unit_fixtures(units@)),
{
    let ghost m = unit_fixtures(units@);
    let mut out: Vec<usize> = Vec::new();
    let mut i: usize = 0;
    proof {
        assert(m.take(0) =~= Seq::<usize>::empty());
    }
    while i < units.len()
        invariant
            i <= units@.len(),
            m == unit_fixtures(units@),
            out@ == distinct_spec(m.take(i as int)),
        decreases units@.len() - i,
    {
        let x = units[i].fixture;
        proof {
            assert(m.take(i as int + 1).drop_last() =~= m.take(i as int));
            assert(m.take(i as int + 1).last() == m[i as int]);
            assert(m[i as int] == x);
        }
        if !contains_usize(&out, x) {
            out.push(x);
        }
        i = i + 1;
    }
    proof {
        assert(m.take(units@.len() as int) =~= m);
    }
    out
}

/// Maps distinct fixture indices of a unit set to their directories.
fn collect_distinct_dirs(fixtures: &Vec<DiscoveredFixture>, units: &Vec<RunnableTest>) -> (r: Vec<
    String,
>)
    requires
        forall|k: int|
            0 <= k < units@.len() ==> (#[trigger] units@[k]).fixture < fixtures@.len(),
    ensures
        r.deep_view() == distinct_dirs_spec(fixtures@, units@),
{
    let idxs = distinct_fixtures(units);
    proof {
        lemma_distinct_exact(unit_fixtures(units@));
    }
    let mut out: Vec<String> = Vec::new();
    let mut t: usize = 0;
    while t < idxs.len()
        invariant
            t <= idxs@.len(),
            idxs@ == distinct_spec(unit_fixtures(units@)),
            forall|k: int|
                0 <= k < units@.len() ==> (#[trigger] units@[k]).fixture < fixtures@.len(),
            forall|x: usize| #[trigger]
                distinct_spec(unit_fixtures(units@)).contains(x) <==> unit_fixtures(
                    units@,
                ).contains(x),
            out.deep_view() == dirs_of(fixtures@, idxs@.take(t as int)),
        decreases idxs@.len() - t,
    {
        let x = idxs[t];
        proof {
            assert(idxs@.contains(x));
            assert(unit_fixtures(units@).contains(x));
            let w = choose|w: int|
                0 <= w < unit_fixtures(units@).len() && unit_fixtures(units@)[w] == x;
            assert(units@[w].fixture == x);
        }
        let ghost prev = out.deep_view();
        out.push(String::from_str(fixtures[x].dir.as_str()));
        proof {
            assert(idxs@.take(t as int + 1) =~= idxs@.take(t as int).push(x));
            assert(out.deep_view() =~= prev.push(fixtures@[x as int].dir@));
            assert(out.deep_view() =~= dirs_of(fixtures@, idxs@.take(t as int + 1)));
        }
        t = t + 1;
    }
    proof {
        assert(idxs@.take(idxs@.len() as int) =~= idxs@);
    }
    out
}

/// The two commands that unpack one fixture's compressed artifacts inside
/// its directory: the chain-genesis file, then the witness archive.
pub fn decompress_commands(dir: &str) -> (r: Vec<CommandSpec>)
    ensures
        r@.len() == 2,
        r@[0].program@ == "zstd"@,
        r@[0].args.deep_view() == seq!["-d"@, crate::text::path_join(dir@, "genesis.json.zst"@)],
        r@[0].cwd matches Some(d) && d@ == dir@,
        r@[1].program@ == "tar"@,
        r@[1].args.deep_view() == seq![
            "--zstd"@,
            "-xvf"@,
            crate::text::path_join(dir@, "witness-db.tar.zst"@),
        ],
        r@[1].cwd matches Some(d) && d@ == dir@,
{
    let mut zstd_args: Vec<String> = Vec::new();
    zstd_args.push(String::from_str("-d"));
    zstd_args.push(crate::text::join_path(dir, "genesis.json.zst"));
    proof {
        assert(zstd_args.deep_view() =~= seq![
            "-d"@,
            crate::text::path_join(dir@, "genesis.json.zst"@),
        ]);
    }
    let mut tar_args: Vec<String> = Vec::new();
    tar_args.push(String::from_str("--zstd"));
    tar_args.push(String::from_str("-xvf"));
    tar_args.push(crate::text::join_path(dir, "witness-db.tar.zst"));
    proof {
        assert(tar_args.deep_view() =~= seq![
            "--zstd"@,
            "-xvf"@,
            crate::text::path_join(dir@, "witness-db.tar.zst"@),
        ]);
    }
    let mut r: Vec<CommandSpec> = Vec::new();
    r.push(
        CommandSpec {
            program: String::from_str("zstd"),
            args: zstd_args,
            cwd: Some(String::from_str(dir)),
        },
    );
    r.push(
        CommandSpec {
            program: String::from_str("tar"),
            args: tar_args,
            cwd: Some(String::from_str(dir)),
        },
    );
    r
}

/// Records the outcome of one fixture's decompression: either every planned
/// command succeeded, or the failing position attributes the failure to the
/// fixture's directory — a distinct error class, fatal to setup.
pub fn complete_decompression(dir: &str, failed_step: Option<usize>) -> (r: Result<(), Error>)
    ensures
        failed_step is None ==> r == Ok::<(), Error>(()),
        failed_step matches Some(k) ==> (r matches Err(Error::DecompressFailed { dir: d, step })
            && d@ == dir@ && step == k),
{
    match failed_step {
        None => Ok(()),
        Some(k) => Err(Error::DecompressFailed { dir: String::from_str(dir), step: k }),
    }
}

/// Records the outcome of one fixture's cleanup: success, or an error that
/// attributes the failed deletion to the fixture's directory.
pub fn complete_cleanup(dir: &str, removed: bool) -> (r: Result<(), Error>)
    ensures
        removed ==> r == Ok::<(), Error>(()),
        !removed ==> (r matches Err(Error::CleanupFailed { dir: d }) && d@ == dir@),
{
    if removed {
        Ok(())
    } else {
        Err(Error::CleanupFailed { dir: String::from_str(dir) })
    }
}

/// The decompressed files teardown removes from one fixture directory: the
/// plaintext genesis file and the witness directory. The compressed archives
/// beside them are preserved for future runs.
pub fn cleanup_paths(dir: &str) -> (r: (String, String))
    ensures
        r.0@ == crate::text::path_join(dir@, "genesis.json"@),
        r.1@ == crate::text::path_join(dir@, "witness-db"@),
{
    (crate::text::join_path(dir, "genesis.json"), crate::text::join_path(dir, "witness-db"))
}

/// Law: over distinct fixture directories, the schedule is exact at the
/// directory level — the fixture's on-disk identity: it holds the directory
/// of every fixture some unit references, and holds no directory twice.
pub proof fn lemma_schedule_exact_dirs(fixtures: Seq<DiscoveredFixture>, units: Seq<RunnableTest>)
    requires
        forall|k: int| 0 <= k < units.len() ==> (#[trigger] units[k]).fixture < fixtures.len(),
        fixtures_dirs_distinct(fixtures),
    ensures
        forall|a: int, b: int|
            #![trigger distinct_dirs_spec(fixtures, units)[a], distinct_dirs_spec(fixtures, units)[b]]
            0 <= a < b < distinct_dirs_spec(fixtures, units).len() ==> distinct_dirs_spec(
                fixtures,
                units,
            )[a] != distinct_dirs_spec(fixtures, units)[b],
        forall|k: int|
            0 <= k < units.len() ==> distinct_dirs_spec(fixtures, units).contains(
                fixtures[(#[trigger] units[k]).fixture as int].dir@,
            ),
{
    let m = unit_fixtures(units);
    lemma_distinct_exact(m);
    let d = distinct_spec(m);
    let dirs = distinct_dirs_spec(fixtures, units);
    assert forall|t: int| 0 <= t < d.len() implies #[trigger] d[t] < fixtures.len() by {
        assert(d.contains(d[t]));
        assert(m.contains(d[t]));
        let w = choose|w: int| 0 <= w < m.len() && m[w] == d[t];
        assert(units[w].fixture == d[t]);
    }
    assert forall|a: int, b: int| 0 <= a < b < dirs.len() implies dirs[a] != dirs[b] by {
        assert(d[a] != d[b]);
        if d[a] < d[b] {
            assert(fixtures[d[a] as int].dir@ != fixtures[d[b] as int].dir@);
        } else {
            assert(fixtures[d[b] as int].dir@ != fixtures[d[a] as int].dir@);
        }
        assert(dirs[a] == fixtures[d[a] as int].dir@);
        assert(dirs[b] == fixtures[d[b] as int].dir@);
    }
    assert forall|k: int| 0 <= k < units.len() implies dirs.contains(
        fixtures[(#[trigger] units[k]).fixture as int].dir@,
    ) by {
        assert(m[k] == units[k].fixture);
        assert(m.contains(units[k].fixture));
        assert(d.contains(units[k].fixture));
        let v = choose|v: int| 0 <= v < d.len() && d[v] == units[k].fixture;
        assert(dirs[v] == fixtures[units[k].fixture as int].dir@);
        assert(dirs.contains(dirs[v]));
    }
}

/// Whether a named artifact of a component is resolvable: the component is
/// recorded built and the name is in its artifact map.
pub open spec fn artifact_ok(cache: BuildCache, instr: BuildInstructions, name: Seq<char>) -> bool {
    cache.is_built_spec(instr.repo@) && artifact_lookup(instr.artifacts@, name) is Some
}

/// The absolute path a named artifact resolves to.
pub open spec fn resolved_artifact(
    cache: BuildCache,
    instr: BuildInstructions,
    name: Seq<char>,
) -> Seq<char> {
    artifact_path_spec(
        cache.root@,
        instr.repo@,
        instr.workdir@,
        artifact_lookup(instr.artifacts@, name)->0,
    )
}

/// Whether a program kind's host runs in server mode: the kinds that run as
/// VM guest images do, the native kind runs to completion.
pub open spec fn server_mode_of(k: ProgramKind) -> bool {
    k == ProgramKind::OpProgramMips || k == ProgramKind::OpProgramRiscv
}

/// The exact host argument vector of one unit: the resolved host binary, the
/// fixture's recorded inputs, the configuration paths inside the fixture
/// directory, and the fixture's witness directory as the disk data source.
pub open spec fn unit_host_args(fx: DiscoveredFixture, host_bin: Seq<char>, server: bool) -> Seq<
    Seq<char>,
> {
    let fi = fx.fixture.inputs;
    let base = seq![
        host_bin,
        "--l1.head"@,
        hex_display(fi.l1_head.bytes@),
        "--l2.head"@,
        hex_display(fi.l2_head.bytes@),
        "--l2.outputroot"@,
        hex_display(fi.l2_output_root.bytes@),
        "--l2.claim"@,
        hex_display(fi.l2_claim.bytes@),
        "--l2.blocknumber"@,
        dec_rep(fi.l2_block_number as nat),
        "--l2.chainid"@,
        dec_rep(fi.l2_chain_id as nat),
        "--rollup.config"@,
        path_join(fx.dir@, "rollup.json"@),
        "--l2.genesis"@,
        path_join(fx.dir@, "genesis.json"@),
    ];
    let with_server = if server {
        base + seq!["--server"@]
    } else {
        base
    };
    with_server + seq!["--datadir"@, path_join(fx.dir@, "witness-db"@)]
}

/// The resolved execution plan of one unit: an optional load step, the run
/// step, the platform kind that interprets the run's termination, and the
/// status the fixture expects.
#[derive(Debug)]
pub struct UnitPlan {
    /// The platform kind, deciding how the outcome is read.
    pub kind: PlatformKind,
    /// The load step, absent on the native platform.
    pub load: Option<CommandSpec>,
    /// The run step.
    pub run: CommandSpec,
    /// The exit status the fixture expects.
    pub expected: u8,
}

/// Everything a unit needs to run: both artifacts of its program resolve,
/// the platform's artifact resolves where the platform is built, the VM
/// platform has build instructions at all, and neither the program kind nor
/// the platform kind is reserved.
pub open spec fn unit_prepare_ok(
    fixtures: Seq<DiscoveredFixture>,
    units: Seq<RunnableTest>,
    i: int,
    reg: FPRegistry,
    cache: BuildCache,
) -> bool {
    let u = units[i];
    let pe = reg.programs@[u.program as int];
    let ple = reg.platforms@[u.platform as int];
    &&& artifact_ok(cache, pe.build, "client"@)
    &&& match ple.build {
        Some(b) => artifact_ok(cache, b, "vm"@),
        None => true,
    }
    &&& !(ple.kind == PlatformKind::Cannon && ple.build is None)
    &&& artifact_ok(cache, pe.build, "host"@)
    &&& !(pe.kind == ProgramKind::KonaNative || pe.kind == ProgramKind::KonaRiscv)
    &&& ple.kind != PlatformKind::Asterisc
}

/// What a successfully prepared unit plan holds, per platform kind.
pub open spec fn unit_plan_ok(
    fixtures: Seq<DiscoveredFixture>,
    units: Seq<RunnableTest>,
    i: int,
    reg: FPRegistry,
    cache: BuildCache,
    workdir: Seq<char>,
    plan: UnitPlan,
) -> bool {
    let u = units[i];
    let fx = fixtures[u.fixture as int];
    let pe = reg.programs@[u.program as int];
    let ple = reg.platforms@[u.platform as int];
    let host_args = unit_host_args(
        fx,
        resolved_artifact(cache, pe.build, "host"@),
        server_mode_of(pe.kind),
    );
    &&& plan.kind == ple.kind
    &&& plan.expected == fx.fixture.metadata.expected_status
    &&& match ple.kind {
        PlatformKind::Native => {
            &&& plan.load is None
            &&& plan.run.program@ == host_args[0]
            &&& plan.run.args.deep_view() == host_args.skip(1)
            &&& (plan.run.cwd matches Some(d) && d@ == workdir)
        },
        PlatformKind::Cannon => {
            let vm = resolved_artifact(cache, ple.build->0, "vm"@);
            let client = resolved_artifact(cache, pe.build, "client"@);
            &&& (plan.load matches Some(lc) && lc.program@ == vm && lc.args.deep_view()
                == cannon_load_args(client, workdir) && lc.cwd is None)
            &&& plan.run.program@ == vm
            &&& plan.run.args.deep_view() == cannon_run_args(host_args)
            &&& (plan.run.cwd matches Some(d) && d@ == workdir)
        },
        PlatformKind::Asterisc => false,
    }
}

impl ReadyPipeline {
    /// The number of scheduled units.
    pub fn unit_count(&self) -> (r: usize)
        ensures
            r == self.units@.len(),
    {
        self.units.len()
    }

    /// One scheduled unit, by position.
    pub fn unit(&self, i: usize) -> (r: RunnableTest)
        requires
            i < self.units@.len(),
        ensures
            r == self.units@[i as int],
    {
        self.units[i]
    }

    /// The directory of each distinct fixture the unit set references —
    /// exactly once per fixture identity, however many units share it. These
    /// are the directories whose archives setup decompresses, under the
    /// bounded worker pool.
    pub fn decompress_dirs(&self) -> (r: Vec<String>)
        requires
            self.wf(),
        ensures
            r.deep_view() == distinct_dirs_spec(self.fixtures@, self.units@),
            forall|a: int, b: int|
                #![trigger r.deep_view()[a], r.deep_view()[b]]
                0 <= a < b < r.deep_view().len() ==> r.deep_view()[a] != r.deep_view()[b],
            forall|k: int|
                0 <= k < self.units@.len() ==> r.deep_view().contains(
                    self.fixtures@[(#[trigger] self.units@[k]).fixture as int].dir@,
                ),
    {
        proof {
            lemma_schedule_exact_dirs(self.fixtures@, self.units@);
        }
        collect_distinct_dirs(&self.fixtures, &self.units)
    }

    /// The host inputs of one unit: the fixture's recorded inputs, the
    /// configuration paths inside the fixture directory, and the fixture's
    /// witness directory as the disk data source.
    pub fn unit_host_inputs(&self, i: usize) -> (r: ProgramHostInputs)
        requires
            self.wf(),
            i < self.units@.len(),
        ensures
            ({
                let fx = self.fixtures@[self.units@[i as int].fixture as int];
                &&& r.fixture_inputs.l1_head.bytes@ == fx.fixture.inputs.l1_head.bytes@
                &&& r.fixture_inputs.l2_head.bytes@ == fx.fixture.inputs.l2_head.bytes@
                &&& r.fixture_inputs.l2_output_root.bytes@
                    == fx.fixture.inputs.l2_output_root.bytes@
                &&& r.fixture_inputs.l2_claim.bytes@ == fx.fixture.inputs.l2_claim.bytes@
                &&& r.fixture_inputs.l2_block_number == fx.fixture.inputs.l2_block_number
                &&& r.fixture_inputs.l2_chain_id == fx.fixture.inputs.l2_chain_id
                &&& r.rollup_cfg_path@ == path_join(fx.dir@, "rollup.json"@)
                &&& r.genesis_path@ == path_join(fx.dir@, "genesis.json"@)
                &&& (r.source matches ProgramHostSource::Disk { path } && path@ == path_join(
                    fx.dir@,
                    "witness-db"@,
                ))
            }),
    {
        let u = &self.units[i];
        let fx = &self.fixtures[u.fixture];
        ProgramHostInputs {
            fixture_inputs: fx.fixture.inputs.duplicate(),
            rollup_cfg_path: crate::text::join_path(fx.dir.as_str(), "rollup.json"),
            genesis_path: crate::text::join_path(fx.dir.as_str(), "genesis.json"),
            source: ProgramHostSource::Disk {
                path: crate::text::join_path(fx.dir.as_str(), "witness-db"),
            },
        }
    }

    /// Resolves one unit into its execution plan: both program artifacts and
    /// the platform binary are looked up in the build cache, the platform
    /// and adapter are instantiated, and the load and run commands are
    /// assembled for an isolated working directory. Every missing artifact
    /// and every reserved kind fails with its own error; a wrong status is
    /// never produced here.
    pub fn prepare_unit(
        &self,
        i: usize,
        reg: &FPRegistry,
        cache: &BuildCache,
        workdir: &str,
    ) -> (r: Result<UnitPlan, Error>)
        requires
            self.wf(),
            i < self.units@.len(),
            self.units@[i as int].platform < reg.platforms@.len(),
            self.units@[i as int].program < reg.programs@.len(),
        ensures
            unit_prepare_ok(self.fixtures@, self.units@, i as int, *reg, *cache) ==> (r matches Ok(
                plan,
            ) && unit_plan_ok(self.fixtures@, self.units@, i as int, *reg, *cache, workdir@, plan)),
            !unit_prepare_ok(self.fixtures@, self.units@, i as int, *reg, *cache) ==> r is Err,
            ({
                let pe = reg.programs@[self.units@[i as int].program as int];
                !cache.is_built_spec(pe.build.repo@) ==> (r matches Err(
                    Error::ComponentNotBuilt { component },
                ) && component@ == pe.build.repo@)
            }),
            ({
                let pe = reg.programs@[self.units@[i as int].program as int];
                (cache.is_built_spec(pe.build.repo@) && artifact_lookup(
                    pe.build.artifacts@,
                    "client"@,
                ) is None) ==> (r matches Err(Error::UnknownArtifact { name }) && name@
                    == "client"@)
            }),
            ({
                let pe = reg.programs@[self.units@[i as int].program as int];
                let ple = reg.platforms@[self.units@[i as int].platform as int];
                artifact_ok(*cache, pe.build, "client"@) ==> (ple.build matches Some(b) ==> (
                !cache.is_built_spec(b.repo@) ==> (r matches Err(
                    Error::ComponentNotBuilt { component },
                ) && component@ == b.repo@)))
            }),
            ({
                let pe = reg.programs@[self.units@[i as int].program as int];
                let ple = reg.platforms@[self.units@[i as int].platform as int];
                artifact_ok(*cache, pe.build, "client"@) ==> (ple.build matches Some(b) ==> ((
                cache.is_built_spec(b.repo@) && artifact_lookup(b.artifacts@, "vm"@) is None) ==> (
                r matches Err(Error::UnknownArtifact { name }) && name@ == "vm"@)))
            }),
            ({
                let pe = reg.programs@[self.units@[i as int].program as int];
                let ple = reg.platforms@[self.units@[i as int].platform as int];
                (artifact_ok(*cache, pe.build, "client"@) && ple.build is None && ple.kind
                    == PlatformKind::Cannon) ==> r == Err::<UnitPlan, Error>(Error::MissingVmBinary)
            }),
            ({
                let pe = reg.programs@[self.units@[i as int].program as int];
                let ple = reg.platforms@[self.units@[i as int].platform as int];
                (artifact_ok(*cache, pe.build, "client"@) && (match ple.build {
                    Some(b) => artifact_ok(*cache, b, "vm"@),
                    None => true,
                }) && !(ple.kind == PlatformKind::Cannon && ple.build is None) && artifact_lookup(
                    pe.build.artifacts@,
                    "host"@,
                ) is None) ==> (r matches Err(Error::UnknownArtifact { name }) && name@ == "host"@)
            }),
            ({
                let pe = reg.programs@[self.units@[i as int].program as int];
                let ple = reg.platforms@[self.units@[i as int].platform as int];
                (artifact_ok(*cache, pe.build, "client"@) && (match ple.build {
                    Some(b) => artifact_ok(*cache, b, "vm"@),
                    None => true,
                }) && !(ple.kind == PlatformKind::Cannon && ple.build is None) && artifact_ok(
                    *cache,
                    pe.build,
                    "host"@,
                ) && (pe.kind == ProgramKind::KonaNative || pe.kind == ProgramKind::KonaRiscv
                    || ple.kind == PlatformKind::Asterisc)) ==> r == Err::<UnitPlan, Error>(
                    Error::NotImplemented,
                )
            }),
    {
        let u = &self.units[i];
        let pe = &reg.programs[u.program];
        let ple = &reg.platforms[u.platform];
        let fx = &self.fixtures[u.fixture];
        let client = match cache.get_artifact(&pe.build, "client") {
            Ok(p) => p,
            Err(e) => {
                return Err(e);
            },
        };
        let binary = match &ple.build {
            Some(b) => match cache.get_artifact(b, "vm") {
                Ok(p) => Some(p),
                Err(e) => {
                    return Err(e);
                },
            },
            None => None,
        };
        let platform = match ple.kind.get_platform(binary) {
            Ok(p) => p,
            Err(e) => {
                return Err(e);
            },
        };
        let host = match cache.get_artifact(&pe.build, "host") {
            Ok(p) => p,
            Err(e) => {
                return Err(e);
            },
        };
        let program = match pe.kind.get_program(host) {
            Ok(p) => p,
            Err(e) => {
                return Err(e);
            },
        };
        let inputs = self.unit_host_inputs(i);
        let host_cmd = program.host_cmd(&inputs);
        proof {
            assert(host_cmd.deep_view() =~= unit_host_args(
                self.fixtures@[self.units@[i as int].fixture as int],
                resolved_artifact(*cache, reg.programs@[u.program as int].build, "host"@),
                server_mode_of(reg.programs@[u.program as int].kind),
            ));
        }
        let load = match platform.load_plan(client.as_str(), workdir) {
            Ok(o) => o,
            Err(e) => {
                return Err(e);
            },
        };
        let run = match platform.run_plan(&host_cmd, workdir) {
            Ok(c) => c,
            Err(e) => {
                return Err(e);
            },
        };
        Ok(UnitPlan { kind: ple.kind, load, run, expected: fx.fixture.metadata.expected_status })
    }
}

/// The expected status of the unit at a position.
pub open spec fn expected_status_of(
    fixtures: Seq<DiscoveredFixture>,
    units: Seq<RunnableTest>,
    k: int,
) -> u8 {
    fixtures[units[k].fixture as int].fixture.metadata.expected_status
}

/// One unit's reported result, as the embedding binary hands it back: a
/// status the backend produced, or the infrastructure error that kept it
/// from producing one.
#[derive(Debug)]
pub enum UnitOutcome {
    /// The backend ran the unit to completion and reported a status.
    Completed {
        /// The reported exit status.
        status: u8,
    },
    /// The unit could not be executed at all.
    Infra {
        /// The error that stopped it.
        error: Error,
    },
}

/// How many of the first `upto` outcomes reproduced their fixture's expected
/// status.
pub open spec fn count_passed(
    fixtures: Seq<DiscoveredFixture>,
    units: Seq<RunnableTest>,
    outcomes: Seq<UnitOutcome>,
    upto: int,
) -> int
    decreases upto,
{
    if upto <= 0 {
        0
    } else {
        count_passed(fixtures, units, outcomes, upto - 1) + match outcomes[upto - 1] {
            UnitOutcome::Completed { status } => if status == expected_status_of(
                fixtures,
                units,
                upto - 1,
            ) {
                1int
            } else {
                0
            },
            UnitOutcome::Infra { .. } => 0,
        }
    }
}

/// The position of the first infrastructure error at or after a position,
/// or -1 if there is none.
pub open spec fn first_infra(outcomes: Seq<UnitOutcome>, from: int) -> int
    decreases outcomes.len() - from,
{
    if from < 0 || from >= outcomes.len() {
        -1
    } else if outcomes[from] is Infra {
        from
    } else {
        first_infra(outcomes, from + 1)
    }
}

/// A sequence without a first infrastructure error holds none at all.
proof fn lemma_no_infra(outcomes: Seq<UnitOutcome>, from: int)
    requires
        0 <= from <= outcomes.len(),
        first_infra(outcomes, from) == -1,
    ensures
        forall|t: int| from <= t < outcomes.len() ==> !((#[trigger] outcomes[t]) is Infra),
    decreases outcomes.len() - from,
{
    if from < outcomes.len() {
        lemma_no_infra(outcomes, from + 1);
    }
}

/// The pipeline after its run stage: the unit set it executed and the
/// aggregate summary.
#[derive(Debug)]
pub struct RanPipeline {
    /// The selection driving this invocation.
    pub cfg: TestConfig,
    /// Every discovered fixture, in discovery order.
    pub fixtures: Vec<DiscoveredFixture>,
    /// The executed units; their fixture indices point into `fixtures`.
    pub units: Vec<RunnableTest>,
    /// The aggregate pass/fail counts.
    pub summary: TestSummary,
}

impl RanPipeline {
    /// Every unit's fixture index is in range, and fixtures are uniquely
    /// identified by their directory.
    pub open spec fn wf(&self) -> bool {
        &&& forall|k: int|
            0 <= k < self.units@.len() ==> (#[trigger] self.units@[k]).fixture
                < self.fixtures@.len()
        &&& fixtures_dirs_distinct(self.fixtures@)
    }

    /// The directory of each distinct fixture the executed units referenced —
    /// the same de-duplication key the setup stage used. Teardown deletes the
    /// decompressed artifacts in these directories.
    pub fn teardown_dirs(&self) -> (r: Vec<String>)
        requires
            self.wf(),
        ensures
            r.deep_view() == distinct_dirs_spec(self.fixtures@, self.units@),
            forall|a: int, b: int|
                #![trigger r.deep_view()[a], r.deep_view()[b]]
                0 <= a < b < r.deep_view().len() ==> r.deep_view()[a] != r.deep_view()[b],
            forall|k: int|
                0 <= k < self.units@.len() ==> r.deep_view().contains(
                    self.fixtures@[(#[trigger] self.units@[k]).fixture as int].dir@,
                ),
    {
        proof {
            lemma_schedule_exact_dirs(self.fixtures@, self.units@);
        }
        collect_distinct_dirs(&self.fixtures, &self.units)
    }

    /// Consumes the pipeline once teardown is done and yields the summary.
    pub fn finish(self) -> (r: TestSummary)
        ensures
            r == self.summary,
    {
        self.summary
    }
}

impl ReadyPipeline {
    /// Consumes the ready pipeline and the joined outcome of every unit, in
    /// schedule order. Any infrastructure error is fatal: the first one is
    /// raised — after all outcomes are in, so nothing is lost — and no
    /// summary is produced. Otherwise every unit is recorded: passed when
    /// its status equals the fixture's expected status, failed on any other
    /// status. A wrong status is never an error and an error is never a
    /// count.
    pub fn into_ran(self, outcomes: Vec<UnitOutcome>) -> (r: Result<RanPipeline, Error>)
        requires
            self.wf(),
            outcomes@.len() == self.units@.len(),
        ensures
            first_infra(outcomes@, 0) >= 0 ==> (r matches Err(e) && (outcomes@[first_infra(
                outcomes@,
                0,
            )] matches UnitOutcome::Infra { error } && e == error)),
            first_infra(outcomes@, 0) == -1 ==> (r matches Ok(ran) && ran.cfg == self.cfg
                && ran.fixtures == self.fixtures && ran.units == self.units && ran.wf()
                && ran.summary.passed == count_passed(
                self.fixtures@,
                self.units@,
                outcomes@,
                self.units@.len() as int,
            ) && ran.summary.passed + ran.summary.failed == self.units@.len()),
    {
        let n = outcomes.len();
        let mut k: usize = 0;
        while k < n
            invariant
                k <= n,
                n == outcomes@.len(),
                first_infra(outcomes@, 0) == first_infra(outcomes@, k as int),
                forall|t: int| 0 <= t < k ==> !((#[trigger] outcomes@[t]) is Infra),
            decreases n - k,
        {
            let is_infra = match &outcomes[k] {
                UnitOutcome::Infra { .. } => true,
                UnitOutcome::Completed { .. } => false,
            };
            if is_infra {
                let mut taken = outcomes;
                let item = taken.remove(k);
                return match item {
                    UnitOutcome::Infra { error } => Err(error),
                    UnitOutcome::Completed { .. } => unreached(),
                };
            }
            k = k + 1;
        }
        proof {
            lemma_no_infra(outcomes@, 0);
        }
        let mut passed: usize = 0;
        let mut t: usize = 0;
        while t < n
            invariant
                t <= n,
                n == outcomes@.len(),
                n == self.units@.len(),
                self.wf(),
                passed <= t,
                passed == count_passed(self.fixtures@, self.units@, outcomes@, t as int),
                forall|w: int| 0 <= w < n ==> !((#[trigger] outcomes@[w]) is Infra),
            decreases n - t,
        {
            match &outcomes[t] {
                UnitOutcome::Completed { status } => {
                    let expected =
                        self.fixtures[self.units[t].fixture].fixture.metadata.expected_status;
                    if *status == expected {
                        passed = passed + 1;
                    }
                },
                UnitOutcome::Infra { .. } => {
                    proof {
                        assert(false);
                    }
                },
            }
            t = t + 1;
        }
        let failed = n - passed;
        Ok(
            RanPipeline {
                cfg: self.cfg,
                fixtures: self.fixtures,
                units: self.units,
                summary: TestSummary { passed, failed },
            },
        )
    }
}

/// Law: cleanup visits exactly what setup decompressed. Over one unit set
/// and one fixture list, the teardown schedule and the decompression
/// schedule are the same directory sequence; with `lemma_distinct_exact`,
/// each referenced fixture's directory appears exactly once in both.
pub proof fn lemma_teardown_matches_setup(ready: ReadyPipeline, ran: RanPipeline)
    requires
        ran.fixtures@ == ready.fixtures@,
        ran.units@ == ready.units@,
    ensures
        distinct_dirs_spec(ran.fixtures@, ran.units@) == distinct_dirs_spec(
            ready.fixtures@,
            ready.units@,
        ),
{
}

/// The process exit code that reflects a run summary: zero only when no
/// test failed.
pub fn process_exit_code(s: &TestSummary) -> (r: i32)
    ensures
        s.failed > 0 ==> r == 1,
        s.failed == 0 ==> r == 0,
{
    if s.failed > 0 {
        1
    } else {
        0
    }
}

} // verus!
