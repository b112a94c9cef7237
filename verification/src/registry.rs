//! The component registry: the table of known execution platforms and proof
//! programs, their build instructions, their declared compatibility, and the
//! resolution of a selection into a compatibility matrix.

use vstd::prelude::*;
use crate::errors::Error;

verus! {

/// The kinds of execution platform the harness knows about.
#[derive(Clone, Copy, Debug, PartialEq, Eq, Structural)]
pub enum PlatformKind {
    /// Direct execution of the host program as a child process.
    Native,
    /// The `cannon` deterministic MIPS virtual machine.
    Cannon,
    /// The `asterisc` RISC-V virtual machine, reserved and not implemented.
    Asterisc,
}

impl PlatformKind {
    /// The identifier of the kind, as written in selections and documents.
    pub open spec fn name_spec(&self) -> Seq<char> {
        match self {
            PlatformKind::Native => "native"@,
            PlatformKind::Cannon => "cannon"@,
            PlatformKind::Asterisc => "asterisc"@,
        }
    }

    /// Renders the kind's identifier.
    pub fn name(&self) -> (r: String)
        ensures
            r@ == self.name_spec(),
    {
        match self {
            PlatformKind::Native => String::from_str("native"),
            PlatformKind::Cannon => String::from_str("cannon"),
            PlatformKind::Asterisc => String::from_str("asterisc"),
        }
    }

    /// The kind a platform identifier parses to, if any.
    pub open spec fn parse_spec(s: Seq<char>) -> Option<PlatformKind> {
        if s == "native"@ {
            Some(PlatformKind::Native)
        } else if s == "cannon"@ {
            Some(PlatformKind::Cannon)
        } else if s == "asterisc"@ {
            Some(PlatformKind::Asterisc)
        } else {
            None
        }
    }

    /// Parses a platform identifier. An unknown identifier is rejected with
    /// a descriptive error before any matrix resolution can use it.
    pub fn from_str(s: &str) -> (r: Result<PlatformKind, Error>)
        ensures
            PlatformKind::parse_spec(s@) matches Some(k) ==> r == Ok::<PlatformKind, Error>(k),
            PlatformKind::parse_spec(s@) is None ==> (r matches Err(
                Error::UnknownPlatformKind { name },
            ) && name@ == s@),
    {
        proof {
            reveal_strlit("native");
            reveal_strlit("cannon");
            reveal_strlit("asterisc");
        }
        if str_eq(s, "native") {
            Ok(PlatformKind::Native)
        } else if str_eq(s, "cannon") {
            Ok(PlatformKind::Cannon)
        } else if str_eq(s, "asterisc") {
            Ok(PlatformKind::Asterisc)
        } else {
            Err(Error::UnknownPlatformKind { name: String::from_str(s) })
        }
    }
}

/// The kinds of proof program the harness knows about.
#[derive(Clone, Copy, Debug, PartialEq, Eq, Structural)]
pub enum ProgramKind {
    /// `op-program` compiled for the native platform.
    OpProgramNative,
    /// `op-program` compiled to MIPS for `cannon`.
    OpProgramMips,
    /// `op-program` compiled to RISC-V for `asterisc`.
    OpProgramRiscv,
    /// `kona` on the native platform, reserved and not implemented.
    KonaNative,
    /// `kona` on RISC-V, reserved and not implemented.
    KonaRiscv,
}

impl ProgramKind {
    /// The identifier of the kind, as written in selections and documents.
    pub open spec fn name_spec(&self) -> Seq<char> {
        match self {
            ProgramKind::OpProgramNative => "op-program-native"@,
            ProgramKind::OpProgramMips => "op-program-mips"@,
            ProgramKind::OpProgramRiscv => "op-program-riscv"@,
            ProgramKind::KonaNative => "kona-native"@,
            ProgramKind::KonaRiscv => "kona-riscv"@,
        }
    }

    /// Renders the kind's identifier.
    pub fn name(&self) -> (r: String)
        ensures
            r@ == self.name_spec(),
    {
        match self {
            ProgramKind::OpProgramNative => String::from_str("op-program-native"),
            ProgramKind::OpProgramMips => String::from_str("op-program-mips"),
            ProgramKind::OpProgramRiscv => String::from_str("op-program-riscv"),
            ProgramKind::KonaNative => String::from_str("kona-native"),
            ProgramKind::KonaRiscv => String::from_str("kona-riscv"),
        }
    }

    /// The kind a program identifier parses to, if any.
    pub open spec fn parse_spec(s: Seq<char>) -> Option<ProgramKind> {
        if s == "op-program-native"@ {
            Some(ProgramKind::OpProgramNative)
        } else if s == "op-program-mips"@ {
            Some(ProgramKind::OpProgramMips)
        } else if s == "op-program-riscv"@ {
            Some(ProgramKind::OpProgramRiscv)
        } else if s == "kona-native"@ {
            Some(ProgramKind::KonaNative)
        } else if s == "kona-riscv"@ {
            Some(ProgramKind::KonaRiscv)
        } else {
            None
        }
    }

    /// Parses a program identifier. An unknown identifier is rejected with a
    /// descriptive error.
    pub fn from_str(s: &str) -> (r: Result<ProgramKind, Error>)
        ensures
            ProgramKind::parse_spec(s@) matches Some(k) ==> r == Ok::<ProgramKind, Error>(k),
            ProgramKind::parse_spec(s@) is None ==> (r matches Err(
                Error::UnknownProgramKind { name },
            ) && name@ == s@),
    {
        proof {
            reveal_strlit("op-program-native");
            reveal_strlit("op-program-mips");
            reveal_strlit("op-program-riscv");
            reveal_strlit("kona-native");
            reveal_strlit("kona-riscv");
        }
        if str_eq(s, "op-program-native") {
            Ok(ProgramKind::OpProgramNative)
        } else if str_eq(s, "op-program-mips") {
            Ok(ProgramKind::OpProgramMips)
        } else if str_eq(s, "op-program-riscv") {
            Ok(ProgramKind::OpProgramRiscv)
        } else if str_eq(s, "kona-native") {
            Ok(ProgramKind::KonaNative)
        } else if str_eq(s, "kona-riscv") {
            Ok(ProgramKind::KonaRiscv)
        } else {
            Err(Error::UnknownProgramKind { name: String::from_str(s) })
        }
    }
}

/// Compares two string slices by contents.
fn str_eq(a: &str, b: &str) -> (r: bool)
    ensures
        r == (a@ == b@),
{
    let sa = String::from_str(a);
    let sb = String::from_str(b);
    sa.eq(&sb)
}

/// Build instructions for a component hosted in a source repository.
#[derive(Debug)]
pub struct BuildInstructions {
    /// The `org/name` coordinate of the repository to build.
    pub repo: String,
    /// The revision or tag to build.
    pub rev: String,
    /// The directory inside the checkout where the build runs.
    pub workdir: String,
    /// The ordered build steps, each one command string.
    pub cmd: Vec<String>,
    /// Named output artifacts and their paths relative to the workdir.
    pub artifacts: Vec<(String, String)>,
}

impl BuildInstructions {
    /// The artifact map is a map: its names are pairwise distinct, so a
    /// lookup by name is unambiguous.
    pub open spec fn wf(&self) -> bool {
        forall|a: int, b: int|
            #![trigger self.artifacts@[a], self.artifacts@[b]]
            0 <= a < b < self.artifacts@.len() ==> self.artifacts@[a].0@ != self.artifacts@[b].0@
    }
}

/// The registry's record of one execution platform.
#[derive(Debug)]
pub struct PlatformEntry {
    /// The kind this entry defines.
    pub kind: PlatformKind,
    /// Whether the platform is selected when no allow-list is given.
    pub default: bool,
    /// How to build the platform binary; the native platform needs none.
    pub build: Option<BuildInstructions>,
}

/// The registry's record of one proof program.
#[derive(Debug)]
pub struct ProgramEntry {
    /// The kind this entry defines.
    pub kind: ProgramKind,
    /// Whether the program is selected when no allow-list is given.
    pub default: bool,
    /// The platforms this program is declared compatible with.
    pub platform_compat: Vec<PlatformKind>,
    /// How to build the program's host and client binaries.
    pub build: BuildInstructions,
}

/// A selection handed to the pipeline: an optional fixture-name glob,
/// optional platform and program allow-lists, and a worker count.
#[derive(Debug)]
pub struct TestConfig {
    /// Keep only fixtures whose name matches this glob pattern.
    pub test: Option<String>,
    /// Resolve only these platforms; absent means the flagged defaults.
    pub vm: Option<Vec<PlatformKind>>,
    /// Admit these programs besides the flagged defaults.
    pub program: Option<Vec<ProgramKind>>,
    /// The size of the worker pool for concurrent stages.
    pub workers: usize,
}

/// One resolved matrix entry: a platform and its admissible programs, both
/// as indices into the registry that resolved them.
#[derive(Debug)]
pub struct PlatformAndPrograms {
    /// Index of the platform entry in the registry.
    pub platform: usize,
    /// Indices of the admissible program entries, in registry order.
    pub programs: Vec<usize>,
}

/// The registry of known platforms and programs. Loaded once at startup and
/// read-only afterwards.
#[derive(Debug)]
pub struct FPRegistry {
    /// The known execution platforms.
    pub platforms: Vec<PlatformEntry>,
    /// The known proof programs.
    pub programs: Vec<ProgramEntry>,
}

impl FPRegistry {
    /// The registry is a table: each platform kind and each program kind is
    /// defined by at most one entry, and every artifact map is a map.
    pub open spec fn wf(&self) -> bool {
        &&& forall|a: int, b: int|
            #![trigger self.platforms@[a], self.platforms@[b]]
            0 <= a < b < self.platforms@.len() ==> self.platforms@[a].kind
                != self.platforms@[b].kind
        &&& forall|a: int, b: int|
            #![trigger self.programs@[a], self.programs@[b]]
            0 <= a < b < self.programs@.len() ==> self.programs@[a].kind
                != self.programs@[b].kind
        &&& forall|j: int|
            0 <= j < self.programs@.len() ==> (#[trigger] self.programs@[j]).build.wf()
        &&& forall|i: int|
            0 <= i < self.platforms@.len() ==> match (#[trigger] self.platforms@[i]).build {
                Some(b) => b.wf(),
                None => true,
            }
    }
}

/// The owned form of an optional borrowed selection.
pub open spec fn cfg_view(cfg: Option<&TestConfig>) -> Option<TestConfig> {
    match cfg {
        Some(c) => Some(*c),
        None => None,
    }
}

/// Whether a platform entry is chosen by a selection: listed in the explicit
/// allow-list if one is given, else flagged default; an unconstrained call
/// chooses every platform.
pub open spec fn platform_selected(cfg: Option<TestConfig>, e: PlatformEntry) -> bool {
    match cfg {
        None => true,
        Some(c) => match c.vm {
            Some(list) => list@.contains(e.kind),
            None => e.default,
        },
    }
}

/// Whether a program entry is admitted for a platform: it must declare
/// compatibility with the platform, and, under a test selection, be flagged
/// default or be listed in the explicit allow-list; an unconstrained call
/// admits every compatible program.
pub open spec fn program_admissible(
    cfg: Option<TestConfig>,
    platform: PlatformKind,
    e: ProgramEntry,
) -> bool {
    e.platform_compat@.contains(platform) && match cfg {
        None => true,
        Some(c) => e.default || match c.program {
            Some(list) => list@.contains(e.kind),
            None => false,
        },
    }
}

/// The sequence `0, 1, .., n-1`.
pub open spec fn idx_seq(n: nat) -> Seq<usize> {
    Seq::new(n, |i: int| i as usize)
}

/// The platform-selection predicate over registry indices.
pub open spec fn platform_pred(reg: FPRegistry, cfg: Option<TestConfig>) -> spec_fn(usize) -> bool {
    |i: usize| platform_selected(cfg, reg.platforms@[i as int])
}

/// The program-admission predicate over registry indices.
pub open spec fn program_pred(
    reg: FPRegistry,
    cfg: Option<TestConfig>,
    platform: PlatformKind,
) -> spec_fn(usize) -> bool {
    |j: usize| program_admissible(cfg, platform, reg.programs@[j as int])
}

/// The registry indices of the platforms a selection chooses, in order.
pub open spec fn selected_platforms(reg: FPRegistry, cfg: Option<TestConfig>) -> Seq<usize> {
    idx_seq(reg.platforms@.len()).filter(platform_pred(reg, cfg))
}

/// The registry indices of the programs admitted for a platform, in order.
pub open spec fn admissible_programs(
    reg: FPRegistry,
    cfg: Option<TestConfig>,
    platform: PlatformKind,
) -> Seq<usize> {
    idx_seq(reg.programs@.len()).filter(program_pred(reg, cfg, platform))
}

/// What `resolve_matrix` returns: one entry per chosen platform, in registry
/// order, each carrying exactly the admitted programs for its platform.
pub open spec fn matrix_resolved(
    reg: FPRegistry,
    cfg: Option<TestConfig>,
    m: Seq<PlatformAndPrograms>,
) -> bool {
    let sel = selected_platforms(reg, cfg);
    &&& m.len() == sel.len()
    &&& forall|k: int|
        0 <= k < m.len() ==> {
            let e = #[trigger] m[k];
            &&& e.platform == sel[k]
            &&& e.platform < reg.platforms@.len()
            &&& e.programs@ == admissible_programs(reg, cfg, reg.platforms@[e.platform as int].kind)
            &&& forall|t: int|
                0 <= t < e.programs@.len() ==> #[trigger] e.programs@[t] < reg.programs@.len()
        }
}

/// Distributing `filter` over `push`.
pub proof fn lemma_filter_push<A>(s: Seq<A>, pred: spec_fn(A) -> bool, x: A)
    ensures
        s.push(x).filter(pred) == if pred(x) {
            s.filter(pred).push(x)
        } else {
            s.filter(pred)
        },
{
    reveal(Seq::filter);
    assert(s.push(x).drop_last() =~= s);
    assert(s.push(x).last() == x);
    assert(s.push(x).filter(pred) == if pred(x) {
        s.filter(pred).push(x)
    } else {
        s.filter(pred)
    });
}

/// Membership in a filtered index range: an index is kept if and only if it
/// is in range and satisfies the predicate.
pub proof fn lemma_idx_filter_contains(n: nat, pred: spec_fn(usize) -> bool, i: usize)
    ensures
        idx_seq(n).filter(pred).contains(i) <==> (i < n && pred(i)),
    decreases n,
{
    if n == 0 {
        reveal(Seq::filter);
        assert(idx_seq(0) =~= Seq::<usize>::empty());
        assert(!idx_seq(n).filter(pred).contains(i));
    } else {
        let m = (n - 1) as nat;
        lemma_idx_filter_contains(m, pred, i);
        assert(idx_seq(n) =~= idx_seq(m).push(m as usize));
        lemma_filter_push(idx_seq(m), pred, m as usize);
        if i < n && pred(i) {
            if i < m {
                let prev = idx_seq(m).filter(pred);
                let w = choose|w: int| 0 <= w < prev.len() && prev[w] == i;
                if pred(m as usize) {
                    assert(idx_seq(n).filter(pred)[w] == i);
                } else {
                    assert(idx_seq(n).filter(pred)[w] == i);
                }
            } else {
                assert(pred(m as usize));
                let fs = idx_seq(n).filter(pred);
                assert(fs.last() == m as usize);
                assert(fs.contains(i));
            }
        }
        if idx_seq(n).filter(pred).contains(i) {
            let fs = idx_seq(n).filter(pred);
            let w = choose|w: int| 0 <= w < fs.len() && fs[w] == i;
            if pred(m as usize) {
                if w < fs.len() - 1 {
                    assert(idx_seq(m).filter(pred)[w] == i);
                }
            } else {
                assert(idx_seq(m).filter(pred)[w] == i);
            }
        }
    }
}

/// Filtering an index range keeps it strictly increasing.
pub proof fn lemma_idx_filter_increasing(n: nat, pred: spec_fn(usize) -> bool)
    requires
        n <= usize::MAX,
    ensures
        forall|a: int, b: int|
            #![trigger idx_seq(n).filter(pred)[a], idx_seq(n).filter(pred)[b]]
            0 <= a < b < idx_seq(n).filter(pred).len() ==> idx_seq(n).filter(pred)[a] < idx_seq(
                n,
            ).filter(pred)[b],
    decreases n,
{
    if n == 0 {
        reveal(Seq::filter);
        assert(idx_seq(0) =~= Seq::<usize>::empty());
    } else {
        let m = (n - 1) as nat;
        lemma_idx_filter_increasing(m, pred);
        assert(idx_seq(n) =~= idx_seq(m).push(m as usize));
        lemma_filter_push(idx_seq(m), pred, m as usize);
        let prev = idx_seq(m).filter(pred);
        assert forall|t: int| 0 <= t < prev.len() implies #[trigger] prev[t] < m as usize by {
            assert(prev.contains(prev[t]));
            lemma_idx_filter_contains(m, pred, prev[t]);
        }
        if pred(m as usize) {
            let cur = idx_seq(n).filter(pred);
            assert(cur == prev.push(m as usize));
            assert forall|a: int, b: int| 0 <= a < b < cur.len() implies cur[a] < cur[b] by {
                if b < cur.len() - 1 {
                    assert(cur[a] == prev[a]);
                    assert(cur[b] == prev[b]);
                } else {
                    assert(cur[b] == m as usize);
                    assert(cur[a] == prev[a]);
                }
            }
        }
    }
}

/// Law: under a well-formed registry the matrix holds one entry per chosen
/// platform kind — entries name pairwise distinct platform indices, and so
/// pairwise distinct kinds.
pub proof fn lemma_matrix_one_entry_per_kind(
    reg: FPRegistry,
    cfg: Option<TestConfig>,
    m: Seq<PlatformAndPrograms>,
)
    requires
        reg.wf(),
        matrix_resolved(reg, cfg, m),
    ensures
        forall|a: int, b: int|
            #![trigger m[a], m[b]]
            0 <= a < b < m.len() ==> m[a].platform != m[b].platform,
        forall|a: int, b: int|
            #![trigger m[a], m[b]]
            0 <= a < b < m.len() ==> reg.platforms@[m[a].platform as int].kind
                != reg.platforms@[m[b].platform as int].kind,
{
    let sel = selected_platforms(reg, cfg);
    broadcast use vstd::std_specs::vec::axiom_spec_len;

    assert(vstd::std_specs::vec::spec_vec_len(&reg.platforms) == reg.platforms@.len());
    lemma_idx_filter_increasing(reg.platforms@.len(), platform_pred(reg, cfg));
    assert forall|a: int, b: int| 0 <= a < b < m.len() implies #[trigger] m[a].platform
        != #[trigger] m[b].platform && reg.platforms@[m[a].platform as int].kind
        != reg.platforms@[m[b].platform as int].kind by {
        assert(m[a].platform == sel[a]);
        assert(m[b].platform == sel[b]);
        assert(sel[a] < sel[b]);
        assert(reg.platforms@[sel[a] as int].kind != reg.platforms@[sel[b] as int].kind);
    }
}

/// Law: printing a platform kind and parsing the identifier back is the
/// identity over the known kinds.
pub proof fn lemma_platform_identifier_round_trip(k: PlatformKind)
    ensures
        PlatformKind::parse_spec(k.name_spec()) == Some(k),
{
    reveal_strlit("native");
    reveal_strlit("cannon");
    reveal_strlit("asterisc");
    assert("cannon"@ != "native"@) by {
        if "cannon"@ == "native"@ {
            assert("cannon"@[0] == "native"@[0]);
        }
    }
    assert("asterisc"@ != "native"@) by {
        if "asterisc"@ == "native"@ {
            assert("asterisc"@.len() == "native"@.len());
        }
    }
    assert("asterisc"@ != "cannon"@) by {
        if "asterisc"@ == "cannon"@ {
            assert("asterisc"@.len() == "cannon"@.len());
        }
    }
}

/// Law: printing a program kind and parsing the identifier back is the
/// identity over the known kinds — no identifier aliases another kind.
pub proof fn lemma_program_identifier_round_trip(k: ProgramKind)
    ensures
        ProgramKind::parse_spec(k.name_spec()) == Some(k),
{
    reveal_strlit("op-program-native");
    reveal_strlit("op-program-mips");
    reveal_strlit("op-program-riscv");
    reveal_strlit("kona-native");
    reveal_strlit("kona-riscv");
    assert("op-program-mips"@ != "op-program-native"@) by {
        if "op-program-mips"@ == "op-program-native"@ {
            assert("op-program-mips"@.len() == "op-program-native"@.len());
        }
    }
    assert("op-program-riscv"@ != "op-program-native"@) by {
        if "op-program-riscv"@ == "op-program-native"@ {
            assert("op-program-riscv"@.len() == "op-program-native"@.len());
        }
    }
    assert("op-program-riscv"@ != "op-program-mips"@) by {
        if "op-program-riscv"@ == "op-program-mips"@ {
            assert("op-program-riscv"@.len() == "op-program-mips"@.len());
        }
    }
    assert("kona-native"@ != "op-program-native"@) by {
        if "kona-native"@ == "op-program-native"@ {
            assert("kona-native"@.len() == "op-program-native"@.len());
        }
    }
    assert("kona-native"@ != "op-program-mips"@) by {
        if "kona-native"@ == "op-program-mips"@ {
            assert("kona-native"@.len() == "op-program-mips"@.len());
        }
    }
    assert("kona-native"@ != "op-program-riscv"@) by {
        if "kona-native"@ == "op-program-riscv"@ {
            assert("kona-native"@.len() == "op-program-riscv"@.len());
        }
    }
    assert("kona-riscv"@ != "op-program-native"@) by {
        if "kona-riscv"@ == "op-program-native"@ {
            assert("kona-riscv"@.len() == "op-program-native"@.len());
        }
    }
    assert("kona-riscv"@ != "op-program-mips"@) by {
        if "kona-riscv"@ == "op-program-mips"@ {
            assert("kona-riscv"@.len() == "op-program-mips"@.len());
        }
    }
    assert("kona-riscv"@ != "op-program-riscv"@) by {
        if "kona-riscv"@ == "op-program-riscv"@ {
            assert("kona-riscv"@.len() == "op-program-riscv"@.len());
        }
    }
    assert("kona-riscv"@ != "kona-native"@) by {
        if "kona-riscv"@ == "kona-native"@ {
            assert("kona-riscv"@.len() == "kona-native"@.len());
        }
    }
}

/// Law: under a test selection with no explicit allow-lists, the matrix
/// selects exactly the platforms flagged default, and admits, for a platform,
/// exactly the programs flagged default whose declared compatibility holds
/// the platform's kind.
pub proof fn lemma_resolve_matrix_defaults(reg: FPRegistry, cfg: TestConfig)
    requires
        cfg.vm is None,
        cfg.program is None,
    ensures
        forall|i: usize|
            #![trigger selected_platforms(reg, Some(cfg)).contains(i)]
            selected_platforms(reg, Some(cfg)).contains(i) <==> (i < reg.platforms@.len()
                && reg.platforms@[i as int].default),
        forall|k: PlatformKind, j: usize|
            #![trigger admissible_programs(reg, Some(cfg), k).contains(j)]
            admissible_programs(reg, Some(cfg), k).contains(j) <==> (j < reg.programs@.len()
                && reg.programs@[j as int].default && reg.programs@[j as int].platform_compat@.contains(
                k,
            )),
{
    assert forall|i: usize|
        selected_platforms(reg, Some(cfg)).contains(i) <==> (i < reg.platforms@.len()
            && reg.platforms@[i as int].default) by {
        lemma_idx_filter_contains(reg.platforms@.len(), platform_pred(reg, Some(cfg)), i);
    }
    assert forall|k: PlatformKind, j: usize|
        admissible_programs(reg, Some(cfg), k).contains(j) <==> (j < reg.programs@.len()
            && reg.programs@[j as int].default && reg.programs@[j as int].platform_compat@.contains(
            k,
        )) by {
        lemma_idx_filter_contains(reg.programs@.len(), program_pred(reg, Some(cfg), k), j);
    }
}

/// Law: under a test selection with explicit allow-lists, every selected
/// platform is allow-listed, and every admitted program is both compatible
/// with its platform and allow-listed — never more. The program half asks
/// that the allow-list cover the default-flagged programs, since a default
/// program is admitted whether or not it is listed.
pub proof fn lemma_resolve_matrix_allowlists(reg: FPRegistry, cfg: TestConfig)
    requires
        cfg.vm is Some,
        cfg.program is Some,
        forall|j: int|
            0 <= j < reg.programs@.len() && (#[trigger] reg.programs@[j]).default ==> (
            cfg.program->0)@.contains(reg.programs@[j].kind),
    ensures
        forall|i: usize|
            #![trigger selected_platforms(reg, Some(cfg)).contains(i)]
            selected_platforms(reg, Some(cfg)).contains(i) <==> (i < reg.platforms@.len() && (
            cfg.vm->0)@.contains(reg.platforms@[i as int].kind)),
        forall|k: PlatformKind, j: usize|
            #![trigger admissible_programs(reg, Some(cfg), k).contains(j)]
            admissible_programs(reg, Some(cfg), k).contains(j) <==> (j < reg.programs@.len()
                && reg.programs@[j as int].platform_compat@.contains(k) && (
            cfg.program->0)@.contains(reg.programs@[j as int].kind)),
{
    assert forall|i: usize|
        selected_platforms(reg, Some(cfg)).contains(i) <==> (i < reg.platforms@.len() && (
        cfg.vm->0)@.contains(reg.platforms@[i as int].kind)) by {
        lemma_idx_filter_contains(reg.platforms@.len(), platform_pred(reg, Some(cfg)), i);
    }
    assert forall|k: PlatformKind, j: usize|
        admissible_programs(reg, Some(cfg), k).contains(j) <==> (j < reg.programs@.len()
            && reg.programs@[j as int].platform_compat@.contains(k) && (
        cfg.program->0)@.contains(reg.programs@[j as int].kind)) by {
        lemma_idx_filter_contains(reg.programs@.len(), program_pred(reg, Some(cfg), k), j);
    }
}

impl FPRegistry {
    /// Resolves a selection into the compatibility matrix: one entry per
    /// chosen platform, each carrying the registry indices of its admissible
    /// programs. An entry with zero programs is a valid result, not an error.
    pub fn resolve_matrix(&self, cfg: Option<&TestConfig>) -> (r: Vec<PlatformAndPrograms>)
        requires
            self.wf(),
        ensures
            matrix_resolved(*self, cfg_view(cfg), r@),
    {
        let ghost c = cfg_view(cfg);
        let mut matrix: Vec<PlatformAndPrograms> = Vec::new();
        let n = self.platforms.len();
        let mut i: usize = 0;
        proof {
            assert(idx_seq(0) =~= Seq::<usize>::empty());
        }
        while i < n
            invariant
                i <= n,
                n == self.platforms@.len(),
                c == cfg_view(cfg),
                matrix@.len() == idx_seq(i as nat).filter(platform_pred(*self, c)).len(),
                forall|k: int|
                    0 <= k < matrix@.len() ==> {
                        let e = #[trigger] matrix@[k];
                        &&& e.platform == idx_seq(i as nat).filter(platform_pred(*self, c))[k]
                        &&& e.platform < n
                        &&& e.programs@ == admissible_programs(
                            *self,
                            c,
                            self.platforms@[e.platform as int].kind,
                        )
                        &&& forall|t: int|
                            0 <= t < e.programs@.len() ==> #[trigger] e.programs@[t]
                                < self.programs@.len()
                    },
            decreases n - i,
        {
            let entry = &self.platforms[i];
            let chosen = match cfg {
                None => true,
                Some(cf) => match &cf.vm {
                    Some(list) => contains_platform_kind(list, entry.kind),
                    None => entry.default,
                },
            };
            proof {
                assert(chosen == platform_pred(*self, c)(i));
                assert(idx_seq(i as nat + 1) =~= idx_seq(i as nat).push(i));
                lemma_filter_push(idx_seq(i as nat), platform_pred(*self, c), i);
            }
            if chosen {
                let programs = self.admissible_for(cfg, entry.kind);
                matrix.push(PlatformAndPrograms { platform: i, programs });
            }
            i = i + 1;
        }
        matrix
    }

    /// Collects the registry indices of the programs admitted for a platform
    /// under a selection, in registry order.
    fn admissible_for(&self, cfg: Option<&TestConfig>, platform: PlatformKind) -> (r: Vec<usize>)
        ensures
            r@ == admissible_programs(*self, cfg_view(cfg), platform),
            forall|t: int| 0 <= t < r@.len() ==> #[trigger] r@[t] < self.programs@.len(),
    {
        let ghost c = cfg_view(cfg);
        let mut out: Vec<usize> = Vec::new();
        let n = self.programs.len();
        let mut j: usize = 0;
        proof {
            assert(idx_seq(0) =~= Seq::<usize>::empty());
        }
        while j < n
            invariant
                j <= n,
                n == self.programs@.len(),
                c == cfg_view(cfg),
                out@ == idx_seq(j as nat).filter(program_pred(*self, c, platform)),
                forall|t: int| 0 <= t < out@.len() ==> #[trigger] out@[t] < n,
            decreases n - j,
        {
            let entry = &self.programs[j];
            let compat = contains_platform_kind(&entry.platform_compat, platform);
            let admitted = compat && match cfg {
                None => true,
                Some(cf) => entry.default || match &cf.program {
                    Some(list) => contains_program_kind(list, entry.kind),
                    None => false,
                },
            };
            proof {
                assert(admitted == program_pred(*self, c, platform)(j));
                assert(idx_seq(j as nat + 1) =~= idx_seq(j as nat).push(j));
                lemma_filter_push(idx_seq(j as nat), program_pred(*self, c, platform), j);
            }
            if admitted {
                out.push(j);
            }
            j = j + 1;
        }
        out
    }
}

/// Whether a platform-kind list holds a given kind.
fn contains_platform_kind(v: &Vec<PlatformKind>, k: PlatformKind) -> (r: bool)
    ensures
        r == v@.contains(k),
{
    let mut i: usize = 0;
    while i < v.len()
        invariant
            i <= v@.len(),
            forall|t: int| 0 <= t < i ==> v@[t] != k,
        decreases v@.len() - i,
    {
        if v[i] == k {
            return true;
        }
        i = i + 1;
    }
    false
}

/// Whether a program-kind list holds a given kind.
fn contains_program_kind(v: &Vec<ProgramKind>, k: ProgramKind) -> (r: bool)
    ensures
        r == v@.contains(k),
{
    let mut i: usize = 0;
    while i < v.len()
        invariant
            i <= v@.len(),
            forall|t: int| 0 <= t < i ==> v@[t] != k,
        decreases v@.len() - i,
    {
        if v[i] == k {
            return true;
        }
        i = i + 1;
    }
    false
}

} // verus!
