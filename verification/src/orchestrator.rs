//! The build orchestrator: decides, from a cache of already-materialized
//! checkouts, which commands bring a component's artifacts into existence,
//! and resolves artifact names to absolute paths. The embedding binary runs
//! the planned commands and reports back.

use vstd::prelude::*;
use crate::command::CommandSpec;
use crate::command::parse_command;
use crate::errors::Error;
use crate::registry::BuildInstructions;
use crate::text::join_path;
use crate::text::path_join;
use crate::text::tokenize_spec;

verus! {

/// The clone URL of a repository coordinate.
pub open spec fn github_url(repo: Seq<char>) -> Seq<char> {
    "https://github.com/"@ + repo
}

/// The argument vector of the clone command for a pinned revision.
pub open spec fn clone_args_spec(rev: Seq<char>, repo: Seq<char>, dest: Seq<char>) -> Seq<
    Seq<char>,
> {
    seq!["clone"@, "-b"@, rev, github_url(repo), dest]
}

/// The directory a component's build steps run in.
pub open spec fn step_dir_spec(root: Seq<char>, repo: Seq<char>, workdir: Seq<char>) -> Seq<char> {
    path_join(path_join(root, repo), workdir)
}

/// The absolute path of an artifact, given its path relative to the workdir.
pub open spec fn artifact_path_spec(
    root: Seq<char>,
    repo: Seq<char>,
    workdir: Seq<char>,
    rel: Seq<char>,
) -> Seq<char> {
    path_join(step_dir_spec(root, repo, workdir), rel)
}

/// The first artifact path recorded under a name, if any.
pub open spec fn artifact_lookup(pairs: Seq<(String, String)>, name: Seq<char>) -> Option<
    Seq<char>,
>
    decreases pairs.len(),
{
    if pairs.len() == 0 {
        None
    } else if pairs[0].0@ == name {
        Some(pairs[0].1@)
    } else {
        artifact_lookup(pairs.skip(1), name)
    }
}

/// Every build step of a component holds at least one token.
pub open spec fn steps_wf(cmd: Seq<String>) -> bool {
    forall|k: int| 0 <= k < cmd.len() ==> tokenize_spec((#[trigger] cmd[k])@).len() > 0
}

/// What a freshly planned build looks like: the pinned-revision clone first,
/// then the component's build steps in order, each rooted in the workdir.
pub open spec fn build_plan_ok(
    cache: BuildCache,
    instr: BuildInstructions,
    v: Seq<CommandSpec>,
) -> bool {
    &&& v.len() == 1 + instr.cmd@.len()
    &&& v[0].program@ == "git"@
    &&& v[0].args.deep_view() == clone_args_spec(
        instr.rev@,
        instr.repo@,
        path_join(cache.root@, instr.repo@),
    )
    &&& v[0].cwd is None
    &&& forall|k: int|
        0 <= k < instr.cmd@.len() ==> {
            let c = #[trigger] v[k + 1];
            &&& c.program@ == tokenize_spec(instr.cmd@[k]@)[0]
            &&& c.args.deep_view() == tokenize_spec(instr.cmd@[k]@).skip(1)
            &&& c.cwd matches Some(d) && d@ == step_dir_spec(cache.root@, instr.repo@, instr.workdir@)
        }
}

/// The process-wide build cache: a root directory that holds one checkout
/// per repository coordinate, and the set of coordinates already built in
/// this invocation.
#[derive(Debug)]
pub struct BuildCache {
    /// The directory all checkouts live under.
    pub root: String,
    /// The repository coordinates recorded as built.
    pub built: Vec<String>,
}

impl BuildCache {
    /// Whether a repository coordinate is recorded as built.
    pub open spec fn is_built_spec(&self, repo: Seq<char>) -> bool {
        exists|i: int| 0 <= i < self.built@.len() && (#[trigger] self.built@[i])@ == repo
    }

    /// A fresh cache under a root directory, with nothing recorded built.
    pub fn new(root: String) -> (r: Self)
        ensures
            r.root == root,
            r.built@.len() == 0,
    {
        BuildCache { root, built: Vec::new() }
    }

    /// Whether a component's repository is recorded as built.
    pub fn is_built(&self, instr: &BuildInstructions) -> (r: bool)
        ensures
            r == self.is_built_spec(instr.repo@),
    {
        let mut i: usize = 0;
        while i < self.built.len()
            invariant
                i <= self.built@.len(),
                forall|t: int| 0 <= t < i ==> (#[trigger] self.built@[t])@ != instr.repo@,
            decreases self.built@.len() - i,
        {
            if self.built[i].eq(&instr.repo) {
                return true;
            }
            i = i + 1;
        }
        false
    }

    /// Records a component's repository as built.
    pub fn mark_built(&mut self, instr: &BuildInstructions)
        ensures
            final(self).root == old(self).root,
            final(self).built@.len() == old(self).built@.len() + 1,
            final(self).built@[old(self).built@.len() as int]@ == instr.repo@,
            forall|t: int|
                0 <= t < old(self).built@.len() ==> final(self).built@[t] == old(self).built@[t],
            final(self).is_built_spec(instr.repo@),
    {
        let copy = String::from_str(instr.repo.as_str());
        self.built.push(copy);
    }

    /// The checkout directory of a component under the cache root.
    pub fn checkout_dir(&self, instr: &BuildInstructions) -> (r: String)
        ensures
            r@ == path_join(self.root@, instr.repo@),
    {
        join_path(self.root.as_str(), instr.repo.as_str())
    }

    /// Resolves a named artifact of a component to an absolute path. The
    /// resolution fails with a not-found error — never a bogus path — if the
    /// component was not built in this invocation or the name is absent from
    /// its artifact map.
    pub fn get_artifact(&self, instr: &BuildInstructions, name: &str) -> (r: Result<String, Error>)
        ensures
            !self.is_built_spec(instr.repo@) ==> (r matches Err(
                Error::ComponentNotBuilt { component },
            ) && component@ == instr.repo@),
            self.is_built_spec(instr.repo@) && artifact_lookup(instr.artifacts@, name@) is None
                ==> (r matches Err(Error::UnknownArtifact { name: n }) && n@ == name@),
            (self.is_built_spec(instr.repo@) && artifact_lookup(
                instr.artifacts@,
                name@,
            ) is Some) ==> (r matches Ok(p) && p@ == artifact_path_spec(
                self.root@,
                instr.repo@,
                instr.workdir@,
                artifact_lookup(instr.artifacts@, name@)->0,
            )),
    {
        if !self.is_built(instr) {
            return Err(Error::ComponentNotBuilt { component: String::from_str(instr.repo.as_str()) });
        }
        let name_s = String::from_str(name);
        let mut i: usize = 0;
        proof {
            assert(instr.artifacts@.skip(0) =~= instr.artifacts@);
        }
        while i < instr.artifacts.len()
            invariant
                self.is_built_spec(instr.repo@),
                i <= instr.artifacts@.len(),
                name_s@ == name@,
                artifact_lookup(instr.artifacts@, name@) == artifact_lookup(
                    instr.artifacts@.skip(i as int),
                    name@,
                ),
            decreases instr.artifacts@.len() - i,
        {
            let pair = &instr.artifacts[i];
            proof {
                assert(instr.artifacts@.skip(i as int)[0] == instr.artifacts@[i as int]);
                assert(instr.artifacts@.skip(i as int).skip(1) =~= instr.artifacts@.skip(
                    i as int + 1,
                ));
            }
            if pair.0.eq(&name_s) {
                let base = join_path(self.root.as_str(), instr.repo.as_str());
                let dir = join_path(base.as_str(), instr.workdir.as_str());
                let full = join_path(dir.as_str(), pair.1.as_str());
                return Ok(full);
            }
            i = i + 1;
        }
        proof {
            assert(instr.artifacts@.skip(instr.artifacts@.len() as int).len() == 0);
        }
        Err(Error::UnknownArtifact { name: name_s })
    }

    /// Plans what must run to materialize a component: nothing if its
    /// checkout is already recorded built in this invocation — no redundant
    /// clone, no rebuild — else the pinned-revision clone followed by the
    /// component's build steps in order.
    pub fn ensure_built_plan(&self, instr: &BuildInstructions) -> (r: Result<Vec<CommandSpec>, Error>)
        ensures
            self.is_built_spec(instr.repo@) ==> (r matches Ok(v) && v@.len() == 0),
            !self.is_built_spec(instr.repo@) && !steps_wf(instr.cmd@) ==> r matches Err(
                Error::EmptyCommand,
            ),
            !self.is_built_spec(instr.repo@) && steps_wf(instr.cmd@) ==> (r matches Ok(v)
                && build_plan_ok(*self, *instr, v@)),
    {
        if self.is_built(instr) {
            return Ok(Vec::new());
        }
        let mut plan: Vec<CommandSpec> = Vec::new();
        let dest = self.checkout_dir(instr);
        let mut url = String::from_str("https://github.com/");
        url.append(instr.repo.as_str());
        let mut clone_args: Vec<String> = Vec::new();
        clone_args.push(String::from_str("clone"));
        clone_args.push(String::from_str("-b"));
        clone_args.push(String::from_str(instr.rev.as_str()));
        clone_args.push(url);
        clone_args.push(dest);
        proof {
            assert(clone_args.deep_view() =~= clone_args_spec(
                instr.rev@,
                instr.repo@,
                path_join(self.root@, instr.repo@),
            ));
        }
        plan.push(CommandSpec { program: String::from_str("git"), args: clone_args, cwd: None });
        let base = join_path(self.root.as_str(), instr.repo.as_str());
        let dir = join_path(base.as_str(), instr.workdir.as_str());
        let mut k: usize = 0;
        while k < instr.cmd.len()
            invariant
                !self.is_built_spec(instr.repo@),
                k <= instr.cmd@.len(),
                dir@ == step_dir_spec(self.root@, instr.repo@, instr.workdir@),
                plan@.len() == 1 + k,
                plan@[0].program@ == "git"@,
                plan@[0].args.deep_view() == clone_args_spec(
                    instr.rev@,
                    instr.repo@,
                    path_join(self.root@, instr.repo@),
                ),
                plan@[0].cwd is None,
                forall|t: int| 0 <= t < k ==> tokenize_spec((#[trigger] instr.cmd@[t])@).len() > 0,
                forall|t: int|
                    0 <= t < k ==> {
                        let c = #[trigger] plan@[t + 1];
                        &&& c.program@ == tokenize_spec(instr.cmd@[t]@)[0]
                        &&& c.args.deep_view() == tokenize_spec(instr.cmd@[t]@).skip(1)
                        &&& c.cwd matches Some(d) && d@ == step_dir_spec(
                            self.root@,
                            instr.repo@,
                            instr.workdir@,
                        )
                    },
            decreases instr.cmd@.len() - k,
        {
            let cwd = String::from_str(dir.as_str());
            match parse_command(instr.cmd[k].as_str(), Some(cwd)) {
                Ok(c) => {
                    plan.push(c);
                },
                Err(e) => {
                    proof {
                        assert(tokenize_spec(instr.cmd@[k as int]@).len() == 0);
                        assert(!steps_wf(instr.cmd@));
                    }
                    return Err(e);
                },
            }
            k = k + 1;
        }
        Ok(plan)
    }
}

impl BuildCache {
    /// Records the outcome of a planned build: on success the component is
    /// recorded built; a failing command aborts the whole build with an error
    /// naming the component and the failing position in the plan (position
    /// zero is the clone). A failed build leaves the cache unchanged and is
    /// never retried automatically.
    pub fn complete_build(&mut self, instr: &BuildInstructions, failed_step: Option<usize>) -> (r:
        Result<(), Error>)
        ensures
            failed_step is None ==> (r matches Ok(()) && final(self).root == old(self).root
                && final(self).built@.len() == old(self).built@.len() + 1
                && final(self).built@[old(self).built@.len() as int]@ == instr.repo@ && (forall|
                t: int,
            |
                0 <= t < old(self).built@.len() ==> final(self).built@[t] == old(self).built@[t])
                && final(self).is_built_spec(instr.repo@)),
            failed_step matches Some(k) ==> (r matches Err(Error::BuildFailed { component, step })
                && component@ == instr.repo@ && step == k && *final(self) == *old(self)),
    {
        match failed_step {
            None => {
                self.mark_built(instr);
                Ok(())
            },
            Some(k) => Err(
                Error::BuildFailed { component: String::from_str(instr.repo.as_str()), step: k },
            ),
        }
    }
}

/// Law: the orchestrator is idempotent over the cache. Recording a component
/// built makes it count as built — so a later plan for it holds no clone and
/// no build step, by the contract of `ensure_built_plan` — and everything
/// recorded built before stays recorded built. Artifact paths never depend on
/// the build record at all: `get_artifact` resolves them from the cache root
/// and the instructions alone.
pub proof fn lemma_ensure_built_idempotent(
    before: BuildCache,
    after: BuildCache,
    instr: BuildInstructions,
)
    requires
        after.root@ == before.root@,
        after.built@.len() == before.built@.len() + 1,
        after.built@[before.built@.len() as int]@ == instr.repo@,
        forall|t: int| 0 <= t < before.built@.len() ==> after.built@[t] == before.built@[t],
    ensures
        after.is_built_spec(instr.repo@),
        forall|repo: Seq<char>|
            before.is_built_spec(repo) ==> #[trigger] after.is_built_spec(repo),
{
    assert(after.built@[before.built@.len() as int]@ == instr.repo@);
    assert forall|repo: Seq<char>|
        before.is_built_spec(repo) implies #[trigger] after.is_built_spec(repo) by {
        let i = choose|i: int|
            0 <= i < before.built@.len() && (#[trigger] before.built@[i])@ == repo;
        assert(after.built@[i]@ == repo);
    }
}

} // verus!
