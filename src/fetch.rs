//! Bringing a cached git working tree to a requested version.
//!
//! The library decides which git command comes next; the caller runs it and
//! reports how it went. A cached tree is first put back on the remote's
//! default branch (its symbolic HEAD, else `main`, else `master`), then pulled
//! when a refresh is asked for, and finally checked out at the requested
//! version unless that is `latest`. A tree that is not cached yet is cloned,
//! its tags fetched, and the version checked out.

use vstd::prelude::*;
use crate::error::EnvyrError;
use crate::text::{owned, seq_starts_with, trimmed};

verus! {

/// A git command to run in (or, for a clone, into) the cache directory.
#[derive(Debug, Clone)]
pub enum GitCommand {
    /// `git symbolic-ref refs/remotes/origin/HEAD --short`
    DefaultBranch,
    /// `git checkout <target>`
    Checkout { target: String },
    /// `git pull`
    Pull,
    /// `git fetch --tags`
    FetchTags,
    /// `git clone <url> <dest>`, after creating the parent of `dest`
    Clone { url: String, dest: String },
}

/// How a git command went.
#[derive(Debug, Clone)]
pub enum GitOutcome {
    /// It exited with status zero, printing `stdout`.
    Succeeded { stdout: String },
    /// It exited with another status, printing `stderr`.
    Failed { stderr: String },
    /// It could not be started.
    NotStarted { reason: String },
}

/// What the caller does next.
#[derive(Debug, Clone)]
pub enum FetchStep {
    /// Run the command and report its outcome.
    Run(GitCommand),
    /// The working tree at this path is ready.
    Done(String),
    /// The fetch failed.
    Fail(EnvyrError),
}

/// Where a fetch stands: the command that is running, or `Finished`.
#[derive(PartialEq, Eq, Structural, Clone, Copy, Debug)]
pub enum FetchPhase {
    DefaultBranch,
    CheckoutDefault,
    CheckoutMain,
    CheckoutMaster,
    Pull,
    FetchTags,
    CheckoutVersion,
    Clone,
    Finished,
}

/// One fetch of `url` into `dir` at `version`.
#[derive(Debug, Clone)]
pub struct FetchSession {
    pub url: String,
    pub dir: String,
    pub version: String,
    pub refresh: bool,
    pub phase: FetchPhase,
}

/// The version that means "stay on the default branch".
pub open spec fn is_latest(version: Seq<char>) -> bool {
    version == "latest"@
}

/// The phase after the default branch is back in place.
pub open spec fn restored_phase(refresh: bool, latest: bool) -> FetchPhase {
    if refresh {
        FetchPhase::Pull
    } else if latest {
        FetchPhase::Finished
    } else {
        FetchPhase::CheckoutVersion
    }
}

/// The phase after the tags are fetched.
pub open spec fn tagged_phase(latest: bool) -> FetchPhase {
    if latest {
        FetchPhase::Finished
    } else {
        FetchPhase::CheckoutVersion
    }
}

/// The phase that follows `p` when its command ended with `o`.
pub open spec fn next_phase(p: FetchPhase, refresh: bool, latest: bool, o: GitOutcome) -> FetchPhase {
    match p {
        FetchPhase::DefaultBranch => if o is Succeeded {
            FetchPhase::CheckoutDefault
        } else {
            FetchPhase::CheckoutMain
        },
        FetchPhase::CheckoutDefault => match o {
            GitOutcome::Succeeded { .. } => restored_phase(refresh, latest),
            GitOutcome::Failed { .. } => FetchPhase::CheckoutMain,
            GitOutcome::NotStarted { .. } => FetchPhase::Finished,
        },
        FetchPhase::CheckoutMain => match o {
            GitOutcome::Succeeded { .. } => restored_phase(refresh, latest),
            GitOutcome::Failed { .. } => FetchPhase::CheckoutMaster,
            GitOutcome::NotStarted { .. } => FetchPhase::Finished,
        },
        FetchPhase::CheckoutMaster => if o is Succeeded {
            restored_phase(refresh, latest)
        } else {
            FetchPhase::Finished
        },
        FetchPhase::Pull => if o is Succeeded {
            FetchPhase::FetchTags
        } else {
            FetchPhase::Finished
        },
        FetchPhase::FetchTags => if o is Succeeded {
            tagged_phase(latest)
        } else {
            FetchPhase::Finished
        },
        FetchPhase::Clone => if o is Succeeded {
            FetchPhase::FetchTags
        } else {
            FetchPhase::Finished
        },
        _ => FetchPhase::Finished,
    }
}

/// The branch that `git symbolic-ref --short` printed, without `origin/`.
pub open spec fn default_branch_of(stdout: Seq<char>) -> Seq<char> {
    let t = trimmed(stdout);
    if seq_starts_with(t, "origin/"@) {
        t.skip("origin/"@.len() as int)
    } else {
        t
    }
}

/// `c` is the command that session `s` runs in its phase; `o` is the outcome
/// that led there.
pub open spec fn command_fits(s: FetchSession, o: GitOutcome, c: GitCommand) -> bool {
    match s.phase {
        FetchPhase::DefaultBranch => c is DefaultBranch,
        FetchPhase::CheckoutDefault => c is Checkout && o is Succeeded && c->target@
            == default_branch_of(o->stdout@),
        FetchPhase::CheckoutMain => c is Checkout && c->target@ == "main"@,
        FetchPhase::CheckoutMaster => c is Checkout && c->target@ == "master"@,
        FetchPhase::Pull => c is Pull,
        FetchPhase::FetchTags => c is FetchTags,
        FetchPhase::CheckoutVersion => c is Checkout && c->target@ == s.version@,
        FetchPhase::Clone => c is Clone && c->url@ == s.url@ && c->dest@ == s.dir@,
        FetchPhase::Finished => false,
    }
}

/// What a command printed for the outcome: its output on success, its
/// error output on failure, or why it could not start.
pub open spec fn outcome_detail(o: GitOutcome) -> Seq<char> {
    match o {
        GitOutcome::Succeeded { stdout } => stdout@,
        GitOutcome::Failed { stderr } => stderr@,
        GitOutcome::NotStarted { reason } => reason@,
    }
}

/// The stage that an error names when the command of phase `p` fails.
pub open spec fn fail_stage(p: FetchPhase, version: Seq<char>) -> Seq<char> {
    match p {
        FetchPhase::CheckoutDefault => "checkout default branch"@,
        FetchPhase::CheckoutMain => "checkout default branch"@,
        FetchPhase::CheckoutMaster => "checkout default branch"@,
        FetchPhase::Pull => "pull git repository"@,
        FetchPhase::FetchTags => "fetch tags"@,
        FetchPhase::CheckoutVersion => "checkout version '"@ + version + "'"@,
        _ => "clone git repository"@,
    }
}

/// `st` is what session `s` asks for once it is in its phase, having left
/// phase `from` on outcome `o`: the next command, the directory when done,
/// or an error that names the failed stage and carries what git said.
pub open spec fn step_fits(s: FetchSession, from: FetchPhase, o: GitOutcome, st: FetchStep) -> bool {
    if s.phase == FetchPhase::Finished {
        if o is Succeeded {
            st is Done && st->Done_0@ == s.dir@
        } else {
            &&& st is Fail
            &&& st->Fail_0 is Git
            &&& st->Fail_0->stage@ == fail_stage(from, s.version@)
            &&& st->Fail_0->detail@ == outcome_detail(o)
        }
    } else {
        st is Run && command_fits(s, o, st->Run_0)
    }
}

fn git_error(stage: String, o: &GitOutcome) -> (r: EnvyrError)
    ensures
        r is Git,
        r->stage == stage,
        r->detail@ == outcome_detail(*o),
{
    let detail = match o {
        GitOutcome::Succeeded { stdout } => stdout.clone(),
        GitOutcome::Failed { stderr } => stderr.clone(),
        GitOutcome::NotStarted { reason } => reason.clone(),
    };
    EnvyrError::Git { stage, detail }
}

/// The default branch named by the output of `git symbolic-ref --short`.
pub fn default_branch(stdout: &str) -> (r: String)
    ensures
        r@ == default_branch_of(stdout@),
{
    let t = crate::text::trim(stdout);
    let prefix = crate::text::chars_of("origin/");
    let n = crate::text::chars_of(t.as_str()).len();
    if crate::text::starts_with(t.as_str(), "origin/") {
        crate::text::slice_of(t.as_str(), prefix.len(), n)
    } else {
        t
    }
}

impl FetchSession {
    /// Starts fetching `url` into `dir` at `version`; `cached` tells whether
    /// `dir` already holds a clone.
    pub fn start(url: &str, dir: &str, version: &str, refresh: bool, cached: bool) -> (r: (
        FetchSession,
        FetchStep,
    ))
        ensures
            r.0.url@ == url@,
            r.0.dir@ == dir@,
            r.0.version@ == version@,
            r.0.refresh == refresh,
            r.0.phase == (if cached {
                FetchPhase::DefaultBranch
            } else {
                FetchPhase::Clone
            }),
            r.1 is Run && command_fits(r.0, GitOutcome::NotStarted { reason: r.0.url }, r.1->Run_0),
    {
        let phase = if cached {
            FetchPhase::DefaultBranch
        } else {
            FetchPhase::Clone
        };
        let s = FetchSession {
            url: owned(url),
            dir: owned(dir),
            version: owned(version),
            refresh,
            phase,
        };
        let c = if cached {
            GitCommand::DefaultBranch
        } else {
            GitCommand::Clone { url: owned(url), dest: owned(dir) }
        };
        (s, FetchStep::Run(c))
    }

    fn is_latest_version(&self) -> (r: bool)
        ensures
            r == is_latest(self.version@),
    {
        let v = crate::text::chars_of(self.version.as_str());
        let l = crate::text::chars_of("latest");
        if v.len() != l.len() {
            return false;
        }
        assert(v@.subrange(0, l@.len() as int) =~= v@);
        crate::text::matches_at(&v, &l, 0)
    }

    /// Takes the outcome of the command that the last step asked for and
    /// says what comes next.
    pub fn advance(&mut self, o: GitOutcome) -> (st: FetchStep)
        requires
            old(self).phase != FetchPhase::Finished,
        ensures
            final(self).url == old(self).url,
            final(self).dir == old(self).dir,
            final(self).version == old(self).version,
            final(self).refresh == old(self).refresh,
            final(self).phase == next_phase(
                old(self).phase,
                old(self).refresh,
                is_latest(old(self).version@),
                o,
            ),
            step_fits(*final(self), old(self).phase, o, st),
    {
        let latest = self.is_latest_version();
        let ok = match &o {
            GitOutcome::Succeeded { .. } => true,
            _ => false,
        };
        let p = self.phase;
        let next = match p {
            FetchPhase::DefaultBranch => if ok {
                FetchPhase::CheckoutDefault
            } else {
                FetchPhase::CheckoutMain
            },
            FetchPhase::CheckoutDefault => match &o {
                GitOutcome::Succeeded { .. } => self.restored(latest),
                GitOutcome::Failed { .. } => FetchPhase::CheckoutMain,
                GitOutcome::NotStarted { .. } => FetchPhase::Finished,
            },
            FetchPhase::CheckoutMain => match &o {
                GitOutcome::Succeeded { .. } => self.restored(latest),
                GitOutcome::Failed { .. } => FetchPhase::CheckoutMaster,
                GitOutcome::NotStarted { .. } => FetchPhase::Finished,
            },
            FetchPhase::CheckoutMaster => if ok {
                self.restored(latest)
            } else {
                FetchPhase::Finished
            },
            FetchPhase::Pull => if ok {
                FetchPhase::FetchTags
            } else {
                FetchPhase::Finished
            },
            FetchPhase::FetchTags => if !ok {
                FetchPhase::Finished
            } else if latest {
                FetchPhase::Finished
            } else {
                FetchPhase::CheckoutVersion
            },
            FetchPhase::Clone => if ok {
                FetchPhase::FetchTags
            } else {
                FetchPhase::Finished
            },
            _ => FetchPhase::Finished,
        };
        self.phase = next;
        match next {
            FetchPhase::DefaultBranch => FetchStep::Run(GitCommand::DefaultBranch),
            FetchPhase::CheckoutDefault => {
                let target = match &o {
                    GitOutcome::Succeeded { stdout } => default_branch(stdout.as_str()),
                    _ => owned("main"),
                };
                FetchStep::Run(GitCommand::Checkout { target })
            },
            FetchPhase::CheckoutMain => FetchStep::Run(
                GitCommand::Checkout { target: owned("main") },
            ),
            FetchPhase::CheckoutMaster => FetchStep::Run(
                GitCommand::Checkout { target: owned("master") },
            ),
            FetchPhase::Pull => FetchStep::Run(GitCommand::Pull),
            FetchPhase::FetchTags => FetchStep::Run(GitCommand::FetchTags),
            FetchPhase::CheckoutVersion => FetchStep::Run(
                GitCommand::Checkout { target: self.version.clone() },
            ),
            FetchPhase::Clone => FetchStep::Run(
                GitCommand::Clone { url: self.url.clone(), dest: self.dir.clone() },
            ),
            FetchPhase::Finished => {
                if ok {
                    FetchStep::Done(self.dir.clone())
                } else {
                    let stage = match p {
                        FetchPhase::CheckoutDefault => owned("checkout default branch"),
                        FetchPhase::CheckoutMain => owned("checkout default branch"),
                        FetchPhase::CheckoutMaster => owned("checkout default branch"),
                        FetchPhase::Pull => owned("pull git repository"),
                        FetchPhase::FetchTags => owned("fetch tags"),
                        FetchPhase::CheckoutVersion => {
                            let mut m = owned("checkout version '");
                            m.append(self.version.as_str());
                            m.append("'");
                            m
                        },
                        _ => owned("clone git repository"),
                    };
                    FetchStep::Fail(git_error(stage, &o))
                }
            },
        }
    }

    fn restored(&self, latest: bool) -> (r: FetchPhase)
        ensures
            r == restored_phase(self.refresh, latest),
    {
        if self.refresh {
            FetchPhase::Pull
        } else if latest {
            FetchPhase::Finished
        } else {
            FetchPhase::CheckoutVersion
        }
    }
}

/// The phases that a fetch passes through from `p` when its commands end
/// with the outcomes `os`, one after another.
pub open spec fn run_phases(
    p: FetchPhase,
    refresh: bool,
    latest: bool,
    os: Seq<GitOutcome>,
) -> Seq<FetchPhase>
    decreases os.len(),
{
    if os.len() == 0 || p == FetchPhase::Finished {
        seq![]
    } else {
        let q = next_phase(p, refresh, latest, os[0]);
        seq![q] + run_phases(q, refresh, latest, os.drop_first())
    }
}

/// Without a refresh, a fetch that is not pulling never comes to pull,
/// whatever git answers.
pub proof fn lemma_no_refresh_never_pulls(p: FetchPhase, latest: bool, os: Seq<GitOutcome>)
    requires
        p != FetchPhase::Pull,
    ensures
        !run_phases(p, false, latest, os).contains(FetchPhase::Pull),
    decreases os.len(),
{
    if os.len() > 0 && p != FetchPhase::Finished {
        let q = next_phase(p, false, latest, os[0]);
        lemma_no_refresh_never_pulls(q, latest, os.drop_first());
        let rest = run_phases(q, false, latest, os.drop_first());
        assert(run_phases(p, false, latest, os) == seq![q] + rest);
        assert forall|i: int| 0 <= i < 1 + rest.len() implies (seq![q] + rest)[i]
            != FetchPhase::Pull by {
            if i > 0 {
                assert((seq![q] + rest)[i] == rest[i - 1]);
            }
        }
    }
}

/// A fetch of a cached tree without a refresh never runs `git pull`,
/// whatever git answers.
pub proof fn lemma_cached_fetch_without_refresh_never_pulls(latest: bool, os: Seq<GitOutcome>)
    ensures
        !run_phases(FetchPhase::DefaultBranch, false, latest, os).contains(FetchPhase::Pull),
{
    lemma_no_refresh_never_pulls(FetchPhase::DefaultBranch, latest, os);
}

/// With a refresh, a cached tree is pulled as soon as its default branch is
/// back in place, whichever of the three checkouts brought it back.
pub proof fn lemma_refresh_pulls_after_restore(p: FetchPhase, latest: bool, o: GitOutcome)
    requires
        p == FetchPhase::CheckoutDefault || p == FetchPhase::CheckoutMain || p
            == FetchPhase::CheckoutMaster,
        o is Succeeded,
    ensures
        next_phase(p, true, latest, o) == FetchPhase::Pull,
{
}

/// A fetch of a cached tree with a refresh, where git succeeds, runs
/// `git pull` second, right after checking out the default branch.
pub proof fn lemma_cached_fetch_with_refresh_pulls(latest: bool, os: Seq<GitOutcome>)
    requires
        os.len() >= 2,
        forall|i: int| 0 <= i < os.len() ==> (#[trigger] os[i]) is Succeeded,
    ensures
        run_phases(FetchPhase::DefaultBranch, true, latest, os)[1] == FetchPhase::Pull,
{
    let q = next_phase(FetchPhase::DefaultBranch, true, latest, os[0]);
    assert(q == FetchPhase::CheckoutDefault);
    let os1 = os.drop_first();
    assert(os1[0] == os[1]);
    let r = next_phase(q, true, latest, os1[0]);
    assert(r == FetchPhase::Pull);
    assert(run_phases(q, true, latest, os1) == seq![r] + run_phases(r, true, latest, os1.drop_first()));
}

/// For a version other than `latest`, a fetch reports success only on the
/// outcome of a successful `git checkout <version>`: the tree ends at that
/// version, whatever the cache held before.
pub proof fn lemma_pinned_fetch_ends_on_version(
    s: FetchSession,
    o: GitOutcome,
    t: FetchSession,
    st: FetchStep,
)
    requires
        !is_latest(s.version@),
        s.phase != FetchPhase::Finished,
        t.phase == next_phase(s.phase, s.refresh, is_latest(s.version@), o),
        t.dir == s.dir,
        step_fits(t, s.phase, o, st),
        st is Done,
    ensures
        s.phase == FetchPhase::CheckoutVersion,
        o is Succeeded,
{
}

proof fn lemma_run_phases_len(p: FetchPhase, refresh: bool, latest: bool, os: Seq<GitOutcome>)
    ensures
        run_phases(p, refresh, latest, os).len() <= os.len(),
    decreases os.len(),
{
    if os.len() > 0 && p != FetchPhase::Finished {
        lemma_run_phases_len(
            next_phase(p, refresh, latest, os[0]),
            refresh,
            latest,
            os.drop_first(),
        );
    }
}

/// For a version other than `latest`, wherever a run finishes on a success,
/// the phase before was the checkout of that version.
pub proof fn lemma_pinned_run_ends_on_version(
    p: FetchPhase,
    refresh: bool,
    os: Seq<GitOutcome>,
    i: int,
)
    requires
        0 <= i < run_phases(p, refresh, false, os).len(),
        run_phases(p, refresh, false, os)[i] == FetchPhase::Finished,
        os[i] is Succeeded,
    ensures
        (if i == 0 {
            p
        } else {
            run_phases(p, refresh, false, os)[i - 1]
        }) == FetchPhase::CheckoutVersion,
    decreases os.len(),
{
    lemma_run_phases_len(p, refresh, false, os);
    let q = next_phase(p, refresh, false, os[0]);
    let rest = run_phases(q, refresh, false, os.drop_first());
    assert(run_phases(p, refresh, false, os) == seq![q] + rest);
    if i > 0 {
        assert(rest[i - 1] == FetchPhase::Finished);
        assert(os.drop_first()[i - 1] == os[i]);
        lemma_pinned_run_ends_on_version(q, refresh, os.drop_first(), i - 1);
        if i > 1 {
            assert(rest[i - 2] == (seq![q] + rest)[i - 1]);
        }
    }
}

/// The phases that put a cached tree back on its default branch.
pub open spec fn is_restoring(p: FetchPhase) -> bool {
    p == FetchPhase::DefaultBranch || p == FetchPhase::CheckoutDefault || p
        == FetchPhase::CheckoutMain || p == FetchPhase::CheckoutMaster
}

/// With a refresh, a run that is restoring the default branch and later
/// finishes on a success has pulled before.
proof fn lemma_restoring_success_pulled(p: FetchPhase, latest: bool, os: Seq<GitOutcome>, i: int)
    requires
        is_restoring(p),
        0 <= i < run_phases(p, true, latest, os).len(),
        run_phases(p, true, latest, os)[i] == FetchPhase::Finished,
        os[i] is Succeeded,
    ensures
        run_phases(p, true, latest, os).subrange(0, i).contains(FetchPhase::Pull),
    decreases os.len(),
{
    lemma_run_phases_len(p, true, latest, os);
    let q = next_phase(p, true, latest, os[0]);
    let rest = run_phases(q, true, latest, os.drop_first());
    let all = run_phases(p, true, latest, os);
    assert(all == seq![q] + rest);
    if q == FetchPhase::Pull {
        assert(i > 0);
        assert(all.subrange(0, i)[0] == FetchPhase::Pull);
    } else {
        assert(i > 0);
        assert(is_restoring(q));
        assert(rest[i - 1] == all[i]);
        assert(os.drop_first()[i - 1] == os[i]);
        lemma_restoring_success_pulled(q, latest, os.drop_first(), i - 1);
        let pre = rest.subrange(0, i - 1);
        let k = choose|k: int| 0 <= k < pre.len() && #[trigger] pre[k] == FetchPhase::Pull;
        assert(all.subrange(0, i)[k + 1] == rest[k]);
    }
}

/// A fetch of a cached tree with a refresh that ends in success, whatever
/// git answered on the way, ran `git pull` before it ended.
pub proof fn lemma_refreshed_fetch_success_pulled(latest: bool, os: Seq<GitOutcome>, i: int)
    requires
        0 <= i < run_phases(FetchPhase::DefaultBranch, true, latest, os).len(),
        run_phases(FetchPhase::DefaultBranch, true, latest, os)[i] == FetchPhase::Finished,
        os[i] is Succeeded,
    ensures
        run_phases(FetchPhase::DefaultBranch, true, latest, os).subrange(0, i).contains(
            FetchPhase::Pull,
        ),
{
    lemma_restoring_success_pulled(FetchPhase::DefaultBranch, latest, os, i);
}

/// A pull that succeeds is followed by `git fetch --tags`; outside the
/// default-branch fallbacks, a command that fails ends the fetch, with no
/// retry and no later command.
pub proof fn lemma_pull_then_tags_and_no_retry(
    p: FetchPhase,
    refresh: bool,
    latest: bool,
    o: GitOutcome,
)
    ensures
        p == FetchPhase::Pull && o is Succeeded ==> next_phase(p, refresh, latest, o)
            == FetchPhase::FetchTags,
        !is_restoring(p) && !(o is Succeeded) ==> next_phase(p, refresh, latest, o)
            == FetchPhase::Finished,
{
}

} // verus!
