//! The per-repository pipeline as a state machine.
//!
//! The caller asks `PlanExecutor::action` what to do, does it, and hands the
//! outcome to `PlanExecutor::step`. A failed action ends the run: the caller
//! reports it with `Stage::failure_context`.
use vstd::prelude::*;
use std::sync::Arc;
use crate::command::{GitCommand, command_args, first_line_is, starts_with_line, trim, trimmed};
use crate::model::{Plan, Repository};
use crate::path::{working_copy, working_copy_path};

verus! {

/// Where a run stands.
#[derive(PartialEq, Eq, Structural, Clone, Copy, Debug)]
pub enum Stage {
    Start,
    Cloning,
    ReadingBranch,
    Resetting,
    CheckingOutDefault,
    Pulling,
    CreatingBranch,
    /// File operation `index` is next; `changed` is whether any earlier one changed a file.
    Operating { index: usize, changed: bool },
    ReadingLastCommit,
    Committing,
    Pushing,
    CheckingPr,
    OpeningPr,
    Done,
}

/// What a pull request is opened with.
pub struct PullRequest {
    pub repository: String,
    pub base: String,
    pub head: String,
    pub title: String,
    pub body: Option<String>,
}

/// What the caller is to do next.
pub enum Action {
    /// Report whether the working-copy directory exists.
    InspectDirectory(String),
    /// Run a version-control command in the working copy and report its output.
    Git(GitCommand),
    /// Apply file operation `index` of the plan and report whether a file changed.
    ApplyOperation(usize),
    /// Ask the provider whether a pull request is open for this repository and branch.
    CheckPr { repository: String, branch: String },
    /// Ask the provider to open a pull request.
    OpenPr(PullRequest),
    /// The run is over.
    Done,
}

/// The outcome of an action.
pub enum Event {
    DirectoryExists(bool),
    Output(String),
    OperationApplied(bool),
    PrOpen(bool),
    PrOpened,
}

/// The facts of a run that the transitions read.
pub struct RunFacts {
    pub branch: Seq<char>,
    pub message: Seq<char>,
    pub n_operations: nat,
}

/// Where the run goes once the files are processed.
pub open spec fn after_files(changed: bool) -> Stage {
    if changed {
        Stage::ReadingLastCommit
    } else {
        Stage::Done
    }
}

/// Where the run goes before operation `i`, with `changed` so far.
pub open spec fn operations_from(f: RunFacts, i: nat, changed: bool) -> Stage {
    if i < f.n_operations {
        Stage::Operating { index: i as usize, changed }
    } else {
        after_files(changed)
    }
}

/// The stage after `s` on outcome `e`. An outcome that does not belong to the
/// stage leaves it as it is.
pub open spec fn next_stage(f: RunFacts, s: Stage, e: Event) -> Stage {
    match (s, e) {
        (Stage::Start, Event::DirectoryExists(exists)) => if exists {
            Stage::ReadingBranch
        } else {
            Stage::Cloning
        },
        (Stage::Cloning, Event::Output(_)) => Stage::ReadingBranch,
        (Stage::ReadingBranch, Event::Output(out)) => if trimmed(out@) == f.branch {
            operations_from(f, 0, false)
        } else {
            Stage::Resetting
        },
        (Stage::Resetting, Event::Output(_)) => Stage::CheckingOutDefault,
        (Stage::CheckingOutDefault, Event::Output(_)) => Stage::Pulling,
        (Stage::Pulling, Event::Output(_)) => Stage::CreatingBranch,
        (Stage::CreatingBranch, Event::Output(_)) => operations_from(f, 0, false),
        (Stage::Operating { index, changed }, Event::OperationApplied(c)) => operations_from(
            f,
            (index + 1) as nat,
            changed || c,
        ),
        (Stage::ReadingLastCommit, Event::Output(log)) => if starts_with_line(log@, f.message) {
            Stage::Pushing
        } else {
            Stage::Committing
        },
        (Stage::Committing, Event::Output(_)) => Stage::Pushing,
        (Stage::Pushing, Event::Output(_)) => Stage::CheckingPr,
        (Stage::CheckingPr, Event::PrOpen(open)) => if open {
            Stage::Done
        } else {
            Stage::OpeningPr
        },
        (Stage::OpeningPr, Event::PrOpened) => Stage::Done,
        _ => s,
    }
}

/// The stage reached from `s` through the outcomes `es`, in order.
pub open spec fn run_stages(f: RunFacts, s: Stage, es: Seq<Event>) -> Stage
    decreases es.len(),
{
    if es.len() == 0 {
        s
    } else {
        next_stage(f, run_stages(f, s, es.drop_last()), es.last())
    }
}

/// The stages that write to the repository, its remote or the provider.
pub open spec fn is_publishing(s: Stage) -> bool {
    s is Committing || s is Pushing || s is OpeningPr
}

/// The stages that discard or rewrite the working copy's branch.
pub open spec fn is_rebranching(s: Stage) -> bool {
    s is Resetting || s is CheckingOutDefault || s is Pulling || s is CreatingBranch
}

/// The message a failure at stage `s` is reported under.
pub open spec fn failure_message(s: Stage) -> Seq<char> {
    match s {
        Stage::Start => "failed to inspect working copy"@,
        Stage::Cloning => "failed to clone repository"@,
        Stage::ReadingBranch => "failed to list branch"@,
        Stage::Resetting => "failed to reset branch"@,
        Stage::CheckingOutDefault => "failed to checkout default branch"@,
        Stage::Pulling => "failed to pull changes"@,
        Stage::CreatingBranch => "failed to checkout new branch"@,
        Stage::Operating { .. } => "failed to process files"@,
        Stage::ReadingLastCommit => "failed to read last commit"@,
        Stage::Committing => "failed to commit changes"@,
        Stage::Pushing => "failed to push changes"@,
        Stage::CheckingPr => "failed to check pull request"@,
        Stage::OpeningPr => "failed to open pull request"@,
        Stage::Done => "run already finished"@,
    }
}

impl Stage {
    pub fn failure_context(&self) -> (r: &'static str)
        ensures
            r@ == failure_message(*self),
    {
        match self {
            Stage::Start => "failed to inspect working copy",
            Stage::Cloning => "failed to clone repository",
            Stage::ReadingBranch => "failed to list branch",
            Stage::Resetting => "failed to reset branch",
            Stage::CheckingOutDefault => "failed to checkout default branch",
            Stage::Pulling => "failed to pull changes",
            Stage::CreatingBranch => "failed to checkout new branch",
            Stage::Operating { .. } => "failed to process files",
            Stage::ReadingLastCommit => "failed to read last commit",
            Stage::Committing => "failed to commit changes",
            Stage::Pushing => "failed to push changes",
            Stage::CheckingPr => "failed to check pull request",
            Stage::OpeningPr => "failed to open pull request",
            Stage::Done => "run already finished",
        }
    }
}

/// The pipeline of one plan on one repository.
pub struct PlanExecutor {
    plan: Arc<Plan>,
    repository: Repository,
    directory: String,
    stage: Stage,
}

impl PlanExecutor {
    pub closed spec fn spec_plan(&self) -> Plan {
        *self.plan
    }

    pub closed spec fn spec_repository(&self) -> Repository {
        self.repository
    }

    pub closed spec fn spec_directory(&self) -> Seq<char> {
        self.directory@
    }

    pub closed spec fn spec_stage(&self) -> Stage {
        self.stage
    }

    pub open spec fn facts(&self) -> RunFacts {
        RunFacts {
            branch: self.spec_plan().branch_name@,
            message: self.spec_plan().git_message@,
            n_operations: self.spec_plan().file_operations@.len(),
        }
    }

    /// A run of `plan` on `repository`, whose working copy is
    /// `<repositories_folder>/repos/<name>`.
    pub fn new(plan: Arc<Plan>, repository: Repository, repositories_folder: &str) -> (r: Self)
        ensures
            r.spec_plan() == *plan,
            r.spec_repository() == repository,
            r.spec_directory() == working_copy(repositories_folder@, repository.name@),
            r.spec_stage() == Stage::Start,
    {
        let directory = working_copy_path(repositories_folder, repository.name.as_str());
        PlanExecutor { plan, repository, directory, stage: Stage::Start }
    }

    pub fn stage(&self) -> (r: Stage)
        ensures
            r == self.spec_stage(),
    {
        self.stage
    }

    pub fn directory(&self) -> (r: &str)
        ensures
            r@ == self.spec_directory(),
    {
        self.directory.as_str()
    }

    pub fn repository_name(&self) -> (r: &str)
        ensures
            r@ == self.spec_repository().name@,
    {
        self.repository.name.as_str()
    }

    pub fn plan(&self) -> (r: &Plan)
        ensures
            *r == self.spec_plan(),
    {
        &self.plan
    }
}

impl PlanExecutor {
    /// The run stands at a stage that belongs to its plan.
    pub open spec fn wf(&self) -> bool {
        match self.spec_stage() {
            Stage::Operating { index, changed } => index < self.facts().n_operations,
            _ => true,
        }
    }

    /// Whether `a` is what the run is to do at its current stage.
    pub open spec fn is_next_action(&self, a: Action) -> bool {
        let plan = self.spec_plan();
        let repo = self.spec_repository();
        match self.spec_stage() {
            Stage::Start => a is InspectDirectory && a->InspectDirectory_0@ == self.spec_directory(),
            Stage::Cloning => a is Git && command_args(a->Git_0) == seq![
                "clone"@,
                repo.ssh_url@,
                self.spec_directory(),
            ],
            Stage::ReadingBranch => a is Git && a->Git_0 is ShowCurrentBranch,
            Stage::Resetting => a is Git && a->Git_0 is ResetHard,
            Stage::CheckingOutDefault => a is Git && command_args(a->Git_0) == seq![
                "checkout"@,
                repo.default_branch@,
            ],
            Stage::Pulling => a is Git && a->Git_0 is PullRebase,
            Stage::CreatingBranch => a is Git && command_args(a->Git_0) == seq![
                "checkout"@,
                "-b"@,
                plan.branch_name@,
            ],
            Stage::Operating { index, changed } => a == Action::ApplyOperation(index),
            Stage::ReadingLastCommit => a is Git && a->Git_0 is LastCommitMessage,
            Stage::Committing => a is Git && command_args(a->Git_0) == seq![
                "commit"@,
                "-a"@,
                "-m"@,
                plan.git_message@,
            ],
            Stage::Pushing => a is Git && command_args(a->Git_0) == seq![
                "push"@,
                "-u"@,
                "-f"@,
                "origin"@,
                plan.branch_name@,
            ],
            Stage::CheckingPr => a is CheckPr && a->repository@ == repo.name@ && a->branch@
                == plan.branch_name@,
            Stage::OpeningPr => a is OpenPr && a->OpenPr_0.repository@ == repo.name@
                && a->OpenPr_0.base@ == repo.default_branch@ && a->OpenPr_0.head@
                == plan.branch_name@ && a->OpenPr_0.title@ == plan.spec_title() && match (
                a->OpenPr_0.body,
                plan.pull_request_body,
            ) {
                (Some(x), Some(y)) => x@ == y@,
                (None, None) => true,
                _ => false,
            },
            Stage::Done => a is Done,
        }
    }

    /// What the caller is to do next.
    pub fn action(&self) -> (r: Action)
        ensures
            self.is_next_action(r),
    {
        let plan: &Plan = &self.plan;
        match self.stage {
            Stage::Start => Action::InspectDirectory(self.directory.clone()),
            Stage::Cloning => Action::Git(
                GitCommand::Clone {
                    url: self.repository.ssh_url.clone(),
                    path: self.directory.clone(),
                },
            ),
            Stage::ReadingBranch => Action::Git(GitCommand::ShowCurrentBranch),
            Stage::Resetting => Action::Git(GitCommand::ResetHard),
            Stage::CheckingOutDefault => Action::Git(
                GitCommand::Checkout(self.repository.default_branch.clone()),
            ),
            Stage::Pulling => Action::Git(GitCommand::PullRebase),
            Stage::CreatingBranch => Action::Git(GitCommand::CreateBranch(plan.branch_name.clone())),
            Stage::Operating { index, changed } => Action::ApplyOperation(index),
            Stage::ReadingLastCommit => Action::Git(GitCommand::LastCommitMessage),
            Stage::Committing => Action::Git(GitCommand::CommitAll(plan.git_message.clone())),
            Stage::Pushing => Action::Git(GitCommand::ForcePush(plan.branch_name.clone())),
            Stage::CheckingPr => Action::CheckPr {
                repository: self.repository.name.clone(),
                branch: plan.branch_name.clone(),
            },
            Stage::OpeningPr => {
                let body = match &plan.pull_request_body {
                    Some(b) => Some(b.clone()),
                    None => None,
                };
                Action::OpenPr(
                    PullRequest {
                        repository: self.repository.name.clone(),
                        base: self.repository.default_branch.clone(),
                        head: plan.branch_name.clone(),
                        title: plan.title(),
                        body,
                    },
                )
            },
            Stage::Done => Action::Done,
        }
    }

    fn operations_from(&self, i: usize, changed: bool) -> (r: Stage)
        requires
            i <= self.facts().n_operations,
        ensures
            r == operations_from(self.facts(), i as nat, changed),
    {
        if i < self.plan.file_operations.len() {
            Stage::Operating { index: i, changed }
        } else if changed {
            Stage::ReadingLastCommit
        } else {
            Stage::Done
        }
    }

    /// Moves the run on from the outcome of the action it asked for.
    pub fn step(&mut self, event: Event)
        requires
            old(self).wf(),
        ensures
            final(self).wf(),
            final(self).spec_plan() == old(self).spec_plan(),
            final(self).spec_repository() == old(self).spec_repository(),
            final(self).spec_directory() == old(self).spec_directory(),
            final(self).spec_stage() == next_stage(old(self).facts(), old(self).spec_stage(), event),
    {
        let n_operations = self.plan.file_operations.len();
        let next = match (self.stage, &event) {
            (Stage::Start, Event::DirectoryExists(exists)) => if *exists {
                Stage::ReadingBranch
            } else {
                Stage::Cloning
            },
            (Stage::Cloning, Event::Output(_)) => Stage::ReadingBranch,
            (Stage::ReadingBranch, Event::Output(out)) => {
                let current = trim(out.as_str());
                if current == self.plan.branch_name {
                    self.operations_from(0, false)
                } else {
                    Stage::Resetting
                }
            },
            (Stage::Resetting, Event::Output(_)) => Stage::CheckingOutDefault,
            (Stage::CheckingOutDefault, Event::Output(_)) => Stage::Pulling,
            (Stage::Pulling, Event::Output(_)) => Stage::CreatingBranch,
            (Stage::CreatingBranch, Event::Output(_)) => self.operations_from(0, false),
            (Stage::Operating { index, changed }, Event::OperationApplied(c)) => {
                self.operations_from(index + 1, changed || *c)
            },
            (Stage::ReadingLastCommit, Event::Output(log)) => {
                if first_line_is(log.as_str(), self.plan.git_message.as_str()) {
                    Stage::Pushing
                } else {
                    Stage::Committing
                }
            },
            (Stage::Committing, Event::Output(_)) => Stage::Pushing,
            (Stage::Pushing, Event::Output(_)) => Stage::CheckingPr,
            (Stage::CheckingPr, Event::PrOpen(open)) => if *open {
                Stage::Done
            } else {
                Stage::OpeningPr
            },
            (Stage::OpeningPr, Event::PrOpened) => Stage::Done,
            _ => self.stage,
        };
        self.stage = next;
    }
}

/// Whether every outcome in `es` reports a file operation that changed nothing.
pub open spec fn all_unchanged(es: Seq<Event>) -> bool {
    forall|k: int| 0 <= k < es.len() ==> #[trigger] es[k] == Event::OperationApplied(false)
}

proof fn lemma_unchanged_operations(f: RunFacts, i: nat, es: Seq<Event>)
    requires
        f.n_operations <= usize::MAX,
        all_unchanged(es),
    ensures
        run_stages(f, operations_from(f, i, false), es) == operations_from(
            f,
            i + es.len(),
            false,
        ),
    decreases es.len(),
{
    if es.len() > 0 {
        let prefix = es.drop_last();
        assert forall|k: int| 0 <= k < prefix.len() implies #[trigger] prefix[k]
            == Event::OperationApplied(false) by {
            assert(prefix[k] == es[k]);
        }
        lemma_unchanged_operations(f, i, prefix);
        assert(es.last() == es[es.len() - 1]);
    }
}

/// When no file operation changes a file, the run ends without a commit, a
/// push or a pull request: from the first operation on, each outcome that
/// reports no change leads to the next operation and, after the last one, to
/// the end of the run.
pub proof fn lemma_early_exit(f: RunFacts, es: Seq<Event>)
    requires
        f.n_operations <= usize::MAX,
        all_unchanged(es),
    ensures
        forall|k: int|
            0 <= k <= es.len() ==> !is_publishing(
                #[trigger] run_stages(f, operations_from(f, 0, false), es.take(k)),
            ),
        es.len() >= f.n_operations ==> run_stages(f, operations_from(f, 0, false), es)
            == Stage::Done,
{
    assert forall|k: int| 0 <= k <= es.len() implies !is_publishing(
        #[trigger] run_stages(f, operations_from(f, 0, false), es.take(k)),
    ) by {
        let p = es.take(k);
        assert forall|j: int| 0 <= j < p.len() implies #[trigger] p[j] == Event::OperationApplied(
            false,
        ) by {
            assert(p[j] == es[j]);
        }
        lemma_unchanged_operations(f, 0, p);
    }
    lemma_unchanged_operations(f, 0, es);
}

/// A fresh target branch always starts from the updated default branch: when
/// the branch checked out is not the target, the run resets the working copy,
/// checks out the default branch, pulls it, and only then creates the target
/// branch, in that order, before any file operation.
pub proof fn lemma_branch_from_default(f: RunFacts, current: String, es: Seq<Event>)
    requires
        trimmed(current@) != f.branch,
        es.len() == 5,
        es[0] == Event::Output(current),
        es[1] is Output,
        es[2] is Output,
        es[3] is Output,
        es[4] is Output,
    ensures
        run_stages(f, Stage::ReadingBranch, es.take(1)) == Stage::Resetting,
        run_stages(f, Stage::ReadingBranch, es.take(2)) == Stage::CheckingOutDefault,
        run_stages(f, Stage::ReadingBranch, es.take(3)) == Stage::Pulling,
        run_stages(f, Stage::ReadingBranch, es.take(4)) == Stage::CreatingBranch,
        run_stages(f, Stage::ReadingBranch, es) == operations_from(f, 0, false),
{
    let s = Stage::ReadingBranch;
    assert(es.take(1).drop_last() == es.take(0));
    assert(es.take(2).drop_last() == es.take(1));
    assert(es.take(3).drop_last() == es.take(2));
    assert(es.take(4).drop_last() == es.take(3));
    assert(es.drop_last() == es.take(4));
    assert(run_stages(f, s, es.take(0)) == s);
    assert(run_stages(f, s, es.take(1)) == next_stage(f, s, es[0]));
    assert(run_stages(f, s, es.take(2)) == next_stage(f, Stage::Resetting, es[1]));
    assert(run_stages(f, s, es.take(3)) == next_stage(f, Stage::CheckingOutDefault, es[2]));
    assert(run_stages(f, s, es.take(4)) == next_stage(f, Stage::Pulling, es[3]));
}

proof fn lemma_run_concat(f: RunFacts, s: Stage, a: Seq<Event>, b: Seq<Event>)
    ensures
        run_stages(f, s, a + b) == run_stages(f, run_stages(f, s, a), b),
    decreases b.len(),
{
    if b.len() == 0 {
        assert(a + b =~= a);
    } else {
        assert((a + b).drop_last() =~= a + b.drop_last());
        assert((a + b).last() == b.last());
        lemma_run_concat(f, s, a, b.drop_last());
    }
}

/// A second run right after a complete one changes nothing: when the working
/// copy exists, the target branch is checked out and no file operation
/// changes a file, the run clones nothing, leaves the branch as it is, makes
/// no commit, no push and no pull request, and ends after the last operation.
pub proof fn lemma_rerun_is_noop(f: RunFacts, current: String, ops: Seq<Event>)
    requires
        f.n_operations <= usize::MAX,
        trimmed(current@) == f.branch,
        all_unchanged(ops),
        ops.len() == f.n_operations,
    ensures
        ({
            let es = seq![Event::DirectoryExists(true), Event::Output(current)] + ops;
            &&& forall|k: int|
                0 <= k <= es.len() ==> {
                    let st = #[trigger] run_stages(f, Stage::Start, es.take(k));
                    !is_publishing(st) && !is_rebranching(st) && !(st is Cloning)
                }
            &&& run_stages(f, Stage::Start, es) == Stage::Done
        }),
{
    let head = seq![Event::DirectoryExists(true), Event::Output(current)];
    let es = head + ops;
    assert(head.drop_last() =~= seq![Event::DirectoryExists(true)]);
    let one = seq![Event::DirectoryExists(true)];
    assert(one.last() == one[0]);
    assert(one.drop_last() =~= Seq::<Event>::empty());
    assert(run_stages(f, Stage::Start, one.drop_last()) == Stage::Start);
    assert(head.last() == head[1]);
    assert(run_stages(f, Stage::Start, one) == Stage::ReadingBranch);
    assert(run_stages(f, Stage::Start, head) == operations_from(f, 0, false));
    lemma_early_exit(f, ops);
    assert forall|k: int| 0 <= k <= es.len() implies {
        let st = #[trigger] run_stages(f, Stage::Start, es.take(k));
        !is_publishing(st) && !is_rebranching(st) && !(st is Cloning)
    } by {
        if k == 0 {
            assert(es.take(0) =~= Seq::<Event>::empty());
        } else if k == 1 {
            assert(es.take(1) =~= seq![Event::DirectoryExists(true)]);
        } else {
            let rest = ops.take(k - 2);
            assert(es.take(k) =~= head + rest);
            lemma_run_concat(f, Stage::Start, head, rest);
            assert forall|j: int| 0 <= j < rest.len() implies #[trigger] rest[j]
                == Event::OperationApplied(false) by {
                assert(rest[j] == ops[j]);
            }
            lemma_unchanged_operations(f, 0, rest);
        }
    }
    lemma_run_concat(f, Stage::Start, head, ops);
    assert(es.take(es.len() as int) =~= es);
}

} // verus!
