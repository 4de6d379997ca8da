use std::sync::Arc;

use repo_patcher::command::GitCommand;
use repo_patcher::executor::{Action, Event, PlanExecutor, Stage};
use repo_patcher::model::{FileOperation, Plan, Processor, Repository};
use repo_patcher::transform::process_file;

const MESSAGE: &str = "Use lower-case booleans";
const BRANCH: &str = "lower-booleans";

fn replace(from: &str, to: &str) -> Processor {
    Processor::Replace { from: from.to_string(), to: to.to_string() }
}

fn plan(title: Option<&str>, body: Option<&str>) -> Arc<Plan> {
    Arc::new(Plan {
        branch_name: BRANCH.to_string(),
        git_message: MESSAGE.to_string(),
        pull_request_title: title.map(|t| t.to_string()),
        pull_request_body: body.map(|b| b.to_string()),
        file_operations: vec![FileOperation {
            pattern: "*.py".to_string(),
            processors: vec![replace("True", "true")],
        }],
    })
}

fn repository() -> Repository {
    Repository::new(
        "service".to_string(),
        "git@example.com:org/service.git".to_string(),
        "main".to_string(),
    )
}

fn args(action: &Action) -> Vec<String> {
    match action {
        Action::Git(c) => c.args(),
        _ => panic!("expected a version-control command"),
    }
}

fn output(s: &str) -> Event {
    Event::Output(s.to_string())
}

/// A working copy holding one file, run through the machine as a caller would.
struct FakeRepo {
    exists: bool,
    branch: String,
    file: String,
    last_commit: String,
    commits: Vec<String>,
    pushes: usize,
    pr_open: bool,
    prs_opened: usize,
    mutating_commands: usize,
}

impl FakeRepo {
    fn new() -> FakeRepo {
        FakeRepo {
            exists: false,
            branch: "main".to_string(),
            file: "enabled = True\n".to_string(),
            last_commit: "Initial commit\n".to_string(),
            commits: vec![],
            pushes: 0,
            pr_open: false,
            prs_opened: 0,
            mutating_commands: 0,
        }
    }

    fn run(&mut self, plan: Arc<Plan>) {
        let mut executor = PlanExecutor::new(plan.clone(), repository(), "/work");
        loop {
            let event = match executor.action() {
                Action::Done => break,
                Action::InspectDirectory(_) => Event::DirectoryExists(self.exists),
                Action::Git(command) => {
                    match &command {
                        GitCommand::ShowCurrentBranch | GitCommand::LastCommitMessage => {}
                        _ => self.mutating_commands += 1,
                    }
                    match command {
                        GitCommand::Clone { .. } => {
                            self.exists = true;
                            output("")
                        }
                        GitCommand::ShowCurrentBranch => output(&format!("{}\n", self.branch)),
                        GitCommand::Checkout(b) | GitCommand::CreateBranch(b) => {
                            self.branch = b;
                            output("")
                        }
                        GitCommand::LastCommitMessage => output(&self.last_commit.clone()),
                        GitCommand::CommitAll(m) => {
                            self.last_commit = format!("{}\n\n", m);
                            self.commits.push(m);
                            output("")
                        }
                        GitCommand::ForcePush(_) => {
                            self.pushes += 1;
                            output("")
                        }
                        _ => output(""),
                    }
                }
                Action::ApplyOperation(i) => {
                    let op = &plan.file_operations[i];
                    match process_file(&op.processors, &self.file) {
                        Some(text) => {
                            self.file = text;
                            Event::OperationApplied(true)
                        }
                        None => Event::OperationApplied(false),
                    }
                }
                Action::CheckPr { .. } => Event::PrOpen(self.pr_open),
                Action::OpenPr(_) => {
                    self.prs_opened += 1;
                    self.pr_open = true;
                    Event::PrOpened
                }
            };
            executor.step(event);
        }
    }
}

#[test]
fn scenario_replace_true_then_rerun() {
    let p = plan(None, None);
    let mut repo = FakeRepo::new();
    repo.run(p.clone());
    assert_eq!(repo.file, "enabled = true\n");
    assert_eq!(repo.commits, vec![MESSAGE.to_string()]);
    assert_eq!(repo.pushes, 1);
    assert_eq!(repo.prs_opened, 1);
    assert_eq!(repo.branch, BRANCH);

    repo.run(p);
    assert_eq!(repo.file, "enabled = true\n");
    assert_eq!(repo.commits.len(), 1);
    assert_eq!(repo.pushes, 1);
    assert_eq!(repo.prs_opened, 1);
}

#[test]
fn rerun_issues_no_mutating_command() {
    let p = plan(None, None);
    let mut repo = FakeRepo::new();
    repo.run(p.clone());
    let before = repo.mutating_commands;
    repo.run(p);
    assert_eq!(repo.mutating_commands, before);
}

#[test]
fn unchanged_files_publish_nothing() {
    let mut repo = FakeRepo::new();
    repo.file = "enabled = yes\n".to_string();
    repo.run(plan(None, None));
    assert_eq!(repo.file, "enabled = yes\n");
    assert!(repo.commits.is_empty());
    assert_eq!(repo.pushes, 0);
    assert_eq!(repo.prs_opened, 0);
}

#[test]
fn existing_commit_is_not_repeated() {
    let mut repo = FakeRepo::new();
    repo.last_commit = format!("{}\n\nDetails.\n", MESSAGE);
    repo.run(plan(None, None));
    assert!(repo.commits.is_empty());
    assert_eq!(repo.pushes, 1);
    assert_eq!(repo.prs_opened, 1);
}

#[test]
fn open_pull_request_is_not_reopened() {
    let mut repo = FakeRepo::new();
    repo.pr_open = true;
    repo.run(plan(None, None));
    assert_eq!(repo.commits.len(), 1);
    assert_eq!(repo.pushes, 1);
    assert_eq!(repo.prs_opened, 0);
}

#[test]
fn commit_message_prefix_is_not_first_line() {
    let mut repo = FakeRepo::new();
    repo.last_commit = format!("{} and more\n", MESSAGE);
    repo.run(plan(None, None));
    assert_eq!(repo.commits.len(), 1);
}

#[test]
fn branch_reconciliation_order() {
    let mut executor = PlanExecutor::new(plan(None, None), repository(), "/work");
    assert_eq!(executor.stage(), Stage::Start);
    executor.step(Event::DirectoryExists(true));
    assert_eq!(args(&executor.action()), vec!["branch", "--show-current"]);
    executor.step(output("feature-x\n"));
    assert_eq!(args(&executor.action()), vec!["reset", "--hard"]);
    executor.step(output(""));
    assert_eq!(args(&executor.action()), vec!["checkout", "main"]);
    executor.step(output(""));
    assert_eq!(args(&executor.action()), vec!["pull", "-r"]);
    executor.step(output(""));
    assert_eq!(args(&executor.action()), vec!["checkout", "-b", BRANCH]);
    executor.step(output(""));
    assert_eq!(executor.stage(), Stage::Operating { index: 0, changed: false });
}

#[test]
fn target_branch_is_kept() {
    let mut executor = PlanExecutor::new(plan(None, None), repository(), "/work");
    executor.step(Event::DirectoryExists(true));
    executor.step(output("  lower-booleans \n"));
    assert!(matches!(executor.action(), Action::ApplyOperation(0)));
}

#[test]
fn missing_working_copy_is_cloned() {
    let mut executor = PlanExecutor::new(plan(None, None), repository(), "/work");
    match executor.action() {
        Action::InspectDirectory(d) => assert_eq!(d, "/work/repos/service"),
        _ => panic!("expected a directory inspection"),
    }
    executor.step(Event::DirectoryExists(false));
    assert_eq!(
        args(&executor.action()),
        vec!["clone", "git@example.com:org/service.git", "/work/repos/service"]
    );
    executor.step(output(""));
    assert_eq!(executor.stage(), Stage::ReadingBranch);
}

#[test]
fn unrelated_event_keeps_stage() {
    let mut executor = PlanExecutor::new(plan(None, None), repository(), "/work");
    executor.step(Event::PrOpened);
    assert_eq!(executor.stage(), Stage::Start);
}

#[test]
fn publishing_commands() {
    let mut executor = PlanExecutor::new(plan(None, Some("Body text")), repository(), "/work");
    executor.step(Event::DirectoryExists(true));
    executor.step(output("lower-booleans\n"));
    executor.step(Event::OperationApplied(true));
    assert_eq!(args(&executor.action()), vec!["log", "--format=%B", "-n", "1"]);
    executor.step(output("Initial commit\n"));
    assert_eq!(args(&executor.action()), vec!["commit", "-a", "-m", MESSAGE]);
    executor.step(output(""));
    assert_eq!(args(&executor.action()), vec!["push", "-u", "-f", "origin", BRANCH]);
    executor.step(output(""));
    match executor.action() {
        Action::CheckPr { repository, branch } => {
            assert_eq!(repository, "service");
            assert_eq!(branch, BRANCH);
        }
        _ => panic!("expected a pull-request check"),
    }
    executor.step(Event::PrOpen(false));
    match executor.action() {
        Action::OpenPr(pr) => {
            assert_eq!(pr.repository, "service");
            assert_eq!(pr.base, "main");
            assert_eq!(pr.head, BRANCH);
            assert_eq!(pr.title, MESSAGE);
            assert_eq!(pr.body, Some("Body text".to_string()));
        }
        _ => panic!("expected a pull-request opening"),
    }
    executor.step(Event::PrOpened);
    assert!(matches!(executor.action(), Action::Done));
}

#[test]
fn explicit_title_is_used() {
    let p = plan(Some("Lower-case booleans"), None);
    assert_eq!(p.title(), "Lower-case booleans");
    assert_eq!(plan(None, None).title(), MESSAGE);
}

#[test]
fn failure_contexts() {
    assert_eq!(Stage::Cloning.failure_context(), "failed to clone repository");
    assert_eq!(Stage::Committing.failure_context(), "failed to commit changes");
    assert_eq!(Stage::Pushing.failure_context(), "failed to push changes");
}

#[test]
fn executor_accessors() {
    let executor = PlanExecutor::new(plan(None, None), repository(), "/work");
    assert_eq!(executor.directory(), "/work/repos/service");
    assert_eq!(executor.repository_name(), "service");
    assert_eq!(executor.plan().branch_name, BRANCH);
}
