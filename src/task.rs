//! The work on one repository as a machine of steps: each step names the
//! process to run, the block to print, or the end. Running processes and
//! printing is left to the caller, which hands back what a process gave.
use vstd::prelude::*;
use crate::config::Config;
use crate::naming::{joined_path, local_name_of, local_repo_path};
use crate::report::{lines_view, report, report_of, upper_of, OutputLine, Outcome};
use crate::resolver::{clone_word, resolution_of, resolve};
use crate::text::{same_text, views};

verus! {

/// The word of the subcommand that reports the state of a working tree.
pub open spec fn status_word() -> Seq<char> {
    seq!['s', 't', 'a', 't', 'u', 's']
}

/// Which of the processes of one repository a step runs.
#[derive(Clone, Copy, Debug, PartialEq, Eq, Structural)]
pub enum Phase {
    /// The machine-readable status query that tells whether the working tree is clean.
    QuietCheck,
    /// The process whose output is reported.
    Main,
}

/// What the caller does next for one repository.
#[derive(Debug, PartialEq, Eq)]
pub enum Step {
    /// Run the version-control tool with these arguments.
    Run { phase: Phase, args: Vec<String> },
    /// Print this block as one piece.
    Emit { lines: Vec<OutputLine> },
    /// Nothing is left to do.
    Finish,
}

/// The view of a step.
pub enum StepView {
    Run(Phase, Seq<Seq<char>>),
    Emit(Seq<(Seq<char>, bool)>),
    Finish,
}

/// What a step holds, over views.
pub open spec fn step_view(s: Step) -> StepView {
    match s {
        Step::Run { phase, args } => StepView::Run(phase, views(args@)),
        Step::Emit { lines } => StepView::Emit(lines_view(lines@)),
        Step::Finish => StepView::Finish,
    }
}

/// The arguments that run `command` for a repository: a clone runs in the
/// directory that holds the clones, anything else in the local copy.
pub open spec fn main_args(
    command: Seq<char>,
    repo: Seq<char>,
    dev_dir: Seq<char>,
    local: Seq<char>,
) -> Seq<Seq<char>> {
    if command == clone_word() {
        seq!["-C"@, dev_dir, clone_word(), repo]
    } else {
        seq!["-C"@, local, command]
    }
}

/// The arguments of the quiet status query.
pub open spec fn quiet_args(local: Seq<char>) -> Seq<Seq<char>> {
    seq!["-C"@, local, status_word(), "--porcelain"@]
}

/// The first step for a repository, given whether its local copy exists.
pub open spec fn start_of(
    requested: Seq<char>,
    repo: Seq<char>,
    dev_dir: Seq<char>,
    local: Seq<char>,
    exists: bool,
) -> StepView {
    let (command, skip) = resolution_of(requested, exists);
    if skip {
        StepView::Finish
    } else if command == status_word() {
        StepView::Run(Phase::QuietCheck, quiet_args(local))
    } else {
        StepView::Run(Phase::Main, main_args(command, repo, dev_dir, local))
    }
}

/// Whether an outcome is a process that ran and printed nothing on its
/// standard output.
pub open spec fn printed_nothing(outcome: Outcome) -> bool {
    match outcome {
        Outcome::Ran { stdout, .. } => stdout@.len() == 0,
        Outcome::SpawnFailed { .. } => false,
    }
}

/// The step that follows a process of the given phase and its outcome, with
/// `label` the upper-cased requested command.
pub open spec fn resume_of(
    label: Seq<char>,
    requested: Seq<char>,
    repo: Seq<char>,
    local: Seq<char>,
    phase: Phase,
    outcome: Outcome,
) -> StepView {
    match phase {
        Phase::QuietCheck => if printed_nothing(outcome) {
            StepView::Finish
        } else {
            StepView::Run(Phase::Main, seq!["-C"@, local, status_word()])
        },
        Phase::Main => StepView::Emit(report_of(label, requested, repo, outcome)),
    }
}

/// The work on one repository under one run's settings.
#[derive(Debug)]
pub struct RepoTask {
    /// The subcommand that was requested.
    pub requested: String,
    /// The repository identifier.
    pub repo: String,
    /// The directory that holds the clones.
    pub dev_dir: String,
    /// Where the local copy of the repository is (or would be).
    pub local_path: String,
}

impl RepoTask {
    /// Sets up the work on `repo`: its local path is its local name under
    /// the directory that holds the clones.
    pub fn new(config: &Config, repo: &str) -> (r: RepoTask)
        ensures
            r.requested@ == config.cmd@,
            r.repo@ == repo@,
            r.dev_dir@ == config.dev_dir@,
            r.local_path@ == joined_path(config.dev_dir@, local_name_of(repo@)),
    {
        RepoTask {
            requested: config.cmd.clone(),
            repo: String::from_str(repo),
            dev_dir: config.dev_dir.clone(),
            local_path: local_repo_path(config.dev_dir.as_str(), repo),
        }
    }

    /// The first step, given whether the local copy exists: nothing for a
    /// skipped repository, the quiet status query for `status`, else the
    /// resolved command.
    pub fn start(&self, exists: bool) -> (r: Step)
        ensures
            step_view(r) == start_of(
                self.requested@,
                self.repo@,
                self.dev_dir@,
                self.local_path@,
                exists,
            ),
    {
        let res = resolve(self.requested.as_str(), exists);
        if res.skip {
            return Step::Finish;
        }
        let status = "status";
        let porcelain = "--porcelain";
        let clone = "clone";
        proof {
            reveal_strlit("status");
            reveal_strlit("clone");
        }
        assert(status@ =~= status_word());
        assert(clone@ =~= clone_word());
        let mut args: Vec<String> = Vec::new();
        args.push(String::from_str("-C"));
        if same_text(res.command.as_str(), status) {
            args.push(self.local_path.clone());
            args.push(String::from_str(status));
            args.push(String::from_str(porcelain));
            assert(views(args@) =~= quiet_args(self.local_path@));
            Step::Run { phase: Phase::QuietCheck, args }
        } else if same_text(res.command.as_str(), clone) {
            args.push(self.dev_dir.clone());
            args.push(String::from_str(clone));
            args.push(self.repo.clone());
            assert(views(args@) =~= main_args(
                res.command@,
                self.repo@,
                self.dev_dir@,
                self.local_path@,
            ));
            Step::Run { phase: Phase::Main, args }
        } else {
            args.push(self.local_path.clone());
            args.push(res.command);
            assert(views(args@) =~= main_args(
                res.command@,
                self.repo@,
                self.dev_dir@,
                self.local_path@,
            ));
            Step::Run { phase: Phase::Main, args }
        }
    }

    /// The step after a process of the given phase: a clean working tree ends
    /// the work silently, else the full status runs; the outcome of the main
    /// process is reported.
    pub fn resume(&self, phase: Phase, outcome: &Outcome) -> (r: Step)
        ensures
            step_view(r) == resume_of(
                upper_of(self.requested@),
                self.requested@,
                self.repo@,
                self.local_path@,
                phase,
                *outcome,
            ),
    {
        match phase {
            Phase::QuietCheck => {
                let quiet = match outcome {
                    Outcome::Ran { stdout, .. } => stdout.as_str().unicode_len() == 0,
                    Outcome::SpawnFailed { .. } => false,
                };
                if quiet {
                    Step::Finish
                } else {
                    let status = "status";
                    proof {
                        reveal_strlit("status");
                    }
                    assert(status@ =~= status_word());
                    let mut args: Vec<String> = Vec::new();
                    args.push(String::from_str("-C"));
                    args.push(self.local_path.clone());
                    args.push(String::from_str(status));
                    assert(views(args@) =~= seq!["-C"@, self.local_path@, status_word()]);
                    Step::Run { phase: Phase::Main, args }
                }
            },
            Phase::Main => {
                let lines = report(self.requested.as_str(), self.repo.as_str(), outcome);
                Step::Emit { lines }
            },
        }
    }
}

/// Cloning a repository whose local copy exists runs no process and prints
/// nothing: the work ends at its first step.
pub proof fn lemma_present_clone_runs_nothing(repo: Seq<char>, dev_dir: Seq<char>, local: Seq<char>)
    ensures
        start_of(clone_word(), repo, dev_dir, local, true) == StepView::Finish,
{
}

/// When the quiet status query printed nothing, the working tree is clean:
/// no full status runs and no block is printed.
pub proof fn lemma_clean_tree_is_silent(
    label: Seq<char>,
    requested: Seq<char>,
    repo: Seq<char>,
    local: Seq<char>,
    stdout: String,
    stderr: String,
)
    requires
        stdout@.len() == 0,
    ensures
        resume_of(
            label,
            requested,
            repo,
            local,
            Phase::QuietCheck,
            Outcome::Ran { stdout, stderr },
        ) == StepView::Finish,
{
}

} // verus!
