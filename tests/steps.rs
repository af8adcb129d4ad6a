use repox::config::Config;
use repox::report::{print_sync, report, report_lines, OutputLine, Outcome};
use repox::task::{Phase, RepoTask, Step};

fn config(cmd: &str) -> Config {
    Config {
        cmd: cmd.to_string(),
        sub_dir: "github".to_string(),
        parallels: 5,
        repox_file: "/home/me/.repox".to_string(),
        dev_dir: "/home/me/dev/github".to_string(),
    }
}

fn strings(v: &[&str]) -> Vec<String> {
    v.iter().map(|s| s.to_string()).collect()
}

fn line(text: &str, to_stderr: bool) -> OutputLine {
    OutputLine { text: text.to_string(), to_stderr }
}

const FOO: &str = "https://example.com/org/foo.git";

#[test]
fn task_has_local_path() {
    let t = RepoTask::new(&config("pull"), FOO);
    assert_eq!(t.local_path, "/home/me/dev/github/foo");
    assert_eq!(t.requested, "pull");
    assert_eq!(t.repo, FOO);
}

#[test]
fn pull_on_missing_copy_runs_clone() {
    let t = RepoTask::new(&config("pull"), FOO);
    let step = t.start(false);
    assert_eq!(
        step,
        Step::Run { phase: Phase::Main, args: strings(&["-C", "/home/me/dev/github", "clone", FOO]) }
    );
}

#[test]
fn clone_on_present_copy_does_nothing() {
    let t = RepoTask::new(&config("clone"), FOO);
    assert_eq!(t.start(true), Step::Finish);
}

#[test]
fn fetch_on_present_copy_runs_in_local_path() {
    let t = RepoTask::new(&config("fetch"), FOO);
    assert_eq!(
        t.start(true),
        Step::Run { phase: Phase::Main, args: strings(&["-C", "/home/me/dev/github/foo", "fetch"]) }
    );
}

#[test]
fn status_starts_with_quiet_check() {
    let t = RepoTask::new(&config("status"), FOO);
    assert_eq!(
        t.start(true),
        Step::Run {
            phase: Phase::QuietCheck,
            args: strings(&["-C", "/home/me/dev/github/foo", "status", "--porcelain"])
        }
    );
}

#[test]
fn clean_tree_ends_status_silently() {
    let t = RepoTask::new(&config("status"), FOO);
    let outcome = Outcome::Ran { stdout: String::new(), stderr: "warning".to_string() };
    assert_eq!(t.resume(Phase::QuietCheck, &outcome), Step::Finish);
}

#[test]
fn dirty_tree_runs_full_status() {
    let t = RepoTask::new(&config("status"), FOO);
    let outcome = Outcome::Ran { stdout: " M a.rs\n".to_string(), stderr: String::new() };
    assert_eq!(
        t.resume(Phase::QuietCheck, &outcome),
        Step::Run { phase: Phase::Main, args: strings(&["-C", "/home/me/dev/github/foo", "status"]) }
    );
}

#[test]
fn failed_quiet_check_runs_full_status() {
    let t = RepoTask::new(&config("status"), FOO);
    let outcome = Outcome::SpawnFailed { cause: "not found".to_string() };
    assert_eq!(
        t.resume(Phase::QuietCheck, &outcome),
        Step::Run { phase: Phase::Main, args: strings(&["-C", "/home/me/dev/github/foo", "status"]) }
    );
}

#[test]
fn main_outcome_is_reported_under_requested_command() {
    let t = RepoTask::new(&config("pull"), FOO);
    let outcome = Outcome::Ran { stdout: "\nCloning into 'foo'...\n".to_string(), stderr: "  ".to_string() };
    assert_eq!(
        t.resume(Phase::Main, &outcome),
        Step::Emit {
            lines: vec![
                line(&format!("\n\x1B[34m=== PULL: {} ===\x1B[0m", FOO), false),
                line("Cloning into 'foo'...", false),
            ]
        }
    );
}

#[test]
fn report_lines_with_both_streams() {
    let outcome = Outcome::Ran { stdout: " out \n".to_string(), stderr: "\terr\n".to_string() };
    let lines = report_lines("FETCH", "fetch", "r", &outcome);
    assert_eq!(
        lines,
        vec![
            line("\n\x1B[34m=== FETCH: r ===\x1B[0m", false),
            line("out", false),
            line("err", true),
        ]
    );
}

#[test]
fn report_lines_header_only() {
    let outcome = Outcome::Ran { stdout: String::new(), stderr: "\n".to_string() };
    let lines = report_lines("X", "x", "r", &outcome);
    assert_eq!(lines, vec![line("\n\x1B[34m=== X: r ===\x1B[0m", false)]);
}

#[test]
fn report_lines_spawn_failure() {
    let outcome = Outcome::SpawnFailed { cause: "No such file or directory".to_string() };
    let lines = report_lines("FETCH", "fetch", "r", &outcome);
    assert_eq!(
        lines,
        vec![line("\n\x1B[31m[ERROR] fetch failed on r: No such file or directory\x1B[0m", true)]
    );
}

#[test]
fn report_upper_cases_label() {
    let outcome = Outcome::Ran { stdout: String::new(), stderr: String::new() };
    let lines = report("status", "r", &outcome);
    assert_eq!(lines, vec![line("\n\x1B[34m=== STATUS: r ===\x1B[0m", false)]);
}

#[test]
fn print_sync_appends_block_whole() {
    let mut out = vec![line("first", false)];
    print_sync(&mut out, vec![line("a", false), line("b", true)]);
    assert_eq!(out, vec![line("first", false), line("a", false), line("b", true)]);
}

#[test]
fn config_clone_keeps_fields() {
    let c = config("pull");
    let d = c.clone();
    assert_eq!(d.cmd, "pull");
    assert_eq!(d.sub_dir, "github");
    assert_eq!(d.parallels, 5);
    assert_eq!(d.repox_file, "/home/me/.repox");
    assert_eq!(d.dev_dir, "/home/me/dev/github");
}
