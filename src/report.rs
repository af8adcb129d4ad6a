//! The report block of one repository, and the synchronized output that
//! keeps each block in one piece.
use vstd::prelude::*;
use crate::text::{trim, trimmed};

verus! {

/// One line of terminal output, and the stream it goes to.
#[derive(Debug, PartialEq, Eq)]
pub struct OutputLine {
    pub text: String,
    /// Set for the error stream, clear for the standard output.
    pub to_stderr: bool,
}

/// What running the version-control tool gave.
#[derive(Debug, PartialEq, Eq)]
pub enum Outcome {
    /// The process ran (whatever its exit status) and this is what it printed.
    Ran { stdout: String, stderr: String },
    /// The process could not be started, for the given cause.
    SpawnFailed { cause: String },
}

/// The view of an output line: its text and whether it goes to the error stream.
pub open spec fn line_view(l: OutputLine) -> (Seq<char>, bool) {
    (l.text@, l.to_stderr)
}

/// The views of a sequence of output lines.
pub open spec fn lines_view(v: Seq<OutputLine>) -> Seq<(Seq<char>, bool)> {
    v.map_values(|l: OutputLine| line_view(l))
}

/// The header line of a report, with the command label already upper-cased.
pub open spec fn header_of(label: Seq<char>, repo: Seq<char>) -> Seq<char> {
    "\n\x1B[34m=== "@ + label + ": "@ + repo + " ===\x1B[0m"@
}

/// The line that reports a process that could not be started.
pub open spec fn failure_of(command: Seq<char>, repo: Seq<char>, cause: Seq<char>) -> Seq<char> {
    "\n\x1B[31m[ERROR] "@ + command + " failed on "@ + repo + ": "@ + cause + "\x1B[0m"@
}

/// `text`, trimmed, as one line on the given stream; nothing where the
/// trimmed text is empty.
pub open spec fn text_block(text: Seq<char>, to_stderr: bool) -> Seq<(Seq<char>, bool)> {
    if trimmed(text).len() > 0 {
        seq![(trimmed(text), to_stderr)]
    } else {
        Seq::empty()
    }
}

/// The block reported for one repository, with `label` the upper-cased
/// command, `command` the command as it was requested.
pub open spec fn report_of(
    label: Seq<char>,
    command: Seq<char>,
    repo: Seq<char>,
    outcome: Outcome,
) -> Seq<(Seq<char>, bool)> {
    match outcome {
        Outcome::Ran { stdout, stderr } => seq![(header_of(label, repo), false)] + text_block(
            stdout@,
            false,
        ) + text_block(stderr@, true),
        Outcome::SpawnFailed { cause } => seq![(failure_of(command, repo, cause@), true)],
    }
}

/// What `str::to_uppercase` gives for a string.
pub uninterp spec fn upper_of(s: Seq<char>) -> Seq<char>;

/// Relies on `str::to_uppercase`: the upper-case form depends on the
/// characters alone.
#[verifier::external_body]
fn uppercase(s: &str) -> (r: String)
    ensures
        r@ == upper_of(s@),
{
    s.to_uppercase()
}

fn push_text(out: &mut Vec<OutputLine>, text: &str, to_stderr: bool)
    ensures
        lines_view(final(out)@) == lines_view(old(out)@) + text_block(text@, to_stderr),
{
    let t = trim(text);
    if t.unicode_len() > 0 {
        let ghost before = out@;
        out.push(OutputLine { text: t, to_stderr });
        assert(lines_view(out@) =~= lines_view(before) + text_block(text@, to_stderr));
    } else {
        assert(lines_view(out@) =~= lines_view(out@) + text_block(text@, to_stderr));
    }
}

/// Builds the block reported for one repository, given the upper-cased label
/// of the requested command.
pub fn report_lines(label: &str, command: &str, repo: &str, outcome: &Outcome) -> (r: Vec<
    OutputLine,
>)
    ensures
        lines_view(r@) == report_of(label@, command@, repo@, *outcome),
{
    let mut out: Vec<OutputLine> = Vec::new();
    match outcome {
        Outcome::Ran { stdout, stderr } => {
            let mut h = String::from_str("\n\x1B[34m=== ");
            h.append(label);
            h.append(": ");
            h.append(repo);
            h.append(" ===\x1B[0m");
            out.push(OutputLine { text: h, to_stderr: false });
            assert(lines_view(out@) =~= seq![(header_of(label@, repo@), false)]);
            push_text(&mut out, stdout.as_str(), false);
            push_text(&mut out, stderr.as_str(), true);
        },
        Outcome::SpawnFailed { cause } => {
            let mut e = String::from_str("\n\x1B[31m[ERROR] ");
            e.append(command);
            e.append(" failed on ");
            e.append(repo);
            e.append(": ");
            e.append(cause.as_str());
            e.append("\x1B[0m");
            out.push(OutputLine { text: e, to_stderr: true });
            assert(lines_view(out@) =~= seq![(failure_of(command@, repo@, cause@), true)]);
        },
    }
    out
}

/// Builds the block reported for one repository: a header with the requested
/// command upper-cased, then the trimmed output and error text where they are
/// not empty; or one error line where the process could not be started.
pub fn report(command: &str, repo: &str, outcome: &Outcome) -> (r: Vec<OutputLine>)
    ensures
        lines_view(r@) == report_of(upper_of(command@), command@, repo@, *outcome),
{
    let label = uppercase(command);
    report_lines(label.as_str(), command, repo, outcome)
}

/// Emits one block into the output: its lines are appended together, in
/// order, so that no other block comes between them.
pub fn print_sync(out: &mut Vec<OutputLine>, block: Vec<OutputLine>)
    ensures
        final(out)@ == old(out)@ + block@,
{
    let mut block = block;
    let ghost before = out@;
    let ghost all = block@;
    out.append(&mut block);
    assert(out@ =~= before + all);
}

} // verus!
