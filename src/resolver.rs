//! The command-resolution policy: what actually runs for one repository.
use vstd::prelude::*;
use crate::text::same_text;

verus! {

/// The word of the subcommand that fetches a repository for the first time.
pub open spec fn clone_word() -> Seq<char> {
    seq!['c', 'l', 'o', 'n', 'e']
}

/// What resolving `requested` gives when the local copy does (or does not) exist:
/// the command that actually runs, and whether the repository is skipped.
pub open spec fn resolution_of(requested: Seq<char>, exists: bool) -> (Seq<char>, bool) {
    if !exists && requested != clone_word() {
        (clone_word(), false)
    } else if exists && requested == clone_word() {
        (requested, true)
    } else {
        (requested, false)
    }
}

/// The outcome of resolving a requested command for one repository.
pub struct Resolution {
    /// The subcommand that actually runs.
    pub command: String,
    /// Set when nothing runs and nothing is reported for the repository.
    pub skip: bool,
}

/// Decides what runs for one repository: a repository without a local copy is
/// cloned whatever was asked, and cloning one that is already present is skipped.
pub fn resolve(requested: &str, exists: bool) -> (r: Resolution)
    ensures
        (r.command@, r.skip) == resolution_of(requested@, exists),
{
    let clone = "clone";
    proof {
        reveal_strlit("clone");
    }
    assert(clone@ =~= clone_word());
    let is_clone = same_text(requested, clone);
    if !exists && !is_clone {
        Resolution { command: String::from_str(clone), skip: false }
    } else if exists && is_clone {
        Resolution { command: String::from_str(requested), skip: true }
    } else {
        Resolution { command: String::from_str(requested), skip: false }
    }
}

/// A repository without a local copy is cloned, whatever other command was
/// requested, and is not skipped.
pub proof fn lemma_missing_copy_is_cloned(requested: Seq<char>)
    requires
        requested != clone_word(),
    ensures
        resolution_of(requested, false) == (clone_word(), false),
{
}

/// Cloning a repository whose local copy exists is skipped.
pub proof fn lemma_present_clone_is_skipped()
    ensures
        resolution_of(clone_word(), true).1,
{
}

} // verus!
