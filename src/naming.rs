//! Where a repository lives locally: its local name and its local path.
use vstd::prelude::*;

verus! {

/// The suffix that marks a bare repository name.
pub open spec fn git_suffix() -> Seq<char> {
    seq!['.', 'g', 'i', 't']
}

/// `s` with every trailing `.git` removed, one after another.
pub open spec fn strip_git(s: Seq<char>) -> Seq<char>
    decreases s.len(),
{
    if s.len() >= 4 && s.subrange(s.len() - 4, s.len() as int) == git_suffix() {
        strip_git(s.subrange(0, s.len() - 4))
    } else {
        s
    }
}

/// The part of `s` after its last `/` (all of `s` when it has none).
pub open spec fn last_segment(s: Seq<char>) -> Seq<char>
    decreases s.len(),
{
    if s.len() == 0 {
        s
    } else if s.last() == '/' {
        Seq::empty()
    } else {
        last_segment(s.drop_last()).push(s.last())
    }
}

/// The directory name of a repository: the last path segment of its
/// identifier once every trailing `.git` is gone.
pub open spec fn local_name_of(repo: Seq<char>) -> Seq<char> {
    last_segment(strip_git(repo))
}

/// What `std::path::Path::join` gives for a directory and a relative name.
pub uninterp spec fn joined_path(dir: Seq<char>, name: Seq<char>) -> Seq<char>;

/// Relies on `std::path::Path::join`: the joined path depends on the two
/// parts alone, and joining UTF-8 text gives UTF-8 text.
#[verifier::external_body]
fn join_path(dir: &str, name: &str) -> (r: String)
    ensures
        r@ == joined_path(dir@, name@),
{
    std::path::Path::new(dir).join(name).to_string_lossy().into_owned()
}

/// Derives the local name of a repository from its identifier:
/// `https://example.com/org/foo.git` gives `foo`.
pub fn local_name(repo: &str) -> (r: String)
    ensures
        r@ == local_name_of(repo@),
{
    let n = repo.unicode_len();
    let suffix = ".git";
    proof {
        reveal_strlit(".git");
    }
    let mut j: usize = n;
    assert(repo@.subrange(0, n as int) =~= repo@);
    while j >= 4 && crate::text::same_text(repo.substring_char(j - 4, j), suffix)
        invariant
            n == repo@.len(),
            j <= n,
            suffix@ == git_suffix(),
            strip_git(repo@.subrange(0, j as int)) == strip_git(repo@),
        decreases j,
    {
        assert(repo@.subrange(0, j as int).subrange(j - 4, j as int) =~= repo@.subrange(
            j - 4,
            j as int,
        ));
        assert(repo@.subrange(0, j as int).subrange(0, j - 4) =~= repo@.subrange(0, j - 4));
        j = j - 4;
    }
    proof {
        let t = repo@.subrange(0, j as int);
        if j >= 4 {
            assert(t.subrange(j - 4, j as int) =~= repo@.subrange(j - 4, j as int));
        }
        assert(strip_git(t) == t);
    }
    let mut k: usize = j;
    while k > 0 && repo.get_char(k - 1) != '/'
        invariant
            k <= j <= n,
            n == repo@.len(),
            last_segment(repo@.subrange(0, j as int)) == last_segment(
                repo@.subrange(0, k as int),
            ) + repo@.subrange(k as int, j as int),
        decreases k,
    {
        let ghost p = repo@.subrange(0, k as int);
        assert(p.drop_last() =~= repo@.subrange(0, k - 1));
        assert(repo@.subrange(k - 1, j as int) =~= seq![p.last()] + repo@.subrange(
            k as int,
            j as int,
        ));
        assert(last_segment(p) == last_segment(p.drop_last()).push(p.last()));
        assert(last_segment(p.drop_last()).push(p.last()) + repo@.subrange(k as int, j as int)
            =~= last_segment(p.drop_last()) + repo@.subrange(k - 1, j as int));
        k = k - 1;
    }
    assert(last_segment(repo@.subrange(0, k as int)) =~= Seq::<char>::empty());
    assert(repo@.subrange(0, 0) =~= Seq::<char>::empty());
    assert(last_segment(repo@.subrange(0, j as int)) =~= repo@.subrange(k as int, j as int));
    String::from_str(repo.substring_char(k, j))
}

/// The local path of a repository: its local name under the directory that
/// holds the clones.
pub fn local_repo_path(dev_dir: &str, repo: &str) -> (r: String)
    ensures
        r@ == joined_path(dev_dir@, local_name_of(repo@)),
{
    let name = local_name(repo);
    join_path(dev_dir, name.as_str())
}

} // verus!
