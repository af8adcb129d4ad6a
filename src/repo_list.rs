//! The repository list: one identifier per line, with blank lines and
//! `#` comments left out.
use vstd::prelude::*;
use crate::text::{trim, trimmed, views};

verus! {

/// The lines of `s`: each `\n` ends one line and starts the next.
pub open spec fn lines_of(s: Seq<char>) -> Seq<Seq<char>>
    decreases s.len(),
{
    if s.len() == 0 {
        seq![Seq::empty()]
    } else {
        let prev = lines_of(s.drop_last());
        if s.last() == '\n' {
            prev.push(Seq::empty())
        } else {
            prev.update(prev.len() - 1, prev.last().push(s.last()))
        }
    }
}

/// Whether a trimmed line names a repository.
pub open spec fn is_entry(line: Seq<char>) -> bool {
    line.len() > 0 && line[0] != '#'
}

/// The identifiers that the given lines name, in order.
pub open spec fn entries_of(lines: Seq<Seq<char>>) -> Seq<Seq<char>>
    decreases lines.len(),
{
    if lines.len() == 0 {
        Seq::empty()
    } else {
        let prev = entries_of(lines.drop_last());
        let t = trimmed(lines.last());
        if is_entry(t) {
            prev.push(t)
        } else {
            prev
        }
    }
}

/// The identifiers that a repository list names, in order.
pub open spec fn repo_ids_of(s: Seq<char>) -> Seq<Seq<char>> {
    entries_of(lines_of(s))
}

proof fn lemma_lines_nonempty(s: Seq<char>)
    ensures
        lines_of(s).len() >= 1,
    decreases s.len(),
{
    if s.len() > 0 {
        lemma_lines_nonempty(s.drop_last());
    }
}

/// Reads the repository identifiers out of the text of a repository list:
/// each line is trimmed, and empty lines and lines that start with `#` are
/// left out.
pub fn parse_repo_list(text: &str) -> (r: Vec<String>)
    ensures
        views(r@) == repo_ids_of(text@),
{
    let n = text.unicode_len();
    let mut out: Vec<String> = Vec::new();
    let mut start: usize = 0;
    let mut i: usize = 0;
    proof {
        assert(text@.subrange(0, 0) =~= Seq::<char>::empty());
        assert(entries_of(lines_of(Seq::<char>::empty()).drop_last()) =~= Seq::<Seq<char>>::empty());
        assert(views(out@) =~= Seq::<Seq<char>>::empty());
    }
    while i < n
        invariant
            n == text@.len(),
            start <= i <= n,
            lines_of(text@.subrange(0, i as int)).len() >= 1,
            lines_of(text@.subrange(0, i as int)).last() == text@.subrange(start as int, i as int),
            views(out@) == entries_of(lines_of(text@.subrange(0, i as int)).drop_last()),
        decreases n - i,
    {
        let ghost p = text@.subrange(0, i as int);
        let ghost q = text@.subrange(0, i + 1);
        assert(q.drop_last() =~= p);
        proof {
            lemma_lines_nonempty(p);
        }
        if text.get_char(i) == '\n' {
            let line = trim(text.substring_char(start, i));
            let ghost done = lines_of(p);
            assert(lines_of(q) == done.push(Seq::empty()));
            assert(lines_of(q).drop_last() =~= done);
            assert(done.drop_last() =~= done.subrange(0, done.len() - 1));
            if line.unicode_len() > 0 && line.as_str().get_char(0) != '#' {
                out.push(line);
                assert(views(out@) =~= views(out@).drop_last().push(line@));
                assert(views(out@).drop_last() =~= views(out@.drop_last()));
            }
            start = i + 1;
            assert(text@.subrange(start as int, i + 1) =~= Seq::<char>::empty());
        } else {
            let ghost done = lines_of(p);
            assert(lines_of(q) == done.update(done.len() - 1, done.last().push(text@[i as int])));
            assert(lines_of(q).drop_last() =~= done.drop_last());
            assert(text@.subrange(start as int, i + 1) =~= text@.subrange(start as int, i as int).push(text@[i as int]));
        }
        i = i + 1;
    }
    let last = trim(text.substring_char(start, n));
    assert(text@.subrange(0, n as int) =~= text@);
    let ghost all = lines_of(text@);
    assert(all.drop_last() =~= all.subrange(0, all.len() - 1));
    if last.unicode_len() > 0 && last.as_str().get_char(0) != '#' {
        out.push(last);
        assert(views(out@) =~= views(out@).drop_last().push(last@));
        assert(views(out@).drop_last() =~= views(out@.drop_last()));
    }
    out
}

} // verus!
