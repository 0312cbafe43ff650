use vstd::prelude::*;

use crate::error::Error;

verus! {

/// Whether `kw` occurs in `line` starting at position `i`.
pub open spec fn occurs_at(line: Seq<char>, kw: Seq<char>, i: int) -> bool {
    0 <= i && i + kw.len() <= line.len() && line.subrange(i, i + kw.len()) == kw
}

/// Whether `kw` occurs in `line`, case-sensitively.
pub open spec fn occurs(line: Seq<char>, kw: Seq<char>) -> bool {
    exists|i: int| occurs_at(line, kw, i)
}

/// Whether every keyword occurs in `line`.
pub open spec fn matches_all(line: Seq<char>, kws: Seq<Seq<char>>) -> bool {
    forall|k: int| 0 <= k < kws.len() ==> #[trigger] occurs(line, kws[k])
}

/// The lines that hold every keyword, in their order.
pub open spec fn kept(lines: Seq<Seq<char>>, kws: Seq<Seq<char>>) -> Seq<Seq<char>>
    decreases lines.len(),
{
    if lines.len() == 0 {
        Seq::empty()
    } else {
        let rest = kept(lines.drop_last(), kws);
        if matches_all(lines.last(), kws) {
            rest.push(lines.last())
        } else {
            rest
        }
    }
}

/// The text of each line.
pub open spec fn texts(v: Seq<Vec<char>>) -> Seq<Seq<char>> {
    v.map_values(|l: Vec<char>| l@)
}

/// Whether `kw` occurs in `line` at position `i`.
fn occurs_here(line: &Vec<char>, kw: &Vec<char>, i: usize) -> (r: bool)
    requires
        i + kw@.len() <= line@.len(),
    ensures
        r == occurs_at(line@, kw@, i as int),
{
    assert(line@.len() == line.len());
    let mut j: usize = 0;
    while j < kw.len()
        invariant
            0 <= j <= kw@.len(),
            line@.len() <= usize::MAX,
            i + kw@.len() <= line@.len(),
            forall|t: int| 0 <= t < j ==> line@[i + t] == kw@[t],
        decreases kw.len() - j,
    {
        if line[i + j] != kw[j] {
            assert(line@.subrange(i as int, i + kw@.len())[j as int] != kw@[j as int]);
            return false;
        }
        j = j + 1;
    }
    assert(line@.subrange(i as int, i + kw@.len()) =~= kw@);
    true
}

/// Whether `kw` occurs in `line`, case-sensitively.
pub fn contains(line: &Vec<char>, kw: &Vec<char>) -> (r: bool)
    ensures
        r == occurs(line@, kw@),
{
    if kw.len() > line.len() {
        return false;
    }
    let last = line.len() - kw.len();
    let mut i: usize = 0;
    while i <= last
        invariant
            last + kw@.len() == line@.len(),
            i <= last,
            forall|t: int| 0 <= t < i ==> !occurs_at(line@, kw@, t),
        ensures
            forall|t: int| 0 <= t <= last ==> !occurs_at(line@, kw@, t),
        decreases last - i,
    {
        if occurs_here(line, kw, i) {
            return true;
        }
        if i == last {
            break;
        }
        i = i + 1;
    }
    assert forall|t: int| !occurs_at(line@, kw@, t) by {
        if 0 <= t <= last {
        }
    }
    false
}

/// Whether every keyword occurs in `line`.
pub fn matches_keywords(line: &Vec<char>, kws: &Vec<Vec<char>>) -> (r: bool)
    ensures
        r == matches_all(line@, texts(kws@)),
{
    let mut k: usize = 0;
    while k < kws.len()
        invariant
            0 <= k <= kws@.len(),
            forall|t: int| 0 <= t < k ==> #[trigger] occurs(line@, texts(kws@)[t]),
        decreases kws.len() - k,
    {
        if !contains(line, &kws[k]) {
            assert(!occurs(line@, texts(kws@)[k as int]));
            return false;
        }
        k = k + 1;
    }
    true
}

/// Keeps the lines of captured output that hold every keyword, in order.
pub fn grep(lines: Vec<Vec<char>>, kws: &Vec<Vec<char>>) -> (r: Vec<Vec<char>>)
    ensures
        texts(r@) == kept(texts(lines@), texts(kws@)),
{
    let mut r: Vec<Vec<char>> = Vec::new();
    let ghost all = texts(lines@);
    let n = lines.len();
    let mut i: usize = 0;
    while i < n
        invariant
            0 <= i <= n,
            n == all.len(),
            texts(lines@) == all,
            texts(r@) == kept(all.subrange(0, i as int), texts(kws@)),
        decreases n - i,
    {
        let keep = matches_keywords(&lines[i], kws);
        proof {
            let pre = all.subrange(0, i + 1);
            assert(pre.drop_last() =~= all.subrange(0, i as int));
            assert(pre.last() == lines@[i as int]@);
        }
        if keep {
            let line = copy_line(&lines[i]);
            r.push(line);
            assert(texts(r@) =~= kept(all.subrange(0, i + 1), texts(kws@)));
        }
        i = i + 1;
    }
    assert(all.subrange(0, n as int) =~= all);
    r
}

/// A copy of a line.
fn copy_line(l: &Vec<char>) -> (r: Vec<char>)
    ensures
        r@ == l@,
{
    let mut r: Vec<char> = Vec::new();
    let mut i: usize = 0;
    while i < l.len()
        invariant
            0 <= i <= l@.len(),
            r@ == l@.subrange(0, i as int),
        decreases l.len() - i,
    {
        r.push(l[i]);
        i = i + 1;
        assert(r@ =~= l@.subrange(0, i as int));
    }
    assert(l@.subrange(0, l@.len() as int) =~= l@);
    r
}

/// The output of a captured listing that ended with exit code `code`: the
/// lines that hold every keyword when it succeeded, else the failure and no
/// lines at all.
pub fn filter_output(code: i32, lines: Vec<Vec<char>>, kws: &Vec<Vec<char>>) -> (r: Result<
    Vec<Vec<char>>,
    Error,
>)
    ensures
        code == 0 ==> r is Ok && texts(r->Ok_0@) == kept(texts(lines@), texts(kws@)),
        code != 0 ==> r == Err::<Vec<Vec<char>>, Error>(Error::ProcessExitFailure(code)),
{
    if code != 0 {
        Err(Error::ProcessExitFailure(code))
    } else {
        Ok(grep(lines, kws))
    }
}

} // verus!
