use vstd::prelude::*;

verus! {

/// `p` without what ends it but names no further component: trailing '/'
/// separators and a trailing "/." are dropped, repeatedly.
pub open spec fn stripped(p: Seq<char>) -> Seq<char>
    decreases p.len(),
{
    if p.len() >= 1 && p.last() == '/' {
        stripped(p.drop_last())
    } else if p.len() >= 2 && p.last() == '.' && p[p.len() - 2] == '/' {
        stripped(p.drop_last())
    } else {
        p
    }
}

/// Index just past the last '/' of `p`, or 0.
pub open spec fn name_start(p: Seq<char>) -> int
    decreases p.len(),
{
    if p.len() == 0 {
        0
    } else if p.last() == '/' {
        p.len() as int
    } else {
        name_start(p.drop_last())
    }
}

/// The last component of the path `p`.
pub open spec fn last_component(p: Seq<char>) -> Seq<char> {
    stripped(p).subrange(name_start(stripped(p)), stripped(p).len() as int)
}

/// Whether the path `p` ends in a file name: a last component that is not
/// empty (no component, or the root), "." or "..".
pub open spec fn names_file(p: Seq<char>) -> bool {
    let c = last_component(p);
    c.len() > 0 && c != seq!['.'] && c != seq!['.', '.']
}

/// Index of the first '.' of `p` at or after `i`, or the length of `p`.
pub open spec fn dot_from(p: Seq<char>, i: int) -> int
    decreases p.len() - i,
{
    if i < 0 || i >= p.len() {
        p.len() as int
    } else if p[i] == '.' {
        i
    } else {
        dot_from(p, i + 1)
    }
}

/// The display title of the file at path `p`: its file name up to the first '.'.
pub open spec fn title_of(p: Seq<char>) -> Seq<char> {
    last_component(p).subrange(0, dot_from(last_component(p), 0))
}

proof fn lemma_dot_from_bounds(p: Seq<char>, i: int)
    requires
        0 <= i <= p.len(),
    ensures
        i <= dot_from(p, i) <= p.len(),
    decreases p.len() - i,
{
    if i < p.len() && p[i] != '.' {
        lemma_dot_from_bounds(p, i + 1);
    }
}

proof fn lemma_name_start_bounds(p: Seq<char>)
    ensures
        0 <= name_start(p) <= p.len(),
    decreases p.len(),
{
    if p.len() > 0 && p.last() != '/' {
        lemma_name_start_bounds(p.drop_last());
    }
}

/// Where the last component of `path` lies: `path@.subrange(r.0, r.1)`.
fn component_bounds(path: &str) -> (r: (usize, usize))
    ensures
        r.0 <= r.1 <= path@.len(),
        path@.subrange(r.0 as int, r.1 as int) == last_component(path@),
{
    let n = path.unicode_len();
    let ghost p = path@;
    let mut end: usize = n;
    assert(p.subrange(0, n as int) =~= p);
    while end > 0 && (path.get_char(end - 1) == '/' || (end >= 2 && path.get_char(end - 1) == '.'
        && path.get_char(end - 2) == '/'))
        invariant
            n == p.len(),
            p == path@,
            end <= n,
            stripped(p) == stripped(p.subrange(0, end as int)),
        decreases end,
    {
        assert(p.subrange(0, end as int).drop_last() =~= p.subrange(0, end as int - 1));
        end = end - 1;
    }
    let ghost q = p.subrange(0, end as int);
    assert(stripped(q) == q);
    let mut start: usize = 0;
    let mut j: usize = 0;
    while j < end
        invariant
            n == p.len(),
            p == path@,
            end <= n,
            q == p.subrange(0, end as int),
            j <= end,
            start as int == name_start(q.subrange(0, j as int)),
        decreases end - j,
    {
        assert(q.subrange(0, j as int + 1).drop_last() =~= q.subrange(0, j as int));
        if path.get_char(j) == '/' {
            start = j + 1;
        }
        j = j + 1;
    }
    assert(q.subrange(0, end as int) =~= q);
    proof { lemma_name_start_bounds(q); }
    assert(q.subrange(start as int, end as int) =~= p.subrange(start as int, end as int));
    (start, end)
}

/// Whether `path` ends in a file name, so that it has a title.
pub fn has_file_name(path: &str) -> (r: bool)
    ensures
        r == names_file(path@),
{
    let (start, end) = component_bounds(path);
    let ghost c = path@.subrange(start as int, end as int);
    if start == end {
        return false;
    }
    if path.get_char(start) != '.' {
        assert(c[0] != '.');
        assert(c != seq!['.']);
        assert(c != seq!['.', '.']);
        return true;
    }
    if end - start == 1 {
        assert(c =~= seq!['.']);
        return false;
    }
    if end - start == 2 && path.get_char(start + 1) == '.' {
        assert(c =~= seq!['.', '.']);
        return false;
    }
    if end - start == 2 {
        assert(c[1] != '.');
    }
    assert(c.len() != 1);
    assert(c != seq!['.']);
    assert(c != seq!['.', '.']);
    true
}

/// The display title for a file path: the path's file name up to its first '.'.
pub fn title_from_path(path: &str) -> (r: String)
    requires
        names_file(path@),
    ensures
        r@ == title_of(path@),
{
    let (start, end) = component_bounds(path);
    let ghost c = path@.subrange(start as int, end as int);
    let mut k: usize = start;
    while k < end && path.get_char(k) != '.'
        invariant
            end <= path@.len(),
            c == path@.subrange(start as int, end as int),
            start <= k <= end,
            dot_from(c, 0) == dot_from(c, k - start),
        decreases end - k,
    {
        k = k + 1;
    }
    proof { lemma_dot_from_bounds(c, 0); }
    assert(c.subrange(0, k - start) =~= path@.subrange(start as int, k as int));
    path.substring_char(start, k).to_owned()
}

/// A playable track: its path, display title and duration in whole seconds.
pub struct MusicInfoTemp {
    pub path: String,
    pub title: String,
    pub duration: u64,
}

impl MusicInfoTemp {
    /// The track at `path`, lasting `duration` seconds, titled after its file name.
    pub fn new(path: String, duration: u64) -> (r: Self)
        requires
            names_file(path@),
        ensures
            r.path@ == path@,
            r.title@ == title_of(path@),
            r.duration == duration,
    {
        let title = title_from_path(path.as_str());
        MusicInfoTemp { path, title, duration }
    }

    pub fn get_path(&self) -> (r: &str)
        ensures
            r@ == self.path@,
    {
        self.path.as_str()
    }

    pub fn get_title(&self) -> (r: String)
        ensures
            r@ == self.title@,
    {
        self.title.clone()
    }

    pub fn get_duration(&self) -> (r: u64)
        ensures
            r == self.duration,
    {
        self.duration
    }
}

} // verus!
