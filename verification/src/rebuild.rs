//! Rebuild dependency tracking for the shader build.  A shader source may
//! textually pull in sibling files, which in turn may pull in others; when
//! any file changes, every shader that references it, directly or through a
//! chain of references, must be translated again.  Files are numbered, and
//! the reference structure is an adjacency list over those numbers.

use vstd::prelude::*;
use vstd::pervasive::VecAdditionalExecFns;

verus! {

/// The reference structure of a shader source directory: entry `i` of
/// `refs` lists the files that file `i` textually pulls in.
pub struct SourceGraph {
    pub refs: Vec<Vec<usize>>,
}

impl SourceGraph {
    /// Every reference points at a file of the directory.
    pub open spec fn wf(&self) -> bool {
        forall|i: int, k: int|
            0 <= i < self.refs@.len() && 0 <= k < self.refs@[i]@.len() ==> (
            self.refs@[i]@[k] as int) < self.refs@.len()
    }

    /// How many files the directory holds.
    pub open spec fn file_count(&self) -> nat {
        self.refs@.len()
    }

    /// The adjacency lists as a mathematical value.
    pub open spec fn adj(&self) -> Seq<Seq<usize>> {
        self.refs.deep_view()
    }

    pub fn new(refs: Vec<Vec<usize>>) -> (r: Option<SourceGraph>)
        ensures
            match r {
                Some(g) => g.wf() && g.refs@ == refs@,
                None => !(SourceGraph { refs }).wf(),
            },
    {
        let n = refs.len();
        let mut i: usize = 0;
        while i < n
            invariant
                i <= n,
                n == refs@.len(),
                forall|i2: int, k: int|
                    0 <= i2 < i && 0 <= k < refs@[i2]@.len() ==> (refs@[i2]@[k] as int)
                        < refs@.len(),
            decreases n - i,
        {
            let row = &refs[i];
            let mut k: usize = 0;
            while k < row.len()
                invariant
                    k <= row@.len(),
                    i < n,
                    row@ == refs@[i as int]@,
                    n == refs@.len(),
                    forall|k2: int| 0 <= k2 < k ==> (row@[k2] as int) < refs@.len(),
                decreases row@.len() - k,
            {
                if row[k] >= n {
                    proof {
                        let g0 = (SourceGraph { refs });
                        assert(g0.refs@ == refs@);
                        assert((i as int) < g0.refs@.len());
                        assert((k as int) < g0.refs@[i as int]@.len());
                        assert((g0.refs@[i as int]@[k as int] as int) >= g0.refs@.len());
                        assert(!g0.wf());
                    }
                    return None;
                }
                k += 1;
            }
            i += 1;
        }
        Some(SourceGraph { refs })
    }
}

/// Whether file `to` can be reached from file `from` along at most `fuel`
/// references.
pub open spec fn reach_within(g: Seq<Seq<usize>>, from: int, to: int, fuel: nat) -> bool
    decreases fuel,
{
    if from == to {
        true
    } else if fuel == 0 {
        false
    } else {
        exists|k: int|
            0 <= k < g[from].len() && reach_within(g, g[from][k] as int, to, (fuel - 1) as nat)
    }
}

/// Whether file `from` references file `to`, directly or through a chain of
/// references; every file reaches itself.
pub open spec fn reaches(g: Seq<Seq<usize>>, from: int, to: int) -> bool {
    exists|fuel: nat| reach_within(g, from, to, fuel)
}

/// A file reaches itself: its own change forces its own rebuild.
pub proof fn lemma_reaches_self(g: Seq<Seq<usize>>, i: int)
    ensures
        reaches(g, i, i),
{
    assert(reach_within(g, i, i, 0));
}

/// A direct reference is reached: a shader reaches every file it pulls in.
pub proof fn lemma_reaches_direct(g: Seq<Seq<usize>>, i: int, k: int)
    requires
        0 <= k < g[i].len(),
    ensures
        reaches(g, i, g[i][k] as int),
{
    assert(reach_within(g, g[i][k] as int, g[i][k] as int, 0));
    assert(reach_within(g, i, g[i][k] as int, 1));
}

/// Bounded reachability concatenates: a chain of at most `f1` references
/// followed by one of at most `f2` is a chain of at most `f1 + f2`.
proof fn lemma_reach_within_trans(g: Seq<Seq<usize>>, a: int, b: int, c: int, f1: nat, f2: nat)
    requires
        reach_within(g, a, b, f1),
        reach_within(g, b, c, f2),
    ensures
        reach_within(g, a, c, f1 + f2),
    decreases f1,
{
    if a == b {
        assert(reach_within(g, b, c, f1 + f2)) by {
            lemma_reach_within_widen(g, b, c, f2, f1 + f2);
        }
    } else {
        let k = choose|k: int|
            0 <= k < g[a].len() && reach_within(g, g[a][k] as int, b, (f1 - 1) as nat);
        lemma_reach_within_trans(g, g[a][k] as int, b, c, (f1 - 1) as nat, f2);
        assert(reach_within(g, g[a][k] as int, c, ((f1 - 1) + f2) as nat));
    }
}

/// More fuel never loses a chain.
proof fn lemma_reach_within_widen(g: Seq<Seq<usize>>, a: int, b: int, f1: nat, f2: nat)
    requires
        reach_within(g, a, b, f1),
        f1 <= f2,
    ensures
        reach_within(g, a, b, f2),
    decreases f1,
{
    if a != b {
        let k = choose|k: int|
            0 <= k < g[a].len() && reach_within(g, g[a][k] as int, b, (f1 - 1) as nat);
        lemma_reach_within_widen(g, g[a][k] as int, b, (f1 - 1) as nat, (f2 - 1) as nat);
    }
}

/// Reference chains compose: if one file reaches a second and the second
/// reaches a third, the first reaches the third.  With
/// `lemma_reaches_direct`, every shader that pulls in a changed file
/// through any chain of references is marked for rebuild.
pub proof fn lemma_reaches_transitive(g: Seq<Seq<usize>>, a: int, b: int, c: int)
    requires
        reaches(g, a, b),
        reaches(g, b, c),
    ensures
        reaches(g, a, c),
{
    let f1 = choose|f1: nat| reach_within(g, a, b, f1);
    let f2 = choose|f2: nat| reach_within(g, b, c, f2);
    lemma_reach_within_trans(g, a, b, c, f1, f2);
}

/// How many entries of `s` are set.
pub open spec fn count_true(s: Seq<bool>) -> nat
    decreases s.len(),
{
    if s.len() == 0 {
        0
    } else {
        count_true(s.drop_last()) + if s.last() {
            1nat
        } else {
            0nat
        }
    }
}

proof fn lemma_count_true_le_len(s: Seq<bool>)
    ensures
        count_true(s) <= s.len(),
    decreases s.len(),
{
    if s.len() > 0 {
        lemma_count_true_le_len(s.drop_last());
    }
}

proof fn lemma_count_true_update(s: Seq<bool>, i: int)
    requires
        0 <= i < s.len(),
        !s[i],
    ensures
        count_true(s.update(i, true)) == count_true(s) + 1,
    decreases s.len(),
{
    if i == s.len() - 1 {
        assert(s.update(i, true).drop_last() =~= s.drop_last());
    } else {
        assert(s.update(i, true).drop_last() =~= s.drop_last().update(i, true));
        assert(s.update(i, true).last() == s.last());
        lemma_count_true_update(s.drop_last(), i);
    }
}

/// A marking that holds `from`, and holds every reference of every marked
/// file, holds everything `from` reaches.
proof fn lemma_closed_marking_covers(
    g: Seq<Seq<usize>>,
    marks: Seq<bool>,
    from: int,
    to: int,
    fuel: nat,
)
    requires
        forall|i: int, k: int| 0 <= i < g.len() && 0 <= k < g[i].len() ==> (g[i][k] as int) < g.len(),
        marks.len() == g.len(),
        0 <= from < g.len(),
        marks[from],
        forall|j: int, k: int|
            0 <= j < g.len() && marks[j] && 0 <= k < g[j].len() ==> marks[#[trigger] g[j][k] as int],
        reach_within(g, from, to, fuel),
    ensures
        0 <= to < g.len() && marks[to],
    decreases fuel,
{
    if from != to {
        let k = choose|k: int|
            0 <= k < g[from].len() && reach_within(g, g[from][k] as int, to, (fuel - 1) as nat);
        lemma_closed_marking_covers(g, marks, g[from][k] as int, to, (fuel - 1) as nat);
    }
}

/// Marks every file reachable from `start` along references: entry `j` of
/// the result says whether `start` reaches `j`.
pub fn reachable_from(g: &SourceGraph, start: usize) -> (r: Vec<bool>)
    requires
        g.wf(),
        (start as int) < g.file_count(),
    ensures
        r@.len() == g.file_count(),
        forall|j: int| 0 <= j < r@.len() ==> r@[j] == reaches(g.adj(), start as int, j),
{
    let n = g.refs.len();
    let ghost adj = g.adj();
    proof {
        assert(adj.len() == n);
        assert forall|i: int, k: int|
            0 <= i < adj.len() && 0 <= k < adj[i].len() implies (adj[i][k] as int) < adj.len() by {
            assert(adj[i] == g.refs@[i]@);
        }
    }
    let mut seen: Vec<bool> = Vec::new();
    let mut i: usize = 0;
    while i < n
        invariant
            i <= n,
            seen@.len() == i,
            forall|j: int| 0 <= j < i ==> !seen@[j],
            count_true(seen@) == 0,
        decreases n - i,
    {
        proof {
            assert(seen@.push(false).drop_last() =~= seen@);
        }
        seen.push(false);
        i += 1;
    }
    proof {
        lemma_count_true_update(seen@, start as int);
        lemma_reaches_self(adj, start as int);
    }
    seen.set(start, true);
    let mut todo: Vec<usize> = Vec::new();
    todo.push(start);
    let mut marked: usize = 1;
    proof {
        assert(todo@[0] == start);
        assert(todo@.contains(start));
    }
    while todo.len() > 0
        invariant
            seen@.len() == n,
            adj.len() == n,
            adj == g.adj(),
            forall|i2: int, k: int|
                0 <= i2 < adj.len() && 0 <= k < adj[i2].len() ==> (adj[i2][k] as int) < adj.len(),
            (start as int) < n,
            seen@[start as int],
            forall|t: int|
                0 <= t < todo@.len() ==> (todo@[t] as int) < n && seen@[todo@[t] as int],
            forall|t1: int, t2: int|
                0 <= t1 < t2 < todo@.len() ==> todo@[t1] != todo@[t2],
            forall|j: int| 0 <= j < n && seen@[j] ==> reaches(adj, start as int, j),
            forall|j: int, k: int|
                0 <= j < n && seen@[j] && !todo@.contains(j as usize) && 0 <= k < adj[j].len()
                    ==> seen@[#[trigger] adj[j][k] as int],
            marked == count_true(seen@),
            marked <= n,
        decreases n - marked, todo@.len(),
    {
        let ghost todo_before = todo@;
        let ghost marked_before = marked as int;
        let u_opt = todo.pop();
        let u: usize;
        match u_opt {
            Some(x) => {
                u = x;
            },
            None => {
                proof {
                    assert(false);
                }
                u = 0;
            },
        }
        proof {
            assert(u == todo_before[todo_before.len() - 1]);
            assert forall|t: int| 0 <= t < todo@.len() implies todo@[t] != u by {
                assert(todo@[t] == todo_before[t]);
            }
            assert(!todo@.contains(u));
            assert forall|j: int|
                0 <= j < n && seen@[j] && !todo@.contains(j as usize) && j != u as int implies
                !todo_before.contains(j as usize) by {
                if todo_before.contains(j as usize) {
                    let t = choose|t: int|
                        0 <= t < todo_before.len() && todo_before[t] == j as usize;
                    if t < todo_before.len() - 1 {
                        assert(todo@[t] == j as usize);
                        assert(todo@.contains(j as usize));
                    }
                }
            }
        }
        let row_len = g.refs[u].len();
        let mut k: usize = 0;
        while k < row_len
            invariant
                seen@.len() == n,
                adj.len() == n,
                adj == g.adj(),
                forall|i2: int, k2: int|
                    0 <= i2 < adj.len() && 0 <= k2 < adj[i2].len() ==> (adj[i2][k2] as int)
                        < adj.len(),
                (start as int) < n,
                (u as int) < n,
                row_len == adj[u as int].len(),
                k <= row_len,
                seen@[start as int],
                seen@[u as int],
                forall|t: int|
                    0 <= t < todo@.len() ==> (todo@[t] as int) < n && seen@[todo@[t] as int],
                forall|t1: int, t2: int|
                    0 <= t1 < t2 < todo@.len() ==> todo@[t1] != todo@[t2],
                !todo@.contains(u),
                forall|j: int| 0 <= j < n && seen@[j] ==> reaches(adj, start as int, j),
                forall|j: int, k2: int|
                    0 <= j < n && seen@[j] && !todo@.contains(j as usize) && j != u && 0 <= k2
                        < adj[j].len() ==> seen@[#[trigger] adj[j][k2] as int],
                forall|k2: int| 0 <= k2 < k ==> seen@[#[trigger] adj[u as int][k2] as int],
                marked == count_true(seen@),
                marked <= n,
                marked_before <= marked,
                marked == marked_before ==> todo@ == todo_before.drop_last(),
                todo_before.len() - 1 <= todo@.len(),
            decreases row_len - k,
        {
            let v = g.refs[u][k];
            proof {
                assert(adj[u as int][k as int] == g.refs@[u as int]@[k as int]);
            }
            if !seen[v] {
                let ghost seen_snap = seen@;
                let ghost todo_snap = todo@;
                proof {
                    lemma_count_true_update(seen@, v as int);
                    lemma_reaches_direct(adj, u as int, k as int);
                    lemma_reaches_transitive(adj, start as int, u as int, v as int);
                    lemma_count_true_le_len(seen@.update(v as int, true));
                }
                seen.set(v, true);
                marked += 1;
                todo.push(v);
                proof {
                    assert(todo@[todo@.len() - 1] == v);
                    assert(todo@.contains(v));
                    assert forall|x: usize| todo_snap.contains(x) implies todo@.contains(x) by {
                        let t = choose|t: int| 0 <= t < todo_snap.len() && todo_snap[t] == x;
                        assert(todo@[t] == x);
                    }
                    assert forall|t: int| 0 <= t < todo_snap.len() implies todo_snap[t] != v by {
                        assert(seen_snap[todo_snap[t] as int]);
                    }
                }
            }
            k += 1;
        }
    }
    proof {
        assert forall|j: int| 0 <= j < n && reaches(adj, start as int, j) implies seen@[j] by {
            let fuel = choose|fuel: nat| reach_within(adj, start as int, j, fuel);
            lemma_closed_marking_covers(adj, seen@, start as int, j, fuel);
        }
    }
    seen
}

/// Whether changing file `changed` forces translating file `shader` again:
/// exactly when `shader` references `changed`, directly or through a chain
/// of references (a file is also charged with its own change).
pub fn needs_rebuild(g: &SourceGraph, shader: usize, changed: usize) -> (r: bool)
    requires
        g.wf(),
        (shader as int) < g.file_count(),
        (changed as int) < g.file_count(),
    ensures
        r == reaches(g.adj(), shader as int, changed as int),
{
    let marks = reachable_from(g, shader);
    marks[changed]
}

/// Marks, for every file, whether changing `changed` forces translating it
/// again: entry `s` of the result says whether file `s` reaches `changed`.
pub fn rebuild_marks(g: &SourceGraph, changed: usize) -> (r: Vec<bool>)
    requires
        g.wf(),
        (changed as int) < g.file_count(),
    ensures
        r@.len() == g.file_count(),
        forall|s: int| 0 <= s < r@.len() ==> r@[s] == reaches(g.adj(), s, changed as int),
{
    let n = g.refs.len();
    let mut marks: Vec<bool> = Vec::new();
    let mut s: usize = 0;
    while s < n
        invariant
            s <= n,
            n == g.file_count(),
            g.wf(),
            (changed as int) < g.file_count(),
            marks@.len() == s,
            forall|s2: int| 0 <= s2 < s ==> marks@[s2] == reaches(g.adj(), s2, changed as int),
        decreases n - s,
    {
        let hit = needs_rebuild(g, s, changed);
        marks.push(hit);
        s += 1;
    }
    marks
}

} // verus!
