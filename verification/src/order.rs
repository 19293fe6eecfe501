//! Deterministic ordering of probe results.
//!
//! Probes run concurrently and complete in arbitrary order; before the plan
//! is built the snapshots are sorted by repository path, so completion order
//! never leaks into the plan or into user-facing output.

use vstd::prelude::*;

use crate::status::{RepoStatus, RepoStatusView};
use crate::text::{
    lemma_lex_le_antisymmetric, lemma_lex_le_reflexive, lemma_lex_le_total,
    lemma_lex_le_transitive, lex_le, lex_le_str,
};

verus! {

/// Snapshot order: by repository path, lexicographically.
pub open spec fn path_le(a: RepoStatusView, b: RepoStatusView) -> bool {
    lex_le(a.path, b.path)
}

/// The snapshots appear in path order.
pub open spec fn sorted_by_path(s: Seq<RepoStatusView>) -> bool {
    forall|i: int, j: int| 0 <= i < j < s.len() ==> #[trigger] path_le(s[i], s[j])
}

/// No two snapshots name the same repository path.
pub open spec fn distinct_paths(s: Seq<RepoStatusView>) -> bool {
    forall|i: int, j: int| 0 <= i < j < s.len() ==> (#[trigger] s[i]).path != (#[trigger] s[j]).path
}

/// The views of a sequence of snapshots.
pub open spec fn views_of(ss: Seq<RepoStatus>) -> Seq<RepoStatusView> {
    ss.map_values(|s: RepoStatus| s@)
}

proof fn lemma_views_push(s: Seq<RepoStatus>, x: RepoStatus)
    ensures
        views_of(s.push(x)) == views_of(s).push(x@),
{
    assert(views_of(s.push(x)) =~= views_of(s).push(x@));
}

proof fn lemma_views_insert(s: Seq<RepoStatus>, p: int, x: RepoStatus)
    requires
        0 <= p <= s.len(),
    ensures
        views_of(s.insert(p, x)) == views_of(s).insert(p, x@),
{
    s.insert_ensures(p, x);
    views_of(s).insert_ensures(p, x@);
    assert forall|i: int| 0 <= i < s.len() + 1 implies views_of(s.insert(p, x))[i] == views_of(
        s,
    ).insert(p, x@)[i] by {
        if i < p {
        } else if i == p {
        } else {
            assert(s.insert(p, x)[i] == s[i - 1]);
            assert(views_of(s).insert(p, x@)[i] == views_of(s)[i - 1]);
        }
    }
    assert(views_of(s.insert(p, x)) =~= views_of(s).insert(p, x@));
}

/// Sorts the probe snapshots by repository path.  The result is a
/// permutation of the input in path order, so any completion order of the
/// concurrent probes yields the same downstream plan.
pub fn sort_statuses(ss: Vec<RepoStatus>) -> (r: Vec<RepoStatus>)
    ensures
        r@.len() == ss@.len(),
        sorted_by_path(views_of(r@)),
        views_of(r@).to_multiset() == views_of(ss@).to_multiset(),
{
    broadcast use vstd::seq_lib::group_to_multiset_ensures;

    let mut rest = ss;
    let mut out: Vec<RepoStatus> = Vec::new();
    proof {
        assert(views_of(out@) =~= Seq::<RepoStatusView>::empty());
        assert(views_of(out@).to_multiset().add(views_of(rest@).to_multiset()) =~= views_of(
            rest@,
        ).to_multiset());
    }
    while rest.len() > 0
        invariant
            out@.len() + rest@.len() == ss@.len(),
            sorted_by_path(views_of(out@)),
            views_of(out@).to_multiset().add(views_of(rest@).to_multiset()) == views_of(
                ss@,
            ).to_multiset(),
        decreases rest@.len(),
    {
        let ghost rest0 = rest@;
        let x = rest.pop().unwrap();
        proof {
            assert(rest0 =~= rest@.push(x));
            lemma_views_push(rest@, x);
            vstd::seq_lib::to_multiset_build(views_of(rest@), x@);
            assert(views_of(rest0).to_multiset() =~= views_of(rest@).to_multiset().insert(x@));
        }
        let mut p: usize = 0;
        while p < out.len() && lex_le_str(out[p].path.as_str(), x.path.as_str())
            invariant
                p <= out@.len(),
                forall|k: int| 0 <= k < p ==> path_le(#[trigger] views_of(out@)[k], x@),
            decreases out@.len() - p,
        {
            proof {
                assert(views_of(out@)[p as int] == out@[p as int]@);
            }
            p += 1;
        }
        let ghost out0 = out@;
        let ghost ov = views_of(out@);
        proof {
            if p < out@.len() {
                assert(views_of(out@)[p as int] == out@[p as int]@);
                lemma_lex_le_total(out@[p as int]@.path, x@.path);
            }
        }
        out.insert(p, x);
        proof {
            lemma_views_insert(out0, p as int, x);
            let nv = views_of(out@);
            ov.insert_ensures(p as int, x@);
            assert forall|i: int, j: int| 0 <= i < j < nv.len() implies path_le(nv[i], nv[j]) by {
                if j < p {
                    assert(nv[i] == ov[i] && nv[j] == ov[j]);
                } else if i < p && j == p {
                    assert(nv[i] == ov[i] && nv[j] == x@);
                } else if i < p && j > p {
                    assert(nv[i] == ov[i] && nv[j] == ov[j - 1]);
                    if j - 1 == i {
                        lemma_lex_le_reflexive(ov[i].path);
                    }
                } else if i == p && j > p {
                    assert(nv[i] == x@ && nv[j] == ov[j - 1]);
                    // x sorts at or before the first element it displaced,
                    // which sorts at or before everything after it.
                    if j - 1 > p {
                        assert(path_le(ov[p as int], ov[j - 1]));
                        lemma_lex_le_transitive(x@.path, ov[p as int].path, ov[j - 1].path);
                    }
                } else {
                    assert(nv[i] == ov[i - 1] && nv[j] == ov[j - 1]);
                }
            }
            vstd::seq_lib::to_multiset_insert(ov, p as int, x@);
            assert(views_of(out@).to_multiset() =~= ov.to_multiset().insert(x@));
            assert(views_of(out@).to_multiset().add(views_of(rest@).to_multiset()) =~= views_of(
                ss@,
            ).to_multiset());
        }
    }
    proof {
        assert(views_of(rest@) =~= Seq::<RepoStatusView>::empty());
        assert(views_of(out@).to_multiset().add(views_of(rest@).to_multiset()) =~= views_of(
            out@,
        ).to_multiset());
    }
    out
}

/// Order invariance under concurrency: two path-sorted arrangements of the
/// same collection of snapshots are identical, provided no path occurs
/// twice.  Probing a fixed set of distinct repository paths therefore yields
/// the same sorted list whatever the completion order of the probes was.
pub proof fn lemma_sorted_by_path_unique(x: Seq<RepoStatusView>, y: Seq<RepoStatusView>)
    requires
        sorted_by_path(x),
        sorted_by_path(y),
        distinct_paths(x),
        x.to_multiset() == y.to_multiset(),
    ensures
        x == y,
    decreases x.len(),
{
    broadcast use vstd::seq_lib::group_to_multiset_ensures;

    assert(x.len() == x.to_multiset().len());
    assert(y.len() == y.to_multiset().len());
    if x.len() == 0 {
        assert(x =~= y);
    } else {
        assert(y.contains(y[0]));
        assert(x.to_multiset().count(y[0]) > 0);
        assert(x.contains(y[0]));
        let i = choose|i: int| 0 <= i < x.len() && x[i] == y[0];
        assert(x.contains(x[0]));
        assert(y.to_multiset().count(x[0]) > 0);
        assert(y.contains(x[0]));
        let j = choose|j: int| 0 <= j < y.len() && y[j] == x[0];
        if i > 0 {
            assert(path_le(x[0], x[i]));
        } else {
            lemma_lex_le_reflexive(x[0].path);
        }
        if j > 0 {
            assert(path_le(y[0], y[j]));
        } else {
            lemma_lex_le_reflexive(y[0].path);
        }
        lemma_lex_le_antisymmetric(x[0].path, y[0].path);
        if i > 0 {
            assert(x[0].path != x[i].path);
            assert(false);
        }
        assert(x[0] == y[0]);
        let xd = x.drop_first();
        let yd = y.drop_first();
        assert(x.remove(0).to_multiset() =~= x.to_multiset().remove(x[0]));
        assert(y.remove(0).to_multiset() =~= y.to_multiset().remove(y[0]));
        assert(x.remove(0) =~= xd);
        assert(y.remove(0) =~= yd);
        assert forall|a: int, b: int| 0 <= a < b < xd.len() implies path_le(
            #[trigger] xd[a],
            #[trigger] xd[b],
        ) by {
            assert(xd[a] == x[a + 1] && xd[b] == x[b + 1]);
        }
        assert forall|a: int, b: int| 0 <= a < b < yd.len() implies path_le(
            #[trigger] yd[a],
            #[trigger] yd[b],
        ) by {
            assert(yd[a] == y[a + 1] && yd[b] == y[b + 1]);
        }
        assert forall|a: int, b: int| 0 <= a < b < xd.len() implies (#[trigger] xd[a]).path != (
        #[trigger] xd[b]).path by {
            assert(xd[a] == x[a + 1] && xd[b] == x[b + 1]);
        }
        lemma_sorted_by_path_unique(xd, yd);
        assert forall|k: int| 0 <= k < x.len() implies x[k] == y[k] by {
            if k > 0 {
                assert(x[k] == xd[k - 1]);
                assert(y[k] == yd[k - 1]);
            }
        }
        assert(x =~= y);
    }
}

} // verus!
