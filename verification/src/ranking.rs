//! Ordering values by a rank, ties in the order they came.
use vstd::prelude::*;

verus! {

/// A value with a rank to order it by: the smaller rank comes first.
pub trait Ranked {
    spec fn rank(&self) -> int;
}

/// A value that can tell its rank.
pub trait Rankable: Ranked {
    fn rank_of(&self) -> (r: i64)
        ensures
            r == self.rank(),
    ;
}

/// An ordered sequence with one more value: it goes behind every value
/// whose rank is not greater than its own.
pub open spec fn insert_ranked<T: Ranked>(sorted: Seq<T>, x: T) -> Seq<T>
    decreases sorted.len(),
{
    if sorted.len() == 0 {
        seq![x]
    } else if sorted.last().rank() <= x.rank() {
        sorted.push(x)
    } else {
        insert_ranked(sorted.drop_last(), x).push(sorted.last())
    }
}

/// The values of `s` by rank, smallest first. Values of one rank keep the
/// order they have in `s`.
pub open spec fn stable_sort<T: Ranked>(s: Seq<T>) -> Seq<T>
    decreases s.len(),
{
    if s.len() == 0 {
        s
    } else {
        insert_ranked(stable_sort(s.drop_last()), s.last())
    }
}

/// Whether the ranks never fall along the sequence.
pub open spec fn ordered<T: Ranked>(s: Seq<T>) -> bool {
    forall|i: int, j: int|
        0 <= i <= j < s.len() ==> (#[trigger] s[i]).rank() <= (#[trigger] s[j]).rank()
}

/// Where `insert_ranked` puts a value: at `at`, if every value from there
/// on has a greater rank and the one before has not.
proof fn lemma_insert_at<T: Ranked>(sorted: Seq<T>, x: T, at: int)
    requires
        0 <= at <= sorted.len(),
        forall|t: int| at <= t < sorted.len() ==> (#[trigger] sorted[t]).rank() > x.rank(),
        at > 0 ==> sorted[at - 1].rank() <= x.rank(),
    ensures
        insert_ranked(sorted, x) == sorted.take(at).push(x) + sorted.skip(at),
    decreases sorted.len(),
{
    if sorted.len() == 0 {
        assert(insert_ranked(sorted, x) =~= sorted.take(at).push(x) + sorted.skip(at));
    } else if at == sorted.len() {
        assert(sorted.take(at) =~= sorted);
        assert(sorted.push(x) =~= sorted.take(at).push(x) + sorted.skip(at));
    } else {
        let front = sorted.drop_last();
        assert(sorted.last() == sorted[sorted.len() - 1]);
        assert forall|t: int| at <= t < front.len() implies (#[trigger] front[t]).rank()
            > x.rank() by {
            assert(front[t] == sorted[t]);
        }
        if at > 0 {
            assert(front[at - 1] == sorted[at - 1]);
        }
        lemma_insert_at(front, x, at);
        assert(insert_ranked(front, x).push(sorted.last()) =~= sorted.take(at).push(x)
            + sorted.skip(at)) by {
            assert(front.take(at) =~= sorted.take(at));
            assert(front.skip(at).push(sorted.last()) =~= sorted.skip(at));
        }
    }
}

/// Inserting keeps the length up by one, the values, and the order.
pub proof fn lemma_insert_ranked<T: Ranked>(sorted: Seq<T>, x: T)
    ensures
        insert_ranked(sorted, x).len() == sorted.len() + 1,
        insert_ranked(sorted, x).to_multiset() == sorted.to_multiset().insert(x),
        ordered(sorted) ==> ordered(insert_ranked(sorted, x)),
    decreases sorted.len(),
{
    broadcast use vstd::seq_lib::group_to_multiset_ensures;

    if sorted.len() == 0 {
        assert(sorted =~= Seq::<T>::empty());
        assert(seq![x] =~= Seq::<T>::empty().push(x));
    } else if sorted.last().rank() <= x.rank() {
        if ordered(sorted) {
            let r = sorted.push(x);
            assert forall|i: int, j: int| 0 <= i <= j < r.len() implies (#[trigger] r[i]).rank()
                <= (#[trigger] r[j]).rank() by {
                if j == sorted.len() {
                    if i < sorted.len() {
                        assert(sorted[i].rank() <= sorted[sorted.len() - 1].rank());
                    }
                }
            }
        }
    } else {
        let front = sorted.drop_last();
        let last = sorted.last();
        lemma_insert_ranked(front, x);
        assert(sorted =~= front.push(last));
        let inner = insert_ranked(front, x);
        assert(inner.push(last).to_multiset() =~= sorted.to_multiset().insert(x));
        if ordered(sorted) {
            assert(ordered(front)) by {
                assert forall|i: int, j: int| 0 <= i <= j < front.len() implies (
                #[trigger] front[i]).rank() <= (#[trigger] front[j]).rank() by {
                    assert(front[i] == sorted[i] && front[j] == sorted[j]);
                }
            }
            let r = inner.push(last);
            assert forall|i: int, j: int| 0 <= i <= j < r.len() implies (#[trigger] r[i]).rank()
                <= (#[trigger] r[j]).rank() by {
                if j == inner.len() && i < inner.len() {
                    // every value of `inner` is `x` or a value of `front`
                    assert(inner.to_multiset().count(inner[i]) > 0);
                    if inner[i] != x {
                        assert(front.to_multiset().count(inner[i]) > 0);
                        let t = choose|t: int|
                            0 <= t < front.len() && #[trigger] front[t] == inner[i];
                        assert(sorted[t].rank() <= sorted[sorted.len() - 1].rank());
                    }
                }
            }
        }
    }
}

/// Sorting keeps the length and the values, and puts them in order.
pub proof fn lemma_stable_sort<T: Ranked>(s: Seq<T>)
    ensures
        stable_sort(s).len() == s.len(),
        stable_sort(s).to_multiset() == s.to_multiset(),
        ordered(stable_sort(s)),
    decreases s.len(),
{
    broadcast use vstd::seq_lib::group_to_multiset_ensures;

    if s.len() > 0 {
        lemma_stable_sort(s.drop_last());
        lemma_insert_ranked(stable_sort(s.drop_last()), s.last());
        assert(s =~= s.drop_last().push(s.last()));
    }
}

/// The values of one rank, in the order they have in `s`.
pub open spec fn of_rank<T: Ranked>(s: Seq<T>, rank: int) -> Seq<T>
    decreases s.len(),
{
    if s.len() == 0 {
        s
    } else {
        let before = of_rank(s.drop_last(), rank);
        if s.last().rank() == rank {
            before.push(s.last())
        } else {
            before
        }
    }
}

/// Inserting a value puts it behind the values of its own rank and leaves
/// the values of every other rank as they are.
pub proof fn lemma_insert_stable<T: Ranked>(sorted: Seq<T>, x: T, rank: int)
    ensures
        of_rank(insert_ranked(sorted, x), rank) == if x.rank() == rank {
            of_rank(sorted, rank).push(x)
        } else {
            of_rank(sorted, rank)
        },
    decreases sorted.len(),
{
    if sorted.len() == 0 {
        assert(seq![x].drop_last() =~= sorted);
        assert(seq![x].last() == x);
    } else if sorted.last().rank() <= x.rank() {
        assert(sorted.push(x).drop_last() =~= sorted);
    } else {
        let inner = insert_ranked(sorted.drop_last(), x);
        lemma_insert_stable(sorted.drop_last(), x, rank);
        assert(inner.push(sorted.last()).drop_last() =~= inner);
    }
}

/// Sorting is stable: the values of any one rank come out in the order in
/// which they went in.
pub proof fn lemma_sort_stable<T: Ranked>(s: Seq<T>, rank: int)
    ensures
        of_rank(stable_sort(s), rank) == of_rank(s, rank),
    decreases s.len(),
{
    if s.len() > 0 {
        lemma_sort_stable(s.drop_last(), rank);
        lemma_insert_stable(stable_sort(s.drop_last()), s.last(), rank);
    }
}

/// A value of some rank is among the values of that rank.
proof fn lemma_of_rank_holds<T: Ranked>(s: Seq<T>, at: int)
    requires
        0 <= at < s.len(),
    ensures
        of_rank(s, s[at].rank()).len() > 0,
    decreases s.len(),
{
    if at < s.len() - 1 {
        assert(s.drop_last()[at] == s[at]);
        lemma_of_rank_holds(s.drop_last(), at);
    }
}

/// The values of a rank are values of the sequence.
proof fn lemma_of_rank_found<T: Ranked>(s: Seq<T>, rank: int)
    requires
        of_rank(s, rank).len() > 0,
    ensures
        exists|at: int| 0 <= at < s.len() && (#[trigger] s[at]).rank() == rank,
    decreases s.len(),
{
    if s.len() > 0 {
        if s.last().rank() == rank {
            assert(s[s.len() - 1].rank() == rank);
        } else {
            lemma_of_rank_found(s.drop_last(), rank);
            let at = choose|at: int|
                0 <= at < s.drop_last().len() && (#[trigger] s.drop_last()[at]).rank() == rank;
            assert(s[at].rank() == rank);
        }
    }
}

/// Two ordered sequences that hold, for each rank, the same values in the
/// same order are the same sequence.
proof fn lemma_ordered_same<T: Ranked>(a: Seq<T>, b: Seq<T>)
    requires
        ordered(a),
        ordered(b),
        forall|rank: int| #[trigger] of_rank(a, rank) == of_rank(b, rank),
    ensures
        a == b,
    decreases a.len(),
{
    if a.len() == 0 {
        if b.len() > 0 {
            lemma_of_rank_holds(b, 0);
            assert(of_rank(a, b[0].rank()) == of_rank(b, b[0].rank()));
        }
        assert(a =~= b);
    } else {
        let top = a.last().rank();
        assert(of_rank(a, top) == of_rank(b, top));
        lemma_of_rank_found(b, top);
        let last_b = b.last();
        // the last value of `b` has the rank of the last value of `a`
        assert(last_b.rank() == top) by {
            let at = choose|at: int| 0 <= at < b.len() && (#[trigger] b[at]).rank() == top;
            assert(b[at].rank() <= b[b.len() - 1].rank());
            if last_b.rank() > top {
                lemma_of_rank_holds(b, b.len() - 1);
                assert(of_rank(a, last_b.rank()) == of_rank(b, last_b.rank()));
                lemma_of_rank_found(a, last_b.rank());
                let high = choose|high: int|
                    0 <= high < a.len() && (#[trigger] a[high]).rank() == last_b.rank();
                assert(a[high].rank() <= a[a.len() - 1].rank());
            }
        }
        assert(a.last() == b.last()) by {
            assert(of_rank(a, top).last() == a.last());
            assert(of_rank(b, top).last() == b.last());
        }
        let front_a = a.drop_last();
        let front_b = b.drop_last();
        assert(ordered(front_a)) by {
            assert forall|i: int, j: int| 0 <= i <= j < front_a.len() implies (
            #[trigger] front_a[i]).rank() <= (#[trigger] front_a[j]).rank() by {
                assert(front_a[i] == a[i] && front_a[j] == a[j]);
            }
        }
        assert(ordered(front_b)) by {
            assert forall|i: int, j: int| 0 <= i <= j < front_b.len() implies (
            #[trigger] front_b[i]).rank() <= (#[trigger] front_b[j]).rank() by {
                assert(front_b[i] == b[i] && front_b[j] == b[j]);
            }
        }
        assert forall|rank: int| #[trigger] of_rank(front_a, rank) == of_rank(front_b, rank) by {
            assert(of_rank(a, rank) == of_rank(b, rank));
            if rank == top {
                assert(of_rank(a, rank).drop_last() =~= of_rank(front_a, rank));
                assert(of_rank(b, rank).drop_last() =~= of_rank(front_b, rank));
            }
        }
        lemma_ordered_same(front_a, front_b);
        assert(a =~= front_a.push(a.last()));
        assert(b =~= front_b.push(b.last()));
    }
}

/// Order and stability settle the result of sorting: a sequence that is
/// in order and holds, for each rank, the values of `s` in the order of
/// `s` is `s` sorted.
pub proof fn lemma_sort_unique<T: Ranked>(s: Seq<T>, sorted: Seq<T>)
    requires
        ordered(sorted),
        forall|rank: int| #[trigger] of_rank(sorted, rank) == of_rank(s, rank),
    ensures
        sorted == stable_sort(s),
{
    lemma_stable_sort(s);
    assert forall|rank: int| #[trigger] of_rank(sorted, rank) == of_rank(
        stable_sort(s),
        rank,
    ) by {
        lemma_sort_stable(s, rank);
    }
    lemma_ordered_same(sorted, stable_sort(s));
}

/// Inserting and then showing each value in another form is the same as
/// showing each value and then inserting, where the other form has the
/// same rank.
pub proof fn lemma_insert_shown<A: Ranked, B: Ranked>(sorted: Seq<A>, x: A, show: spec_fn(A) -> B)
    requires
        forall|a: A| (#[trigger] show(a)).rank() == a.rank(),
    ensures
        insert_ranked(sorted, x).map_values(show) == insert_ranked(
            sorted.map_values(show),
            show(x),
        ),
    decreases sorted.len(),
{
    let shown = sorted.map_values(show);
    if sorted.len() == 0 {
        assert(seq![x].map_values(show) =~= seq![show(x)]);
    } else if sorted.last().rank() <= x.rank() {
        assert(shown.last() == show(sorted.last()));
        assert(sorted.push(x).map_values(show) =~= shown.push(show(x)));
    } else {
        assert(shown.last() == show(sorted.last()));
        lemma_insert_shown(sorted.drop_last(), x, show);
        assert(sorted.drop_last().map_values(show) =~= shown.drop_last());
        assert(insert_ranked(sorted.drop_last(), x).push(sorted.last()).map_values(show)
            =~= insert_ranked(sorted.drop_last(), x).map_values(show).push(show(sorted.last())));
    }
}

/// Sorting and then showing each value in another form is the same as
/// showing each value and then sorting, where the other form has the same
/// rank.
pub proof fn lemma_sort_shown<A: Ranked, B: Ranked>(s: Seq<A>, show: spec_fn(A) -> B)
    requires
        forall|a: A| (#[trigger] show(a)).rank() == a.rank(),
    ensures
        stable_sort(s).map_values(show) == stable_sort(s.map_values(show)),
    decreases s.len(),
{
    if s.len() == 0 {
        assert(s.map_values(show) =~= Seq::<B>::empty());
        assert(stable_sort(s).map_values(show) =~= Seq::<B>::empty());
    } else {
        lemma_sort_shown(s.drop_last(), show);
        lemma_insert_shown(stable_sort(s.drop_last()), s.last(), show);
        assert(s.map_values(show).drop_last() =~= s.drop_last().map_values(show));
        assert(s.map_values(show).last() == show(s.last()));
    }
}

/// Orders the values by rank, smallest first, ties in the order they came.
pub fn sort_ranked<T: Rankable>(v: &mut Vec<T>)
    ensures
        final(v)@ == stable_sort(old(v)@),
{
    let n = v.len();
    let mut i: usize = 0;
    assert(v@.take(0) =~= stable_sort(old(v)@.take(0)));
    while i < n
        invariant
            i <= n,
            n == old(v)@.len(),
            v@.len() == n,
            v@.take(i as int) == stable_sort(old(v)@.take(i as int)),
            v@.skip(i as int) == old(v)@.skip(i as int),
        decreases n - i,
    {
        let ghost before = v@;
        let ghost prefix = v@.take(i as int);
        let x = v.remove(i);
        assert(x == old(v)@[i as int]) by {
            assert(before.skip(i as int)[0] == old(v)@.skip(i as int)[0]);
        }
        let key = x.rank_of();
        let mut at: usize = i;
        while at > 0 && v[at - 1].rank_of() > key
            invariant
                at <= i,
                i < n,
                v@.len() == n - 1,
                v@.take(i as int) == prefix,
                key == x.rank(),
                forall|t: int| at <= t < i ==> (#[trigger] prefix[t]).rank() > x.rank(),
            decreases at,
        {
            assert(v@[at - 1] == prefix[at - 1]);
            at -= 1;
        }
        proof {
            if at > 0 {
                assert(v@[at - 1] == prefix[at - 1]);
            }
            lemma_insert_at(prefix, x, at as int);
        }
        let ghost removed = v@;
        v.insert(at, x);
        proof {
            assert(old(v)@.take(i + 1).drop_last() =~= old(v)@.take(i as int));
            assert(old(v)@.take(i + 1).last() == x);
            assert(v@.take(i + 1) =~= prefix.take(at as int).push(x) + prefix.skip(at as int)) by {
                assert(removed.take(i as int) == prefix);
            }
            let ghost rest = v@.skip(i + 1);
            let ghost rest_before = old(v)@.skip(i + 1);
            assert(removed =~= before.remove(i as int));
            assert forall|t: int| 0 <= t < rest.len() implies #[trigger] rest[t]
                == rest_before[t] by {
                assert(rest[t] == before[i + 1 + t]);
                assert(before.skip(i as int)[t + 1] == old(v)@.skip(i as int)[t + 1]);
            }
            assert(rest =~= rest_before);
        }
        i += 1;
    }
    assert(v@.take(n as int) =~= v@);
    assert(old(v)@.take(n as int) =~= old(v)@);
}

} // verus!
