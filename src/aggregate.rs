//! The aggregation point of a scan: every finished task hands in exactly one
//! outcome, and the aggregator keeps rows and failures apart, each in the
//! order they arrived.
use vstd::prelude::*;
use crate::errors::kind_of;
use crate::task::{Failure, ResultRow};

verus! {

broadcast use vstd::seq_lib::group_to_multiset_ensures;

/// What a finished task hands in.
pub type Outcome = Result<ResultRow, Failure>;

/// The rows among `s`, in order.
pub open spec fn rows_of(s: Seq<Outcome>) -> Seq<ResultRow>
    decreases s.len(),
{
    if s.len() == 0 {
        Seq::empty()
    } else {
        match s.last() {
            Ok(r) => rows_of(s.drop_last()).push(r),
            Err(_) => rows_of(s.drop_last()),
        }
    }
}

/// The failures among `s`, in order.
pub open spec fn failures_of(s: Seq<Outcome>) -> Seq<Failure>
    decreases s.len(),
{
    if s.len() == 0 {
        Seq::empty()
    } else {
        match s.last() {
            Ok(_) => failures_of(s.drop_last()),
            Err(f) => failures_of(s.drop_last()).push(f),
        }
    }
}

/// The rows and failures received so far.
#[derive(Debug, Clone)]
pub struct Aggregator {
    pub rows: Vec<ResultRow>,
    pub failures: Vec<Failure>,
}

impl Aggregator {
    pub fn new() -> (r: Self)
        ensures
            r.rows@.len() == 0,
            r.failures@.len() == 0,
    {
        Aggregator { rows: Vec::new(), failures: Vec::new() }
    }

    /// Takes in the outcome of one finished task.
    pub fn receive(&mut self, outcome: Outcome)
        ensures
            match outcome {
                Ok(r) => final(self).rows@ == old(self).rows@.push(r) && final(self).failures@
                    == old(self).failures@,
                Err(f) => final(self).failures@ == old(self).failures@.push(f) && final(self).rows@
                    == old(self).rows@,
            },
    {
        match outcome {
            Ok(r) => self.rows.push(r),
            Err(f) => self.failures.push(f),
        }
    }

    /// Gathers the outcomes in the order they arrived.
    pub fn collect(outcomes: Vec<Outcome>) -> (r: Self)
        ensures
            r.rows@ == rows_of(outcomes@),
            r.failures@ == failures_of(outcomes@),
    {
        let ghost s = outcomes@;
        let mut agg = Aggregator::new();
        let mut rest = outcomes;
        let mut i: usize = 0;
        let n = rest.len();
        while rest.len() > 0
            invariant
                n == s.len(),
                i + rest@.len() == n,
                rest@ == s.skip(i as int),
                agg.rows@ == rows_of(s.take(i as int)),
                agg.failures@ == failures_of(s.take(i as int)),
            decreases rest@.len(),
        {
            let o = rest.remove(0);
            proof {
                assert(o == s[i as int]);
                assert(rest@ =~= s.skip(i + 1));
                assert(s.take(i + 1).drop_last() =~= s.take(i as int));
                assert(s.take(i + 1).last() == o);
            }
            agg.receive(o);
            i = i + 1;
        }
        assert(s.take(n as int) =~= s);
        agg
    }
}

proof fn lemma_rows_count(s: Seq<Outcome>, r: ResultRow)
    ensures
        rows_of(s).to_multiset().count(r) == s.to_multiset().count(Ok(r)),
    decreases s.len(),
{
    if s.len() > 0 {
        let p = s.drop_last();
        lemma_rows_count(p, r);
        assert(s == p.push(s.last()));
    } else {
        assert(rows_of(s) =~= Seq::<ResultRow>::empty());
    }
}

proof fn lemma_failures_count(s: Seq<Outcome>, f: Failure)
    ensures
        failures_of(s).to_multiset().count(f) == s.to_multiset().count(Err(f)),
    decreases s.len(),
{
    if s.len() > 0 {
        let p = s.drop_last();
        lemma_failures_count(p, f);
        assert(s == p.push(s.last()));
    } else {
        assert(failures_of(s) =~= Seq::<Failure>::empty());
    }
}

/// The order in which outcomes arrive changes which rows and failures are
/// gathered in no way but their order: two runs whose outcomes agree as
/// multisets gather equal multisets of rows and of failures.
pub proof fn lemma_collect_order_independent(s1: Seq<Outcome>, s2: Seq<Outcome>)
    requires
        s1.to_multiset() == s2.to_multiset(),
    ensures
        rows_of(s1).to_multiset() == rows_of(s2).to_multiset(),
        failures_of(s1).to_multiset() == failures_of(s2).to_multiset(),
{
    assert forall|r: ResultRow| #[trigger] rows_of(s1).to_multiset().count(r) == rows_of(s2).to_multiset().count(r) by {
        lemma_rows_count(s1, r);
        lemma_rows_count(s2, r);
    }
    assert forall|f: Failure| #[trigger] failures_of(s1).to_multiset().count(f) == failures_of(s2).to_multiset().count(f) by {
        lemma_failures_count(s1, f);
        lemma_failures_count(s2, f);
    }
    assert(rows_of(s1).to_multiset() =~= rows_of(s2).to_multiset());
    assert(failures_of(s1).to_multiset() =~= failures_of(s2).to_multiset());
}

proof fn lemma_all_rows(s: Seq<Outcome>)
    requires
        forall|i: int| 0 <= i < s.len() ==> #[trigger] s[i] is Ok,
    ensures
        rows_of(s) == s.map_values(|o: Outcome| o->Ok_0),
        failures_of(s).len() == 0,
    decreases s.len(),
{
    if s.len() > 0 {
        let p = s.drop_last();
        assert forall|i: int| 0 <= i < p.len() implies #[trigger] p[i] is Ok by {
            assert(p[i] == s[i]);
        }
        lemma_all_rows(p);
        assert(s[s.len() - 1] is Ok);
        assert(s.map_values(|o: Outcome| o->Ok_0) =~= p.map_values(|o: Outcome| o->Ok_0).push(
            s.last()->Ok_0,
        ));
    } else {
        assert(s.map_values(|o: Outcome| o->Ok_0) =~= Seq::<ResultRow>::empty());
    }
}

proof fn lemma_append_outcomes(s: Seq<Outcome>, t: Seq<Outcome>)
    ensures
        rows_of(s + t) == rows_of(s) + rows_of(t),
        failures_of(s + t) == failures_of(s) + failures_of(t),
    decreases t.len(),
{
    if t.len() == 0 {
        assert(s + t =~= s);
        assert(rows_of(s) + rows_of(t) =~= rows_of(s));
        assert(failures_of(s) + failures_of(t) =~= failures_of(s));
    } else {
        lemma_append_outcomes(s, t.drop_last());
        assert((s + t).drop_last() =~= s + t.drop_last());
        assert((s + t).last() == t.last());
        assert(rows_of(s) + rows_of(t.drop_last()).push(t.last()->Ok_0) =~= (rows_of(s) + rows_of(
            t.drop_last(),
        )).push(t.last()->Ok_0));
        assert(failures_of(s) + failures_of(t.drop_last()).push(t.last()->Err_0) =~= (failures_of(s)
            + failures_of(t.drop_last())).push(t.last()->Err_0));
    }
}

/// A failed task costs only its own row: when the outcome at `k` is a failure
/// and every other outcome a row, all the other rows are gathered, in order,
/// and that failure is the only one, with its kind of error.
pub proof fn lemma_failure_isolation(s: Seq<Outcome>, k: int)
    requires
        0 <= k < s.len(),
        s[k] is Err,
        forall|i: int| 0 <= i < s.len() && i != k ==> #[trigger] s[i] is Ok,
    ensures
        rows_of(s) == s.remove(k).map_values(|o: Outcome| o->Ok_0),
        rows_of(s).len() == s.len() - 1,
        failures_of(s) == seq![s[k]->Err_0],
        kind_of(failures_of(s)[0].error) == kind_of(s[k]->Err_0.error),
{
    let a = s.take(k);
    let b = s.skip(k + 1);
    assert(s =~= a + seq![s[k]] + b);
    assert(s.remove(k) =~= a + b);
    assert forall|i: int| 0 <= i < a.len() implies #[trigger] a[i] is Ok by {
        assert(a[i] == s[i]);
    }
    assert forall|i: int| 0 <= i < b.len() implies #[trigger] b[i] is Ok by {
        assert(b[i] == s[k + 1 + i]);
    }
    lemma_all_rows(a);
    lemma_all_rows(b);
    lemma_append_outcomes(a, seq![s[k]]);
    lemma_append_outcomes(a + seq![s[k]], b);
    lemma_append_outcomes(a, b);
    let one = seq![s[k]];
    assert(one.drop_last() =~= Seq::<Outcome>::empty());
    assert(one.last() == s[k]);
    assert(rows_of(one.drop_last()) =~= Seq::<ResultRow>::empty());
    assert(failures_of(one.drop_last()) =~= Seq::<Failure>::empty());
    assert(rows_of(one) =~= Seq::<ResultRow>::empty());
    assert(failures_of(one) =~= seq![s[k]->Err_0]);
    lemma_all_rows(a + b);
    assert forall|i: int| 0 <= i < (a + b).len() implies #[trigger] (a + b)[i] is Ok by {
        if i < a.len() {
            assert((a + b)[i] == a[i]);
        } else {
            assert((a + b)[i] == b[i - a.len()]);
        }
    }
    assert(rows_of(a) + rows_of(seq![s[k]]) =~= rows_of(a));
    assert(failures_of(a) + failures_of(seq![s[k]]) + failures_of(b) =~= seq![s[k]->Err_0]);
}

} // verus!
