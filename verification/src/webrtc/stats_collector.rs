//! The collector of statistics reports, keyed by their identifiers: later
//! reports under an identifier replace earlier ones.
use vstd::prelude::*;

verus! {

/// No identifier occurs twice among `entries`.
pub open spec fn keys_distinct<R>(entries: Seq<(String, R)>) -> bool {
    forall|i: int, j: int|
        0 <= i < entries.len() && 0 <= j < entries.len() && i != j ==> entries[i].0@
            != entries[j].0@
}

/// `entries` holds a report under identifier `k` at `i`.
pub open spec fn has_key_at<R>(entries: Seq<(String, R)>, k: Seq<char>, i: int) -> bool {
    0 <= i < entries.len() && entries[i].0@ == k
}

/// The reports that `entries` holds, by identifier.
pub open spec fn entries_view<R>(entries: Seq<(String, R)>) -> Map<Seq<char>, R> {
    Map::new(
        |k: Seq<char>| exists|i: int| has_key_at(entries, k, i),
        |k: Seq<char>| entries[choose|i: int| has_key_at(entries, k, i)].1,
    )
}

/// `m` after inserting each report of `s` in turn.
pub open spec fn insert_all<R>(m: Map<Seq<char>, R>, s: Seq<(String, R)>) -> Map<Seq<char>, R>
    decreases s.len(),
{
    if s.len() == 0 {
        m
    } else {
        insert_all(m.insert(s[0].0@, s[0].1), s.drop_first())
    }
}

/// With distinct identifiers, the report found at `i` is the one the view
/// gives for its identifier.
proof fn lemma_view_at<R>(entries: Seq<(String, R)>, i: int)
    requires
        keys_distinct(entries),
        0 <= i < entries.len(),
    ensures
        entries_view(entries).contains_key(entries[i].0@),
        entries_view(entries)[entries[i].0@] == entries[i].1,
{
    let k = entries[i].0@;
    assert(has_key_at(entries, k, i));
    let c = choose|j: int| has_key_at(entries, k, j);
    assert(c == i);
}

/// Collects statistics reports by identifier.
pub struct StatsCollector<R> {
    reports: Vec<(String, R)>,
}

impl<R> StatsCollector<R> {
    /// No identifier is held twice.
    #[verifier::type_invariant]
    spec fn wf(self) -> bool {
        keys_distinct(self.reports@)
    }

    /// The reports held, by identifier.
    pub closed spec fn view(self) -> Map<Seq<char>, R> {
        entries_view(self.reports@)
    }

    /// A collector with no reports.
    pub fn new() -> (r: StatsCollector<R>)
        ensures
            r.view() == Map::<Seq<char>, R>::empty(),
    {
        let r = StatsCollector { reports: Vec::new() };
        assert(r.view() =~= Map::<Seq<char>, R>::empty());
        r
    }

    fn find(&self, id: &String) -> (r: Option<usize>)
        ensures
            match r {
                Some(i) => has_key_at(self.reports@, id@, i as int),
                None => forall|i: int| !has_key_at(self.reports@, id@, i),
            },
    {
        let mut i: usize = 0;
        while i < self.reports.len()
            invariant
                i <= self.reports@.len(),
                forall|j: int| 0 <= j < i ==> !has_key_at(self.reports@, id@, j),
            decreases self.reports@.len() - i,
        {
            if self.reports[i].0 == *id {
                return Some(i);
            }
            i = i + 1;
        }
        None
    }

    /// Stores `stats` under `id`, replacing what was stored under it.
    pub fn insert(&mut self, id: String, stats: R)
        ensures
            final(self).view() == old(self).view().insert(id@, stats),
    {
        proof {
            use_type_invariant(&*self);
        }
        let ghost before = old(self).reports@;
        let ghost k = id@;
        let found = self.find(&id);
        let mut taken = StatsCollector::new();
        std::mem::swap(&mut taken, self);
        let StatsCollector { mut reports } = taken;
        match found {
            Some(i) => {
                reports.set(i, (id, stats));
                proof {
                    assert forall|a: int, b: int|
                        0 <= a < reports@.len() && 0 <= b < reports@.len() && a != b implies
                        reports@[a].0@ != reports@[b].0@ by {
                        if a == i {
                            assert(before[i as int].0@ == k);
                        } else if b == i {
                            assert(before[i as int].0@ == k);
                        }
                    }
                    lemma_view_at(reports@, i as int);
                    assert forall|kk: Seq<char>| #[trigger]
                        entries_view(reports@).contains_key(kk) implies entries_view(
                        before,
                    ).insert(k, stats).contains_key(kk) && entries_view(reports@)[kk]
                        == entries_view(before).insert(k, stats)[kk] by {
                        let c = choose|j: int| has_key_at(reports@, kk, j);
                        if kk != k {
                            assert(has_key_at(before, kk, c));
                            lemma_view_at(before, c);
                            lemma_view_at(reports@, c);
                        }
                    }
                    assert forall|kk: Seq<char>| #[trigger]
                        entries_view(before).insert(k, stats).contains_key(kk) implies entries_view(
                        reports@,
                    ).contains_key(kk) by {
                        if kk != k {
                            let c0 = choose|j: int| has_key_at(before, kk, j);
                            assert(has_key_at(reports@, kk, c0));
                        }
                    }
                    assert(entries_view(reports@) =~= entries_view(before).insert(k, stats));
                }
            },
            None => {
                reports.push((id, stats));
                proof {
                    let n = before.len() as int;
                    assert forall|a: int, b: int|
                        0 <= a < reports@.len() && 0 <= b < reports@.len() && a != b implies
                        reports@[a].0@ != reports@[b].0@ by {
                        if a == n {
                            assert(!has_key_at(before, k, b));
                        } else if b == n {
                            assert(!has_key_at(before, k, a));
                        }
                    }
                    lemma_view_at(reports@, n);
                    assert forall|kk: Seq<char>| #[trigger]
                        entries_view(reports@).contains_key(kk) implies entries_view(
                        before,
                    ).insert(k, stats).contains_key(kk) && entries_view(reports@)[kk]
                        == entries_view(before).insert(k, stats)[kk] by {
                        let c = choose|j: int| has_key_at(reports@, kk, j);
                        if kk != k {
                            assert(has_key_at(before, kk, c));
                            lemma_view_at(before, c);
                            lemma_view_at(reports@, c);
                        }
                    }
                    assert forall|kk: Seq<char>| #[trigger]
                        entries_view(before).insert(k, stats).contains_key(kk) implies entries_view(
                        reports@,
                    ).contains_key(kk) by {
                        if kk != k {
                            let c0 = choose|j: int| has_key_at(before, kk, j);
                            assert(has_key_at(reports@, kk, c0));
                        } else {
                            assert(has_key_at(reports@, kk, n));
                        }
                    }
                    assert(entries_view(reports@) =~= entries_view(before).insert(k, stats));
                }
            },
        }
        *self = StatsCollector { reports };
    }

    /// Stores each report of `stats` in turn under its identifier.
    pub fn merge(&mut self, stats: Vec<(String, R)>)
        ensures
            final(self).view() == insert_all(old(self).view(), stats@),
    {
        let ghost target = insert_all(self.view(), stats@);
        let mut stats = stats;
        while stats.len() > 0
            invariant
                insert_all(self.view(), stats@) == target,
            decreases stats@.len(),
        {
            let ghost rest = stats@;
            let (id, report) = stats.remove(0);
            assert(stats@ =~= rest.drop_first());
            self.insert(id, report);
        }
    }

    /// The reports held, with no identifier twice.
    pub fn into_reports(self) -> (r: Vec<(String, R)>)
        ensures
            entries_view(r@) == self.view(),
            keys_distinct(r@),
    {
        proof {
            use_type_invariant(&self);
        }
        self.reports
    }
}

/// When the merged reports have distinct identifiers, merging replaces the
/// held reports under those identifiers and keeps the others.
pub proof fn lemma_merge_distinct<R>(m: Map<Seq<char>, R>, s: Seq<(String, R)>)
    requires
        keys_distinct(s),
    ensures
        insert_all(m, s) == m.union_prefer_right(entries_view(s)),
    decreases s.len(),
{
    if s.len() == 0 {
        assert(entries_view(s) =~= Map::<Seq<char>, R>::empty());
        assert(m.union_prefer_right(entries_view(s)) =~= m);
    } else {
        let rest = s.drop_first();
        assert(keys_distinct(rest)) by {
            assert forall|i: int, j: int|
                0 <= i < rest.len() && 0 <= j < rest.len() && i != j implies rest[i].0@
                != rest[j].0@ by {
                assert(rest[i] == s[i + 1] && rest[j] == s[j + 1]);
            }
        }
        lemma_merge_distinct(m.insert(s[0].0@, s[0].1), rest);
        let k0 = s[0].0@;
        let lhs = m.insert(k0, s[0].1).union_prefer_right(entries_view(rest));
        let rhs = m.union_prefer_right(entries_view(s));
        assert forall|k: Seq<char>| #[trigger] entries_view(rest).contains_key(k) implies k != k0
            && entries_view(s).contains_key(k) && entries_view(s)[k] == entries_view(rest)[k] by {
            let c = choose|j: int| has_key_at(rest, k, j);
            assert(has_key_at(s, k, c + 1));
            lemma_view_at(rest, c);
            lemma_view_at(s, c + 1);
        }
        assert forall|k: Seq<char>| #[trigger] entries_view(s).contains_key(k) implies k == k0
            || entries_view(rest).contains_key(k) by {
            let c = choose|j: int| has_key_at(s, k, j);
            if c > 0 {
                assert(has_key_at(rest, k, c - 1));
            }
        }
        lemma_view_at(s, 0);
        assert(lhs =~= rhs);
    }
}

} // verus!
