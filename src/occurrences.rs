use vstd::prelude::*;

verus! {

/// How many times each message template has been seen in one compilation unit.
pub struct Occurrences {
    templates: Vec<String>,
    counts: Vec<usize>,
}

/// The count recorded for `t` among the first `n` entries: that of the last
/// entry with that template, or 0 where there is none.
pub open spec fn count_among(templates: Seq<String>, counts: Seq<usize>, t: Seq<char>, n: nat) -> nat
    decreases n,
{
    if n == 0 {
        0
    } else if templates[n - 1]@ == t {
        counts[n - 1] as nat
    } else {
        count_among(templates, counts, t, (n - 1) as nat)
    }
}

proof fn lemma_count_skips(templates: Seq<String>, counts: Seq<usize>, t: Seq<char>, m: nat, n: nat)
    requires
        m <= n <= templates.len(),
        forall|k: int| m <= k < n ==> (#[trigger] templates[k])@ != t,
    ensures
        count_among(templates, counts, t, n) == count_among(templates, counts, t, m),
    decreases n,
{
    if n > m {
        lemma_count_skips(templates, counts, t, m, (n - 1) as nat);
    }
}

proof fn lemma_count_prefix(
    t1: Seq<String>,
    c1: Seq<usize>,
    t2: Seq<String>,
    c2: Seq<usize>,
    t: Seq<char>,
    n: nat,
)
    requires
        n <= t1.len(),
        n <= t2.len(),
        n <= c1.len(),
        n <= c2.len(),
        forall|k: int| 0 <= k < n ==> t1[k]@ == t2[k]@,
        forall|k: int| 0 <= k < n && t1[k]@ == t ==> c1[k] == c2[k],
    ensures
        count_among(t1, c1, t, n) == count_among(t2, c2, t, n),
    decreases n,
{
    if n > 0 {
        lemma_count_prefix(t1, c1, t2, c2, t, (n - 1) as nat);
    }
}

impl Occurrences {
    /// One count per template, and each template listed once.
    pub closed spec fn wf(&self) -> bool {
        &&& self.templates@.len() == self.counts@.len()
        &&& forall|i: int, j: int|
            0 <= i < j < self.templates@.len() ==> (#[trigger] self.templates@[i])@ != (#[trigger] self.templates@[j])@
    }

    /// How many times `t` has been seen.
    pub closed spec fn count(&self, t: Seq<char>) -> nat {
        count_among(self.templates@, self.counts@, t, self.templates@.len())
    }

    /// No template seen yet.
    pub fn new() -> (r: Self)
        ensures
            r.wf(),
            forall|t: Seq<char>| r.count(t) == 0,
    {
        Occurrences { templates: Vec::new(), counts: Vec::new() }
    }

    /// How many times `t` has been seen.
    pub fn count_of(&self, t: &String) -> (r: usize)
        requires
            self.wf(),
        ensures
            r == self.count(t@),
    {
        let mut i: usize = self.templates.len();
        while i > 0
            invariant
                i <= self.templates@.len(),
                self.wf(),
                forall|k: int| i <= k < self.templates@.len() ==> (#[trigger] self.templates@[k])@ != t@,
            decreases i,
        {
            if self.templates[i - 1] == *t {
                proof {
                    lemma_count_skips(self.templates@, self.counts@, t@, i as nat, self.templates@.len());
                }
                return self.counts[i - 1];
            }
            i = i - 1;
        }
        proof {
            lemma_count_skips(self.templates@, self.counts@, t@, 0, self.templates@.len());
        }
        0
    }

    /// Records one more occurrence of `t` and returns its number: 1 the first
    /// time, one more than the last time after that. Other templates keep their
    /// counts.
    pub fn next_occurrence(&mut self, t: &String) -> (r: usize)
        requires
            old(self).wf(),
            old(self).count(t@) < usize::MAX,
        ensures
            final(self).wf(),
            r == old(self).count(t@) + 1,
            final(self).count(t@) == r,
            forall|u: Seq<char>| u != t@ ==> final(self).count(u) == old(self).count(u),
    {
        let ghost ts = self.templates@;
        let ghost cs = self.counts@;
        let mut i: usize = self.templates.len();
        while i > 0
            invariant
                i <= self.templates@.len(),
                self.wf(),
                self.templates@ == ts,
                self.counts@ == cs,
                ts == old(self).templates@,
                cs == old(self).counts@,
                count_among(ts, cs, t@, ts.len()) < usize::MAX,
                forall|k: int| i <= k < ts.len() ==> (#[trigger] ts[k])@ != t@,
            decreases i,
        {
            if self.templates[i - 1] == *t {
                let j = i - 1;
                proof {
                    lemma_count_skips(ts, cs, t@, i as nat, ts.len());
                    assert(ts[j as int]@ == t@);
                    assert(count_among(ts, cs, t@, i as nat) == cs[j as int]);
                }
                let n = self.counts[j] + 1;
                self.counts.set(j, n);
                proof {
                    lemma_count_skips(ts, self.counts@, t@, i as nat, ts.len());
                    assert forall|u: Seq<char>| u != t@ implies self.count(u) == count_among(ts, cs, u, ts.len()) by {
                        lemma_count_prefix(ts, self.counts@, ts, cs, u, ts.len());
                    }
                }
                return n;
            }
            i = i - 1;
        }
        proof {
            lemma_count_skips(ts, cs, t@, 0, ts.len());
        }
        let added = t.clone();
        self.templates.push(added);
        self.counts.push(1);
        proof {
            assert forall|a: int, b: int|
                0 <= a < b < self.templates@.len() implies (#[trigger] self.templates@[a])@ != (#[trigger] self.templates@[b])@ by {
                if b == ts.len() {
                    assert(ts[a]@ != t@);
                } else {
                    assert(self.templates@[a] == ts[a] && self.templates@[b] == ts[b]);
                }
            }
            assert forall|u: Seq<char>| u != t@ implies self.count(u) == count_among(ts, cs, u, ts.len()) by {
                lemma_count_prefix(self.templates@, self.counts@, ts, cs, u, ts.len());
            }
        }
        1
    }
}

} // verus!
