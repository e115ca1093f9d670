//! The control correlation table: which request identifiers are waiting for a
//! response. The writer registers an identifier before sending; the reader
//! resolves it when the matching response line arrives; a timeout releases
//! it. Resolving an identifier that is not pending is a no-op that reports
//! failure, never an error.

use vstd::prelude::*;

use crate::strutil::str_eq;

verus! {

/// The pending request identifiers, each at most once.
pub struct CorrelationTable {
    ids: Vec<String>,
}

impl CorrelationTable {
    /// The identifiers currently pending, in registration order.
    pub closed spec fn pending(&self) -> Seq<Seq<char>> {
        self.ids.deep_view()
    }

    /// Whether `id` is pending.
    pub open spec fn has_pending(&self, id: Seq<char>) -> bool {
        self.pending().contains(id)
    }

    /// Well-formed: no identifier is pending twice.
    pub open spec fn wf(&self) -> bool {
        forall|i: int, j: int|
            0 <= i < j < self.pending().len() ==> self.pending()[i] != self.pending()[j]
    }

    /// An empty table.
    pub fn new() -> (r: CorrelationTable)
        ensures
            r.pending() == Seq::<Seq<char>>::empty(),
            r.wf(),
    {
        let r = CorrelationTable { ids: Vec::new() };
        proof {
            assert(r.pending() =~= Seq::<Seq<char>>::empty());
        }
        r
    }

    /// How many identifiers are pending.
    pub fn len(&self) -> (r: usize)
        ensures
            r == self.pending().len(),
    {
        self.ids.len()
    }

    /// The index of `id` among the pending identifiers, if it is pending.
    fn index_of(&self, id: &str) -> (r: Option<usize>)
        ensures
            match r {
                Some(i) => i < self.pending().len() && self.pending()[i as int] == id@,
                None => !self.has_pending(id@),
            },
    {
        let n = self.ids.len();
        let mut k: usize = 0;
        while k < n
            invariant
                n == self.pending().len(),
                k <= n,
                forall|j: int| 0 <= j < k ==> self.pending()[j] != id@,
            decreases n - k,
        {
            if str_eq(self.ids[k].as_str(), id) {
                return Some(k);
            }
            k = k + 1;
        }
        None
    }

    /// Whether `id` is pending.
    pub fn contains(&self, id: &str) -> (r: bool)
        ensures
            r == self.has_pending(id@),
    {
        self.index_of(id).is_some()
    }

    /// Register `id`. A fresh identifier joins the pending set; registering
    /// an identifier that is already pending leaves the table unchanged.
    pub fn register(&mut self, id: &str)
        requires
            old(self).wf(),
        ensures
            final(self).wf(),
            old(self).has_pending(id@) ==> final(self).pending() == old(self).pending(),
            !old(self).has_pending(id@) ==> final(self).pending() == old(self).pending().push(
                id@,
            ),
            final(self).has_pending(id@),
    {
        if self.contains(id) {
            return ;
        }
        let ghost before = self.pending();
        self.ids.push(id.to_owned());
        proof {
            assert(self.pending() =~= before.push(id@));
            assert(self.pending().last() == id@);
            assert forall|i: int, j: int|
                0 <= i < j < self.pending().len() implies self.pending()[i]
                != self.pending()[j] by {
                if j == self.pending().len() - 1 {
                    assert(self.pending()[i] == before[i]);
                    if self.pending()[i] == id@ {
                        assert(before.contains(id@));
                    }
                }
            }
        }
    }

    /// Resolve `id`: release its slot and report whether it was pending. A
    /// response for an identifier that is not pending (already resolved,
    /// timed out, or never registered) reports false and changes nothing.
    pub fn resolve(&mut self, id: &str) -> (r: bool)
        requires
            old(self).wf(),
        ensures
            final(self).wf(),
            r == old(self).has_pending(id@),
            !final(self).has_pending(id@),
            forall|x: Seq<char>|
                x != id@ ==> final(self).has_pending(x) == old(self).has_pending(x),
            r ==> final(self).pending().len() == old(self).pending().len() - 1,
            !r ==> final(self).pending() == old(self).pending(),
    {
        match self.index_of(id) {
            Some(i) => {
                let ghost before = self.pending();
                self.ids.remove(i);
                proof {
                    assert(self.pending() =~= before.subrange(0, i as int) + before.subrange(
                        i as int + 1,
                        before.len() as int,
                    ));
                    lemma_release_is_id_exact(before, i as int, id@);
                    assert(forall|x: Seq<char>|
                        x != id@ ==> #[trigger] self.pending().contains(x) == before.contains(x));
                }
                true
            },
            None => false,
        }
    }
}

/// Releasing a slot is request-id-exact: removing the one occurrence of `id`
/// from a duplicate-free pending list removes exactly that identifier — it is
/// no longer pending, every other identifier keeps its slot, and no duplicate
/// appears. This is what lets a response, a timeout or a close touch only the
/// correlation it names, however it interleaves with other traffic.
pub proof fn lemma_release_is_id_exact(s: Seq<Seq<char>>, i: int, id: Seq<char>)
    requires
        0 <= i < s.len(),
        s[i] == id,
        forall|a: int, b: int| 0 <= a < b < s.len() ==> s[a] != s[b],
    ensures
        ({
            let t = s.subrange(0, i) + s.subrange(i + 1, s.len() as int);
            &&& !t.contains(id)
            &&& forall|x: Seq<char>| x != id ==> #[trigger] t.contains(x) == s.contains(x)
            &&& forall|a: int, b: int| 0 <= a < b < t.len() ==> t[a] != t[b]
        }),
{
    let t = s.subrange(0, i) + s.subrange(i + 1, s.len() as int);
    assert forall|k: int| 0 <= k < t.len() implies t[k] != id by {
        if k < i {
            assert(t[k] == s[k]);
        } else {
            assert(t[k] == s[k + 1]);
        }
    }
    if t.contains(id) {
        let k = choose|k: int| 0 <= k < t.len() && t[k] == id;
        assert(false);
    }
    assert forall|x: Seq<char>| x != id implies #[trigger] t.contains(x) == s.contains(x) by {
        if s.contains(x) {
            let k = choose|k: int| 0 <= k < s.len() && s[k] == x;
            if k < i {
                assert(t[k] == x);
            } else if k > i {
                assert(t[k - 1] == x);
            }
            assert(t.contains(x));
        }
        if t.contains(x) {
            let k = choose|k: int| 0 <= k < t.len() && t[k] == x;
            if k < i {
                assert(s[k] == x);
            } else {
                assert(s[k + 1] == x);
            }
            assert(s.contains(x));
        }
    }
    assert forall|a: int, b: int| 0 <= a < b < t.len() implies t[a] != t[b] by {
        let sa = if a < i { a } else { a + 1 };
        let sb = if b < i { b } else { b + 1 };
        assert(t[a] == s[sa]);
        assert(t[b] == s[sb]);
    }
}

} // verus!
