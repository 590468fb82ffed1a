//! The toggle relation: a presence/absence association between a user and
//! a resource, represented solely by row existence and flipped by one
//! idempotent operation. The table is modeled as the set of live
//! `(user, resource)` pairs; favorites and purchases are two instances of
//! the same contract.

use vstd::prelude::*;

verus! {

/// Which way a toggle went: `On` inserted the relation row, `Off` deleted
/// it.
#[derive(Clone, Copy, Debug, PartialEq, Eq, Structural)]
pub enum Toggled {
    On,
    Off,
}

/// One relation row. Its existence is the state; there is no flag. A row
/// is never updated in place: re-toggling deletes it, and a later toggle
/// inserts a fresh row, losing the prior notes and creation time.
#[derive(Clone, Debug)]
pub struct RelationRow {
    pub user_id: i32,
    pub model_id: i32,
    pub notes: Option<String>,
    pub created_at: i64,
}

/// A toggle over the set of live pairs: remove the pair when present,
/// insert it when absent.
pub open spec fn spec_toggle(s: Set<(i32, i32)>, p: (i32, i32)) -> Set<(i32, i32)> {
    if s.contains(p) {
        s.remove(p)
    } else {
        s.insert(p)
    }
}

/// A relation table, unique on `(user_id, model_id)`: the in-memory model
/// of the store-side table, against which the toggle contract is proved.
#[derive(Clone, Debug)]
pub struct RelationTable {
    rows: Vec<RelationRow>,
}

impl RelationTable {
    /// The rows, in insertion order.
    pub closed spec fn rows_seq(&self) -> Seq<RelationRow> {
        self.rows@
    }

    /// The set of live `(user, resource)` pairs: the whole observable
    /// state of the relation.
    pub open spec fn pairs(&self) -> Set<(i32, i32)> {
        Set::new(
            |p: (i32, i32)|
                exists|i: int|
                    0 <= i < self.rows_seq().len() && (#[trigger] self.rows_seq()[i]).user_id == p.0
                        && self.rows_seq()[i].model_id == p.1,
        )
    }

    /// No two rows share a `(user_id, model_id)` pair: the uniqueness
    /// constraint the store must enforce.
    pub open spec fn wf(&self) -> bool {
        forall|i: int, j: int|
            0 <= i < j < self.rows_seq().len() ==> ((#[trigger] self.rows_seq()[i]).user_id != (
            #[trigger] self.rows_seq()[j]).user_id || self.rows_seq()[i].model_id
                != self.rows_seq()[j].model_id)
    }

    /// An empty relation: no user is related to any resource.
    pub fn new() -> (r: RelationTable)
        ensures
            r.wf(),
            r.pairs() == Set::<(i32, i32)>::empty(),
            r.rows_seq().len() == 0,
    {
        let r = RelationTable { rows: Vec::new() };
        proof {
            assert(r.pairs() =~= Set::<(i32, i32)>::empty());
        }
        r
    }

    /// Whether the relation row for `(user_id, model_id)` is live.
    pub fn contains(&self, user_id: i32, model_id: i32) -> (r: bool)
        ensures
            r == self.pairs().contains((user_id, model_id)),
    {
        let n: usize = self.rows.len();
        let mut i: usize = 0;
        while i < n
            invariant
                0 <= i <= n,
                n == self.rows_seq().len(),
                forall|j: int|
                    0 <= j < i ==> ((#[trigger] self.rows_seq()[j]).user_id != user_id
                        || self.rows_seq()[j].model_id != model_id),
            decreases n - i,
        {
            if self.rows[i].user_id == user_id && self.rows[i].model_id == model_id {
                proof {
                    assert(self.rows_seq()[i as int].user_id == (user_id, model_id).0);
                    assert(self.pairs().contains((user_id, model_id)));
                }
                return true;
            }
            i = i + 1;
        }
        proof {
            assert(!self.pairs().contains((user_id, model_id)));
        }
        false
    }

    /// Flips the relation for `(user_id, model_id)`: deletes the row when
    /// one is live and reports `Off`; inserts a fresh row carrying the
    /// given notes and `created_at = now` when none is, and reports `On`.
    /// Either way every other row keeps its place, its notes and its
    /// creation time.
    pub fn toggle(&mut self, user_id: i32, model_id: i32, notes: Option<String>, now: i64) -> (r:
        Toggled)
        requires
            old(self).wf(),
        ensures
            final(self).wf(),
            final(self).pairs() == spec_toggle(old(self).pairs(), (user_id, model_id)),
            (r == Toggled::On) <==> !old(self).pairs().contains((user_id, model_id)),
            r == Toggled::On ==> final(self).rows_seq() == old(self).rows_seq().push(
                RelationRow { user_id, model_id, notes, created_at: now },
            ),
            r == Toggled::Off ==> exists|k: int|
                0 <= k < old(self).rows_seq().len() && (#[trigger] old(self).rows_seq()[k]).user_id
                    == user_id && old(self).rows_seq()[k].model_id == model_id
                    && final(self).rows_seq() == old(self).rows_seq().remove(k),
    {
        let n: usize = self.rows.len();
        let mut i: usize = 0;
        while i < n
            invariant
                *self == *old(self),
                old(self).wf(),
                0 <= i <= n,
                n == self.rows_seq().len(),
                forall|j: int|
                    0 <= j < i ==> ((#[trigger] self.rows_seq()[j]).user_id != user_id
                        || self.rows_seq()[j].model_id != model_id),
            decreases n - i,
        {
            if self.rows[i].user_id == user_id && self.rows[i].model_id == model_id {
                let ghost p = (user_id, model_id);
                let ghost before = self.rows_seq();
                self.rows.remove(i);
                proof {
                    assert(before[i as int].user_id == p.0);
                    assert(old(self).pairs().contains(p));
                    assert forall|a: int, b: int| 0 <= a < b < before.len() implies ((
                    #[trigger] before[a]).user_id != (#[trigger] before[b]).user_id
                        || before[a].model_id != before[b].model_id) by {
                        assert(before[a] == old(self).rows_seq()[a]);
                        assert(before[b] == old(self).rows_seq()[b]);
                    }
                    self.lemma_pairs_after_remove(before, i as int, p);
                    assert(before == old(self).rows_seq());
                    let k = i as int;
                    assert(0 <= k < before.len() && before[k].user_id == user_id
                        && before[k].model_id == model_id && self.rows_seq() == before.remove(k));
                }
                return Toggled::Off;
            }
            i = i + 1;
        }
        let ghost p = (user_id, model_id);
        let ghost before = self.rows_seq();
        proof {
            assert(forall|j: int|
                0 <= j < before.len() ==> ((#[trigger] before[j]).user_id != user_id
                    || before[j].model_id != model_id));
            assert(!old(self).pairs().contains(p));
        }
        self.rows.push(RelationRow { user_id, model_id, notes, created_at: now });
        proof {
            self.lemma_pairs_after_push(before, p);
        }
        Toggled::On
    }

    /// Removing the one row that carries `p` from a well-formed table
    /// removes exactly `p` from the pair set.
    proof fn lemma_pairs_after_remove(&self, before: Seq<RelationRow>, k: int, p: (i32, i32))
        requires
            0 <= k < before.len(),
            before[k].user_id == p.0,
            before[k].model_id == p.1,
            self.rows_seq() == before.remove(k),
            forall|i: int, j: int|
                0 <= i < j < before.len() ==> ((#[trigger] before[i]).user_id != (
                #[trigger] before[j]).user_id || before[i].model_id != before[j].model_id),
        ensures
            self.wf(),
            self.pairs() == Set::new(
                |q: (i32, i32)|
                    exists|i: int|
                        0 <= i < before.len() && (#[trigger] before[i]).user_id == q.0
                            && before[i].model_id == q.1,
            ).remove(p),
    {
        let after = self.rows_seq();
        let old_pairs = Set::new(
            |q: (i32, i32)|
                exists|i: int|
                    0 <= i < before.len() && (#[trigger] before[i]).user_id == q.0
                        && before[i].model_id == q.1,
        );
        assert(forall|i: int| 0 <= i < k ==> #[trigger] after[i] == before[i]);
        assert(forall|i: int| k <= i < after.len() ==> #[trigger] after[i] == before[i + 1]);
        assert forall|q: (i32, i32)| self.pairs().contains(q) implies old_pairs.remove(p).contains(
            q,
        ) by {
            let i = choose|i: int|
                0 <= i < after.len() && (#[trigger] after[i]).user_id == q.0 && after[i].model_id
                    == q.1;
            let i0 = if i < k {
                i
            } else {
                i + 1
            };
            assert(before[i0].user_id == q.0 && before[i0].model_id == q.1);
            assert(old_pairs.contains(q));
            if q == p {
                assert(before[i0].user_id == before[k].user_id && before[i0].model_id
                    == before[k].model_id);
                assert(i0 != k);
                assert(false);
            }
        }
        assert forall|q: (i32, i32)| old_pairs.remove(p).contains(q) implies self.pairs().contains(
            q,
        ) by {
            let i0 = choose|i: int|
                0 <= i < before.len() && (#[trigger] before[i]).user_id == q.0 && before[i].model_id
                    == q.1;
            assert(i0 != k);
            let i = if i0 < k {
                i0
            } else {
                i0 - 1
            };
            assert(after[i] == before[i0]);
            assert((#[trigger] after[i]).user_id == q.0 && after[i].model_id == q.1);
        }
        assert(self.pairs() =~= old_pairs.remove(p));
        assert forall|i: int, j: int| 0 <= i < j < after.len() implies ((
        #[trigger] after[i]).user_id != (#[trigger] after[j]).user_id || after[i].model_id
            != after[j].model_id) by {
            let i0 = if i < k {
                i
            } else {
                i + 1
            };
            let j0 = if j < k {
                j
            } else {
                j + 1
            };
            assert(after[i] == before[i0] && after[j] == before[j0]);
            assert(0 <= i0 < j0 < before.len());
        }
    }

    /// Appending a row for a pair that no row carries adds exactly that
    /// pair to the pair set.
    proof fn lemma_pairs_after_push(&self, before: Seq<RelationRow>, p: (i32, i32))
        requires
            self.rows_seq().len() == before.len() + 1,
            self.rows_seq() == before.push(self.rows_seq().last()),
            self.rows_seq().last().user_id == p.0,
            self.rows_seq().last().model_id == p.1,
            forall|i: int, j: int|
                0 <= i < j < before.len() ==> ((#[trigger] before[i]).user_id != (
                #[trigger] before[j]).user_id || before[i].model_id != before[j].model_id),
            forall|j: int|
                0 <= j < before.len() ==> ((#[trigger] before[j]).user_id != p.0
                    || before[j].model_id != p.1),
        ensures
            self.wf(),
            self.pairs() == Set::new(
                |q: (i32, i32)|
                    exists|i: int|
                        0 <= i < before.len() && (#[trigger] before[i]).user_id == q.0
                            && before[i].model_id == q.1,
            ).insert(p),
    {
        let after = self.rows_seq();
        let old_pairs = Set::new(
            |q: (i32, i32)|
                exists|i: int|
                    0 <= i < before.len() && (#[trigger] before[i]).user_id == q.0
                        && before[i].model_id == q.1,
        );
        assert(forall|i: int| 0 <= i < before.len() ==> #[trigger] after[i] == before[i]);
        assert forall|q: (i32, i32)| self.pairs().contains(q) implies old_pairs.insert(p).contains(
            q,
        ) by {
            let i = choose|i: int|
                0 <= i < after.len() && (#[trigger] after[i]).user_id == q.0 && after[i].model_id
                    == q.1;
            if i < before.len() {
                assert(before[i].user_id == q.0 && before[i].model_id == q.1);
                assert(old_pairs.contains(q));
            } else {
                assert(q == p);
            }
        }
        assert forall|q: (i32, i32)| old_pairs.insert(p).contains(q) implies self.pairs().contains(
            q,
        ) by {
            if q == p {
                let i = before.len() as int;
                assert((#[trigger] after[i]).user_id == q.0 && after[i].model_id == q.1);
            } else {
                let i = choose|i: int|
                    0 <= i < before.len() && (#[trigger] before[i]).user_id == q.0
                        && before[i].model_id == q.1;
                assert((#[trigger] after[i]).user_id == q.0 && after[i].model_id == q.1);
            }
        }
        assert(self.pairs() =~= old_pairs.insert(p));
    }

    /// The resource ids the user holds a live relation for, in row order:
    /// what a favorites or purchases listing joins against the resource
    /// table.
    pub fn user_models(&self, user_id: i32) -> (r: Vec<i32>)
        ensures
            r@ == spec_user_models(self.rows_seq(), user_id),
    {
        let mut r: Vec<i32> = Vec::new();
        let n: usize = self.rows.len();
        let mut i: usize = 0;
        while i < n
            invariant
                0 <= i <= n,
                n == self.rows_seq().len(),
                r@ == spec_user_models(self.rows_seq().take(i as int), user_id),
            decreases n - i,
        {
            let ghost prefix1 = self.rows_seq().take(i + 1);
            proof {
                assert(prefix1.drop_last() =~= self.rows_seq().take(i as int));
                assert(prefix1.last() == self.rows_seq()[i as int]);
            }
            if self.rows[i].user_id == user_id {
                r.push(self.rows[i].model_id);
            }
            i = i + 1;
        }
        proof {
            assert(self.rows_seq().take(n as int) =~= self.rows_seq());
        }
        r
    }
}

/// The model ids of the rows a user owns, in row order.
pub open spec fn spec_user_models(rows: Seq<RelationRow>, user_id: i32) -> Seq<i32>
    decreases rows.len(),
{
    if rows.len() == 0 {
        Seq::empty()
    } else if rows.last().user_id == user_id {
        spec_user_models(rows.drop_last(), user_id).push(rows.last().model_id)
    } else {
        spec_user_models(rows.drop_last(), user_id)
    }
}

/// Toggling the same pair twice returns the relation to its original
/// state, whatever that state was: the operation is an involution on the
/// pair set.
pub proof fn lemma_toggle_twice(s: Set<(i32, i32)>, p: (i32, i32))
    ensures
        spec_toggle(spec_toggle(s, p), p) == s,
{
    if s.contains(p) {
        assert(spec_toggle(spec_toggle(s, p), p) =~= s);
    } else {
        assert(spec_toggle(spec_toggle(s, p), p) =~= s);
    }
}

/// One toggle always flips presence: the pair is live afterwards exactly
/// when it was not before, so an odd number of toggles leaves the relation
/// present and an even number leaves it absent.
pub proof fn lemma_toggle_flips(s: Set<(i32, i32)>, p: (i32, i32))
    ensures
        spec_toggle(s, p).contains(p) <==> !s.contains(p),
{
}

} // verus!
