//! Reference-counted bus-side match reservations. Each distinct match
//! expression is held with a refcount; the first reservation asks the bus
//! for an `AddMatch`, the last release asks for a `RemoveMatch`. The
//! registry decides; performing the bus round-trip is the caller's part.

use vstd::prelude::*;

verus! {

/// A registered match expression and its refcount.
pub struct MatchEntry {
    pub expr: String,
    pub count: u64,
}

/// What the caller must send to the bus after a registry transition.
#[derive(Clone, Copy, Debug, PartialEq, Eq, Structural)]
pub enum BusCall {
    Nothing,
    SendAddMatch,
    SendRemoveMatch,
}

/// The per-connection match registry.
///
/// The ghost counters record how many `AddMatch` and `RemoveMatch` calls
/// the registry has asked for; their balance is tied to the live entries
/// by [`MatchRegistry::wf`].
pub struct MatchRegistry {
    entries: Vec<MatchEntry>,
    adds_sent: Ghost<int>,
    removes_sent: Ghost<int>,
}

impl MatchRegistry {
    /// The registered entries, in registration order.
    pub closed spec fn entries_seq(&self) -> Seq<MatchEntry> {
        self.entries@
    }

    /// How many `AddMatch` calls the registry has asked for.
    pub closed spec fn adds_sent(&self) -> int {
        self.adds_sent@
    }

    /// How many `RemoveMatch` calls the registry has asked for.
    pub closed spec fn removes_sent(&self) -> int {
        self.removes_sent@
    }

    /// The expression is currently registered (refcount above zero).
    pub open spec fn has_expr(&self, e: Seq<char>) -> bool {
        exists|i: int|
            0 <= i < self.entries_seq().len() && #[trigger] self.entries_seq()[i].expr@ == e
    }

    /// The position of a registered expression.
    pub open spec fn index_of(&self, e: Seq<char>) -> int {
        choose|i: int|
            0 <= i < self.entries_seq().len() && #[trigger] self.entries_seq()[i].expr@ == e
    }

    /// The refcount of an expression; zero when it is not registered.
    pub open spec fn count_of(&self, e: Seq<char>) -> int {
        if self.has_expr(e) {
            self.entries_seq()[self.index_of(e)].count as int
        } else {
            0
        }
    }

    /// The number of distinct expressions currently registered.
    pub open spec fn active_count(&self) -> int {
        self.entries_seq().len() as int
    }

    /// No expression is registered twice.
    pub open spec fn distinct_exprs(&self) -> bool {
        forall|i: int, j: int|
            0 <= i < j < self.entries_seq().len() ==> (#[trigger] self.entries_seq()[i].expr@)
                != (#[trigger] self.entries_seq()[j].expr@)
    }

    /// Distinct expressions, every refcount at least 1, and the bus calls
    /// asked for balance out to exactly the live registrations.
    pub open spec fn wf(&self) -> bool {
        &&& self.distinct_exprs()
        &&& (forall|i: int|
            0 <= i < self.entries_seq().len() ==> (#[trigger] self.entries_seq()[i].count) >= 1)
        &&& self.removes_sent() >= 0
        &&& self.adds_sent() - self.removes_sent() == self.active_count()
    }

    /// Position `i` holds expression `e`, so `e` is registered there and
    /// its refcount is the count stored at `i`.
    proof fn lemma_count_at(&self, i: int)
        requires
            self.distinct_exprs(),
            0 <= i < self.entries_seq().len(),
        ensures
            self.has_expr(self.entries_seq()[i].expr@),
            self.index_of(self.entries_seq()[i].expr@) == i,
            self.count_of(self.entries_seq()[i].expr@) == self.entries_seq()[i].count,
    {
        let e = self.entries_seq()[i].expr@;
        assert(self.has_expr(e));
        let j = self.index_of(e);
        assert(0 <= j < self.entries_seq().len() && self.entries_seq()[j].expr@ == e);
        if i != j {
            if i < j {
                assert(self.entries_seq()[i].expr@ != self.entries_seq()[j].expr@);
            } else {
                assert(self.entries_seq()[j].expr@ != self.entries_seq()[i].expr@);
            }
        }
    }

    /// An empty registry: nothing registered, no bus call asked for.
    pub fn new() -> (r: Self)
        ensures
            r.wf(),
            r.entries_seq() == Seq::<MatchEntry>::empty(),
            r.adds_sent() == 0,
            r.removes_sent() == 0,
            forall|e: Seq<char>| !r.has_expr(e),
    {
        MatchRegistry { entries: Vec::new(), adds_sent: Ghost(0), removes_sent: Ghost(0) }
    }

    /// Finds the position of `expr`, if registered.
    fn find(&self, expr: &String) -> (r: Option<usize>)
        requires
            self.wf(),
        ensures
            r matches Some(i) ==> 0 <= i < self.entries_seq().len()
                && self.entries_seq()[i as int].expr@ == expr@ && self.index_of(expr@) == i,
            r is None ==> !self.has_expr(expr@),
    {
        let n = self.entries.len();
        let mut i: usize = 0;
        while i < n
            invariant
                self.wf(),
                n == self.entries_seq().len(),
                0 <= i <= n,
                forall|j: int| 0 <= j < i ==> (#[trigger] self.entries_seq()[j].expr@) != expr@,
            decreases n - i,
        {
            if self.entries[i].expr == *expr {
                proof {
                    self.lemma_count_at(i as int);
                }
                return Some(i);
            }
            i = i + 1;
        }
        None
    }

    /// Registers one reservation of `expr`.
    ///
    /// A first reservation asks for an `AddMatch`; a repeated one only
    /// raises the refcount. No other expression is touched.
    pub fn add_match(&mut self, expr: String) -> (r: BusCall)
        requires
            old(self).wf(),
            old(self).count_of(expr@) < u64::MAX,
            old(self).entries_seq().len() < usize::MAX,
        ensures
            final(self).wf(),
            r is SendAddMatch <==> !old(self).has_expr(expr@),
            !(r is SendRemoveMatch),
            final(self).has_expr(expr@),
            final(self).count_of(expr@) == old(self).count_of(expr@) + 1,
            forall|e: Seq<char>|
                e != expr@ ==> #[trigger] final(self).count_of(e) == old(self).count_of(e) && (
                final(self).has_expr(e) <==> old(self).has_expr(e)),
            final(self).adds_sent() == old(self).adds_sent() + (
            if old(self).has_expr(expr@) {
                0int
            } else {
                1int
            }),
            final(self).removes_sent() == old(self).removes_sent(),
    {
        let ghost pre = *self;
        match self.find(&expr) {
            Some(i) => {
                let c = self.entries[i].count;
                self.entries[i].count = c + 1;
                proof {
                    lemma_update_one(
                        pre.entries_seq(),
                        self.entries_seq(),
                        i as int,
                        pre,
                        *self,
                    );
                    pre.lemma_count_at(i as int);
                    self.lemma_count_at(i as int);
                }
                BusCall::Nothing
            },
            None => {
                self.entries.push(MatchEntry { expr, count: 1 });
                proof {
                    self.adds_sent@ = pre.adds_sent() + 1;
                    lemma_push_one(pre.entries_seq(), self.entries_seq(), pre, *self);
                    self.lemma_count_at(pre.entries_seq().len() as int);
                }
                BusCall::SendAddMatch
            },
        }
    }

    /// Releases one reservation of `expr`.
    ///
    /// Returns whether the expression was registered at all, and the bus
    /// call owed: the last release evicts the entry and asks for a
    /// `RemoveMatch`. No other expression is touched.
    #[verifier::rlimit(60)]
    pub fn remove_match(&mut self, expr: String) -> (r: (bool, BusCall))
        requires
            old(self).wf(),
        ensures
            final(self).wf(),
            r.0 == old(self).has_expr(expr@),
            r.1 is SendRemoveMatch <==> old(self).count_of(expr@) == 1,
            !(r.1 is SendAddMatch),
            final(self).count_of(expr@) == if old(self).count_of(expr@) > 0 {
                old(self).count_of(expr@) - 1
            } else {
                0int
            },
            final(self).has_expr(expr@) <==> old(self).count_of(expr@) > 1,
            forall|e: Seq<char>|
                e != expr@ ==> #[trigger] final(self).count_of(e) == old(self).count_of(e) && (
                final(self).has_expr(e) <==> old(self).has_expr(e)),
            final(self).removes_sent() == old(self).removes_sent() + (
            if old(self).count_of(expr@) == 1 {
                1int
            } else {
                0int
            }),
            final(self).adds_sent() == old(self).adds_sent(),
    {
        let ghost pre = *self;
        match self.find(&expr) {
            Some(i) => {
                let c = self.entries[i].count;
                proof {
                    pre.lemma_count_at(i as int);
                }
                if c == 1 {
                    self.entries.remove(i);
                    proof {
                        self.removes_sent@ = pre.removes_sent() + 1;
                        lemma_remove_one(pre.entries_seq(), self.entries_seq(), i as int, pre, *self);
                        assert forall|e: Seq<char>| e != expr@ implies #[trigger] self.count_of(e)
                            == pre.count_of(e) && (self.has_expr(e) <==> pre.has_expr(e)) by {
                            assert(pre.entries_seq()[i as int].expr@ == expr@);
                        }
                    }
                    (true, BusCall::SendRemoveMatch)
                } else {
                    self.entries[i].count = c - 1;
                    proof {
                        lemma_update_one(
                            pre.entries_seq(),
                            self.entries_seq(),
                            i as int,
                            pre,
                            *self,
                        );
                        self.lemma_count_at(i as int);
                        assert forall|e: Seq<char>| e != expr@ implies #[trigger] self.count_of(e)
                            == pre.count_of(e) && (self.has_expr(e) <==> pre.has_expr(e)) by {
                            assert(pre.entries_seq()[i as int].expr@ == expr@);
                        }
                    }
                    (true, BusCall::Nothing)
                }
            },
            None => (false, BusCall::Nothing),
        }
    }
}

/// After replacing the entry at `idx` by one with the same expression,
/// every other expression keeps its registration and refcount.
proof fn lemma_update_one(
    pre: Seq<MatchEntry>,
    post: Seq<MatchEntry>,
    idx: int,
    rpre: MatchRegistry,
    rpost: MatchRegistry,
)
    requires
        rpre.entries_seq() == pre,
        rpost.entries_seq() == post,
        0 <= idx < pre.len(),
        post.len() == pre.len(),
        post[idx].expr@ == pre[idx].expr@,
        forall|i: int| 0 <= i < pre.len() && i != idx ==> post[i] == pre[i],
        forall|i: int, j: int|
            0 <= i < j < pre.len() ==> (#[trigger] pre[i].expr@) != (#[trigger] pre[j].expr@),
    ensures
        forall|i: int, j: int|
            0 <= i < j < post.len() ==> (#[trigger] post[i].expr@) != (#[trigger] post[j].expr@),
        forall|e: Seq<char>|
            e != pre[idx].expr@ ==> #[trigger] rpost.count_of(e) == rpre.count_of(e) && (
            rpost.has_expr(e) <==> rpre.has_expr(e)),
{
    assert forall|i: int, j: int| 0 <= i < j < post.len() implies (#[trigger] post[i].expr@) != (
    #[trigger] post[j].expr@) by {
        assert(pre[i].expr@ != pre[j].expr@);
    }
    assert forall|e: Seq<char>| e != pre[idx].expr@ implies #[trigger] rpost.count_of(e)
        == rpre.count_of(e) && (rpost.has_expr(e) <==> rpre.has_expr(e)) by {
        if rpre.has_expr(e) {
            let i = rpre.index_of(e);
            assert(pre[i].expr@ == e);
            assert(i != idx);
            assert(post[i].expr@ == e);
            assert(rpost.has_expr(e));
            rpre.lemma_count_at(i);
            rpost.lemma_count_at(i);
        } else {
            if rpost.has_expr(e) {
                let i = rpost.index_of(e);
                assert(post[i].expr@ == e);
                assert(i != idx);
                assert(pre[i].expr@ == e);
                assert(rpre.has_expr(e));
            }
        }
    }
}

/// After appending an entry with a fresh expression, every other
/// expression keeps its registration and refcount.
proof fn lemma_push_one(
    pre: Seq<MatchEntry>,
    post: Seq<MatchEntry>,
    rpre: MatchRegistry,
    rpost: MatchRegistry,
)
    requires
        rpre.entries_seq() == pre,
        rpost.entries_seq() == post,
        post.len() == pre.len() + 1,
        forall|i: int| 0 <= i < pre.len() ==> post[i] == pre[i],
        !rpre.has_expr(post[pre.len() as int].expr@),
        forall|i: int, j: int|
            0 <= i < j < pre.len() ==> (#[trigger] pre[i].expr@) != (#[trigger] pre[j].expr@),
    ensures
        forall|i: int, j: int|
            0 <= i < j < post.len() ==> (#[trigger] post[i].expr@) != (#[trigger] post[j].expr@),
        forall|e: Seq<char>|
            e != post[pre.len() as int].expr@ ==> #[trigger] rpost.count_of(e) == rpre.count_of(e)
                && (rpost.has_expr(e) <==> rpre.has_expr(e)),
{
    let new_expr = post[pre.len() as int].expr@;
    assert forall|i: int, j: int| 0 <= i < j < post.len() implies (#[trigger] post[i].expr@) != (
    #[trigger] post[j].expr@) by {
        if j < pre.len() {
            assert(pre[i].expr@ != pre[j].expr@);
        } else {
            assert(post[i] == pre[i]);
            assert(rpre.has_expr(pre[i].expr@) || true);
            if post[i].expr@ == new_expr {
                assert(rpre.has_expr(new_expr));
            }
        }
    }
    assert forall|e: Seq<char>| e != new_expr implies #[trigger] rpost.count_of(e)
        == rpre.count_of(e) && (rpost.has_expr(e) <==> rpre.has_expr(e)) by {
        if rpre.has_expr(e) {
            let i = rpre.index_of(e);
            assert(post[i].expr@ == e);
            assert(rpost.has_expr(e));
            rpre.lemma_count_at(i);
            rpost.lemma_count_at(i);
        } else {
            if rpost.has_expr(e) {
                let i = rpost.index_of(e);
                if i < pre.len() {
                    assert(pre[i].expr@ == e);
                    assert(rpre.has_expr(e));
                }
            }
        }
    }
}

/// After removing the entry at `idx`, every other expression keeps its
/// registration and refcount, and the removed one is gone.
proof fn lemma_remove_one(
    pre: Seq<MatchEntry>,
    post: Seq<MatchEntry>,
    idx: int,
    rpre: MatchRegistry,
    rpost: MatchRegistry,
)
    requires
        rpre.entries_seq() == pre,
        rpost.entries_seq() == post,
        0 <= idx < pre.len(),
        post == pre.remove(idx),
        forall|i: int, j: int|
            0 <= i < j < pre.len() ==> (#[trigger] pre[i].expr@) != (#[trigger] pre[j].expr@),
    ensures
        forall|i: int, j: int|
            0 <= i < j < post.len() ==> (#[trigger] post[i].expr@) != (#[trigger] post[j].expr@),
        !rpost.has_expr(pre[idx].expr@),
        forall|e: Seq<char>|
            e != pre[idx].expr@ ==> #[trigger] rpost.count_of(e) == rpre.count_of(e) && (
            rpost.has_expr(e) <==> rpre.has_expr(e)),
{
    assert(post.len() == pre.len() - 1);
    assert forall|i: int| 0 <= i < post.len() implies post[i] == (
    if i < idx {
        pre[i]
    } else {
        pre[i + 1]
    }) by {}
    assert forall|i: int, j: int| 0 <= i < j < post.len() implies (#[trigger] post[i].expr@) != (
    #[trigger] post[j].expr@) by {
        let pi = if i < idx { i } else { i + 1 };
        let pj = if j < idx { j } else { j + 1 };
        assert(pre[pi].expr@ != pre[pj].expr@);
    }
    if rpost.has_expr(pre[idx].expr@) {
        let i = rpost.index_of(pre[idx].expr@);
        let pi = if i < idx { i } else { i + 1 };
        assert(pre[pi].expr@ == pre[idx].expr@);
        if pi < idx {
            assert(pre[pi].expr@ != pre[idx].expr@);
        } else if pi > idx {
            assert(pre[idx].expr@ != pre[pi].expr@);
        }
    }
    assert forall|e: Seq<char>| e != pre[idx].expr@ implies #[trigger] rpost.count_of(e)
        == rpre.count_of(e) && (rpost.has_expr(e) <==> rpre.has_expr(e)) by {
        if rpre.has_expr(e) {
            let i = rpre.index_of(e);
            assert(pre[i].expr@ == e);
            assert(i != idx);
            let ni = if i < idx { i } else { i - 1 };
            assert(post[ni] == pre[i]);
            assert(rpost.has_expr(e));
            rpre.lemma_count_at(i);
            rpost.lemma_count_at(ni);
        } else {
            if rpost.has_expr(e) {
                let i = rpost.index_of(e);
                let pi = if i < idx { i } else { i + 1 };
                assert(pre[pi].expr@ == e);
                assert(rpre.has_expr(e));
            }
        }
    }
}

/// Bus-call balance: in every reachable registry state the `AddMatch`
/// calls asked for exceed the `RemoveMatch` calls by exactly the number
/// of expressions currently registered; once nothing remains registered,
/// every `AddMatch` has been balanced by exactly one `RemoveMatch`.
pub proof fn lemma_match_call_balance(r: MatchRegistry)
    requires
        r.wf(),
    ensures
        r.adds_sent() - r.removes_sent() == r.active_count(),
        r.active_count() == 0 ==> r.adds_sent() == r.removes_sent(),
{
}

} // verus!
