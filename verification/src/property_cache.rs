//! The per-proxy property cache. It is fed from two sources — live
//! `PropertiesChanged` signals and the one bulk `GetAll` reply — drained
//! in arrival order. A changed entry stores the new value, an invalidated
//! entry stays present with no value, and the bulk reply populates only
//! names that no signal has touched first, so a fresher update is never
//! overwritten by the older snapshot.

use vstd::prelude::*;
use crate::message::PropValue;

verus! {

/// The view of a stored value: `None` for an invalidated entry.
pub open spec fn opt_value_view(o: Option<PropValue>) -> Option<(Seq<char>, Seq<u8>)> {
    match o {
        Some(v) => Some(v@),
        None => None,
    }
}

/// A list of property updates carries this name.
pub open spec fn updates_name(s: Seq<(String, PropValue)>, n: Seq<char>) -> bool {
    exists|i: int| 0 <= i < s.len() && (#[trigger] s[i]).0@ == n
}

/// A list of property names carries this name.
pub open spec fn invalidates_name(s: Seq<String>, n: Seq<char>) -> bool {
    exists|i: int| 0 <= i < s.len() && (#[trigger] s[i])@ == n
}

/// The cache map after invalidating each listed name in turn: a name
/// with an entry loses its value; a name with no entry stays absent.
pub open spec fn apply_invalidated(
    m: Map<Seq<char>, Option<(Seq<char>, Seq<u8>)>>,
    inv: Seq<String>,
) -> Map<Seq<char>, Option<(Seq<char>, Seq<u8>)>>
    decreases inv.len(),
{
    if inv.len() == 0 {
        m
    } else {
        let m1 = if m.dom().contains(inv[0]@) {
            m.insert(inv[0]@, None)
        } else {
            m
        };
        apply_invalidated(m1, inv.drop_first())
    }
}

/// The cache map after storing each changed entry in turn.
pub open spec fn apply_changed(
    m: Map<Seq<char>, Option<(Seq<char>, Seq<u8>)>>,
    ch: Seq<(String, PropValue)>,
) -> Map<Seq<char>, Option<(Seq<char>, Seq<u8>)>>
    decreases ch.len(),
{
    if ch.len() == 0 {
        m
    } else {
        apply_changed(m.insert(ch[0].0@, Some(ch[0].1@)), ch.drop_first())
    }
}

/// The cache map after one `PropertiesChanged`: invalidations first,
/// then the changed values.
pub open spec fn update_applied(
    m: Map<Seq<char>, Option<(Seq<char>, Seq<u8>)>>,
    ch: Seq<(String, PropValue)>,
    inv: Seq<String>,
) -> Map<Seq<char>, Option<(Seq<char>, Seq<u8>)>> {
    apply_changed(apply_invalidated(m, inv), ch)
}

/// The cache map after the `GetAll` reply: each carried name populates
/// the cache only when nothing has touched that name yet.
pub open spec fn get_all_applied(
    m: Map<Seq<char>, Option<(Seq<char>, Seq<u8>)>>,
    values: Seq<(String, PropValue)>,
) -> Map<Seq<char>, Option<(Seq<char>, Seq<u8>)>>
    decreases values.len(),
{
    if values.len() == 0 {
        m
    } else {
        let m1 = if m.dom().contains(values[0].0@) {
            m
        } else {
            m.insert(values[0].0@, Some(values[0].1@))
        };
        get_all_applied(m1, values.drop_first())
    }
}

/// No property name appears twice in an entry list.
pub open spec fn distinct_names(s: Seq<(String, Option<PropValue>)>) -> bool {
    forall|i: int, j: int| 0 <= i < j < s.len() ==> (#[trigger] s[i]).0@ != (#[trigger] s[j]).0@
}

/// The per-proxy property cache.
pub struct PropertiesCache {
    entries: Vec<(String, Option<PropValue>)>,
    ready_done: bool,
}

impl PropertiesCache {
    /// The stored entries, in insertion order.
    pub closed spec fn entries_seq(&self) -> Seq<(String, Option<PropValue>)> {
        self.entries@
    }

    /// Whether the first population has completed (or failed).
    pub closed spec fn ready_spec(&self) -> bool {
        self.ready_done
    }

    /// An entry exists for this name (possibly invalidated).
    pub open spec fn has_entry(&self, n: Seq<char>) -> bool {
        exists|i: int| 0 <= i < self.entries_seq().len() && (#[trigger] self.entries_seq()[i]).0@ == n
    }

    /// The stored value of a present entry; `None` when invalidated.
    pub open spec fn value_of(&self, n: Seq<char>) -> Option<(Seq<char>, Seq<u8>)> {
        opt_value_view(
            self.entries_seq()[choose|i: int|
                0 <= i < self.entries_seq().len() && (#[trigger] self.entries_seq()[i]).0@ == n].1,
        )
    }

    /// The cache as a map from property name to optional value.
    pub open spec fn view_map(&self) -> Map<Seq<char>, Option<(Seq<char>, Seq<u8>)>> {
        Map::new(|n: Seq<char>| self.has_entry(n), |n: Seq<char>| self.value_of(n))
    }

    /// No property name has two entries.
    pub open spec fn wf(&self) -> bool {
        distinct_names(self.entries_seq())
    }

    /// Position `i` holds this name, so the name has an entry and its
    /// value is the one stored at `i`.
    proof fn lemma_value_at(&self, i: int)
        requires
            self.wf(),
            0 <= i < self.entries_seq().len(),
        ensures
            self.has_entry(self.entries_seq()[i].0@),
            self.value_of(self.entries_seq()[i].0@) == opt_value_view(self.entries_seq()[i].1),
    {
        let n = self.entries_seq()[i].0@;
        assert(self.has_entry(n));
        let j = choose|j: int|
            0 <= j < self.entries_seq().len() && (#[trigger] self.entries_seq()[j]).0@ == n;
        if i != j {
            if i < j {
                assert(self.entries_seq()[i].0@ != self.entries_seq()[j].0@);
            } else {
                assert(self.entries_seq()[j].0@ != self.entries_seq()[i].0@);
            }
        }
    }

    /// An empty cache, not yet populated.
    pub fn new() -> (r: Self)
        ensures
            r.wf(),
            r.view_map() == Map::<Seq<char>, Option<(Seq<char>, Seq<u8>)>>::empty(),
            !r.ready_spec(),
    {
        let r = PropertiesCache { entries: Vec::new(), ready_done: false };
        proof {
            assert(r.view_map() =~= Map::<Seq<char>, Option<(Seq<char>, Seq<u8>)>>::empty());
        }
        r
    }

    /// Finds the position of an entry.
    fn find(&self, name: &str) -> (r: Option<usize>)
        requires
            self.wf(),
        ensures
            r matches Some(i) ==> 0 <= i < self.entries_seq().len()
                && self.entries_seq()[i as int].0@ == name@,
            r is None ==> !self.has_entry(name@),
    {
        let n = self.entries.len();
        let mut i: usize = 0;
        while i < n
            invariant
                self.wf(),
                n == self.entries_seq().len(),
                0 <= i <= n,
                forall|j: int| 0 <= j < i ==> (#[trigger] self.entries_seq()[j]).0@ != name@,
            decreases n - i,
        {
            if crate::names::str_eq(self.entries[i].0.as_str(), name) {
                return Some(i);
            }
            i = i + 1;
        }
        None
    }

    /// Stores a value (or an invalidation) under a name, adding the
    /// entry when missing.
    fn set_value(&mut self, name: &str, val: Option<PropValue>)
        requires
            old(self).wf(),
        ensures
            final(self).wf(),
            final(self).view_map() == old(self).view_map().insert(name@, opt_value_view(val)),
            final(self).ready_spec() == old(self).ready_spec(),
    {
        let ghost pre = *self;
        match self.find(name) {
            Some(i) => {
                self.entries[i].1 = val;
                proof {
                    lemma_entries_update(pre, *self, i as int, name@, opt_value_view(val));
                }
            },
            None => {
                let mut owned = String::new();
                owned.append(name);
                self.entries.push((owned, val));
                proof {
                    lemma_entries_push(pre, *self, name@, opt_value_view(val));
                }
            },
        }
    }

    /// Stores a value under a name only if the entry already exists.
    fn set_value_if_present(&mut self, name: &str, val: Option<PropValue>)
        requires
            old(self).wf(),
        ensures
            final(self).wf(),
            old(self).has_entry(name@) ==> final(self).view_map() == old(self).view_map().insert(
                name@,
                opt_value_view(val),
            ),
            !old(self).has_entry(name@) ==> final(self).view_map() == old(self).view_map(),
            final(self).ready_spec() == old(self).ready_spec(),
    {
        let ghost pre = *self;
        match self.find(name) {
            Some(i) => {
                self.entries[i].1 = val;
                proof {
                    lemma_entries_update(pre, *self, i as int, name@, opt_value_view(val));
                    pre.lemma_value_at(i as int);
                }
            },
            None => {},
        }
    }

    /// Applies one `PropertiesChanged`: every listed invalidation first
    /// (touching only names that have entries), then every changed
    /// value.
    pub fn update_cache(&mut self, changed: &Vec<(String, PropValue)>, invalidated: &Vec<String>)
        requires
            old(self).wf(),
        ensures
            final(self).wf(),
            final(self).view_map() == update_applied(old(self).view_map(), changed@, invalidated@),
            final(self).ready_spec() == old(self).ready_spec(),
    {
        let ghost pre_map = self.view_map();
        let n_inv = invalidated.len();
        let mut i: usize = 0;
        while i < n_inv
            invariant
                self.wf(),
                self.ready_spec() == old(self).ready_spec(),
                n_inv == invalidated@.len(),
                0 <= i <= n_inv,
                self.view_map() == apply_invalidated(pre_map, invalidated@.take(i as int)),
            decreases n_inv - i,
        {
            let ghost before = self.view_map();
            self.set_value_if_present(invalidated[i].as_str(), None);
            proof {
                lemma_apply_invalidated_snoc(pre_map, invalidated@, i as int, before);
            }
            i = i + 1;
        }
        proof {
            assert(invalidated@.take(n_inv as int) =~= invalidated@);
        }
        let ghost mid_map = self.view_map();
        let n_ch = changed.len();
        let mut j: usize = 0;
        while j < n_ch
            invariant
                self.wf(),
                self.ready_spec() == old(self).ready_spec(),
                n_ch == changed@.len(),
                0 <= j <= n_ch,
                self.view_map() == apply_changed(mid_map, changed@.take(j as int)),
            decreases n_ch - j,
        {
            let ghost before = self.view_map();
            let v = changed[j].1.clone();
            self.set_value(changed[j].0.as_str(), Some(v));
            proof {
                lemma_apply_changed_snoc(mid_map, changed@, j as int, before);
            }
            j = j + 1;
        }
        proof {
            assert(changed@.take(n_ch as int) =~= changed@);
        }
    }

    /// Applies the `GetAll` reply: each carried property is stored only
    /// when no earlier signal created or invalidated its entry.
    pub fn apply_get_all(&mut self, values: &Vec<(String, PropValue)>)
        requires
            old(self).wf(),
        ensures
            final(self).wf(),
            final(self).view_map() == get_all_applied(old(self).view_map(), values@),
            final(self).ready_spec() == old(self).ready_spec(),
    {
        let ghost pre_map = self.view_map();
        let n = values.len();
        let mut i: usize = 0;
        while i < n
            invariant
                self.wf(),
                self.ready_spec() == old(self).ready_spec(),
                n == values@.len(),
                0 <= i <= n,
                self.view_map() == get_all_applied(pre_map, values@.take(i as int)),
            decreases n - i,
        {
            let ghost before = self.view_map();
            match self.find(values[i].0.as_str()) {
                Some(_) => {
                    proof {
                        assert(before.dom().contains(values@[i as int].0@));
                    }
                },
                None => {
                    let v = values[i].1.clone();
                    self.set_value(values[i].0.as_str(), Some(v));
                },
            }
            proof {
                lemma_get_all_applied_snoc(pre_map, values@, i as int, before);
            }
            i = i + 1;
        }
        proof {
            assert(values@.take(n as int) =~= values@);
        }
    }

    /// Pre-registers an entry so that change notifications for the name
    /// have a place to land; an existing entry is left as it is.
    pub fn ensure_entry(&mut self, name: &str)
        requires
            old(self).wf(),
        ensures
            final(self).wf(),
            final(self).has_entry(name@),
            old(self).has_entry(name@) ==> final(self).view_map() == old(self).view_map(),
            !old(self).has_entry(name@) ==> final(self).view_map() == old(self).view_map().insert(
                name@,
                None,
            ),
            final(self).ready_spec() == old(self).ready_spec(),
    {
        let ghost pre = *self;
        match self.find(name) {
            Some(i) => {
                proof {
                    assert(pre.has_entry(name@));
                }
            },
            None => {
                let mut owned = String::new();
                owned.append(name);
                self.entries.push((owned, None));
                proof {
                    lemma_entries_push(pre, *self, name@, None);
                    assert(self.view_map().dom().contains(name@));
                }
            },
        }
    }

    /// Stores the value fetched for an invalidated property.
    pub fn store_fetched(&mut self, name: &str, value: PropValue)
        requires
            old(self).wf(),
        ensures
            final(self).wf(),
            final(self).view_map() == old(self).view_map().insert(name@, Some(value@)),
            final(self).ready_spec() == old(self).ready_spec(),
    {
        self.set_value(name, Some(value));
    }

    /// The cached value of a property: its stored value when the entry
    /// exists and holds one, and nothing on a miss or an invalidated
    /// entry.
    pub fn cached_property(&self, name: &str) -> (r: Option<&PropValue>)
        requires
            self.wf(),
        ensures
            (r is Some) <==> (self.has_entry(name@) && self.value_of(name@) is Some),
            r matches Some(v) ==> Some(v@) == self.value_of(name@),
    {
        match self.find(name) {
            Some(i) => {
                proof {
                    self.lemma_value_at(i as int);
                }
                match &self.entries[i].1 {
                    Some(v) => Some(v),
                    None => None,
                }
            },
            None => None,
        }
    }

    /// Marks the first population as completed; later `ready` waiters
    /// observe the cache as usable.
    pub fn note_ready(&mut self)
        requires
            old(self).wf(),
        ensures
            final(self).wf(),
            final(self).ready_spec(),
            final(self).view_map() == old(self).view_map(),
    {
        self.ready_done = true;
        proof {
            lemma_view_from_entries(*old(self), *self);
        }
    }

    /// Whether the first population has completed.
    pub fn is_ready(&self) -> (r: bool)
        ensures
            r == self.ready_spec(),
    {
        self.ready_done
    }
}

/// Two caches with the same entries show the same map.
proof fn lemma_view_from_entries(a: PropertiesCache, b: PropertiesCache)
    requires
        a.wf(),
        a.entries_seq() == b.entries_seq(),
    ensures
        a.view_map() == b.view_map(),
{
    assert forall|n: Seq<char>| true implies #[trigger] a.has_entry(n) == b.has_entry(n) by {
        if a.has_entry(n) {
            let i = choose|i: int|
                0 <= i < a.entries_seq().len() && (#[trigger] a.entries_seq()[i]).0@ == n;
            assert(b.entries_seq()[i].0@ == n);
        }
        if b.has_entry(n) {
            let i = choose|i: int|
                0 <= i < b.entries_seq().len() && (#[trigger] b.entries_seq()[i]).0@ == n;
            assert(a.entries_seq()[i].0@ == n);
        }
    }
    assert forall|n: Seq<char>| a.has_entry(n) implies #[trigger] a.value_of(n) == b.value_of(
        n,
    ) by {
        let i1 = choose|i: int|
            0 <= i < a.entries_seq().len() && (#[trigger] a.entries_seq()[i]).0@ == n;
        let i2 = choose|i: int|
            0 <= i < b.entries_seq().len() && (#[trigger] b.entries_seq()[i]).0@ == n;
        assert(a.entries_seq()[i2].0@ == n);
        if i1 != i2 {
            if i1 < i2 {
                assert(a.entries_seq()[i1].0@ != a.entries_seq()[i2].0@);
            } else {
                assert(a.entries_seq()[i2].0@ != a.entries_seq()[i1].0@);
            }
        }
    }
    assert(a.view_map() =~= b.view_map());
}

/// Replacing the value at position `i` turns the cache map into the map
/// with that name re-bound.
proof fn lemma_entries_update(
    pre: PropertiesCache,
    post: PropertiesCache,
    i: int,
    n: Seq<char>,
    v: Option<(Seq<char>, Seq<u8>)>,
)
    requires
        pre.wf(),
        0 <= i < pre.entries_seq().len(),
        pre.entries_seq()[i].0@ == n,
        post.entries_seq().len() == pre.entries_seq().len(),
        post.entries_seq()[i].0@ == n,
        opt_value_view(post.entries_seq()[i].1) == v,
        forall|j: int|
            0 <= j < pre.entries_seq().len() && j != i ==> post.entries_seq()[j]
                == pre.entries_seq()[j],
    ensures
        post.wf(),
        post.view_map() == pre.view_map().insert(n, v),
{
    assert forall|a: int, b: int| 0 <= a < b < post.entries_seq().len() implies (
    #[trigger] post.entries_seq()[a]).0@ != (#[trigger] post.entries_seq()[b]).0@ by {
        assert(pre.entries_seq()[a].0@ != pre.entries_seq()[b].0@);
        if a == i {
            assert(post.entries_seq()[a].0@ == pre.entries_seq()[a].0@);
        }
        if b == i {
            assert(post.entries_seq()[b].0@ == pre.entries_seq()[b].0@);
        }
    }
    assert forall|e: Seq<char>| true implies #[trigger] post.has_entry(e) == pre.has_entry(e) by {
        if pre.has_entry(e) {
            let a = choose|a: int|
                0 <= a < pre.entries_seq().len() && (#[trigger] pre.entries_seq()[a]).0@ == e;
            assert(post.entries_seq()[a].0@ == e);
        }
        if post.has_entry(e) {
            let a = choose|a: int|
                0 <= a < post.entries_seq().len() && (#[trigger] post.entries_seq()[a]).0@ == e;
            assert(pre.entries_seq()[a].0@ == e);
        }
    }
    assert(post.has_entry(n));
    post.lemma_value_at(i);
    assert(post.value_of(n) == v);
    assert forall|e: Seq<char>| e != n && pre.has_entry(e) implies #[trigger] post.value_of(e)
        == pre.value_of(e) by {
        let a = choose|a: int|
            0 <= a < pre.entries_seq().len() && (#[trigger] pre.entries_seq()[a]).0@ == e;
        assert(a != i);
        assert(post.entries_seq()[a] == pre.entries_seq()[a]);
        pre.lemma_value_at(a);
        post.lemma_value_at(a);
    }
    assert(post.view_map() =~= pre.view_map().insert(n, v));
}

/// Appending an entry with a fresh name turns the cache map into the
/// map with that name bound.
proof fn lemma_entries_push(
    pre: PropertiesCache,
    post: PropertiesCache,
    n: Seq<char>,
    v: Option<(Seq<char>, Seq<u8>)>,
)
    requires
        pre.wf(),
        !pre.has_entry(n),
        post.entries_seq().len() == pre.entries_seq().len() + 1,
        post.entries_seq()[pre.entries_seq().len() as int].0@ == n,
        opt_value_view(post.entries_seq()[pre.entries_seq().len() as int].1) == v,
        forall|j: int|
            0 <= j < pre.entries_seq().len() ==> post.entries_seq()[j] == pre.entries_seq()[j],
    ensures
        post.wf(),
        post.view_map() == pre.view_map().insert(n, v),
{
    let plen = pre.entries_seq().len() as int;
    assert forall|a: int, b: int| 0 <= a < b < post.entries_seq().len() implies (
    #[trigger] post.entries_seq()[a]).0@ != (#[trigger] post.entries_seq()[b]).0@ by {
        if b < plen {
            assert(pre.entries_seq()[a].0@ != pre.entries_seq()[b].0@);
        } else {
            assert(post.entries_seq()[a] == pre.entries_seq()[a]);
            if post.entries_seq()[a].0@ == n {
                assert(pre.has_entry(n));
            }
        }
    }
    assert(post.has_entry(n));
    post.lemma_value_at(plen);
    assert(post.value_of(n) == v);
    assert forall|e: Seq<char>| e != n implies #[trigger] post.has_entry(e) == pre.has_entry(e) by {
        if pre.has_entry(e) {
            let a = choose|a: int|
                0 <= a < pre.entries_seq().len() && (#[trigger] pre.entries_seq()[a]).0@ == e;
            assert(post.entries_seq()[a].0@ == e);
        }
        if post.has_entry(e) {
            let a = choose|a: int|
                0 <= a < post.entries_seq().len() && (#[trigger] post.entries_seq()[a]).0@ == e;
            if a < plen {
                assert(pre.entries_seq()[a].0@ == e);
            }
        }
    }
    assert forall|e: Seq<char>| e != n && pre.has_entry(e) implies #[trigger] post.value_of(e)
        == pre.value_of(e) by {
        let a = choose|a: int|
            0 <= a < pre.entries_seq().len() && (#[trigger] pre.entries_seq()[a]).0@ == e;
        assert(post.entries_seq()[a] == pre.entries_seq()[a]);
        pre.lemma_value_at(a);
        post.lemma_value_at(a);
    }
    assert(post.view_map() =~= pre.view_map().insert(n, v));
}

/// One more invalidation step extends the recursion by one element.
proof fn lemma_apply_invalidated_snoc(
    m: Map<Seq<char>, Option<(Seq<char>, Seq<u8>)>>,
    inv: Seq<String>,
    i: int,
    before: Map<Seq<char>, Option<(Seq<char>, Seq<u8>)>>,
)
    requires
        0 <= i < inv.len(),
        before == apply_invalidated(m, inv.take(i)),
    ensures
        apply_invalidated(m, inv.take(i + 1)) == (if before.dom().contains(inv[i]@) {
            before.insert(inv[i]@, None)
        } else {
            before
        }),
{
    assert(inv.take(i + 1).take(i) =~= inv.take(i));
    assert(inv.take(i + 1)[i] == inv[i]);
    lemma_apply_invalidated_app(m, inv.take(i + 1), i);
}

/// Splitting the invalidation list at its last element.
proof fn lemma_apply_invalidated_app(
    m: Map<Seq<char>, Option<(Seq<char>, Seq<u8>)>>,
    s: Seq<String>,
    i: int,
)
    requires
        0 <= i,
        s.len() == i + 1,
    ensures
        apply_invalidated(m, s) == (if apply_invalidated(m, s.take(i)).dom().contains(s[i]@) {
            apply_invalidated(m, s.take(i)).insert(s[i]@, None)
        } else {
            apply_invalidated(m, s.take(i))
        }),
    decreases s.len(),
{
    let m1 = if m.dom().contains(s[0]@) {
        m.insert(s[0]@, None)
    } else {
        m
    };
    if i == 0 {
        assert(s.take(0) =~= Seq::<String>::empty());
        assert(s.drop_first() =~= Seq::<String>::empty());
        assert(apply_invalidated(m, s.take(0)) == m);
        assert(apply_invalidated(m, s) == apply_invalidated(m1, s.drop_first()));
        assert(apply_invalidated(m1, s.drop_first()) == m1);
    } else {
        lemma_apply_invalidated_app(m1, s.drop_first(), i - 1);
        assert(s.drop_first().take(i - 1) =~= s.take(i).drop_first());
        assert(s.drop_first()[i - 1] == s[i]);
        assert(s.take(i)[0] == s[0]);
        assert(s.take(i).len() == i);
        assert(apply_invalidated(m, s.take(i)) == apply_invalidated(m1, s.take(i).drop_first()));
        assert(apply_invalidated(m, s) == apply_invalidated(m1, s.drop_first()));
    }
}

/// One more changed entry extends the recursion by one element.
proof fn lemma_apply_changed_snoc(
    m: Map<Seq<char>, Option<(Seq<char>, Seq<u8>)>>,
    ch: Seq<(String, PropValue)>,
    j: int,
    before: Map<Seq<char>, Option<(Seq<char>, Seq<u8>)>>,
)
    requires
        0 <= j < ch.len(),
        before == apply_changed(m, ch.take(j)),
    ensures
        apply_changed(m, ch.take(j + 1)) == before.insert(ch[j].0@, Some(ch[j].1@)),
{
    assert(ch.take(j + 1).take(j) =~= ch.take(j));
    assert(ch.take(j + 1)[j] == ch[j]);
    lemma_apply_changed_app(m, ch.take(j + 1), j);
}

/// Splitting the changed list at its last element.
proof fn lemma_apply_changed_app(
    m: Map<Seq<char>, Option<(Seq<char>, Seq<u8>)>>,
    s: Seq<(String, PropValue)>,
    j: int,
)
    requires
        0 <= j,
        s.len() == j + 1,
    ensures
        apply_changed(m, s) == apply_changed(m, s.take(j)).insert(s[j].0@, Some(s[j].1@)),
    decreases s.len(),
{
    let m1 = m.insert(s[0].0@, Some(s[0].1@));
    if j == 0 {
        assert(s.take(0) =~= Seq::<(String, PropValue)>::empty());
        assert(s.drop_first() =~= Seq::<(String, PropValue)>::empty());
        assert(apply_changed(m, s.take(0)) == m);
        assert(apply_changed(m, s) == apply_changed(m1, s.drop_first()));
        assert(apply_changed(m1, s.drop_first()) == m1);
    } else {
        lemma_apply_changed_app(m1, s.drop_first(), j - 1);
        assert(s.drop_first().take(j - 1) =~= s.take(j).drop_first());
        assert(s.drop_first()[j - 1] == s[j]);
        assert(s.take(j)[0] == s[0]);
        assert(s.take(j).len() == j);
        assert(apply_changed(m, s.take(j)) == apply_changed(m1, s.take(j).drop_first()));
        assert(apply_changed(m, s) == apply_changed(m1, s.drop_first()));
    }
}

/// One more populate step extends the recursion by one element.
proof fn lemma_get_all_applied_snoc(
    m: Map<Seq<char>, Option<(Seq<char>, Seq<u8>)>>,
    values: Seq<(String, PropValue)>,
    i: int,
    before: Map<Seq<char>, Option<(Seq<char>, Seq<u8>)>>,
)
    requires
        0 <= i < values.len(),
        before == get_all_applied(m, values.take(i)),
    ensures
        get_all_applied(m, values.take(i + 1)) == (if before.dom().contains(values[i].0@) {
            before
        } else {
            before.insert(values[i].0@, Some(values[i].1@))
        }),
{
    assert(values.take(i + 1).take(i) =~= values.take(i));
    assert(values.take(i + 1)[i] == values[i]);
    lemma_get_all_applied_app(m, values.take(i + 1), i);
}

/// Splitting the populate list at its last element.
proof fn lemma_get_all_applied_app(
    m: Map<Seq<char>, Option<(Seq<char>, Seq<u8>)>>,
    s: Seq<(String, PropValue)>,
    i: int,
)
    requires
        0 <= i,
        s.len() == i + 1,
    ensures
        get_all_applied(m, s) == (if get_all_applied(m, s.take(i)).dom().contains(s[i].0@) {
            get_all_applied(m, s.take(i))
        } else {
            get_all_applied(m, s.take(i)).insert(s[i].0@, Some(s[i].1@))
        }),
    decreases s.len(),
{
    let m1 = if m.dom().contains(s[0].0@) {
        m
    } else {
        m.insert(s[0].0@, Some(s[0].1@))
    };
    if i == 0 {
        assert(s.take(0) =~= Seq::<(String, PropValue)>::empty());
        assert(s.drop_first() =~= Seq::<(String, PropValue)>::empty());
        assert(get_all_applied(m, s.take(0)) == m);
        assert(get_all_applied(m, s) == get_all_applied(m1, s.drop_first()));
        assert(get_all_applied(m1, s.drop_first()) == m1);
    } else {
        lemma_get_all_applied_app(m1, s.drop_first(), i - 1);
        assert(s.drop_first().take(i - 1) =~= s.take(i).drop_first());
        assert(s.drop_first()[i - 1] == s[i]);
        assert(s.take(i)[0] == s[0]);
        assert(s.take(i).len() == i);
        assert(get_all_applied(m, s.take(i)) == get_all_applied(m1, s.take(i).drop_first()));
        assert(get_all_applied(m, s) == get_all_applied(m1, s.drop_first()));
    }
}

/// The bulk `GetAll` response never overwrites a property that an
/// earlier signal changed: after that signal and then the bulk populate,
/// the signal's value still stands.
pub proof fn lemma_earlier_signal_survives_bulk(
    m0: Map<Seq<char>, Option<(Seq<char>, Seq<u8>)>>,
    changed: Seq<(String, PropValue)>,
    invalidated: Seq<String>,
    values: Seq<(String, PropValue)>,
    n: Seq<char>,
    v: (Seq<char>, Seq<u8>),
)
    requires
        update_applied(m0, changed, invalidated).dom().contains(n),
        update_applied(m0, changed, invalidated)[n] == Some(v),
    ensures
        get_all_applied(update_applied(m0, changed, invalidated), values).dom().contains(n),
        get_all_applied(update_applied(m0, changed, invalidated), values)[n] == Some(v),
{
    lemma_get_all_preserves_present(update_applied(m0, changed, invalidated), values, n);
}

/// The bulk populate never alters a name that already has an entry.
pub proof fn lemma_get_all_preserves_present(
    m: Map<Seq<char>, Option<(Seq<char>, Seq<u8>)>>,
    values: Seq<(String, PropValue)>,
    n: Seq<char>,
)
    requires
        m.dom().contains(n),
    ensures
        get_all_applied(m, values).dom().contains(n),
        get_all_applied(m, values)[n] == m[n],
    decreases values.len(),
{
    if values.len() > 0 {
        let m1 = if m.dom().contains(values[0].0@) {
            m
        } else {
            m.insert(values[0].0@, Some(values[0].1@))
        };
        lemma_get_all_preserves_present(m1, values.drop_first(), n);
    }
}

/// Invalidations never touch a name they do not list.
proof fn lemma_invalidated_preserves_unlisted(
    m: Map<Seq<char>, Option<(Seq<char>, Seq<u8>)>>,
    inv: Seq<String>,
    n: Seq<char>,
)
    requires
        !invalidates_name(inv, n),
    ensures
        apply_invalidated(m, inv).dom().contains(n) == m.dom().contains(n),
        m.dom().contains(n) ==> apply_invalidated(m, inv)[n] == m[n],
    decreases inv.len(),
{
    if inv.len() > 0 {
        assert(inv[0]@ != n);
        let m1 = if m.dom().contains(inv[0]@) {
            m.insert(inv[0]@, None)
        } else {
            m
        };
        assert forall|j: int| 0 <= j < inv.len() - 1 implies (#[trigger] inv.drop_first()[j])@
            != n by {
            assert(inv.drop_first()[j] == inv[j + 1]);
        }
        lemma_invalidated_preserves_unlisted(m1, inv.drop_first(), n);
    }
}

/// Changed values never touch a name they do not list.
proof fn lemma_changed_preserves_unlisted(
    m: Map<Seq<char>, Option<(Seq<char>, Seq<u8>)>>,
    ch: Seq<(String, PropValue)>,
    n: Seq<char>,
)
    requires
        !updates_name(ch, n),
    ensures
        apply_changed(m, ch).dom().contains(n) == m.dom().contains(n),
        m.dom().contains(n) ==> apply_changed(m, ch)[n] == m[n],
    decreases ch.len(),
{
    if ch.len() > 0 {
        assert(ch[0].0@ != n);
        assert forall|j: int| 0 <= j < ch.len() - 1 implies (#[trigger] ch.drop_first()[j]).0@
            != n by {
            assert(ch.drop_first()[j] == ch[j + 1]);
        }
        lemma_changed_preserves_unlisted(m.insert(ch[0].0@, Some(ch[0].1@)), ch.drop_first(), n);
    }
}

/// After the first population completed, a property the `GetAll`
/// response carried (once) that no entry preceded and that a later
/// notification neither changed nor invalidated is still observable
/// with the response's value.
pub proof fn lemma_bulk_value_survives_later_update(
    m0: Map<Seq<char>, Option<(Seq<char>, Seq<u8>)>>,
    values: Seq<(String, PropValue)>,
    i: int,
    changed: Seq<(String, PropValue)>,
    invalidated: Seq<String>,
)
    requires
        0 <= i < values.len(),
        !m0.dom().contains(values[i].0@),
        forall|j: int| 0 <= j < i ==> (#[trigger] values[j]).0@ != values[i].0@,
        !updates_name(changed, values[i].0@),
        !invalidates_name(invalidated, values[i].0@),
    ensures
        update_applied(get_all_applied(m0, values), changed, invalidated).dom().contains(
            values[i].0@,
        ),
        update_applied(get_all_applied(m0, values), changed, invalidated)[values[i].0@] == Some(
            values[i].1@,
        ),
{
    let n = values[i].0@;
    lemma_bulk_fills_untouched(m0, values, i);
    let mid = get_all_applied(m0, values);
    lemma_invalidated_preserves_unlisted(mid, invalidated, n);
    lemma_changed_preserves_unlisted(apply_invalidated(mid, invalidated), changed, n);
}

/// What the bulk populate does fill in: a property of the `GetAll`
/// response that nothing has touched yet is observable afterwards with
/// the response's value, provided the response lists the name once.
pub proof fn lemma_bulk_fills_untouched(
    m: Map<Seq<char>, Option<(Seq<char>, Seq<u8>)>>,
    values: Seq<(String, PropValue)>,
    i: int,
)
    requires
        0 <= i < values.len(),
        !m.dom().contains(values[i].0@),
        forall|j: int| 0 <= j < i ==> (#[trigger] values[j]).0@ != values[i].0@,
    ensures
        get_all_applied(m, values).dom().contains(values[i].0@),
        get_all_applied(m, values)[values[i].0@] == Some(values[i].1@),
    decreases values.len(),
{
    let n = values[i].0@;
    if i == 0 {
        let m1 = m.insert(n, Some(values[0].1@));
        lemma_get_all_preserves_present(m1, values.drop_first(), n);
    } else {
        assert(values[0].0@ != n);
        let m1 = if m.dom().contains(values[0].0@) {
            m
        } else {
            m.insert(values[0].0@, Some(values[0].1@))
        };
        assert(!m1.dom().contains(n));
        assert forall|j: int| 0 <= j < i - 1 implies (#[trigger] values.drop_first()[j]).0@
            != values.drop_first()[i - 1].0@ by {
            assert(values.drop_first()[j] == values[j + 1]);
            assert(values.drop_first()[i - 1] == values[i]);
        }
        assert(values.drop_first()[i - 1] == values[i]);
        lemma_bulk_fills_untouched(m1, values.drop_first(), i - 1);
    }
}

} // verus!
