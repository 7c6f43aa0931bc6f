//! The ordered-callback scope: a registry of signal handlers with stable
//! keys, and one-shot reply slots keyed by outgoing-call serial. For each
//! inbound message the scope decides which handlers to start; running them,
//! and holding the next message until they finish, is the task around it.
//!
//! Handlers are held in a `slotmap::DenseSlotMap`, whose behaviour the
//! wrappers below state over the ghost map [`handler_map`].

use vstd::prelude::*;
use slotmap::{DefaultKey, DenseSlotMap, Key, KeyData};
use crate::message::{Message, MsgType};

verus! {

/// What a registered signal handler filters on; the callback itself lives
/// with the task that runs it, under the key this registry hands out.
pub struct HandlerEntry {
    pub filter_path: Option<String>,
    pub filter_interface: Option<String>,
    pub filter_member: Option<String>,
    pub match_expr: String,
}

impl Clone for HandlerEntry {
    fn clone(&self) -> (r: Self)
        ensures
            r == self,
    {
        HandlerEntry {
            filter_path: clone_opt(&self.filter_path),
            filter_interface: clone_opt(&self.filter_interface),
            filter_member: clone_opt(&self.filter_member),
            match_expr: self.match_expr.clone(),
        }
    }
}

fn clone_opt(o: &Option<String>) -> (r: Option<String>)
    ensures
        r == o,
{
    match o {
        Some(s) => Some(s.clone()),
        None => None,
    }
}

/// The handler table. It holds a `slotmap::DenseSlotMap`, which Verus
/// cannot declare directly; the wrappers below are its only doors.
#[verifier::external_body]
pub struct HandlerTable {
    inner: DenseSlotMap<DefaultKey, HandlerEntry>,
}

/// The handlers a table holds, each under the 64-bit image of its key.
pub uninterp spec fn handler_map(m: HandlerTable) -> Map<u64, HandlerEntry>;

/// Relies on slotmap::DenseSlotMap::with_key: a fresh table holds nothing.
#[verifier::external_body]
fn table_new() -> (r: HandlerTable)
    ensures
        handler_map(r).dom().finite(),
        forall|k: u64| !handler_map(r).dom().contains(k),
{
    HandlerTable { inner: DenseSlotMap::with_key() }
}

/// Relies on slotmap::DenseSlotMap::insert and KeyData::as_ffi: the value
/// is stored under a fresh key, all other entries untouched; keys
/// round-trip through their 64-bit image.
#[verifier::external_body]
fn table_insert(m: &mut HandlerTable, v: HandlerEntry) -> (k: u64)
    requires
        handler_map(*old(m)).dom().finite(),
        handler_map(*old(m)).dom().len() < 0xffff_fffd,
    ensures
        !handler_map(*old(m)).dom().contains(k),
        handler_map(*final(m)) == handler_map(*old(m)).insert(k, v),
{
    m.inner.insert(v).data().as_ffi()
}

/// Relies on slotmap::DenseSlotMap::remove and KeyData::from_ffi: a key
/// the table holds comes out with its value; any other key leaves the
/// table untouched. `from_ffi` is specified only for values that came
/// from `as_ffi`, so anything that does not round-trip is dismissed
/// before it reaches the map.
#[verifier::external_body]
fn table_remove(m: &mut HandlerTable, k: u64) -> (r: Option<HandlerEntry>)
    ensures
        handler_map(*old(m)).dom().contains(k) ==> r == Some(handler_map(*old(m))[k])
            && handler_map(*final(m)) == handler_map(*old(m)).remove(k),
        !handler_map(*old(m)).dom().contains(k) ==> r is None && handler_map(*final(m))
            == handler_map(*old(m)),
{
    let key = DefaultKey::from(KeyData::from_ffi(k));
    if key.data().as_ffi() == k {
        m.inner.remove(key)
    } else {
        None
    }
}

/// Relies on slotmap::DenseSlotMap::iter: every stored pair is visited
/// exactly once, in unspecified order.
#[verifier::external_body]
fn table_entries(m: &HandlerTable) -> (r: Vec<(u64, HandlerEntry)>)
    ensures
        forall|i: int|
            0 <= i < r@.len() ==> handler_map(*m).contains_pair(
                (#[trigger] r@[i]).0,
                r@[i].1,
            ),
        forall|i: int, j: int| 0 <= i < j < r@.len() ==> (#[trigger] r@[i]).0 != (#[trigger] r@[j]).0,
        forall|k: u64|
            #[trigger] handler_map(*m).dom().contains(k) ==> exists|i: int|
                0 <= i < r@.len() && (#[trigger] r@[i]).0 == k,
{
    m.inner.iter().map(|(k, v)| (k.data().as_ffi(), v.clone())).collect()
}

/// The handler matches the message by path, interface and (when the
/// handler names one) member.
pub open spec fn handler_matches(h: HandlerEntry, msg: Message) -> bool {
    &&& (h.filter_member matches Some(f) ==> (msg.member matches Some(m) && m@ == f@))
    &&& (h.filter_path matches Some(f) ==> (msg.path matches Some(p) && p@ == f@))
    &&& (h.filter_interface matches Some(f) ==> (msg.interface matches Some(i) && i@ == f@))
}

fn opt_filter_matches(filter: &Option<String>, field: &Option<String>) -> (r: bool)
    ensures
        r == (filter matches Some(f) ==> (field matches Some(x) && x@ == f@)),
{
    match filter {
        Some(f) => match field {
            Some(x) => *x == *f,
            None => false,
        },
        None => true,
    }
}

fn entry_matches(h: &HandlerEntry, msg: &Message) -> (r: bool)
    ensures
        r == handler_matches(*h, *msg),
{
    opt_filter_matches(&h.filter_member, &msg.member) && opt_filter_matches(
        &h.filter_path,
        &msg.path,
    ) && opt_filter_matches(&h.filter_interface, &msg.interface)
}

/// A correct signal dispatch: the keys of exactly the handlers whose
/// filters match the message, each exactly once.
pub open spec fn signal_dispatch_correct(d: Dispatch, pre: Scope, msg: Message) -> bool {
    d matches Dispatch::RunHandlers(ks) && (forall|i: int, j: int|
        0 <= i < j < ks@.len() ==> ks@[i] != ks@[j]) && (forall|k: u64|
        ks@.contains(k) <==> pre.handlers_map().dom().contains(k) && handler_matches(
            #[trigger] pre.handlers_map()[k],
            msg,
        ))
}

/// What the scope decides to run for one inbound message.
pub enum Dispatch {
    /// A signal: start each of these handlers exactly once, and finish
    /// them all before the next message is taken up.
    RunHandlers(Vec<u64>),
    /// A reply whose one-shot slot was registered: run that callback.
    RunReply { serial: u32, token: u64 },
    /// Nothing to run for this message.
    Nothing,
}

/// One callback-ordering scope.
pub struct Scope {
    handlers: HandlerTable,
    n_handlers: usize,
    replies: Vec<(u32, u64)>,
}

impl Scope {
    /// The registered handlers, by key.
    pub closed spec fn handlers_map(&self) -> Map<u64, HandlerEntry> {
        handler_map(self.handlers)
    }

    /// The registered one-shot reply slots, in registration order.
    pub closed spec fn replies_seq(&self) -> Seq<(u32, u64)> {
        self.replies@
    }

    /// A reply slot is registered for this serial.
    pub open spec fn replies_has(&self, s: u32) -> bool {
        exists|i: int| 0 <= i < self.replies_seq().len() && (#[trigger] self.replies_seq()[i]).0 == s
    }

    /// The token registered for this serial.
    pub open spec fn reply_token(&self, s: u32) -> u64 {
        self.replies_seq()[choose|i: int|
            0 <= i < self.replies_seq().len() && (#[trigger] self.replies_seq()[i]).0 == s].1
    }

    /// The mirror count of registered handlers.
    pub closed spec fn n_handlers_spec(&self) -> usize {
        self.n_handlers
    }

    /// The handler count mirrors the table, stays within the table's
    /// capacity, and no serial has two reply slots.
    pub open spec fn wf(&self) -> bool {
        &&& self.handlers_map().dom().finite()
        &&& self.handlers_map().dom().len() == self.n_handlers_spec()
        &&& self.n_handlers_spec() <= 0xffff_fffc
        &&& distinct_serials(self.replies_seq())
    }

    /// A fresh scope: no handlers, no reply slots.
    pub fn new() -> (r: Self)
        ensures
            r.wf(),
            r.handlers_map() == Map::<u64, HandlerEntry>::empty(),
            r.replies_seq() == Seq::<(u32, u64)>::empty(),
    {
        let t = table_new();
        proof {
            assert(handler_map(t) =~= Map::<u64, HandlerEntry>::empty());
        }
        Scope { handlers: t, n_handlers: 0, replies: Vec::new() }
    }

    /// How many handlers are registered.
    pub fn handler_count(&self) -> (n: usize)
        requires
            self.wf(),
        ensures
            n == self.handlers_map().dom().len(),
    {
        self.n_handlers
    }

    /// Registers a handler and returns its stable key.
    pub fn add_handler(&mut self, h: HandlerEntry) -> (k: u64)
        requires
            old(self).wf(),
            old(self).n_handlers_spec() < 0xffff_fffc,
        ensures
            final(self).wf(),
            !old(self).handlers_map().dom().contains(k),
            final(self).handlers_map() == old(self).handlers_map().insert(k, h),
            final(self).replies_seq() == old(self).replies_seq(),
    {
        let ghost pre = *self;
        let k = table_insert(&mut self.handlers, h);
        self.n_handlers = self.n_handlers + 1;
        proof {
            vstd::map::axiom_map_insert_domain(pre.handlers_map(), k, h);
            vstd::set::axiom_set_insert_finite(pre.handlers_map().dom(), k);
            vstd::set::axiom_set_insert_len(pre.handlers_map().dom(), k);
        }
        k
    }

    /// Removes the handler under `k`, returning its entry; a key that is
    /// not registered leaves the scope unchanged.
    pub fn remove_handler(&mut self, k: u64) -> (r: Option<HandlerEntry>)
        requires
            old(self).wf(),
        ensures
            final(self).wf(),
            old(self).handlers_map().dom().contains(k) ==> r == Some(old(self).handlers_map()[k])
                && final(self).handlers_map() == old(self).handlers_map().remove(k),
            !old(self).handlers_map().dom().contains(k) ==> r is None && final(self).handlers_map()
                == old(self).handlers_map(),
            final(self).replies_seq() == old(self).replies_seq(),
    {
        let ghost pre = *self;
        let r = table_remove(&mut self.handlers, k);
        if r.is_some() {
            proof {
                vstd::map::axiom_map_remove_domain(pre.handlers_map(), k);
                vstd::set::axiom_set_remove_finite(pre.handlers_map().dom(), k);
                vstd::set::axiom_set_remove_len(pre.handlers_map().dom(), k);
            }
            self.n_handlers = self.n_handlers - 1;
        }
        r
    }

    /// Registers a one-shot reply slot for an outgoing call's serial.
    ///
    /// Serials are never reused within a connection, so no slot for this
    /// serial may already exist.
    pub fn register_reply(&mut self, serial: u32, token: u64)
        requires
            old(self).wf(),
            !old(self).replies_has(serial),
        ensures
            final(self).wf(),
            final(self).replies_seq() == old(self).replies_seq().push((serial, token)),
            final(self).replies_has(serial),
            final(self).reply_token(serial) == token,
            final(self).handlers_map() == old(self).handlers_map(),
    {
        self.replies.push((serial, token));
        proof {
            let pre = old(self).replies_seq();
            let post = self.replies_seq();
            let n = pre.len() as int;
            assert(post[n] == (serial, token));
            assert forall|i: int, j: int| 0 <= i < j < post.len() implies (#[trigger] post[i]).0
                != (#[trigger] post[j]).0 by {
                if j < n {
                    assert(pre[i].0 != pre[j].0);
                } else {
                    assert(post[j].0 == serial);
                    if post[i].0 == serial {
                        assert(pre[i].0 == serial);
                        assert(old(self).replies_has(serial));
                    }
                }
            }
            assert(self.replies_has(serial));
            let ci = choose|i: int|
                0 <= i < post.len() && (#[trigger] post[i]).0 == serial;
            if ci != n {
                assert(pre[ci].0 == serial);
                assert(old(self).replies_has(serial));
            }
            assert(self.reply_token(serial) == token);
        }
    }

    /// Takes the reply slot for `serial`, if one is registered: the slot
    /// is removed, so a second take returns nothing.
    pub fn take_reply(&mut self, serial: u32) -> (r: Option<u64>)
        requires
            old(self).wf(),
        ensures
            final(self).wf(),
            old(self).replies_has(serial) ==> r == Some(old(self).reply_token(serial)),
            !old(self).replies_has(serial) ==> (r is None && final(self).replies_seq()
                == old(self).replies_seq()),
            !final(self).replies_has(serial),
            forall|s: u32|
                s != serial ==> ((#[trigger] final(self).replies_has(s)) <==> old(
                    self,
                ).replies_has(s)),
            forall|s: u32|
                s != serial && old(self).replies_has(s) ==> (#[trigger] final(self).reply_token(s))
                    == old(self).reply_token(s),
            final(self).handlers_map() == old(self).handlers_map(),
    {
        let ghost pre = *self;
        let n = self.replies.len();
        let mut i: usize = 0;
        while i < n
            invariant
                *self == pre,
                pre == *old(self),
                pre.wf(),
                n == self.replies_seq().len(),
                0 <= i <= n,
                forall|j: int| 0 <= j < i ==> (#[trigger] self.replies_seq()[j]).0 != serial,
            decreases n - i,
        {
            if self.replies[i].0 == serial {
                let pair = self.replies.remove(i);
                proof {
                    lemma_replies_remove(
                        pre.replies_seq(),
                        self.replies_seq(),
                        i as int,
                        pre,
                        *self,
                        serial,
                    );
                }
                return Some(pair.1);
            }
            i = i + 1;
        }
        assert(!pre.replies_has(serial));
        None
    }

    /// Decides what to run for one inbound message.
    ///
    /// A signal is routed to every handler whose filter matches, each
    /// exactly once; a method return or error with a registered reply
    /// slot takes that slot (one-shot); anything else runs nothing. Only
    /// the taken reply slot changes the scope.
    pub fn route_message(&mut self, msg: &Message) -> (d: Dispatch)
        requires
            old(self).wf(),
        ensures
            final(self).wf(),
            final(self).handlers_map() == old(self).handlers_map(),
            msg.msg_type is Signal ==> final(self).replies_seq() == old(self).replies_seq(),
            msg.msg_type is Signal ==> signal_dispatch_correct(d, *old(self), *msg),
            !(msg.msg_type is Signal) && (msg.reply_serial matches Some(s)
                && old(self).replies_has(s)) ==> (d matches Dispatch::RunReply { serial, token }
                && Some(serial) == msg.reply_serial && token == old(self).reply_token(serial)
                && !(final(self).replies_has(serial))),
            !(msg.msg_type is Signal) && !(msg.reply_serial matches Some(s)
                && old(self).replies_has(s)) ==> (d is Nothing && final(self).replies_seq()
                == old(self).replies_seq()),
    {
        if matches!(msg.msg_type, MsgType::Signal) {
            let entries = table_entries(&self.handlers);
            let ghost m = self.handlers_map();
            let mut ks: Vec<u64> = Vec::new();
            let n = entries.len();
            let mut i: usize = 0;
            while i < n
                invariant
                    n == entries@.len(),
                    0 <= i <= n,
                    m == self.handlers_map(),
                    forall|a: int|
                        0 <= a < entries@.len() ==> m.contains_pair(
                            (#[trigger] entries@[a]).0,
                            entries@[a].1,
                        ),
                    forall|a: int, b: int|
                        0 <= a < b < entries@.len() ==> (#[trigger] entries@[a]).0 != (
                        #[trigger] entries@[b]).0,
                    forall|k: u64|
                        #[trigger] m.dom().contains(k) ==> exists|a: int|
                            0 <= a < entries@.len() && (#[trigger] entries@[a]).0 == k,
                    forall|b1: int, b2: int| 0 <= b1 < b2 < ks@.len() ==> ks@[b1] != ks@[b2],
                    forall|b: int|
                        0 <= b < ks@.len() ==> exists|a: int|
                            0 <= a < i && (#[trigger] entries@[a]).0 == #[trigger] ks@[b],
                    forall|a: int|
                        0 <= a < i ==> ((exists|b: int|
                            0 <= b < ks@.len() && ks@[b] == (#[trigger] entries@[a]).0)
                            <==> handler_matches(entries@[a].1, *msg)),
                decreases n - i,
            {
                let ghost old_ks = ks@;
                if entry_matches(&entries[i].1, msg) {
                    let k = entries[i].0;
                    ks.push(k);
                    proof {
                        let nks = ks@;
                        assert(nks[old_ks.len() as int] == k);
                        assert forall|b1: int, b2: int| 0 <= b1 < b2 < nks.len() implies nks[b1]
                            != nks[b2] by {
                            if b2 == old_ks.len() {
                                if nks[b1] == k {
                                    let a = choose|a: int|
                                        0 <= a < i && (#[trigger] entries@[a]).0 == old_ks[b1];
                                    assert(entries@[a].0 != entries@[i as int].0);
                                }
                            }
                        }
                        assert forall|a: int| 0 <= a < i + 1 implies ((exists|b: int|
                            0 <= b < nks.len() && nks[b] == (#[trigger] entries@[a]).0)
                            <==> handler_matches(entries@[a].1, *msg)) by {
                            if a < i {
                                if exists|b: int|
                                    0 <= b < old_ks.len() && old_ks[b] == entries@[a].0 {
                                    let b = choose|b: int|
                                        0 <= b < old_ks.len() && old_ks[b] == entries@[a].0;
                                    assert(nks[b] == entries@[a].0);
                                }
                                if exists|b: int| 0 <= b < nks.len() && nks[b] == entries@[a].0 {
                                    let b = choose|b: int|
                                        0 <= b < nks.len() && nks[b] == entries@[a].0;
                                    if b == old_ks.len() {
                                        assert(entries@[a].0 != entries@[i as int].0);
                                        assert(false);
                                    } else {
                                        assert(old_ks[b] == entries@[a].0);
                                    }
                                }
                            } else {
                                assert(nks[old_ks.len() as int] == entries@[a].0);
                            }
                        }
                    }
                } else {
                    proof {
                        assert forall|a: int| 0 <= a < i + 1 implies ((exists|b: int|
                            0 <= b < ks@.len() && ks@[b] == (#[trigger] entries@[a]).0)
                            <==> handler_matches(entries@[a].1, *msg)) by {
                            if a == i {
                                if exists|b: int| 0 <= b < ks@.len() && ks@[b] == entries@[a].0 {
                                    let b = choose|b: int|
                                        0 <= b < ks@.len() && ks@[b] == entries@[a].0;
                                    let a2 = choose|a2: int|
                                        0 <= a2 < i && (#[trigger] entries@[a2]).0 == ks@[b];
                                    assert(entries@[a2].0 != entries@[i as int].0);
                                    assert(false);
                                }
                            }
                        }
                    }
                }
                i = i + 1;
            }
            proof {
                assert forall|k: u64| ks@.contains(k) <==> (m.dom().contains(k)
                    && handler_matches(#[trigger] m[k], *msg)) by {
                    if ks@.contains(k) {
                        let b = choose|b: int| 0 <= b < ks@.len() && ks@[b] == k;
                        let a = choose|a: int|
                            0 <= a < n && (#[trigger] entries@[a]).0 == k;
                        assert(m.contains_pair(entries@[a].0, entries@[a].1));
                        assert(exists|b2: int|
                            0 <= b2 < ks@.len() && ks@[b2] == entries@[a].0);
                        assert(handler_matches(m[k], *msg));
                    }
                    if m.dom().contains(k) && handler_matches(m[k], *msg) {
                        let a = choose|a: int|
                            0 <= a < entries@.len() && (#[trigger] entries@[a]).0 == k;
                        assert(m.contains_pair(entries@[a].0, entries@[a].1));
                        assert(entries@[a].1 == m[k]);
                        assert(handler_matches(entries@[a].1, *msg));
                        let b = choose|b: int|
                            0 <= b < ks@.len() && ks@[b] == entries@[a].0;
                        assert(ks@[b] == k);
                    }
                }
            }
            Dispatch::RunHandlers(ks)
        } else {
            match &msg.reply_serial {
                Some(s) => {
                    match self.take_reply(*s) {
                        Some(token) => Dispatch::RunReply { serial: *s, token },
                        None => Dispatch::Nothing,
                    }
                },
                None => Dispatch::Nothing,
            }
        }
    }
}

/// No serial appears in two reply slots.
pub open spec fn distinct_serials(s: Seq<(u32, u64)>) -> bool {
    forall|i: int, j: int| 0 <= i < j < s.len() ==> (#[trigger] s[i]).0 != (#[trigger] s[j]).0
}

/// After removing the reply slot at `idx`, every other serial keeps its
/// slot and token, and the removed serial has none.
proof fn lemma_replies_remove(
    pre: Seq<(u32, u64)>,
    post: Seq<(u32, u64)>,
    idx: int,
    spre: Scope,
    spost: Scope,
    serial: u32,
)
    requires
        spre.replies_seq() == pre,
        spost.replies_seq() == post,
        0 <= idx < pre.len(),
        post == pre.remove(idx),
        pre[idx].0 == serial,
        distinct_serials(pre),
    ensures
        distinct_serials(post),
        !spost.replies_has(serial),
        spre.replies_has(serial),
        spre.reply_token(serial) == pre[idx].1,
        forall|s: u32| s != serial ==> ((#[trigger] spost.replies_has(s)) <==> spre.replies_has(s)),
        forall|s: u32|
            s != serial && spre.replies_has(s) ==> (#[trigger] spost.reply_token(s))
                == spre.reply_token(s),
{
    assert(post.len() == pre.len() - 1);
    assert forall|i: int| 0 <= i < post.len() implies post[i] == (
    if i < idx {
        pre[i]
    } else {
        pre[i + 1]
    }) by {}
    assert forall|i: int, j: int| 0 <= i < j < post.len() implies (#[trigger] post[i]).0 != (
    #[trigger] post[j]).0 by {
        let pi = if i < idx { i } else { i + 1 };
        let pj = if j < idx { j } else { j + 1 };
        assert(pre[pi].0 != pre[pj].0);
    }
    assert(spre.replies_has(serial));
    let ci = choose|i: int|
        0 <= i < spre.replies_seq().len() && (#[trigger] spre.replies_seq()[i]).0 == serial;
    assert(pre[ci].0 == serial);
    if ci != idx {
        if ci < idx {
            assert(pre[ci].0 != pre[idx].0);
        } else {
            assert(pre[idx].0 != pre[ci].0);
        }
        assert(false);
    }
    assert(spre.reply_token(serial) == pre[idx].1);
    if spost.replies_has(serial) {
        let i = choose|i: int| 0 <= i < post.len() && (#[trigger] post[i]).0 == serial;
        let pi = if i < idx { i } else { i + 1 };
        assert(pre[pi].0 == serial);
        if pi < idx {
            assert(pre[pi].0 != pre[idx].0);
        } else {
            assert(pre[idx].0 != pre[pi].0);
        }
    }
    assert forall|s: u32| s != serial && spre.replies_has(s) implies (
    #[trigger] spost.reply_token(s)) == spre.reply_token(s) by {
        let i = choose|i: int|
            0 <= i < spre.replies_seq().len() && (#[trigger] spre.replies_seq()[i]).0 == s;
        assert(pre[i].0 == s);
        assert(i != idx);
        let ni = if i < idx { i } else { i - 1 };
        assert(post[ni] == pre[i]);
        assert(post[ni].0 == s);
        assert(spost.replies_has(s));
        assert(spre.reply_token(s) == pre[i].1);
        let i2 = choose|i2: int|
            0 <= i2 < spost.replies_seq().len() && (#[trigger] spost.replies_seq()[i2]).0 == s;
        assert(post[i2].0 == s);
        assert(spost.reply_token(s) == post[i2].1);
        let pi2 = if i2 < idx { i2 } else { i2 + 1 };
        assert(post[i2] == pre[pi2]);
        assert(pre[pi2].0 == s);
        if pi2 != i {
            if pi2 < i {
                assert(pre[pi2].0 != pre[i].0);
            } else {
                assert(pre[i].0 != pre[pi2].0);
            }
            assert(false);
        }
    }
    assert forall|s: u32| s != serial implies ((#[trigger] spost.replies_has(s))
        <==> spre.replies_has(s)) && (spre.replies_has(s) ==> spost.reply_token(s)
        == spre.reply_token(s)) by {
        if spre.replies_has(s) {
            let i = choose|i: int|
                0 <= i < spre.replies_seq().len() && (#[trigger] spre.replies_seq()[i]).0 == s;
            assert(pre[i].0 == s);
            assert(i != idx);
            let ni = if i < idx { i } else { i - 1 };
            assert(post[ni] == pre[i]);
            assert(post[ni].0 == s);
            assert(spost.replies_has(s));
            assert(spre.reply_token(s) == pre[i].1);
            let i2 = choose|i2: int|
                0 <= i2 < spost.replies_seq().len() && (#[trigger] spost.replies_seq()[i2]).0
                    == s;
            assert(post[i2].0 == s);
            assert(spost.reply_token(s) == post[i2].1);
            let pi2 = if i2 < idx { i2 } else { i2 + 1 };
            assert(post[i2] == pre[pi2]);
            assert(pre[pi2].0 == s);
            if pi2 != i {
                if pi2 < i {
                    assert(pre[pi2].0 != pre[i].0);
                } else {
                    assert(pre[i].0 != pre[pi2].0);
                }
                assert(false);
            }
            assert(spost.reply_token(s) == spre.reply_token(s));
        } else {
            if spost.replies_has(s) {
                let i = choose|i: int|
                    0 <= i < spost.replies_seq().len() && (#[trigger] spost.replies_seq()[i]).0
                        == s;
                let pi = if i < idx { i } else { i + 1 };
                assert(pre[pi].0 == s);
                assert(spre.replies_has(s));
            }
        }
    }
}

} // verus!
