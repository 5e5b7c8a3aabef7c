//! The session registry: the hub that hands out session ids, forgets them on
//! disconnect, and names every live session a change batch goes to.

use std::collections::HashMap;
use vstd::prelude::*;
use vstd::std_specs::iter::IteratorSpec;

verus! {

broadcast use vstd::std_specs::hash::group_hash_axioms;

/// The registry's bookkeeping as a mathematical value: the live ids and the
/// next id the counter will hand out.
pub struct RegistryState {
    pub live: Set<u64>,
    pub next: nat,
}

/// One registry operation, for reasoning about sequences of them.
pub enum SessionOp {
    Connect,
    Disconnect(u64),
}

impl RegistryState {
    /// Every live id was issued by the counter, and there are finitely many.
    pub open spec fn wf(self) -> bool {
        &&& self.live.finite()
        &&& self.next <= u64::MAX
        &&& forall|id: u64| self.live.contains(id) ==> id < self.next
    }

    /// A connect takes the counter's value while it is below `u64::MAX`
    /// and is refused after that; a disconnect removes its id if present.
    pub open spec fn step(self, op: SessionOp) -> RegistryState {
        match op {
            SessionOp::Connect => {
                if self.next < u64::MAX {
                    RegistryState { live: self.live.insert(self.next as u64), next: self.next + 1 }
                } else {
                    self
                }
            },
            SessionOp::Disconnect(id) => RegistryState { live: self.live.remove(id), next: self.next },
        }
    }

    /// +1 for a connect that got an id, -1 for a disconnect of a live id,
    /// 0 otherwise.
    pub open spec fn delta(self, op: SessionOp) -> int {
        match op {
            SessionOp::Connect => if self.next < u64::MAX {
                1
            } else {
                0
            },
            SessionOp::Disconnect(id) => if self.live.contains(id) {
                -1
            } else {
                0
            },
        }
    }
}

/// The state after running `ops` in order from `s`.
pub open spec fn replay(s: RegistryState, ops: Seq<SessionOp>) -> RegistryState
    decreases ops.len(),
{
    if ops.len() == 0 {
        s
    } else {
        replay(s.step(ops[0]), ops.drop_first())
    }
}

/// Connects that got an id minus disconnects that found their id live,
/// over a run of `ops` from `s`.
pub open spec fn net_sessions(s: RegistryState, ops: Seq<SessionOp>) -> int
    decreases ops.len(),
{
    if ops.len() == 0 {
        0
    } else {
        s.delta(ops[0]) + net_sessions(s.step(ops[0]), ops.drop_first())
    }
}

/// For every sequence of connects and disconnects, the number of live
/// sessions afterwards is the number before plus the connects that were
/// given an id minus the disconnects of ids that were actually registered;
/// a disconnect of an unknown id changes nothing.
pub proof fn lemma_live_count(s: RegistryState, ops: Seq<SessionOp>)
    requires
        s.wf(),
    ensures
        replay(s, ops).wf(),
        replay(s, ops).live.len() == s.live.len() + net_sessions(s, ops),
    decreases ops.len(),
{
    if ops.len() > 0 {
        let op = ops[0];
        let t = s.step(op);
        match op {
            SessionOp::Connect => {
                if s.next < u64::MAX {
                    assert(!s.live.contains(s.next as u64));
                }
            },
            SessionOp::Disconnect(id) => {},
        }
        assert(t.wf());
        lemma_live_count(t, ops.drop_first());
    }
}

/// Tracks every live session and its outbound target `T`; holds the
/// file-watcher handle `W` so that the watcher lives as long as the registry.
pub struct SessionManager<T, W> {
    sessions: HashMap<u64, T>,
    next_id: u64,
    filewatcher: Option<W>,
}

impl<T, W> View for SessionManager<T, W> {
    type V = Map<u64, T>;

    closed spec fn view(&self) -> Map<u64, T> {
        self.sessions@
    }
}

impl<T, W> SessionManager<T, W> {
    pub closed spec fn state(&self) -> RegistryState {
        RegistryState { live: self.sessions@.dom(), next: self.next_id as nat }
    }

    pub closed spec fn watcher(&self) -> Option<W> {
        self.filewatcher
    }

    /// Every live id was issued by the counter.
    pub closed spec fn wf(&self) -> bool {
        self.state().wf()
    }

    pub fn new() -> (r: Self)
        ensures
            r.wf(),
            r@ == Map::<u64, T>::empty(),
            r.state().next == 0,
            r.watcher() is None,
    {
        SessionManager { sessions: HashMap::new(), next_id: 0, filewatcher: None }
    }

    /// Registers `addr` under a fresh id. The id is never one that is live
    /// or was handed out before; `None` only once the counter is exhausted.
    pub fn connect(&mut self, addr: T) -> (r: Option<u64>)
        requires
            old(self).wf(),
        ensures
            final(self).wf(),
            final(self).state() == old(self).state().step(SessionOp::Connect),
            final(self).watcher() == old(self).watcher(),
            match r {
                Some(id) => {
                    &&& old(self).state().next < u64::MAX
                    &&& id == old(self).state().next
                    &&& !old(self)@.contains_key(id)
                    &&& final(self)@ == old(self)@.insert(id, addr)
                },
                None => old(self).state().next == u64::MAX && final(self)@ == old(self)@,
            },
    {
        if self.next_id == u64::MAX {
            return None;
        }
        let id = self.next_id;
        assert(!self.sessions@.contains_key(id));
        self.sessions.insert(id, addr);
        self.next_id = self.next_id + 1;
        Some(id)
    }

    /// Forgets the session `id`; an unknown id leaves the registry unchanged.
    pub fn disconnect(&mut self, id: u64)
        requires
            old(self).wf(),
        ensures
            final(self).wf(),
            final(self).state() == old(self).state().step(SessionOp::Disconnect(id)),
            final(self)@ == old(self)@.remove(id),
            final(self).watcher() == old(self).watcher(),
            !old(self)@.contains_key(id) ==> final(self)@ == old(self)@,
    {
        self.sessions.remove(&id);
        assert(self.sessions@.dom() =~= old(self).sessions@.dom().remove(id));
    }

    /// The number of live sessions.
    pub fn len(&self) -> (r: usize)
        ensures
            r == self@.len(),
    {
        self.sessions.len()
    }

    /// Keeps the file-watcher handle alive for as long as the registry.
    pub fn add_filewatcher(&mut self, handle: W)
        requires
            old(self).wf(),
        ensures
            final(self).wf(),
            final(self)@ == old(self)@,
            final(self).state() == old(self).state(),
            final(self).watcher() == Some(handle),
    {
        self.filewatcher = Some(handle);
    }

    /// Every live session with its target, each exactly once, for the fan-out
    /// of one change batch. Order is unspecified.
    pub fn broadcast_targets(&self) -> (r: Vec<(u64, &T)>)
        requires
            self.wf(),
        ensures
            r@.len() == self@.len(),
            forall|i: int|
                0 <= i < r@.len() ==> self@.contains_key((#[trigger] r@[i]).0) && *r@[i].1
                    == self@[r@[i].0],
            forall|i: int, j: int|
                0 <= i < r@.len() && 0 <= j < r@.len() && i != j ==> r@[i].0 != r@[j].0,
            forall|id: u64|
                self@.contains_key(id) ==> exists|i: int| 0 <= i < r@.len() && r@[i].0 == id,
    {
        let mut out: Vec<(u64, &T)> = Vec::new();
        let ghost keys = self.sessions.keys().remaining();
        for k in it: self.sessions.keys()
            invariant
                out@.len() == it.index(),
                it.seq() == keys,
                keys.no_duplicates(),
                keys.len() == self@.dom().len(),
                keys.unref().to_set() == self@.dom(),
                forall|i: int|
                    0 <= i < out@.len() ==> (#[trigger] out@[i]).0 == *keys[i] && self@.contains_key(
                        out@[i].0,
                    ) && *out@[i].1 == self@[out@[i].0],
        {
            assert(keys.unref().to_set().contains(*k));
            assert(*k == *keys[it.index() as int]);
            match self.sessions.get(k) {
                Some(v) => {
                    assert(*v == self@[*k]);
                    out.push((*k, v));
                },
                None => {},
            }
        }
        assert forall|i: int, j: int|
            0 <= i < out@.len() && 0 <= j < out@.len() && i != j implies out@[i].0 != out@[j].0 by {
            assert(*keys[i] != *keys[j]);
        }
        assert forall|id: u64| self@.contains_key(id) implies exists|i: int|
            0 <= i < out@.len() && out@[i].0 == id by {
            assert(keys.unref().to_set().contains(id));
            let i = choose|i: int| 0 <= i < keys.len() && keys.unref()[i] == id;
            assert(out@[i].0 == id);
        }
        out
    }
}

} // verus!
