use vstd::prelude::*;

use crate::compute::DatabaseInfo;

verus! {

/// The state of one rendezvous slot.
#[derive(Debug)]
pub enum Slot {
    /// Registered; no reply yet.
    Pending,
    /// The control plane's reply, not yet taken by the waiter.
    Ready(DatabaseInfo),
    /// The reply side went away without answering.
    Dropped,
}

/// The id is already registered.
#[derive(Clone, Copy, Debug, PartialEq, Eq, Structural)]
pub struct RegisterError;

/// No pending slot has this id.
#[derive(Clone, Copy, Debug, PartialEq, Eq, Structural)]
pub struct NotifyError;

/// What a waiter finds when it looks at its slot.
#[derive(Debug)]
pub enum WaitPoll {
    Pending,
    Ready(DatabaseInfo),
    Cancelled,
}

#[derive(Debug)]
pub struct WaiterEntry {
    pub id: String,
    pub slot: Slot,
}

/// Rendezvous slots keyed by session id.
pub struct WaiterRegistry {
    entries: Vec<WaiterEntry>,
    slots: Ghost<Map<Seq<char>, Slot>>,
}

/// The registry after registering `id`, if `id` is free.
pub open spec fn registered(m: Map<Seq<char>, Slot>, id: Seq<char>) -> Map<Seq<char>, Slot> {
    m.insert(id, Slot::Pending)
}

pub open spec fn is_pending(m: Map<Seq<char>, Slot>, id: Seq<char>) -> bool {
    m.contains_key(id) && m[id] is Pending
}

/// What a waiter polling `id` gets from the registry `m`.
pub open spec fn poll_result(m: Map<Seq<char>, Slot>, id: Seq<char>) -> WaitPoll {
    if !m.contains_key(id) {
        WaitPoll::Cancelled
    } else {
        match m[id] {
            Slot::Pending => WaitPoll::Pending,
            Slot::Ready(info) => WaitPoll::Ready(info),
            Slot::Dropped => WaitPoll::Cancelled,
        }
    }
}

/// The registry after a waiter polled `id`: a slot that resolved is consumed.
pub open spec fn after_poll(m: Map<Seq<char>, Slot>, id: Seq<char>) -> Map<Seq<char>, Slot> {
    if m.contains_key(id) && !(m[id] is Pending) {
        m.remove(id)
    } else {
        m
    }
}

impl WaiterRegistry {
    pub closed spec fn view(&self) -> Map<Seq<char>, Slot> {
        self.slots@
    }

    pub closed spec fn wf(&self) -> bool {
        &&& forall|i: int|
            0 <= i < self.entries@.len() ==> {
                &&& self.slots@.contains_key(#[trigger] self.entries@[i].id@)
                &&& self.slots@[self.entries@[i].id@] == self.entries@[i].slot
            }
        &&& forall|i: int, j: int|
            0 <= i < j < self.entries@.len() ==> #[trigger] self.entries@[i].id@
                != #[trigger] self.entries@[j].id@
        &&& forall|k: Seq<char>|
            #[trigger] self.slots@.contains_key(k) ==> exists|i: int|
                0 <= i < self.entries@.len() && #[trigger] self.entries@[i].id@ == k
    }

    pub fn new() -> (r: WaiterRegistry)
        ensures
            r.wf(),
            r.view() == Map::<Seq<char>, Slot>::empty(),
    {
        WaiterRegistry { entries: Vec::new(), slots: Ghost(Map::empty()) }
    }

    fn find(&self, id: &String) -> (r: Option<usize>)
        requires
            self.wf(),
        ensures
            r matches Some(i) ==> i < self.entries@.len() && self.entries@[i as int].id@ == id@,
            r is None <==> !self.view().contains_key(id@),
    {
        let mut i: usize = 0;
        while i < self.entries.len()
            invariant
                self.wf(),
                i <= self.entries@.len(),
                forall|j: int| 0 <= j < i ==> #[trigger] self.entries@[j].id@ != id@,
            decreases self.entries@.len() - i,
        {
            if self.entries[i].id == *id {
                return Some(i);
            }
            i = i + 1;
        }
        None
    }

    /// Takes the entry at `i` out of the registry and returns it.
    fn take_entry(&mut self, i: usize) -> (r: WaiterEntry)
        requires
            old(self).wf(),
            i < old(self).entries@.len(),
        ensures
            final(self).wf(),
            r == old(self).entries@[i as int],
            final(self).view() == old(self).view().remove(r.id@),
    {
        let ghost k = self.entries@[i as int].id@;
        let ghost before = self.entries@;
        let e = self.entries.remove(i);
        self.slots = Ghost(self.slots@.remove(k));
        assert forall|j: int| 0 <= j < self.entries@.len() implies #[trigger] self.entries@[j].id@
            != k by {
            if j < i {
                assert(before[j] == self.entries@[j]);
            } else {
                assert(before[j + 1] == self.entries@[j]);
            }
        }
        assert forall|j1: int, j2: int|
            0 <= j1 < j2 < self.entries@.len() implies #[trigger] self.entries@[j1].id@
            != #[trigger] self.entries@[j2].id@ by {
            let a = if j1 < i { j1 } else { j1 + 1 };
            let b = if j2 < i { j2 } else { j2 + 1 };
            assert(before[a] == self.entries@[j1]);
            assert(before[b] == self.entries@[j2]);
        }
        assert forall|j: int| 0 <= j < self.entries@.len() implies {
            &&& self.slots@.contains_key(#[trigger] self.entries@[j].id@)
            &&& self.slots@[self.entries@[j].id@] == self.entries@[j].slot
        } by {
            let a = if j < i { j } else { j + 1 };
            assert(before[a] == self.entries@[j]);
        }
        assert forall|kk: Seq<char>| #[trigger] self.slots@.contains_key(kk) implies exists|j: int|
            0 <= j < self.entries@.len() && #[trigger] self.entries@[j].id@ == kk by {
            let a = choose|a: int| 0 <= a < before.len() && #[trigger] before[a].id@ == kk;
            if a < i {
                assert(self.entries@[a].id@ == kk);
            } else {
                assert(a != i);
                assert(self.entries@[a - 1].id@ == kk);
            }
        }
        e
    }

    /// Puts an entry whose id is absent into the registry.
    fn put_entry(&mut self, e: WaiterEntry)
        requires
            old(self).wf(),
            !old(self).view().contains_key(e.id@),
        ensures
            final(self).wf(),
            final(self).view() == old(self).view().insert(e.id@, e.slot),
    {
        let ghost k = e.id@;
        let ghost s = e.slot;
        let ghost before = self.entries@;
        self.entries.push(e);
        self.slots = Ghost(self.slots@.insert(k, s));
        assert(self.entries@[before.len() as int].id@ == k);
        assert forall|j: int| 0 <= j < self.entries@.len() implies {
            &&& self.slots@.contains_key(#[trigger] self.entries@[j].id@)
            &&& self.slots@[self.entries@[j].id@] == self.entries@[j].slot
        } by {
            if j < before.len() {
                assert(before[j] == self.entries@[j]);
            }
        }
        assert forall|j1: int, j2: int|
            0 <= j1 < j2 < self.entries@.len() implies #[trigger] self.entries@[j1].id@
            != #[trigger] self.entries@[j2].id@ by {
            assert(before[j1] == self.entries@[j1]);
            if j2 < before.len() {
                assert(before[j2] == self.entries@[j2]);
            }
        }
        assert forall|kk: Seq<char>| #[trigger] self.slots@.contains_key(kk) implies exists|j: int|
            0 <= j < self.entries@.len() && #[trigger] self.entries@[j].id@ == kk by {
            if kk != k {
                let a = choose|a: int| 0 <= a < before.len() && #[trigger] before[a].id@ == kk;
                assert(self.entries@[a] == before[a]);
            }
        }
    }

    /// Inserts a pending slot for `id`, or fails if `id` is already registered.
    pub fn register(&mut self, id: String) -> (r: Result<(), RegisterError>)
        requires
            old(self).wf(),
        ensures
            final(self).wf(),
            r is Err <==> old(self).view().contains_key(id@),
            r is Err ==> final(self).view() == old(self).view(),
            r is Ok ==> final(self).view() == registered(old(self).view(), id@),
    {
        match self.find(&id) {
            Some(_) => Err(RegisterError),
            None => {
                self.put_entry(WaiterEntry { id, slot: Slot::Pending });
                Ok(())
            },
        }
    }

    /// Delivers the control plane's reply to the pending slot `id`.
    pub fn notify(&mut self, id: &String, info: DatabaseInfo) -> (r: Result<(), NotifyError>)
        requires
            old(self).wf(),
        ensures
            final(self).wf(),
            r is Ok <==> is_pending(old(self).view(), id@),
            r is Ok ==> final(self).view() == old(self).view().insert(id@, Slot::Ready(info)),
            r is Err ==> final(self).view() == old(self).view(),
    {
        match self.find(id) {
            None => Err(NotifyError),
            Some(i) => {
                if !matches!(self.entries[i].slot, Slot::Pending) {
                    return Err(NotifyError);
                }
                let e = self.take_entry(i);
                self.put_entry(WaiterEntry { id: e.id, slot: Slot::Ready(info) });
                Ok(())
            },
        }
    }

    /// The reply side of `id` goes away without answering.
    pub fn drop_sender(&mut self, id: &String) -> (r: Result<(), NotifyError>)
        requires
            old(self).wf(),
        ensures
            final(self).wf(),
            r is Ok <==> is_pending(old(self).view(), id@),
            r is Ok ==> final(self).view() == old(self).view().insert(id@, Slot::Dropped),
            r is Err ==> final(self).view() == old(self).view(),
    {
        match self.find(id) {
            None => Err(NotifyError),
            Some(i) => {
                if !matches!(self.entries[i].slot, Slot::Pending) {
                    return Err(NotifyError);
                }
                let e = self.take_entry(i);
                self.put_entry(WaiterEntry { id: e.id, slot: Slot::Dropped });
                Ok(())
            },
        }
    }

    /// Looks at the slot `id` for the waiter; a reply or a drop consumes the slot.
    pub fn poll(&mut self, id: &String) -> (r: WaitPoll)
        requires
            old(self).wf(),
        ensures
            final(self).wf(),
            r == poll_result(old(self).view(), id@),
            final(self).view() == after_poll(old(self).view(), id@),
    {
        match self.find(id) {
            None => WaitPoll::Cancelled,
            Some(i) => {
                if matches!(self.entries[i].slot, Slot::Pending) {
                    return WaitPoll::Pending;
                }
                let e = self.take_entry(i);
                match e.slot {
                    Slot::Ready(info) => WaitPoll::Ready(info),
                    _ => WaitPoll::Cancelled,
                }
            },
        }
    }

    /// The waiter gives up on `id` (it timed out or was cancelled): its slot is removed.
    pub fn forget(&mut self, id: &String)
        requires
            old(self).wf(),
        ensures
            final(self).wf(),
            final(self).view() == old(self).view().remove(id@),
    {
        match self.find(id) {
            None => {
                assert(self.view().remove(id@) =~= self.view());
            },
            Some(i) => {
                let _ = self.take_entry(i);
            },
        }
    }
}

/// A waiter whose slot was registered and then answered receives exactly the answer,
/// and the slot is gone afterwards.
pub proof fn lemma_register_notify_poll(m: Map<Seq<char>, Slot>, id: Seq<char>, info: DatabaseInfo)
    requires
        !m.contains_key(id),
    ensures
        is_pending(registered(m, id), id),
        poll_result(registered(m, id).insert(id, Slot::Ready(info)), id) == WaitPoll::Ready(info),
        after_poll(registered(m, id).insert(id, Slot::Ready(info)), id) == m,
{
    assert(after_poll(registered(m, id).insert(id, Slot::Ready(info)), id) =~= m);
}

/// A waiter whose slot was registered and whose reply side then went away is cancelled.
pub proof fn lemma_register_drop_poll(m: Map<Seq<char>, Slot>, id: Seq<char>)
    requires
        !m.contains_key(id),
    ensures
        is_pending(registered(m, id), id),
        poll_result(registered(m, id).insert(id, Slot::Dropped), id) == WaitPoll::Cancelled,
{
}

} // verus!
