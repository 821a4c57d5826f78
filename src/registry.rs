use vstd::prelude::*;
use vstd::arithmetic::div_mod::{lemma_fundamental_div_mod, lemma_fundamental_div_mod_converse};
use vstd::string::*;
use crate::error::JavaException;

verus! {

/// The value a caller stores in place of a handle once it has been closed.
pub const NO_HANDLE: i64 = 0;

/// Handles keep the slot index in their low 32 bits and the slot's
/// generation above them.
pub const HANDLE_SPLIT: u64 = 0x1_0000_0000;

/// Slots are numbered below this bound, so that `index + 1` fits the low half.
pub const SLOT_LIMIT: usize = 0x7fff_ffff;

/// A slot whose generation reaches this bound is never handed out again.
pub const GENERATION_LIMIT: u32 = 0x7fff_ffff;

/// The handle that addresses `index` while its slot is at `generation`.
pub open spec fn handle_spec(index: int, generation: int) -> int {
    generation * 0x1_0000_0000 + index + 1
}

/// The slot index that a handle addresses (-1 for none).
pub open spec fn index_of(h: i64) -> int {
    (h as int) % 0x1_0000_0000 - 1
}

/// The slot generation that a handle was issued for.
pub open spec fn generation_of(h: i64) -> int {
    (h as int) / 0x1_0000_0000
}

/// Every positive handle splits into a slot index and a generation.
proof fn lemma_handle_parts(h: i64)
    requires
        h > 0,
    ensures
        h as int == handle_spec(index_of(h), generation_of(h)),
        0 <= generation_of(h),
        -1 <= index_of(h) < 0xffff_ffff,
{
    lemma_fundamental_div_mod(h as int, 0x1_0000_0000);
}

/// The handle of an index and a generation fits an `i64`, and splits back
/// into that index and generation.
proof fn lemma_handle_of(index: int, generation: int)
    requires
        0 <= index < SLOT_LIMIT,
        0 <= generation <= GENERATION_LIMIT,
    ensures
        0 < handle_spec(index, generation) <= i64::MAX,
        index_of(handle_spec(index, generation) as i64) == index,
        generation_of(handle_spec(index, generation) as i64) == generation,
{
    let h = handle_spec(index, generation);
    assert(h <= 0x7fff_ffff * 0x1_0000_0000 + 0x7fff_ffff) by (nonlinear_arith)
        requires
            h == generation * 0x1_0000_0000 + index + 1,
            0 <= index < 0x7fff_ffff,
            0 <= generation <= 0x7fff_ffff,
    ;
    lemma_fundamental_div_mod_converse(h, 0x1_0000_0000, generation, index + 1);
}

fn stale_handle() -> (e: JavaException)
    ensures
        e.is_illegal_state(),
{
    JavaException::new_illegal_state(String::from_str("The handle does not name an open session"))
}

struct Slot<S> {
    generation: u32,
    session: Option<S>,
}

/// Owns every live session and hands out integer handles for them.
///
/// A handle names a slot and the generation that the slot was at when the
/// handle was issued. Closing a session moves its slot to the next
/// generation, so the closed handle, and every copy of it, is retired for
/// good: it never resolves again, not even after the slot is reused.
pub struct Registry<S> {
    slots: Vec<Slot<S>>,
}

impl<S> View for Registry<S> {
    type V = Map<i64, S>;

    /// The live handles and the session behind each.
    closed spec fn view(&self) -> Map<i64, S> {
        Map::new(|h: i64| self.live(h), |h: i64| self.slots@[index_of(h)].session->0)
    }
}

impl<S> Registry<S> {
    pub closed spec fn live(&self, h: i64) -> bool {
        &&& h > 0
        &&& 0 <= index_of(h) < self.slots@.len()
        &&& self.slots@[index_of(h)].generation == generation_of(h)
        &&& self.slots@[index_of(h)].session is Some
    }

    /// The handles that were closed: none of them resolves again.
    pub closed spec fn retired(&self) -> Set<i64> {
        Set::new(
            |h: i64|
                h > 0 && 0 <= index_of(h) < self.slots@.len() && generation_of(h)
                    < self.slots@[index_of(h)].generation,
        )
    }

    closed spec fn reusable(&self, i: int) -> bool {
        self.slots@[i].session is None && self.slots@[i].generation < GENERATION_LIMIT
    }

    /// How many slots were ever opened; this grows by at most one a call.
    pub closed spec fn slot_count(&self) -> nat {
        self.slots@.len()
    }

    /// No slot is left to issue a fresh handle from.
    pub closed spec fn is_full(&self) -> bool {
        &&& self.slots@.len() == SLOT_LIMIT
        &&& forall|i: int| 0 <= i < self.slots@.len() ==> !#[trigger] self.reusable(i)
    }

    pub closed spec fn wf(&self) -> bool {
        &&& self.slots@.len() <= SLOT_LIMIT
        &&& forall|i: int|
            0 <= i < self.slots@.len() ==> (#[trigger] self.slots@[i]).generation
                <= GENERATION_LIMIT && (self.slots@[i].session is Some
                ==> self.slots@[i].generation < GENERATION_LIMIT)
    }

    pub fn new() -> (r: Registry<S>)
        ensures
            r.wf(),
            r@ == Map::<i64, S>::empty(),
            r.retired() == Set::<i64>::empty(),
            r.slot_count() == 0,
    {
        let r = Registry { slots: Vec::new() };
        assert(r@ =~= Map::<i64, S>::empty());
        assert(r.retired() =~= Set::<i64>::empty());
        r
    }

    /// The slot that a live handle addresses.
    fn locate(&self, h: i64) -> (r: Option<usize>)
        requires
            self.wf(),
        ensures
            r is Some <==> self.live(h),
            r matches Some(i) ==> i == index_of(h),
    {
        if h <= 0 {
            return None;
        }
        let u = h as u64;
        let low = u % HANDLE_SPLIT;
        let generation = u / HANDLE_SPLIT;
        if low == 0 || low - 1 >= self.slots.len() as u64 {
            return None;
        }
        let i = (low - 1) as usize;
        if self.slots[i].generation as u64 == generation && self.slots[i].session.is_some() {
            Some(i)
        } else {
            None
        }
    }

    /// Takes ownership of a session and returns the fresh handle that now
    /// names it. Fails only when every slot is in use or worn out.
    pub fn allocate(&mut self, session: S) -> (r: Result<i64, JavaException>)
        requires
            old(self).wf(),
        ensures
            final(self).wf(),
            final(self).slot_count() <= old(self).slot_count() + 1,
            r is Err <==> old(self).is_full(),
            r matches Ok(h) ==> {
                &&& h != NO_HANDLE
                &&& !old(self)@.contains_key(h)
                &&& !old(self).retired().contains(h)
                &&& final(self)@ == old(self)@.insert(h, session)
                &&& final(self).retired() == old(self).retired()
            },
            r matches Err(e) ==> {
                &&& e.is_illegal_state()
                &&& final(self)@ == old(self)@
                &&& final(self).retired() == old(self).retired()
            },
    {
        let n = self.slots.len();
        let mut i: usize = 0;
        while i < n
            invariant
                self == old(self),
                self.wf(),
                n == self.slots@.len(),
                0 <= i <= n,
                forall|j: int| 0 <= j < i ==> !#[trigger] self.reusable(j),
            decreases n - i,
        {
            if self.slots[i].session.is_none() && self.slots[i].generation < GENERATION_LIMIT {
                let generation = self.slots[i].generation;
                proof {
                    lemma_handle_of(i as int, generation as int);
                }
                let h = (generation as u64 * HANDLE_SPLIT + i as u64 + 1) as i64;
                self.slots.set(i, Slot { generation, session: Some(session) });
                proof {
                    self.lemma_fill(*old(self), i as int, h);
                }
                return Ok(h);
            }
            i = i + 1;
        }
        if n < SLOT_LIMIT {
            proof {
                lemma_handle_of(n as int, 0);
            }
            let h = n as i64 + 1;
            self.slots.push(Slot { generation: 0, session: Some(session) });
            proof {
                let pushed = old(self).slots@.push(self.slots@[n as int]);
                assert(self.slots@ =~= pushed.update(n as int, self.slots@[n as int]));
                self.lemma_fill(*old(self), n as int, h);
            }
            Ok(h)
        } else {
            Err(JavaException::new_illegal_state(String::from_str("No free handle is left")))
        }
    }

    /// Lends out the session behind a live handle. Any other handle, one
    /// never issued or one already closed, is refused with a state error.
    pub fn resolve(&mut self, h: i64) -> (r: Result<&mut S, JavaException>)
        requires
            old(self).wf(),
        ensures
            r is Err <==> !old(self)@.contains_key(h),
            r matches Ok(s) ==> {
                &&& *s == old(self)@[h]
                &&& final(self)@ == old(self)@.insert(h, *final(s))
                &&& final(self).retired() == old(self).retired()
                &&& final(self).slot_count() == old(self).slot_count()
                &&& final(self).wf()
            },
            r matches Err(e) ==> {
                &&& e.is_illegal_state()
                &&& *final(self) == *old(self)
            },
    {
        match self.locate(h) {
            None => Err(stale_handle()),
            Some(i) => {
                let slot = &mut self.slots[i];
                match &mut slot.session {
                    Some(s) => Ok(s),
                    None => Err(stale_handle()),
                }
            },
        }
    }

    /// Closes a live handle: the session leaves the registry and is handed
    /// back to the caller, and the handle is retired for good. Any other
    /// handle is refused with a state error, so a second close of the same
    /// handle never reaches the session again.
    pub fn release(&mut self, h: i64) -> (r: Result<S, JavaException>)
        requires
            old(self).wf(),
        ensures
            final(self).wf(),
            final(self).slot_count() == old(self).slot_count(),
            r is Err <==> !old(self)@.contains_key(h),
            r matches Ok(s) ==> {
                &&& s == old(self)@[h]
                &&& final(self)@ == old(self)@.remove(h)
                &&& final(self).retired() == old(self).retired().insert(h)
            },
            r matches Err(e) ==> {
                &&& e.is_illegal_state()
                &&& final(self)@ == old(self)@
                &&& final(self).retired() == old(self).retired()
            },
    {
        match self.locate(h) {
            None => Err(stale_handle()),
            Some(i) => {
                let generation = self.slots[i].generation;
                let mut out = Slot { generation: generation + 1, session: None };
                std::mem::swap(&mut self.slots[i], &mut out);
                proof {
                    let before = *old(self);
                    assert(self.slots@ =~= before.slots@.update(i as int, self.slots@[i as int]));
                    assert forall|k: i64| #[trigger] self.live(k) == (before.live(k) && k != h) by {
                        if k > 0 {
                            lemma_handle_parts(k);
                            lemma_handle_parts(h);
                        }
                    }
                    assert forall|k: i64| #[trigger] self.retired().contains(k) == (
                    before.retired().contains(k) || k == h) by {
                        if k > 0 {
                            lemma_handle_parts(k);
                            lemma_handle_parts(h);
                        }
                    }
                    assert(self@ =~= before@.remove(h));
                    assert(self.retired() =~= before.retired().insert(h));
                }
                match out.session {
                    Some(s) => Ok(s),
                    None => Err(stale_handle()),
                }
            },
        }
    }

    /// A registry that has opened fewer slots than the limit always has room
    /// for one more session.
    pub proof fn lemma_room_left(&self)
        requires
            self.slot_count() < SLOT_LIMIT,
        ensures
            !self.is_full(),
    {
    }

    /// A handle that was closed never names a session again: every
    /// operation on it is refused with a state error.
    pub proof fn lemma_retired_never_live(&self, h: i64)
        requires
            self.wf(),
            self.retired().contains(h),
        ensures
            !self@.contains_key(h),
    {
    }

    /// What filling slot `i` does to the live and retired handles.
    proof fn lemma_fill(&self, before: Registry<S>, i: int, h: i64)
        requires
            before.wf(),
            0 <= i < self.slots@.len(),
            i < before.slots@.len() ==> before.reusable(i),
            i == before.slots@.len() ==> self.slots@[i].generation == 0,
            i <= before.slots@.len(),
            self.slots@.len() <= SLOT_LIMIT,
            self.slots@ == (if i < before.slots@.len() {
                before.slots@
            } else {
                before.slots@.push(self.slots@[i])
            }).update(i, self.slots@[i]),
            self.slots@[i].session is Some,
            i < before.slots@.len() ==> self.slots@[i].generation == before.slots@[i].generation,
            h as int == handle_spec(i, self.slots@[i].generation as int),
            index_of(h) == i,
            generation_of(h) == self.slots@[i].generation,
            h > 0,
        ensures
            self.wf(),
            !before@.contains_key(h),
            !before.retired().contains(h),
            self@ == before@.insert(h, self.slots@[i].session->0),
            self.retired() == before.retired(),
    {
        assert forall|k: i64| #[trigger] self.live(k) == (before.live(k) || k == h) by {
            if k > 0 {
                lemma_handle_parts(k);
            }
        }
        assert(self@ =~= before@.insert(h, self.slots@[i].session->0));
        assert(self.retired() =~= before.retired());
    }
}

} // verus!
