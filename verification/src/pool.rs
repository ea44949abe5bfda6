//! A fixed-capacity pool of context objects (for instance process control
//! blocks), addressed by context identity and guarded by access tokens
//! and version numbers so that stale handles are refused. Destroying a
//! process triggers the deterministic cleanup of its trap handlers.

use vstd::prelude::*;
use crate::container::TrapSystem;
use crate::handler::TrapHandler;
use crate::registry::{spec_kept, ContextId};
use crate::types::{TrapType, TRAP_TYPE_COUNT};

verus! {

/// Failures of the context pool.
#[derive(Debug, Copy, Clone, PartialEq, Eq, Structural)]
pub enum PoolError {
    /// Every slot is taken.
    PoolFull,
    /// The context identity is invalid.
    InvalidContextId,
    /// A context with this identity already exists.
    ContextExists,
    /// No context with this identity exists.
    ContextNotFound,
    /// The access token does not match.
    InvalidToken,
    /// The object was destroyed (and its slot possibly reused).
    ContextDestroyed,
    /// Access refused.
    AccessDenied,
    /// The pool is busy.
    LockBusy,
}

/// An object the pool can manage: it knows its own context identity.
pub trait ContextObject: Sized {
    /// The object's context identity, as a specification value.
    spec fn spec_id(&self) -> ContextId;

    /// The object's context identity.
    fn id(&self) -> (r: ContextId)
        ensures
            r == self.spec_id(),
    ;

    /// A fresh object under the given identity.
    fn new_object(id: ContextId) -> (r: Self)
        ensures
            r.spec_id() == id,
    ;
}

/// Number of slots in a pool.
pub const CONTEXT_POOL_SIZE: usize = 64;

/// One slot: the object, whether the slot is live, its access token, and
/// a version number that detects reuse after destruction.
pub struct PoolSlot<T> {
    /// The stored object, present exactly while the slot is live.
    pub object: Option<T>,
    /// Whether the slot is live.
    pub in_use: bool,
    /// Access token handed to the creator; 0 marks no token.
    pub token: u32,
    /// Grows by one each time the slot is (re)occupied.
    pub version: usize,
}

/// A version number advanced by one, wrapping at the integer limit.
pub open spec fn spec_wrap_inc(v: usize) -> usize {
    if v == usize::MAX {
        0
    } else {
        (v + 1) as usize
    }
}

/// Whether a slot currently holds the object of identity `id`.
pub open spec fn spec_slot_holds<T: ContextObject>(slot: PoolSlot<T>, id: ContextId) -> bool {
    slot.in_use && match slot.object {
        Option::Some(obj) => obj.spec_id() == id,
        Option::None => false,
    }
}

/// The first slot index holding identity `id`, or the pool size when none
/// does.
pub open spec fn spec_find_id<T: ContextObject>(s: Seq<PoolSlot<T>>, id: ContextId) -> int
    decreases s.len(),
{
    if s.len() == 0 {
        0
    } else if spec_slot_holds(s[0], id) {
        0
    } else {
        1 + spec_find_id(s.skip(1), id)
    }
}

/// Whether some slot holds identity `id`.
pub open spec fn spec_has_id<T: ContextObject>(s: Seq<PoolSlot<T>>, id: ContextId) -> bool {
    spec_find_id(s, id) < s.len()
}

/// How many slots are live.
pub open spec fn spec_used_count<T>(s: Seq<PoolSlot<T>>) -> int
    decreases s.len(),
{
    if s.len() == 0 {
        0
    } else {
        (if s[0].in_use {
            1int
        } else {
            0int
        }) + spec_used_count(s.skip(1))
    }
}

/// The first free slot index, or the pool size when every slot is live.
pub open spec fn spec_first_free<T>(s: Seq<PoolSlot<T>>) -> int
    decreases s.len(),
{
    if s.len() == 0 {
        0
    } else if !s[0].in_use {
        0
    } else {
        1 + spec_first_free(s.skip(1))
    }
}

/// `spec_find_id` is the first such slot; `spec_first_free` the first
/// free one; the used count is bounded by the length, and fewer used than
/// slots means a free slot exists.
pub proof fn lemma_pool_search<T: ContextObject>(s: Seq<PoolSlot<T>>, id: ContextId)
    ensures
        0 <= spec_find_id(s, id) <= s.len(),
        forall|k: int| 0 <= k < spec_find_id(s, id) ==> !spec_slot_holds(#[trigger] s[k], id),
        spec_find_id(s, id) < s.len() ==> spec_slot_holds(s[spec_find_id(s, id)], id),
        0 <= spec_first_free(s) <= s.len(),
        forall|k: int| 0 <= k < spec_first_free(s) ==> (#[trigger] s[k]).in_use,
        spec_first_free(s) < s.len() ==> !s[spec_first_free(s)].in_use,
        0 <= spec_used_count(s) <= s.len(),
        spec_used_count(s) < s.len() ==> spec_first_free(s) < s.len(),
    decreases s.len(),
{
    if s.len() > 0 {
        lemma_pool_search(s.skip(1), id);
        assert forall|k: int| 0 <= k < spec_find_id(s, id) implies !spec_slot_holds(
            #[trigger] s[k],
            id,
        ) by {
            if k > 0 {
                assert(s.skip(1)[k - 1] == s[k]);
            }
        }
        if spec_find_id(s, id) < s.len() && !spec_slot_holds(s[0], id) {
            assert(s.skip(1)[spec_find_id(s.skip(1), id)] == s[spec_find_id(s, id)]);
        }
        assert forall|k: int| 0 <= k < spec_first_free(s) implies (#[trigger] s[k]).in_use by {
            if k > 0 {
                assert(s.skip(1)[k - 1] == s[k]);
            }
        }
        if spec_first_free(s) < s.len() && s[0].in_use {
            assert(s.skip(1)[spec_first_free(s.skip(1))] == s[spec_first_free(s)]);
        }
    }
}

/// The pool: a fixed array of slots, the live count, and the token
/// counter.
pub struct ContextPool<T: ContextObject> {
    /// The slots.
    pub slots: Vec<PoolSlot<T>>,
    /// How many slots are live.
    pub count: usize,
    /// Next access token to hand out; never 0.
    pub next_token: u32,
}

impl<T: ContextObject> ContextPool<T> {
    /// Pool invariant: fixed size, the count tracks the live slots, a
    /// slot holds an object exactly while live, and no two live slots
    /// share an identity.
    pub open spec fn wf(&self) -> bool {
        &&& self.slots@.len() == CONTEXT_POOL_SIZE
        &&& self.count == spec_used_count(self.slots@)
        &&& self.next_token >= 1
        &&& forall|k: int|
            0 <= k < CONTEXT_POOL_SIZE ==> ((#[trigger] self.slots@[k]).in_use <==> self.slots@[k].object is Some)
        &&& forall|i: int, j: int|
            0 <= i < j < CONTEXT_POOL_SIZE && (#[trigger] self.slots@[i]).in_use && (
            #[trigger] self.slots@[j]).in_use ==> spec_slot_id(self.slots@[i]) != spec_slot_id(
                self.slots@[j],
            )
    }

    /// An empty pool.
    pub fn new() -> (r: ContextPool<T>)
        ensures
            r.wf(),
            r.count == 0,
            forall|k: int| 0 <= k < CONTEXT_POOL_SIZE ==> !(#[trigger] r.slots@[k]).in_use,
    {
        let mut slots: Vec<PoolSlot<T>> = Vec::new();
        let mut i: usize = 0;
        while i < CONTEXT_POOL_SIZE
            invariant
                i <= CONTEXT_POOL_SIZE,
                slots@.len() == i,
                forall|k: int|
                    0 <= k < i ==> !(#[trigger] slots@[k]).in_use && slots@[k].object is None
                        && slots@[k].token == 0 && slots@[k].version == 0,
            decreases CONTEXT_POOL_SIZE - i,
        {
            slots.push(PoolSlot { object: None, in_use: false, token: 0, version: 0 });
            i += 1;
        }
        let pool = ContextPool { slots, count: 0, next_token: 1 };
        proof {
            lemma_used_count_none(pool.slots@);
        }
        pool
    }

    /// How many contexts are live.
    pub fn count(&self) -> (r: usize)
        ensures
            r == self.count,
    {
        self.count
    }

    /// Create and store a context object under `id`: refused with
    /// `PoolFull` when no slot is free and with `ContextExists` when the
    /// identity is already present; otherwise the object takes the first
    /// free slot and the new identity, token and version come back.
    pub fn create_context(&mut self, id: ContextId) -> (r: Result<
        (ContextId, u32, usize),
        PoolError,
    >)
        requires
            old(self).wf(),
        ensures
            final(self).wf(),
            ({
                let s = old(self).slots@;
                if old(self).count >= CONTEXT_POOL_SIZE {
                    r == Result::<(ContextId, u32, usize), PoolError>::Err(PoolError::PoolFull)
                        && *final(self) == *old(self)
                } else if spec_has_id(s, id) {
                    r == Result::<(ContextId, u32, usize), PoolError>::Err(PoolError::ContextExists)
                        && *final(self) == *old(self)
                } else {
                    let idx = spec_first_free(s);
                    let slot = final(self).slots@[idx];
                    &&& r == Result::<(ContextId, u32, usize), PoolError>::Ok(
                        (id, old(self).next_token, slot.version),
                    )
                    &&& slot.in_use
                    &&& spec_slot_id(slot) == id
                    &&& slot.token == old(self).next_token
                    &&& slot.version == spec_wrap_inc(old(self).slots@[idx].version)
                    &&& final(self).count == old(self).count + 1
                    &&& forall|k: int|
                        0 <= k < CONTEXT_POOL_SIZE && k != idx ==> #[trigger] final(self).slots@[k]
                            == s[k]
                }
            }),
    {
        proof {
            lemma_pool_search(self.slots@, id);
        }
        if self.count >= CONTEXT_POOL_SIZE {
            return Err(PoolError::PoolFull);
        }
        if self.find_index_by_id(id).is_some() {
            return Err(PoolError::ContextExists);
        }
        let idx = self.first_free_index();
        proof {
            assert(idx < CONTEXT_POOL_SIZE);
        }
        let token = self.next_token;
        self.next_token = if self.next_token == u32::MAX {
            1
        } else {
            self.next_token + 1
        };
        let ghost s0 = self.slots@;
        let slot = &mut self.slots[idx];
        let obj = T::new_object(id);
        let new_version = if slot.version == usize::MAX {
            0
        } else {
            slot.version + 1
        };
        *slot = PoolSlot { object: Some(obj), in_use: true, token, version: new_version };
        self.count = self.count + 1;
        proof {
            lemma_used_count_update(s0, idx as int, self.slots@);
            assert forall|i: int, j: int|
                0 <= i < j < CONTEXT_POOL_SIZE && (#[trigger] self.slots@[i]).in_use && (
                #[trigger] self.slots@[j]).in_use implies spec_slot_id(self.slots@[i])
                != spec_slot_id(self.slots@[j]) by {
                if i != idx && j != idx {
                    assert(self.slots@[i] == s0[i]);
                    assert(self.slots@[j] == s0[j]);
                } else if i == idx {
                    assert(!spec_slot_holds(s0[j], id));
                } else {
                    assert(!spec_slot_holds(s0[i], id));
                }
            }
        }
        Ok((id, token, new_version))
    }

    /// Destroy the context of identity `id`, freeing its slot; refused
    /// with `ContextNotFound` when it is absent.
    pub fn destroy_context(&mut self, id: ContextId) -> (r: Result<(), PoolError>)
        requires
            old(self).wf(),
        ensures
            final(self).wf(),
            ({
                let s = old(self).slots@;
                if !spec_has_id(s, id) {
                    r == Result::<(), PoolError>::Err(PoolError::ContextNotFound) && *final(self)
                        == *old(self)
                } else {
                    let idx = spec_find_id(s, id);
                    let slot = final(self).slots@[idx];
                    &&& r == Result::<(), PoolError>::Ok(())
                    &&& !slot.in_use
                    &&& slot.object is None
                    &&& slot.token == 0
                    &&& slot.version == s[idx].version
                    &&& final(self).count == old(self).count - 1
                    &&& forall|k: int|
                        0 <= k < CONTEXT_POOL_SIZE && k != idx ==> #[trigger] final(self).slots@[k]
                            == s[k]
                }
            }),
    {
        proof {
            lemma_pool_search(self.slots@, id);
        }
        let found = self.find_index_by_id(id);
        match found {
            None => Err(PoolError::ContextNotFound),
            Some(idx) => {
                let ghost s0 = self.slots@;
                proof {
                    lemma_used_count_lower(s0, idx as int);
                }
                let slot = &mut self.slots[idx];
                let version = slot.version;
                *slot = PoolSlot { object: None, in_use: false, token: 0, version };
                self.count = self.count - 1;
                proof {
                    lemma_used_count_update(s0, idx as int, self.slots@);
                }
                Ok(())
            },
        }
    }

    /// Check a handle's identity, token and version; on success the
    /// slot's index comes back.
    pub fn validate_access(&self, id: ContextId, token: u32, version: usize) -> (r: Result<
        usize,
        PoolError,
    >)
        requires
            self.wf(),
        ensures
            ({
                let s = self.slots@;
                if !spec_has_id(s, id) {
                    r == Result::<usize, PoolError>::Err(PoolError::ContextNotFound)
                } else {
                    let idx = spec_find_id(s, id);
                    if !(s[idx].in_use && s[idx].token == token) {
                        r == Result::<usize, PoolError>::Err(PoolError::InvalidToken)
                    } else if s[idx].version != version {
                        r == Result::<usize, PoolError>::Err(PoolError::ContextDestroyed)
                    } else {
                        r == Result::<usize, PoolError>::Ok(idx as usize)
                    }
                }
            }),
    {
        proof {
            lemma_pool_search(self.slots@, id);
        }
        let found = self.find_index_by_id(id);
        match found {
            None => Err(PoolError::ContextNotFound),
            Some(idx) => {
                let slot = &self.slots[idx];
                if !(slot.in_use && slot.token == token) {
                    Err(PoolError::InvalidToken)
                } else if slot.version != version {
                    Err(PoolError::ContextDestroyed)
                } else {
                    Ok(idx)
                }
            },
        }
    }

    /// Borrow the object of a validated handle.
    pub fn get_object(&self, id: ContextId, token: u32, version: usize) -> (r: Result<
        &T,
        PoolError,
    >)
        requires
            self.wf(),
        ensures
            ({
                let s = self.slots@;
                let idx = spec_find_id(s, id);
                if !spec_has_id(s, id) {
                    r == Result::<&T, PoolError>::Err(PoolError::ContextNotFound)
                } else if !(s[idx].in_use && s[idx].token == token) {
                    r == Result::<&T, PoolError>::Err(PoolError::InvalidToken)
                } else if s[idx].version != version {
                    r == Result::<&T, PoolError>::Err(PoolError::ContextDestroyed)
                } else {
                    r matches Ok(obj) && Some(*obj) == s[idx].object
                }
            }),
    {
        proof {
            lemma_pool_search(self.slots@, id);
        }
        let idx = match self.validate_access(id, token, version) {
            Ok(i) => i,
            Err(e) => {
                return Err(e);
            },
        };
        match &self.slots[idx].object {
            Some(obj) => Ok(obj),
            None => Err(PoolError::ContextNotFound),
        }
    }

    /// Run a read-only closure on the object of a validated handle and
    /// hand its result back.
    pub fn with_object<R, F: FnOnce(&T) -> R>(
        &self,
        id: ContextId,
        token: u32,
        version: usize,
        f: F,
    ) -> (r: Result<R, PoolError>)
        requires
            self.wf(),
            forall|obj: &T| #[trigger] f.requires((obj,)),
        ensures
            ({
                let s = self.slots@;
                let idx = spec_find_id(s, id);
                if !spec_has_id(s, id) {
                    r == Result::<R, PoolError>::Err(PoolError::ContextNotFound)
                } else if !(s[idx].in_use && s[idx].token == token) {
                    r == Result::<R, PoolError>::Err(PoolError::InvalidToken)
                } else if s[idx].version != version {
                    r == Result::<R, PoolError>::Err(PoolError::ContextDestroyed)
                } else {
                    &&& r is Ok
                    &&& s[idx].object matches Some(obj) && f.ensures((&obj,), r->Ok_0)
                }
            }),
    {
        proof {
            lemma_pool_search(self.slots@, id);
        }
        let obj = match self.get_object(id, token, version) {
            Ok(o) => o,
            Err(e) => {
                return Err(e);
            },
        };
        let v = f(obj);
        proof {
            let s = self.slots@;
            let idx = spec_find_id(s, id);
            assert(Some(*obj) == s[idx].object);
            assert(f.ensures((obj,), v));
        }
        Ok(v)
    }

    /// Run an updating closure on the object of a validated handle: the
    /// closure consumes the object and returns its replacement together
    /// with a result.
    pub fn with_object_mut<R, F: FnOnce(T) -> (T, R)>(
        &mut self,
        id: ContextId,
        token: u32,
        version: usize,
        f: F,
    ) -> (r: Result<R, PoolError>)
        requires
            old(self).wf(),
            forall|obj: T| #[trigger] f.requires((obj,)),
            forall|obj: T, out: (T, R)|
                #[trigger] f.ensures((obj,), out) ==> out.0.spec_id() == obj.spec_id(),
        ensures
            final(self).wf(),
            ({
                let s = old(self).slots@;
                let idx = spec_find_id(s, id);
                if !spec_has_id(s, id) {
                    r == Result::<R, PoolError>::Err(PoolError::ContextNotFound) && *final(self)
                        == *old(self)
                } else if !(s[idx].in_use && s[idx].token == token) {
                    r == Result::<R, PoolError>::Err(PoolError::InvalidToken) && *final(self)
                        == *old(self)
                } else if s[idx].version != version {
                    r == Result::<R, PoolError>::Err(PoolError::ContextDestroyed) && *final(self)
                        == *old(self)
                } else {
                    &&& final(self).count == old(self).count
                    &&& forall|k: int|
                        0 <= k < CONTEXT_POOL_SIZE && k != idx ==> #[trigger] final(self).slots@[k]
                            == s[k]
                    &&& final(self).slots@[idx].in_use
                    &&& final(self).slots@[idx].token == s[idx].token
                    &&& final(self).slots@[idx].version == s[idx].version
                    &&& (r matches Ok(v) && (exists|obj: T, out: (T, R)|
                        Some(obj) == s[idx].object && #[trigger] f.ensures((obj,), out) && out.1
                            == v && Some(out.0) == final(self).slots@[idx].object))
                }
            }),
    {
        proof {
            lemma_pool_search(self.slots@, id);
        }
        let idx = match self.validate_access(id, token, version) {
            Ok(i) => i,
            Err(e) => {
                return Err(e);
            },
        };
        let ghost s0 = self.slots@;
        let slot = &mut self.slots[idx];
        let obj = match slot.object.take() {
            Some(o) => o,
            None => {
                proof {
                    assert(false);
                }
                return Err(PoolError::ContextNotFound);
            },
        };
        let (obj2, result) = f(obj);
        slot.object = Some(obj2);
        proof {
            lemma_used_count_same_use(s0, self.slots@);
        }
        Ok(result)
    }

    /// The context identities of every live object, in slot order; the
    /// walking counterpart of the pool for callers that enumerate its
    /// contents.
    pub fn live_ids(&self) -> (r: Vec<ContextId>)
        requires
            self.wf(),
        ensures
            r@ == spec_live_ids(self.slots@),
    {
        let ghost s = self.slots@;
        let mut out: Vec<ContextId> = Vec::new();
        let mut i: usize = 0;
        proof {
            assert(s.skip(0) =~= s);
        }
        while i < self.slots.len()
            invariant
                self.wf(),
                s == self.slots@,
                i <= s.len(),
                spec_live_ids(s) == out@ + spec_live_ids(s.skip(i as int)),
            decreases s.len() - i,
        {
            proof {
                assert(s.skip(i as int)[0] == s[i as int]);
                assert(s.skip(i as int).skip(1) =~= s.skip(i as int + 1));
            }
            let slot = &self.slots[i];
            if slot.in_use {
                match &slot.object {
                    Some(obj) => {
                        out.push(obj.id());
                        proof {
                            assert((out@.drop_last() + seq![spec_slot_id(s[i as int])])
                                + spec_live_ids(s.skip(i as int + 1)) =~= out@.drop_last() + (seq![
                                spec_slot_id(s[i as int]),
                            ] + spec_live_ids(s.skip(i as int + 1))));
                        }
                    },
                    None => {
                        proof {
                            assert(false);
                        }
                    },
                }
            }
            i += 1;
        }
        proof {
            assert(s.skip(i as int).len() == 0);
            assert(out@ + spec_live_ids(s.skip(i as int)) =~= out@);
        }
        out
    }

    /// The first slot index holding identity `id`.
    fn find_index_by_id(&self, id: ContextId) -> (r: Option<usize>)
        requires
            self.wf(),
        ensures
            ({
                let f = spec_find_id(self.slots@, id);
                if spec_has_id(self.slots@, id) {
                    r == Option::<usize>::Some(f as usize)
                } else {
                    r is None
                }
            }),
    {
        proof {
            lemma_pool_search(self.slots@, id);
        }
        let mut i: usize = 0;
        while i < self.slots.len()
            invariant
                self.wf(),
                i <= CONTEXT_POOL_SIZE,
                forall|k: int| 0 <= k < i ==> !spec_slot_holds(#[trigger] self.slots@[k], id),
            decreases CONTEXT_POOL_SIZE - i,
        {
            let slot = &self.slots[i];
            if slot.in_use {
                let matches_id = match &slot.object {
                    Some(obj) => obj.id() == id,
                    None => false,
                };
                if matches_id {
                    proof {
                        lemma_pool_search(self.slots@, id);
                    }
                    return Some(i);
                }
            }
            i += 1;
        }
        proof {
            lemma_pool_search(self.slots@, id);
        }
        None
    }

    /// The first free slot index, or the pool size when all are live.
    fn first_free_index(&self) -> (r: usize)
        requires
            self.wf(),
        ensures
            r == spec_first_free(self.slots@),
    {
        proof {
            lemma_pool_search::<T>(self.slots@, 0);
        }
        let mut i: usize = 0;
        while i < self.slots.len()
            invariant
                self.wf(),
                i <= CONTEXT_POOL_SIZE,
                forall|k: int| 0 <= k < i ==> (#[trigger] self.slots@[k]).in_use,
            decreases CONTEXT_POOL_SIZE - i,
        {
            if !self.slots[i].in_use {
                proof {
                    lemma_pool_search::<T>(self.slots@, 0);
                }
                return i;
            }
            i += 1;
        }
        proof {
            lemma_pool_search::<T>(self.slots@, 0);
        }
        i
    }
}

/// The context identities of the live slots, in slot order.
pub open spec fn spec_live_ids<T: ContextObject>(s: Seq<PoolSlot<T>>) -> Seq<ContextId>
    decreases s.len(),
{
    if s.len() == 0 {
        Seq::empty()
    } else if s[0].in_use {
        seq![spec_slot_id(s[0])] + spec_live_ids(s.skip(1))
    } else {
        spec_live_ids(s.skip(1))
    }
}

/// The identity a live slot holds (meaningful only when the slot holds an
/// object).
pub open spec fn spec_slot_id<T: ContextObject>(slot: PoolSlot<T>) -> ContextId {
    match slot.object {
        Option::Some(obj) => obj.spec_id(),
        Option::None => 0,
    }
}

/// A live slot means the used count is at least one.
proof fn lemma_used_count_lower<T>(s: Seq<PoolSlot<T>>, idx: int)
    requires
        0 <= idx < s.len(),
        s[idx].in_use,
    ensures
        spec_used_count(s) >= 1,
    decreases s.len(),
{
    if idx > 0 {
        assert(s.skip(1)[idx - 1] == s[idx]);
        lemma_used_count_lower(s.skip(1), idx - 1);
    } else {
        lemma_used_count_nonneg(s.skip(1));
    }
}

/// The used count is never negative.
proof fn lemma_used_count_nonneg<T>(s: Seq<PoolSlot<T>>)
    ensures
        spec_used_count(s) >= 0,
    decreases s.len(),
{
    if s.len() > 0 {
        lemma_used_count_nonneg(s.skip(1));
    }
}

/// A sequence of slots none of which is live has used count zero.
proof fn lemma_used_count_none<T>(s: Seq<PoolSlot<T>>)
    requires
        forall|k: int| 0 <= k < s.len() ==> !(#[trigger] s[k]).in_use,
    ensures
        spec_used_count(s) == 0,
    decreases s.len(),
{
    if s.len() > 0 {
        assert(forall|k: int| 0 <= k < s.skip(1).len() ==> !(#[trigger] s.skip(1)[k]).in_use);
        lemma_used_count_none(s.skip(1));
    }
}

/// Changing one slot changes the used count by the difference of that
/// slot's liveness.
proof fn lemma_used_count_update<T>(s0: Seq<PoolSlot<T>>, idx: int, s1: Seq<PoolSlot<T>>)
    requires
        s0.len() == s1.len(),
        0 <= idx < s0.len(),
        forall|k: int| 0 <= k < s0.len() && k != idx ==> #[trigger] s1[k] == s0[k],
    ensures
        spec_used_count(s1) == spec_used_count(s0) + (if s1[idx].in_use {
            1int
        } else {
            0int
        }) - (if s0[idx].in_use {
            1int
        } else {
            0int
        }),
    decreases s0.len(),
{
    if s0.len() > 0 {
        if idx == 0 {
            assert(s0.skip(1) =~= s1.skip(1));
        } else {
            assert(s1[0] == s0[0]);
            assert(forall|k: int|
                0 <= k < s0.skip(1).len() && k != idx - 1 ==> #[trigger] s1.skip(1)[k] == s0.skip(
                    1,
                )[k]);
            assert(s1.skip(1)[idx - 1] == s1[idx]);
            assert(s0.skip(1)[idx - 1] == s0[idx]);
            lemma_used_count_update(s0.skip(1), idx - 1, s1.skip(1));
        }
    }
}

/// Slot-for-slot equal liveness gives equal used counts.
proof fn lemma_used_count_same_use<T>(s0: Seq<PoolSlot<T>>, s1: Seq<PoolSlot<T>>)
    requires
        s0.len() == s1.len(),
        forall|k: int| 0 <= k < s0.len() ==> (#[trigger] s1[k]).in_use == s0[k].in_use,
    ensures
        spec_used_count(s1) == spec_used_count(s0),
    decreases s0.len(),
{
    if s0.len() > 0 {
        assert(forall|k: int|
            0 <= k < s0.skip(1).len() ==> (#[trigger] s1.skip(1)[k]).in_use == s0.skip(
                1,
            )[k].in_use);
        lemma_used_count_same_use(s0.skip(1), s1.skip(1));
    }
}

/// A process control block: the smallest context object the kernel
/// tracks per process.
pub struct ProcessControlBlock {
    /// Process identity, doubling as the context identity.
    pub pid: ContextId,
    /// Process name.
    pub name: String,
    /// State flag.
    pub state: u8,
}

impl ContextObject for ProcessControlBlock {
    open spec fn spec_id(&self) -> ContextId {
        self.pid
    }

    fn id(&self) -> (r: ContextId) {
        self.pid
    }

    fn new_object(id: ContextId) -> (r: ProcessControlBlock) {
        ProcessControlBlock { pid: id, name: "unnamed".to_owned(), state: 0 }
    }
}

/// A capability-style handle to a pooled process: carries the identity,
/// the access token and the version the pool issued, and can be
/// invalidated to cut off further use.
pub struct ProcessHandle {
    /// The process identity.
    pub pid: ContextId,
    /// Access token issued at creation.
    pub token: u32,
    /// Version issued at creation; detects slot reuse.
    pub version: usize,
    /// Whether the handle may still be used.
    pub valid: bool,
}

impl ProcessHandle {
    /// The process state flag, read through the validated handle.
    pub fn get_state(&self, pool: &ContextPool<ProcessControlBlock>) -> (r: Result<u8, PoolError>)
        requires
            pool.wf(),
        ensures
            !self.valid ==> r == Result::<u8, PoolError>::Err(PoolError::InvalidToken),
            self.valid ==> ({
                let s = pool.slots@;
                let idx = spec_find_id(s, self.pid);
                if !spec_has_id(s, self.pid) {
                    r == Result::<u8, PoolError>::Err(PoolError::ContextNotFound)
                } else if !(s[idx].in_use && s[idx].token == self.token) {
                    r == Result::<u8, PoolError>::Err(PoolError::InvalidToken)
                } else if s[idx].version != self.version {
                    r == Result::<u8, PoolError>::Err(PoolError::ContextDestroyed)
                } else {
                    s[idx].object matches Some(p) && r == Result::<u8, PoolError>::Ok(p.state)
                }
            }),
    {
        if !self.valid {
            return Err(PoolError::InvalidToken);
        }
        match pool.get_object(self.pid, self.token, self.version) {
            Ok(p) => Ok(p.state),
            Err(e) => Err(e),
        }
    }

    /// Replace the process state flag through the validated handle.
    pub fn set_state(
        &self,
        pool: &mut ContextPool<ProcessControlBlock>,
        new_state: u8,
    ) -> (r: Result<(), PoolError>)
        requires
            old(pool).wf(),
        ensures
            final(pool).wf(),
            !self.valid ==> r == Result::<(), PoolError>::Err(PoolError::InvalidToken) && *final(pool) == *old(pool),
            self.valid ==> ({
                let s = old(pool).slots@;
                let idx = spec_find_id(s, self.pid);
                if !spec_has_id(s, self.pid) {
                    r == Result::<(), PoolError>::Err(PoolError::ContextNotFound) && *final(pool)
                        == *old(pool)
                } else if !(s[idx].in_use && s[idx].token == self.token) {
                    r == Result::<(), PoolError>::Err(PoolError::InvalidToken) && *final(pool)
                        == *old(pool)
                } else if s[idx].version != self.version {
                    r == Result::<(), PoolError>::Err(PoolError::ContextDestroyed) && *final(pool)
                        == *old(pool)
                } else {
                    &&& r == Result::<(), PoolError>::Ok(())
                    &&& forall|k: int|
                        0 <= k < CONTEXT_POOL_SIZE && k != idx ==> #[trigger] final(pool).slots@[k]
                            == s[k]
                    &&& s[idx].object matches Some(p) && final(pool).slots@[idx].object == Some(
                        ProcessControlBlock { state: new_state, ..p },
                    )
                    &&& final(pool).count == old(pool).count
                }
            }),
    {
        if !self.valid {
            return Err(PoolError::InvalidToken);
        }
        proof {
            lemma_pool_search(pool.slots@, self.pid);
        }
        let idx = match pool.validate_access(self.pid, self.token, self.version) {
            Ok(i) => i,
            Err(e) => {
                return Err(e);
            },
        };
        let ghost s0 = pool.slots@;
        let slot = &mut pool.slots[idx];
        match slot.object.take() {
            Some(p) => {
                slot.object = Some(ProcessControlBlock { state: new_state, ..p });
            },
            None => {
                proof {
                    assert(false);
                }
                return Err(PoolError::ContextNotFound);
            },
        }
        proof {
            lemma_used_count_same_use(s0, pool.slots@);
        }
        Ok(())
    }

    /// The process name, read through the validated handle.
    pub fn get_name(&self, pool: &ContextPool<ProcessControlBlock>) -> (r: Result<
        String,
        PoolError,
    >)
        requires
            pool.wf(),
        ensures
            !self.valid ==> r == Result::<String, PoolError>::Err(PoolError::InvalidToken),
            self.valid ==> ({
                let s = pool.slots@;
                let idx = spec_find_id(s, self.pid);
                if !spec_has_id(s, self.pid) {
                    r == Result::<String, PoolError>::Err(PoolError::ContextNotFound)
                } else if !(s[idx].in_use && s[idx].token == self.token) {
                    r == Result::<String, PoolError>::Err(PoolError::InvalidToken)
                } else if s[idx].version != self.version {
                    r == Result::<String, PoolError>::Err(PoolError::ContextDestroyed)
                } else {
                    &&& r is Ok
                    &&& s[idx].object matches Some(p) && (r->Ok_0)@ == p.name@
                }
            }),
    {
        if !self.valid {
            return Err(PoolError::InvalidToken);
        }
        match pool.get_object(self.pid, self.token, self.version) {
            Ok(p) => Ok(p.name.clone()),
            Err(e) => Err(e),
        }
    }

    /// Replace the process name through the validated handle.
    pub fn set_name(
        &self,
        pool: &mut ContextPool<ProcessControlBlock>,
        new_name: &str,
    ) -> (r: Result<(), PoolError>)
        requires
            old(pool).wf(),
        ensures
            final(pool).wf(),
            !self.valid ==> r == Result::<(), PoolError>::Err(PoolError::InvalidToken) && *final(pool) == *old(pool),
            self.valid ==> ({
                let s = old(pool).slots@;
                let idx = spec_find_id(s, self.pid);
                if !spec_has_id(s, self.pid) {
                    r == Result::<(), PoolError>::Err(PoolError::ContextNotFound) && *final(pool)
                        == *old(pool)
                } else if !(s[idx].in_use && s[idx].token == self.token) {
                    r == Result::<(), PoolError>::Err(PoolError::InvalidToken) && *final(pool)
                        == *old(pool)
                } else if s[idx].version != self.version {
                    r == Result::<(), PoolError>::Err(PoolError::ContextDestroyed) && *final(pool)
                        == *old(pool)
                } else {
                    &&& r == Result::<(), PoolError>::Ok(())
                    &&& forall|k: int|
                        0 <= k < CONTEXT_POOL_SIZE && k != idx ==> #[trigger] final(pool).slots@[k]
                            == s[k]
                    &&& s[idx].object matches Some(p) && final(pool).slots@[idx].object matches Some(
                        q,
                    ) && q.pid == p.pid && q.state == p.state && q.name@ == new_name@
                    &&& final(pool).count == old(pool).count
                }
            }),
    {
        if !self.valid {
            return Err(PoolError::InvalidToken);
        }
        proof {
            lemma_pool_search(pool.slots@, self.pid);
        }
        let idx = match pool.validate_access(self.pid, self.token, self.version) {
            Ok(i) => i,
            Err(e) => {
                return Err(e);
            },
        };
        let owned = new_name.to_owned();
        let ghost s0 = pool.slots@;
        let slot = &mut pool.slots[idx];
        match slot.object.take() {
            Some(p) => {
                slot.object = Some(ProcessControlBlock { name: owned, ..p });
            },
            None => {
                proof {
                    assert(false);
                }
                return Err(PoolError::ContextNotFound);
            },
        }
        proof {
            lemma_used_count_same_use(s0, pool.slots@);
        }
        Ok(())
    }

    /// Register a trap handler owned by this process's context.
    pub fn register_handler(
        &self,
        sys: &mut TrapSystem,
        trap_type: TrapType,
        handler: TrapHandler,
        priority: u8,
        description: &str,
    ) -> (r: Result<bool, PoolError>)
        requires
            old(sys).wf(),
        ensures
            final(sys).wf(),
            !self.valid ==> r == Result::<bool, PoolError>::Err(PoolError::InvalidToken) && *final(sys) == *old(sys),
            self.valid && !old(sys).initialized ==> r == Result::<bool, PoolError>::Ok(false)
                && *final(sys) == *old(sys),
            self.valid && old(sys).initialized ==> (r matches Ok(ok)
                && crate::container::spec_register_outcome(
                *old(sys),
                *final(sys),
                ok,
                trap_type,
                handler,
                priority,
                description@,
                crate::handler::ProtectionLevel::System,
                crate::handler::SYSTEM_REGISTRAR_ID,
                Some(self.pid),
            )),
    {
        if !self.valid {
            return Err(PoolError::InvalidToken);
        }
        Ok(sys.register_handler(trap_type, handler, priority, description, Some(self.pid)))
    }

    /// Cut the handle off from further use.
    pub fn invalidate(&mut self)
        ensures
            *final(self) == (ProcessHandle { valid: false, ..*old(self) }),
    {
        self.valid = false;
    }
}

/// Create a process in the pool: the identity is the given one, or a
/// fresh one from the container. On success the handle carries the
/// issued token and version.
pub fn create_process(
    pool: &mut ContextPool<ProcessControlBlock>,
    sys: &mut TrapSystem,
    pid: Option<ContextId>,
) -> (r: Result<ProcessHandle, PoolError>)
    requires
        old(pool).wf(),
        old(sys).wf(),
        pid is None ==> old(sys).next_context_id < ContextId::MAX,
    ensures
        final(pool).wf(),
        final(sys).wf(),
        ({
            let real_pid = (match pid {
                Option::Some(p) => p,
                Option::None => old(sys).next_context_id,
            });
            let s = old(pool).slots@;
            if old(pool).count >= CONTEXT_POOL_SIZE {
                r == Result::<ProcessHandle, PoolError>::Err(PoolError::PoolFull) && *final(pool)
                    == *old(pool)
            } else if spec_has_id(s, real_pid) {
                r == Result::<ProcessHandle, PoolError>::Err(PoolError::ContextExists) && *final(pool) == *old(pool)
            } else {
                let idx = spec_first_free(s);
                &&& r matches Ok(h) && h.pid == real_pid && h.valid && h.token == old(pool).next_token && h.version == spec_wrap_inc(s[idx].version)
                &&& final(pool).count == old(pool).count + 1
                &&& spec_slot_holds(final(pool).slots@[idx], real_pid)
            }
        }),
{
    let real_pid = match pid {
        Some(p) => p,
        None => sys.generate_context_id(),
    };
    proof {
        lemma_pool_search(pool.slots@, real_pid);
    }
    match pool.create_context(real_pid) {
        Ok((id, token, version)) => Ok(ProcessHandle { pid: id, token, version, valid: true }),
        Err(e) => Err(e),
    }
}

/// Destroy a process: free its pool slot and, as the deterministic
/// cleanup hook, remove every trap handler its context owned. Returns how
/// many handlers went.
pub fn destroy_process(
    pool: &mut ContextPool<ProcessControlBlock>,
    sys: &mut TrapSystem,
    pid: ContextId,
) -> (r: Result<usize, PoolError>)
    requires
        old(pool).wf(),
        old(sys).wf(),
    ensures
        final(pool).wf(),
        final(sys).wf(),
        !spec_has_id(old(pool).slots@, pid) ==> r == Result::<usize, PoolError>::Err(
            PoolError::ContextNotFound,
        ) && *final(pool) == *old(pool) && *final(sys) == *old(sys),
        spec_has_id(old(pool).slots@, pid) ==> ({
            &&& final(pool).count == old(pool).count - 1
            &&& !spec_slot_holds(
                final(pool).slots@[spec_find_id(old(pool).slots@, pid)],
                pid,
            )
            &&& (old(sys).initialized ==> ({
                &&& r == Result::<usize, PoolError>::Ok(
                    old(sys).registry.spec_bulk_removed(
                        pid,
                        Option::None,
                        TRAP_TYPE_COUNT as int,
                    ) as usize,
                )
                &&& forall|k: int|
                    0 <= k < TRAP_TYPE_COUNT ==> #[trigger] final(sys).registry.row(k) == spec_kept(
                        old(sys).registry.row(k),
                        pid,
                        Option::None,
                    )
            }))
            &&& (!old(sys).initialized ==> r == Result::<usize, PoolError>::Ok(0) && *final(sys)
                == *old(sys))
        }),
{
    match pool.destroy_context(pid) {
        Ok(_) => {
            let removed = sys.unregister_handlers_for_context(pid);
            Ok(removed)
        },
        Err(e) => Err(e),
    }
}

} // verus!
