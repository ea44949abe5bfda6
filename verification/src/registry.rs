//! The handler registry: one fixed-capacity, priority-ordered list of
//! registrations per trap type, with secure (ownership-checked) removal and
//! bulk cleanup by owning context.

use vstd::prelude::*;
use crate::context::TrapContext;
use crate::handler::{
    DispatchOutcome, HandlerEffects, HandlerEntry, ProtectionLevel, RegistrarId, TrapError,
    TrapHandler, TrapHandlerResult, run_trap_handler, spec_dispatch, spec_handler_clears_soft,
    spec_handler_halts, spec_handler_result, spec_handler_update, SYSTEM_REGISTRAR_ID,
};
use crate::types::{TrapType, TRAP_TYPE_COUNT};

verus! {

/// Identity of a logical execution context (for instance a process) that
/// owns registrations; `None` marks a kernel-owned entry tied to no
/// context.
pub type ContextId = usize;

/// Capacity of each trap type's registration list.
pub const MAX_HANDLERS_PER_TYPE: usize = 8;

/// Why a secure unregistration was refused.
#[derive(Debug, Copy, Clone, PartialEq, Eq, Structural)]
pub enum SecurityError {
    /// The entry is system-protected and the caller is not the system
    /// registrar.
    ProtectedHandler,
    /// The entry belongs to a different registrar.
    InvalidRegistrar,
    /// The operation needs the system registrar.
    SystemRequired,
    /// Internal inconsistency.
    InternalError,
}

/// A handler entry together with the context that owns it.
#[derive(Debug, Clone)]
pub struct HandlerRegistration {
    /// The registered handler record.
    pub entry: HandlerEntry,
    /// Owning context, or `None` for kernel-owned entries.
    pub context_id: Option<ContextId>,
}

impl HandlerRegistration {
    /// An equal copy of the registration.
    pub fn clone_registration(&self) -> (r: HandlerRegistration)
        ensures
            r == *self,
    {
        HandlerRegistration { entry: self.entry.clone_entry(), context_id: self.context_id }
    }
}

/// Priorities never decrease along a registration list.
pub open spec fn sorted_by_priority(s: Seq<HandlerRegistration>) -> bool {
    forall|i: int, j: int|
        0 <= i < j < s.len() ==> #[trigger] s[i].entry.priority <= #[trigger] s[j].entry.priority
}

/// The slot a new entry of priority `p` takes: just before the first entry
/// of strictly greater priority, so equal priorities keep insertion order.
pub open spec fn spec_insert_pos(s: Seq<HandlerRegistration>, p: u8) -> int
    decreases s.len(),
{
    if s.len() == 0 {
        0
    } else if s[0].entry.priority > p {
        0
    } else {
        1 + spec_insert_pos(s.skip(1), p)
    }
}

/// The first index whose entry carries the given description, or the
/// length of the list when no entry does.
pub open spec fn spec_find_description(s: Seq<HandlerRegistration>, d: Seq<char>) -> int
    decreases s.len(),
{
    if s.len() == 0 {
        0
    } else if s[0].entry.description@ == d {
        0
    } else {
        1 + spec_find_description(s.skip(1), d)
    }
}

/// Whether some entry of the list carries the given description.
pub open spec fn spec_has_description(s: Seq<HandlerRegistration>, d: Seq<char>) -> bool {
    spec_find_description(s, d) < s.len()
}

/// The handler behaviours of a registration list, in the same order.
pub open spec fn spec_row_handlers(s: Seq<HandlerRegistration>) -> Seq<TrapHandler> {
    s.map_values(|reg: HandlerRegistration| reg.entry.handler)
}

/// Whether bulk cleanup for context `c` leaves a registration in place.
/// With `rid` absent the cleanup is unchecked: every entry of the context
/// goes. With `rid` present only entries the registrar may remove go: a
/// system entry answers to the system registrar, a user entry to its
/// creator.
pub open spec fn spec_keeps(
    reg: HandlerRegistration,
    c: ContextId,
    rid: Option<RegistrarId>,
) -> bool {
    !(reg.context_id == Some(c) && (match rid {
        Option::None => true,
        Option::Some(id) => reg.entry.spec_verify_registrar(id),
    }))
}

/// The registrations that bulk cleanup leaves, in their original order.
pub open spec fn spec_kept(
    s: Seq<HandlerRegistration>,
    c: ContextId,
    rid: Option<RegistrarId>,
) -> Seq<HandlerRegistration>
    decreases s.len(),
{
    if s.len() == 0 {
        Seq::empty()
    } else if spec_keeps(s[0], c, rid) {
        seq![s[0]] + spec_kept(s.skip(1), c, rid)
    } else {
        spec_kept(s.skip(1), c, rid)
    }
}

/// How many registrations bulk cleanup removes from one list.
pub open spec fn spec_removed_count(
    s: Seq<HandlerRegistration>,
    c: ContextId,
    rid: Option<RegistrarId>,
) -> int
    decreases s.len(),
{
    if s.len() == 0 {
        0
    } else {
        (if spec_keeps(s[0], c, rid) {
            0int
        } else {
            1int
        }) + spec_removed_count(s.skip(1), c, rid)
    }
}

/// Bulk cleanup removes exactly the matching entries: the kept and removed
/// counts add up, every kept entry satisfies the keep predicate, and every
/// entry that satisfies it is kept.
pub proof fn lemma_kept_exact(s: Seq<HandlerRegistration>, c: ContextId, rid: Option<RegistrarId>)
    ensures
        spec_kept(s, c, rid).len() + spec_removed_count(s, c, rid) == s.len(),
        forall|k: int|
            0 <= k < spec_kept(s, c, rid).len() ==> spec_keeps(
                #[trigger] spec_kept(s, c, rid)[k],
                c,
                rid,
            ),
        forall|k: int|
            0 <= k < s.len() && spec_keeps(#[trigger] s[k], c, rid) ==> spec_kept(
                s,
                c,
                rid,
            ).contains(s[k]),
    decreases s.len(),
{
    if s.len() > 0 {
        lemma_kept_exact(s.skip(1), c, rid);
        let kept = spec_kept(s, c, rid);
        let kept1 = spec_kept(s.skip(1), c, rid);
        assert forall|k: int| 0 <= k < s.len() && spec_keeps(#[trigger] s[k], c, rid) implies kept
            .contains(s[k]) by {
            if k == 0 {
                assert(spec_keeps(s[0], c, rid));
                assert(kept[0] == s[0]);
            } else {
                assert(s.skip(1)[k - 1] == s[k]);
                assert(kept1.contains(s[k]));
                let j = choose|j: int| 0 <= j < kept1.len() && kept1[j] == s[k];
                if spec_keeps(s[0], c, rid) {
                    assert(kept[j + 1] == kept1[j]);
                } else {
                    assert(kept[j] == kept1[j]);
                }
            }
        }
    }
}

/// Every priority bound below a list also bounds what cleanup keeps.
proof fn lemma_kept_priority_bound(
    s: Seq<HandlerRegistration>,
    c: ContextId,
    rid: Option<RegistrarId>,
    p: u8,
)
    requires
        forall|k: int| 0 <= k < s.len() ==> p <= #[trigger] s[k].entry.priority,
    ensures
        forall|k: int|
            0 <= k < spec_kept(s, c, rid).len() ==> p <= #[trigger] spec_kept(
                s,
                c,
                rid,
            )[k].entry.priority,
    decreases s.len(),
{
    if s.len() > 0 {
        assert(forall|k: int|
            0 <= k < s.skip(1).len() ==> p <= (#[trigger] s.skip(1)[k]).entry.priority);
        lemma_kept_priority_bound(s.skip(1), c, rid, p);
        if spec_keeps(s[0], c, rid) {
            let kept = spec_kept(s, c, rid);
            let kept1 = spec_kept(s.skip(1), c, rid);
            assert forall|k: int| 0 <= k < kept.len() implies p
                <= #[trigger] kept[k].entry.priority by {
                if k > 0 {
                    assert(kept[k] == kept1[k - 1]);
                }
            }
        }
    }
}

/// Bulk cleanup keeps the survivors in priority order.
pub proof fn lemma_kept_sorted(s: Seq<HandlerRegistration>, c: ContextId, rid: Option<RegistrarId>)
    requires
        sorted_by_priority(s),
    ensures
        sorted_by_priority(spec_kept(s, c, rid)),
    decreases s.len(),
{
    if s.len() > 0 {
        assert forall|i: int, j: int| 0 <= i < j < s.skip(1).len() implies #[trigger] s.skip(
            1,
        )[i].entry.priority <= #[trigger] s.skip(1)[j].entry.priority by {
            assert(s.skip(1)[i] == s[i + 1]);
            assert(s.skip(1)[j] == s[j + 1]);
        }
        lemma_kept_sorted(s.skip(1), c, rid);
        if spec_keeps(s[0], c, rid) {
            assert(forall|k: int|
                0 <= k < s.skip(1).len() ==> s[0].entry.priority <= (
                #[trigger] s.skip(1)[k]).entry.priority);
            lemma_kept_priority_bound(s.skip(1), c, rid, s[0].entry.priority);
            let kept = spec_kept(s, c, rid);
            let kept1 = spec_kept(s.skip(1), c, rid);
            assert forall|i: int, j: int| 0 <= i < j < kept.len() implies #[trigger] kept[i].entry.priority
                <= #[trigger] kept[j].entry.priority by {
                assert(kept[j] == kept1[j - 1]);
                if i > 0 {
                    assert(kept[i] == kept1[i - 1]);
                }
            }
        }
    }
}

/// What a secure unregistration decides for a list, a description and a
/// caller: `Ok(false)` when the description is absent; `ProtectedHandler`
/// when the entry is system-protected and the caller is not the system
/// registrar; `InvalidRegistrar` when a user entry belongs to someone
/// else; `Ok(true)` when the caller owns the removal.
pub open spec fn spec_unregister_decision(
    s: Seq<HandlerRegistration>,
    d: Seq<char>,
    registrar_id: RegistrarId,
) -> Result<bool, SecurityError> {
    let pos = spec_find_description(s, d);
    if !spec_has_description(s, d) {
        Result::Ok(false)
    } else if s[pos].entry.protection_level == ProtectionLevel::System && registrar_id
        != SYSTEM_REGISTRAR_ID {
        Result::Err(SecurityError::ProtectedHandler)
    } else if s[pos].entry.protection_level == ProtectionLevel::User && s[pos].entry.registrar_id
        != registrar_id {
        Result::Err(SecurityError::InvalidRegistrar)
    } else {
        Result::Ok(true)
    }
}

/// The list a secure unregistration leaves: the found entry is removed
/// exactly when the decision is `Ok(true)`.
pub open spec fn spec_unregister_result_row(
    s: Seq<HandlerRegistration>,
    d: Seq<char>,
    registrar_id: RegistrarId,
) -> Seq<HandlerRegistration> {
    if spec_unregister_decision(s, d, registrar_id) == Result::<bool, SecurityError>::Ok(true) {
        s.remove(spec_find_description(s, d))
    } else {
        s
    }
}

/// System protection: a system-protected entry rejects removal from every
/// registrar but the reserved system identity, leaving the list
/// untouched — however many identities are tried, each attempt decides
/// `ProtectedHandler` and changes nothing.
pub proof fn lemma_system_protection(
    s: Seq<HandlerRegistration>,
    d: Seq<char>,
    registrar_id: RegistrarId,
)
    requires
        spec_has_description(s, d),
        s[spec_find_description(s, d)].entry.protection_level == ProtectionLevel::System,
        registrar_id != SYSTEM_REGISTRAR_ID,
    ensures
        spec_unregister_decision(s, d, registrar_id) == Result::<bool, SecurityError>::Err(
            SecurityError::ProtectedHandler,
        ),
        spec_unregister_result_row(s, d, registrar_id) == s,
{
}

/// At most one owner: a user-protected entry rejects removal from every
/// registrar other than its creator, with `InvalidRegistrar` and no
/// change; its creator's removal is accepted.
pub proof fn lemma_user_ownership(
    s: Seq<HandlerRegistration>,
    d: Seq<char>,
    registrar_id: RegistrarId,
)
    requires
        spec_has_description(s, d),
        s[spec_find_description(s, d)].entry.protection_level == ProtectionLevel::User,
    ensures
        registrar_id != s[spec_find_description(s, d)].entry.registrar_id
            ==> spec_unregister_decision(s, d, registrar_id) == Result::<bool, SecurityError>::Err(
            SecurityError::InvalidRegistrar,
        ) && spec_unregister_result_row(s, d, registrar_id) == s,
        registrar_id == s[spec_find_description(s, d)].entry.registrar_id
            ==> spec_unregister_decision(s, d, registrar_id) == Result::<bool, SecurityError>::Ok(
            true,
        ) && spec_unregister_result_row(s, d, registrar_id) == s.remove(
            spec_find_description(s, d),
        ),
{
}

/// No two entries of a list share a description.
pub open spec fn spec_unique_descriptions(s: Seq<HandlerRegistration>) -> bool {
    forall|i: int, j: int|
        0 <= i < j < s.len() ==> (#[trigger] s[i].entry.description)@ != (
        #[trigger] s[j].entry.description)@
}

/// Registration preserves description uniqueness: it refuses an existing
/// description, so an inserted one is new.
pub proof fn lemma_register_keeps_unique(s: Seq<HandlerRegistration>, reg: HandlerRegistration)
    requires
        spec_unique_descriptions(s),
        !spec_has_description(s, reg.entry.description@),
    ensures
        spec_unique_descriptions(
            s.insert(spec_insert_pos(s, reg.entry.priority), reg),
        ),
{
    let pos = spec_insert_pos(s, reg.entry.priority);
    lemma_insert_pos(s, reg.entry.priority);
    lemma_find_description(s, reg.entry.description@);
    let t = s.insert(pos, reg);
    assert forall|k: int| 0 <= k < s.len() implies (#[trigger] s[k].entry.description)@
        != reg.entry.description@ by {
        lemma_find_description(s, reg.entry.description@);
    }
    assert forall|i: int, j: int| 0 <= i < j < t.len() implies (#[trigger] t[i].entry.description)@
        != (#[trigger] t[j].entry.description)@ by {
        if i < pos && j < pos {
        } else if i == pos {
            assert(t[j] == s[j - 1]);
        } else if j == pos {
        } else if i < pos && j > pos {
            assert(t[j] == s[j - 1]);
        } else if i > pos {
            assert(t[i] == s[i - 1]);
            assert(t[j] == s[j - 1]);
        }
    }
}

/// With unique descriptions, removal succeeds exactly once: after the
/// found entry goes, the description is absent, so a second attempt finds
/// nothing.
pub proof fn lemma_unregister_exactly_once(s: Seq<HandlerRegistration>, d: Seq<char>)
    requires
        spec_unique_descriptions(s),
        spec_has_description(s, d),
    ensures
        !spec_has_description(s.remove(spec_find_description(s, d)), d),
{
    let pos = spec_find_description(s, d);
    lemma_find_description(s, d);
    let t = s.remove(pos);
    assert forall|k: int| 0 <= k < t.len() implies (#[trigger] t[k].entry.description)@ != d by {
        let sk = if k < pos { k } else { k + 1 };
        assert(t[k] == s[sk]);
        if sk != pos {
            if sk < pos {
                assert(s[sk].entry.description@ != d);
            } else {
                assert(s[pos].entry.description@ == d);
            }
        }
    }
    lemma_find_description(t, d);
    if spec_has_description(t, d) {
        assert(t[spec_find_description(t, d)].entry.description@ == d);
    }
}

/// `spec_insert_pos` is the first position whose entry outranks `p`: it is
/// in bounds, everything before it has priority at most `p`, and the entry
/// at it (when there is one) has priority strictly greater.
pub proof fn lemma_insert_pos(s: Seq<HandlerRegistration>, p: u8)
    ensures
        0 <= spec_insert_pos(s, p) <= s.len(),
        forall|k: int| 0 <= k < spec_insert_pos(s, p) ==> #[trigger] s[k].entry.priority <= p,
        spec_insert_pos(s, p) < s.len() ==> s[spec_insert_pos(s, p)].entry.priority > p,
    decreases s.len(),
{
    if s.len() > 0 && s[0].entry.priority <= p {
        lemma_insert_pos(s.skip(1), p);
        assert forall|k: int| 0 <= k < spec_insert_pos(s, p) implies #[trigger] s[k].entry.priority
            <= p by {
            if k > 0 {
                assert(s.skip(1)[k - 1] == s[k]);
            }
        }
        if spec_insert_pos(s, p) < s.len() {
            assert(s.skip(1)[spec_insert_pos(s.skip(1), p)] == s[spec_insert_pos(s, p)]);
        }
    }
}

/// `spec_find_description` is the first match: everything before it
/// differs from `d`, and the entry at it (when in bounds) matches.
pub proof fn lemma_find_description(s: Seq<HandlerRegistration>, d: Seq<char>)
    ensures
        0 <= spec_find_description(s, d) <= s.len(),
        forall|k: int|
            0 <= k < spec_find_description(s, d) ==> (#[trigger] s[k].entry.description)@ != d,
        spec_find_description(s, d) < s.len() ==> s[spec_find_description(
            s,
            d,
        )].entry.description@ == d,
    decreases s.len(),
{
    if s.len() > 0 && s[0].entry.description@ != d {
        lemma_find_description(s.skip(1), d);
        assert forall|k: int| 0 <= k < spec_find_description(s, d) implies (
        #[trigger] s[k].entry.description)@ != d by {
            if k > 0 {
                assert(s.skip(1)[k - 1] == s[k]);
            }
        }
        if spec_find_description(s, d) < s.len() {
            assert(s.skip(1)[spec_find_description(s.skip(1), d)] == s[spec_find_description(
                s,
                d,
            )]);
        }
    }
}

/// Inserting at the computed slot keeps the list sorted: the sorted
/// invariant survives every registration.
pub proof fn lemma_sorted_insert(s: Seq<HandlerRegistration>, reg: HandlerRegistration)
    requires
        sorted_by_priority(s),
    ensures
        sorted_by_priority(s.insert(spec_insert_pos(s, reg.entry.priority), reg)),
{
    let p = reg.entry.priority;
    let pos = spec_insert_pos(s, p);
    lemma_insert_pos(s, p);
    let t = s.insert(pos, reg);
    assert forall|i: int, j: int| 0 <= i < j < t.len() implies #[trigger] t[i].entry.priority
        <= #[trigger] t[j].entry.priority by {
        if i < pos && j < pos {
        } else if i < pos && j == pos {
        } else if i == pos && j > pos {
            assert(t[j] == s[j - 1]);
            assert(s[pos] == t[pos + 1]);
        } else if i < pos && j > pos {
            assert(t[j] == s[j - 1]);
        } else if i > pos && j > pos {
            assert(t[i] == s[i - 1]);
            assert(t[j] == s[j - 1]);
        } else if i == pos && j == pos {
        } else {
            assert(i > pos && j > pos);
        }
    }
}

/// Removing an entry keeps the list sorted.
pub proof fn lemma_sorted_remove(s: Seq<HandlerRegistration>, i: int)
    requires
        sorted_by_priority(s),
        0 <= i < s.len(),
    ensures
        sorted_by_priority(s.remove(i)),
{
    let t = s.remove(i);
    assert forall|a: int, b: int| 0 <= a < b < t.len() implies #[trigger] t[a].entry.priority
        <= #[trigger] t[b].entry.priority by {
        let sa = if a < i { a } else { a + 1 };
        let sb = if b < i { b } else { b + 1 };
        assert(t[a] == s[sa]);
        assert(t[b] == s[sb]);
    }
}

/// The handler registry: one priority-ordered registration list per trap
/// type.
#[derive(Debug)]
pub struct HandlerRegistry {
    /// Row `t` holds the registrations for the trap type of index `t`.
    pub lists: Vec<Vec<HandlerRegistration>>,
}

impl HandlerRegistry {
    /// The registration list of the trap type with index `t`.
    pub open spec fn row(&self, t: int) -> Seq<HandlerRegistration> {
        self.lists@[t]@
    }

    /// Registry invariant: one row per trap type, each within capacity and
    /// sorted by ascending priority.
    pub open spec fn wf(&self) -> bool {
        &&& self.lists@.len() == TRAP_TYPE_COUNT
        &&& forall|t: int|
            0 <= t < TRAP_TYPE_COUNT ==> (#[trigger] self.row(t)).len() <= MAX_HANDLERS_PER_TYPE
        &&& forall|t: int| 0 <= t < TRAP_TYPE_COUNT ==> sorted_by_priority(#[trigger] self.row(t))
    }

    /// An empty registry.
    pub fn new() -> (r: HandlerRegistry)
        ensures
            r.wf(),
            forall|t: int| 0 <= t < TRAP_TYPE_COUNT ==> (#[trigger] r.row(t)).len() == 0,
    {
        let mut lists: Vec<Vec<HandlerRegistration>> = Vec::new();
        let mut t: usize = 0;
        while t < TRAP_TYPE_COUNT
            invariant
                t <= TRAP_TYPE_COUNT,
                lists@.len() == t,
                forall|k: int| 0 <= k < t ==> (#[trigger] lists@[k])@.len() == 0,
            decreases TRAP_TYPE_COUNT - t,
        {
            lists.push(Vec::new());
            t += 1;
        }
        HandlerRegistry { lists }
    }

    /// The number of registrations for a trap type.
    pub fn handler_count(&self, trap_type: TrapType) -> (r: usize)
        requires
            self.wf(),
        ensures
            r == self.row(trap_type.spec_index() as int).len(),
    {
        let t = trap_type.index();
        self.lists[t].len()
    }

    /// A copy of the registration at `index` in a trap type's list, for
    /// inspection and display.
    pub fn registration_at(&self, trap_type: TrapType, index: usize) -> (r: &HandlerRegistration)
        requires
            self.wf(),
            index < self.row(trap_type.spec_index() as int).len(),
        ensures
            *r == self.row(trap_type.spec_index() as int)[index as int],
    {
        &self.lists[trap_type.index()][index]
    }

    /// Register an entry under its trap type. Fails (returning `false` and
    /// changing nothing) when the row already holds an entry of the same
    /// description or is full; otherwise the entry enters at its priority
    /// slot, ties falling after earlier registrations.
    pub fn register_entry(&mut self, trap_type: TrapType, registration: HandlerRegistration) -> (r:
        bool)
        requires
            old(self).wf(),
        ensures
            final(self).wf(),
            forall|k: int|
                0 <= k < TRAP_TYPE_COUNT && k != trap_type.spec_index()
                    ==> #[trigger] final(self).row(k) == old(self).row(k),
            ({
                let t = trap_type.spec_index() as int;
                let row = old(self).row(t);
                let d = registration.entry.description@;
                if spec_has_description(row, d) || row.len() >= MAX_HANDLERS_PER_TYPE {
                    r == false && final(self).row(t) == row
                } else {
                    r == true && final(self).row(t) == row.insert(
                        spec_insert_pos(row, registration.entry.priority),
                        registration,
                    )
                }
            }),
    {
        let t = trap_type.index();
        let ghost old_row = self.row(t as int);
        let ghost d = registration.entry.description@;
        proof {
            lemma_find_description(old_row, d);
            lemma_insert_pos(old_row, registration.entry.priority);
        }
        if Self::find_position(&self.lists[t], &registration.entry.description)
            < self.lists[t].len() {
            return false;
        }
        if self.lists[t].len() >= MAX_HANDLERS_PER_TYPE {
            return false;
        }
        let pos = Self::insert_position(&self.lists[t], registration.entry.priority);
        proof {
            lemma_sorted_insert(old_row, registration);
        }
        let row = &mut self.lists[t];
        row.insert(pos, registration);
        proof {
            assert(self.row(t as int) == old_row.insert(pos as int, registration));
            assert(forall|k: int|
                0 <= k < TRAP_TYPE_COUNT && k != t ==> #[trigger] self.row(k) == old(self).row(k));
        }
        true
    }

    /// Dispatch a trap to the registered handlers of its type, in priority
    /// order: the first `Handled` result stops the walk; `Pass` and
    /// `Failed` go on to the next entry; with no claimant the dispatch
    /// fails with `NoHandler`. Returns the propagated result and the union
    /// of the hardware actions the handlers requested.
    pub fn dispatch(&self, trap_type: TrapType, ctx: &mut TrapContext) -> (r: (
        TrapHandlerResult,
        HandlerEffects,
    ))
        requires
            self.wf(),
        ensures
            ({
                let out = spec_dispatch(
                    spec_row_handlers(self.row(trap_type.spec_index() as int)),
                    old(ctx)@,
                );
                &&& r.0 == out.result
                &&& final(ctx)@ == out.ctx
                &&& r.1 == (HandlerEffects { clear_soft: out.clear_soft, halt: out.halt })
            }),
    {
        let t = trap_type.index();
        let row = &self.lists[t];
        let ghost handlers = spec_row_handlers(row@);
        let mut clear_soft: bool = false;
        let mut halt: bool = false;
        let mut i: usize = 0;
        proof {
            assert(handlers.skip(0) =~= handlers);
        }
        while i < row.len()
            invariant
                self.wf(),
                t == trap_type.spec_index(),
                row@ == self.row(t as int),
                handlers == spec_row_handlers(row@),
                i <= row@.len(),
                ({
                    let full = spec_dispatch(handlers, old(ctx)@);
                    let rest = spec_dispatch(handlers.skip(i as int), ctx@);
                    &&& full.result == rest.result
                    &&& full.ctx == rest.ctx
                    &&& full.clear_soft == (clear_soft || rest.clear_soft)
                    &&& full.halt == (halt || rest.halt)
                }),
            decreases row@.len() - i,
        {
            let ghost ctx0 = ctx@;
            let ghost h = handlers[i as int];
            proof {
                assert(handlers.skip(i as int)[0] == h);
                assert(h == row@[i as int].entry.handler);
            }
            let (result, effects) = run_trap_handler(&row[i].entry.handler, ctx);
            clear_soft = clear_soft || effects.clear_soft;
            halt = halt || effects.halt;
            proof {
                assert(handlers.skip(i as int).len() > 0);
                if spec_handler_result(h, ctx0) == TrapHandlerResult::Handled {
                    assert(spec_dispatch(handlers.skip(i as int), ctx0) == (DispatchOutcome {
                        result: spec_handler_result(h, ctx0),
                        ctx: spec_handler_update(h, ctx0),
                        clear_soft: spec_handler_clears_soft(h),
                        halt: spec_handler_halts(h, ctx0),
                    }));
                } else {
                    assert(handlers.skip(i as int).skip(1) =~= handlers.skip(i as int + 1));
                    assert(spec_dispatch(handlers.skip(i as int), ctx0) == ({
                        let rest = spec_dispatch(
                            handlers.skip(i as int + 1),
                            spec_handler_update(h, ctx0),
                        );
                        DispatchOutcome {
                            result: rest.result,
                            ctx: rest.ctx,
                            clear_soft: spec_handler_clears_soft(h) || rest.clear_soft,
                            halt: spec_handler_halts(h, ctx0) || rest.halt,
                        }
                    }));
                }
            }
            if matches!(result, TrapHandlerResult::Handled) {
                return (result, HandlerEffects { clear_soft, halt });
            }
            i += 1;
        }
        proof {
            assert(handlers.skip(i as int).len() == 0);
        }
        (TrapHandlerResult::Failed(TrapError::NoHandler), HandlerEffects { clear_soft, halt })
    }

    /// Remove the first entry of the given description under a trap type,
    /// with no ownership check; reports whether one was found.
    pub fn unregister(&mut self, trap_type: TrapType, description: &str) -> (r: bool)
        requires
            old(self).wf(),
        ensures
            final(self).wf(),
            forall|k: int|
                0 <= k < TRAP_TYPE_COUNT && k != trap_type.spec_index()
                    ==> #[trigger] final(self).row(k) == old(self).row(k),
            ({
                let t = trap_type.spec_index() as int;
                let row = old(self).row(t);
                if spec_has_description(row, description@) {
                    r == true && final(self).row(t) == row.remove(
                        spec_find_description(row, description@),
                    )
                } else {
                    r == false && final(self).row(t) == row
                }
            }),
    {
        let t = trap_type.index();
        let ghost old_row = self.row(t as int);
        let d = description.to_owned();
        let pos = Self::find_position(&self.lists[t], &d);
        if pos >= self.lists[t].len() {
            return false;
        }
        proof {
            lemma_sorted_remove(old_row, pos as int);
        }
        let row = &mut self.lists[t];
        row.remove(pos);
        proof {
            assert(self.row(t as int) == old_row.remove(pos as int));
            assert(forall|k: int|
                0 <= k < TRAP_TYPE_COUNT && k != t ==> #[trigger] self.row(k) == old(self).row(k));
        }
        true
    }

    /// Remove an entry with the ownership check of the security model: a
    /// system-protected entry yields `ProtectedHandler` unless the caller
    /// is the system registrar; a user entry yields `InvalidRegistrar`
    /// unless the caller created it; an absent description yields
    /// `Ok(false)`. Only `Ok(true)` changes the registry.
    pub fn unregister_secure(
        &mut self,
        trap_type: TrapType,
        description: &str,
        registrar_id: RegistrarId,
    ) -> (r: Result<bool, SecurityError>)
        requires
            old(self).wf(),
        ensures
            final(self).wf(),
            forall|k: int|
                0 <= k < TRAP_TYPE_COUNT && k != trap_type.spec_index()
                    ==> #[trigger] final(self).row(k) == old(self).row(k),
            ({
                let t = trap_type.spec_index() as int;
                let row = old(self).row(t);
                let pos = spec_find_description(row, description@);
                if !spec_has_description(row, description@) {
                    r == Result::<bool, SecurityError>::Ok(false) && final(self).row(t) == row
                } else if row[pos].entry.protection_level == ProtectionLevel::System
                    && registrar_id != SYSTEM_REGISTRAR_ID {
                    r == Result::<bool, SecurityError>::Err(SecurityError::ProtectedHandler)
                        && final(self).row(t) == row
                } else if row[pos].entry.protection_level == ProtectionLevel::User
                    && row[pos].entry.registrar_id != registrar_id {
                    r == Result::<bool, SecurityError>::Err(SecurityError::InvalidRegistrar)
                        && final(self).row(t) == row
                } else {
                    r == Result::<bool, SecurityError>::Ok(true) && final(self).row(t)
                        == row.remove(pos)
                }
            }),
    {
        let t = trap_type.index();
        let ghost old_row = self.row(t as int);
        let d = description.to_owned();
        let pos = Self::find_position(&self.lists[t], &d);
        if pos >= self.lists[t].len() {
            return Ok(false);
        }
        let entry_is_system = self.lists[t][pos].entry.is_system();
        let entry_registrar = self.lists[t][pos].entry.registrar_id;
        if entry_is_system && registrar_id != SYSTEM_REGISTRAR_ID {
            return Err(SecurityError::ProtectedHandler);
        }
        if !entry_is_system && entry_registrar != registrar_id {
            return Err(SecurityError::InvalidRegistrar);
        }
        proof {
            lemma_sorted_remove(old_row, pos as int);
        }
        let row = &mut self.lists[t];
        row.remove(pos);
        proof {
            assert(self.row(t as int) == old_row.remove(pos as int));
            assert(forall|k: int|
                0 <= k < TRAP_TYPE_COUNT && k != t ==> #[trigger] self.row(k) == old(self).row(k));
        }
        Ok(true)
    }

    /// Remove every registration owned by context `c`, in every trap
    /// type's list, with no ownership check. Returns how many were
    /// removed. Invoked when the owning context is destroyed.
    pub fn unregister_handlers_for_context(&mut self, context_id: ContextId) -> (r: usize)
        requires
            old(self).wf(),
        ensures
            final(self).wf(),
            forall|k: int|
                0 <= k < TRAP_TYPE_COUNT ==> #[trigger] final(self).row(k) == spec_kept(
                    old(self).row(k),
                    context_id,
                    Option::None,
                ),
            r == old(self).spec_bulk_removed(context_id, Option::None, TRAP_TYPE_COUNT as int),
    {
        self.bulk_unregister(context_id, None)
    }

    /// Remove every registration owned by context `c` that `registrar_id`
    /// is entitled to remove: system entries only for the system
    /// registrar, user entries only for their creator. Returns how many
    /// were removed.
    pub fn unregister_context_secure(
        &mut self,
        context_id: ContextId,
        registrar_id: RegistrarId,
    ) -> (r: usize)
        requires
            old(self).wf(),
        ensures
            final(self).wf(),
            forall|k: int|
                0 <= k < TRAP_TYPE_COUNT ==> #[trigger] final(self).row(k) == spec_kept(
                    old(self).row(k),
                    context_id,
                    Option::Some(registrar_id),
                ),
            r == old(self).spec_bulk_removed(
                context_id,
                Option::Some(registrar_id),
                TRAP_TYPE_COUNT as int,
            ),
    {
        self.bulk_unregister(context_id, Some(registrar_id))
    }

    /// How many registrations bulk cleanup removes from the rows before
    /// `t`.
    pub open spec fn spec_bulk_removed(
        &self,
        c: ContextId,
        rid: Option<RegistrarId>,
        t: int,
    ) -> int
        decreases t,
    {
        if t <= 0 {
            0
        } else {
            self.spec_bulk_removed(c, rid, t - 1) + spec_removed_count(self.row(t - 1), c, rid)
        }
    }

    /// Walk every row and drop what the cleanup predicate rejects.
    fn bulk_unregister(&mut self, context_id: ContextId, registrar_id: Option<RegistrarId>) -> (r:
        usize)
        requires
            old(self).wf(),
        ensures
            final(self).wf(),
            forall|k: int|
                0 <= k < TRAP_TYPE_COUNT ==> #[trigger] final(self).row(k) == spec_kept(
                    old(self).row(k),
                    context_id,
                    registrar_id,
                ),
            r == old(self).spec_bulk_removed(context_id, registrar_id, TRAP_TYPE_COUNT as int),
    {
        let mut total: usize = 0;
        let mut t: usize = 0;
        while t < TRAP_TYPE_COUNT
            invariant
                self.lists@.len() == TRAP_TYPE_COUNT,
                t <= TRAP_TYPE_COUNT,
                forall|k: int|
                    0 <= k < t ==> #[trigger] self.row(k) == spec_kept(
                        old(self).row(k),
                        context_id,
                        registrar_id,
                    ),
                forall|k: int| t <= k < TRAP_TYPE_COUNT ==> #[trigger] self.row(k) == old(self).row(
                    k,
                ),
                forall|k: int|
                    0 <= k < TRAP_TYPE_COUNT ==> (#[trigger] self.row(k)).len()
                        <= MAX_HANDLERS_PER_TYPE,
                forall|k: int| 0 <= k < TRAP_TYPE_COUNT ==> sorted_by_priority(#[trigger] self.row(k)),
                total == old(self).spec_bulk_removed(context_id, registrar_id, t as int),
                total <= t * MAX_HANDLERS_PER_TYPE,
            decreases TRAP_TYPE_COUNT - t,
        {
            let ghost snap = *self;
            let ghost old_row = self.row(t as int);
            proof {
                lemma_kept_exact(old_row, context_id, registrar_id);
                lemma_kept_sorted(old_row, context_id, registrar_id);
                assert(spec_removed_count(old_row, context_id, registrar_id) <= old_row.len());
            }
            let row = &mut self.lists[t];
            let removed = Self::retain_row(row, context_id, registrar_id);
            proof {
                assert(self.row(t as int) == spec_kept(old_row, context_id, registrar_id));
                assert forall|k: int|
                    0 <= k < TRAP_TYPE_COUNT && k != t implies #[trigger] self.row(k) == snap.row(
                    k,
                ) by {
                    assert(self.lists@[k] == snap.lists@[k]);
                }
            }
            total = total + removed;
            t += 1;
        }
        total
    }

    /// Rebuild one list without the entries the cleanup removes; returns
    /// how many went.
    fn retain_row(
        row: &mut Vec<HandlerRegistration>,
        context_id: ContextId,
        registrar_id: Option<RegistrarId>,
    ) -> (r: usize)
        requires
            old(row)@.len() <= MAX_HANDLERS_PER_TYPE,
        ensures
            final(row)@ == spec_kept(old(row)@, context_id, registrar_id),
            r == spec_removed_count(old(row)@, context_id, registrar_id),
            r <= old(row)@.len(),
    {
        let ghost s = row@;
        let mut kept: Vec<HandlerRegistration> = Vec::new();
        let mut removed: usize = 0;
        let mut i: usize = 0;
        proof {
            lemma_kept_exact(s, context_id, registrar_id);
            assert(s.skip(0) =~= s);
        }
        while i < row.len()
            invariant
                s == row@,
                i <= s.len(),
                s.len() <= MAX_HANDLERS_PER_TYPE,
                spec_kept(s, context_id, registrar_id) == kept@ + spec_kept(
                    s.skip(i as int),
                    context_id,
                    registrar_id,
                ),
                spec_removed_count(s, context_id, registrar_id) == removed + spec_removed_count(
                    s.skip(i as int),
                    context_id,
                    registrar_id,
                ),
                kept@.len() + removed == i,
            decreases s.len() - i,
        {
            let ghost rest = s.skip(i as int);
            proof {
                assert(rest[0] == s[i as int]);
                assert(rest.skip(1) =~= s.skip(i as int + 1));
            }
            let reg = &row[i];
            let is_target = match reg.context_id {
                Some(ctx) => ctx == context_id,
                None => false,
            };
            let permitted = match registrar_id {
                Some(id) => reg.entry.verify_registrar(id),
                None => true,
            };
            if is_target && permitted {
                removed = removed + 1;
            } else {
                let keep = reg.clone_registration();
                kept.push(keep);
                proof {
                    assert((kept@.drop_last() + seq![s[i as int]]) + spec_kept(
                        s.skip(i as int + 1),
                        context_id,
                        registrar_id,
                    ) =~= kept@.drop_last() + (seq![s[i as int]] + spec_kept(
                        s.skip(i as int + 1),
                        context_id,
                        registrar_id,
                    )));
                }
            }
            i += 1;
        }
        proof {
            assert(s.skip(i as int).len() == 0);
            assert(kept@ + spec_kept(s.skip(i as int), context_id, registrar_id) =~= kept@);
        }
        *row = kept;
        removed
    }

    /// First index in `row` whose description equals `d`, or the length of
    /// `row` when none matches.
    fn find_position(row: &Vec<HandlerRegistration>, d: &String) -> (r: usize)
        ensures
            r == spec_find_description(row@, d@),
    {
        proof {
            lemma_find_description(row@, d@);
        }
        let mut i: usize = 0;
        while i < row.len()
            invariant
                i <= row@.len(),
                forall|k: int| 0 <= k < i ==> (#[trigger] row@[k].entry.description)@ != d@,
            decreases row@.len() - i,
        {
            if row[i].entry.description == *d {
                proof {
                    lemma_find_description(row@, d@);
                }
                return i;
            }
            i += 1;
        }
        proof {
            lemma_find_description(row@, d@);
        }
        i
    }

    /// First index in `row` whose priority is strictly greater than `p`,
    /// or the length of `row` when none is.
    fn insert_position(row: &Vec<HandlerRegistration>, p: u8) -> (r: usize)
        ensures
            r == spec_insert_pos(row@, p),
    {
        proof {
            lemma_insert_pos(row@, p);
        }
        let mut i: usize = 0;
        while i < row.len()
            invariant
                i <= row@.len(),
                forall|k: int| 0 <= k < i ==> #[trigger] row@[k].entry.priority <= p,
            decreases row@.len() - i,
        {
            if row[i].entry.priority > p {
                proof {
                    lemma_insert_pos(row@, p);
                }
                return i;
            }
            i += 1;
        }
        proof {
            lemma_insert_pos(row@, p);
        }
        i
    }
}

} // verus!
