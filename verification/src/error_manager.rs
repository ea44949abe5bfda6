//! The error registry: priority-ordered error handlers with filters, the
//! dispatch fold over them, panic-mode latching, and the error log.

use vstd::prelude::*;
use crate::error::{
    ErrorCode, ErrorHandler, ErrorHandlerEntry, ErrorLevel, ErrorLog, ErrorLogEntry, ErrorResult,
    ErrorSource, SystemError, spec_entry_matches, spec_error_response, run_error_handler,
};

verus! {

/// Capacity of the error handler table.
pub const MAX_ERROR_HANDLERS: usize = 16;

/// Priorities never decrease along the error handler table.
pub open spec fn err_sorted_by_priority(s: Seq<ErrorHandlerEntry>) -> bool {
    forall|i: int, j: int|
        0 <= i < j < s.len() ==> #[trigger] s[i].priority <= #[trigger] s[j].priority
}

/// The slot a new handler of priority `p` takes: just before the first
/// handler of strictly greater priority.
pub open spec fn err_insert_pos(s: Seq<ErrorHandlerEntry>, p: u8) -> int
    decreases s.len(),
{
    if s.len() == 0 {
        0
    } else if s[0].priority > p {
        0
    } else {
        1 + err_insert_pos(s.skip(1), p)
    }
}

/// The first index whose handler carries the given description, or the
/// length of the table when none does.
pub open spec fn err_find_description(s: Seq<ErrorHandlerEntry>, d: Seq<char>) -> int
    decreases s.len(),
{
    if s.len() == 0 {
        0
    } else if s[0].description@ == d {
        0
    } else {
        1 + err_find_description(s.skip(1), d)
    }
}

/// Whether some handler of the table carries the given description.
pub open spec fn err_has_description(s: Seq<ErrorHandlerEntry>, d: Seq<char>) -> bool {
    err_find_description(s, d) < s.len()
}

/// `err_insert_pos` is the first position whose handler outranks `p`.
pub proof fn lemma_err_insert_pos(s: Seq<ErrorHandlerEntry>, p: u8)
    ensures
        0 <= err_insert_pos(s, p) <= s.len(),
        forall|k: int| 0 <= k < err_insert_pos(s, p) ==> #[trigger] s[k].priority <= p,
        err_insert_pos(s, p) < s.len() ==> s[err_insert_pos(s, p)].priority > p,
    decreases s.len(),
{
    if s.len() > 0 && s[0].priority <= p {
        lemma_err_insert_pos(s.skip(1), p);
        assert forall|k: int| 0 <= k < err_insert_pos(s, p) implies #[trigger] s[k].priority
            <= p by {
            if k > 0 {
                assert(s.skip(1)[k - 1] == s[k]);
            }
        }
        if err_insert_pos(s, p) < s.len() {
            assert(s.skip(1)[err_insert_pos(s.skip(1), p)] == s[err_insert_pos(s, p)]);
        }
    }
}

/// `err_find_description` is the first match.
pub proof fn lemma_err_find_description(s: Seq<ErrorHandlerEntry>, d: Seq<char>)
    ensures
        0 <= err_find_description(s, d) <= s.len(),
        forall|k: int|
            0 <= k < err_find_description(s, d) ==> (#[trigger] s[k].description)@ != d,
        err_find_description(s, d) < s.len() ==> s[err_find_description(s, d)].description@ == d,
    decreases s.len(),
{
    if s.len() > 0 && s[0].description@ != d {
        lemma_err_find_description(s.skip(1), d);
        assert forall|k: int| 0 <= k < err_find_description(s, d) implies (
        #[trigger] s[k].description)@ != d by {
            if k > 0 {
                assert(s.skip(1)[k - 1] == s[k]);
            }
        }
        if err_find_description(s, d) < s.len() {
            assert(s.skip(1)[err_find_description(s.skip(1), d)] == s[err_find_description(s, d)]);
        }
    }
}

/// Inserting at the computed slot keeps the table sorted.
pub proof fn lemma_err_sorted_insert(s: Seq<ErrorHandlerEntry>, entry: ErrorHandlerEntry)
    requires
        err_sorted_by_priority(s),
    ensures
        err_sorted_by_priority(s.insert(err_insert_pos(s, entry.priority), entry)),
{
    let p = entry.priority;
    let pos = err_insert_pos(s, p);
    lemma_err_insert_pos(s, p);
    let t = s.insert(pos, entry);
    assert forall|i: int, j: int| 0 <= i < j < t.len() implies #[trigger] t[i].priority
        <= #[trigger] t[j].priority by {
        if i < pos && j > pos {
            assert(t[j] == s[j - 1]);
        } else if i == pos && j > pos {
            assert(t[j] == s[j - 1]);
        } else if i > pos && j > pos {
            assert(t[i] == s[i - 1]);
            assert(t[j] == s[j - 1]);
        }
    }
}

/// Removing an entry keeps the table sorted.
pub proof fn lemma_err_sorted_remove(s: Seq<ErrorHandlerEntry>, i: int)
    requires
        err_sorted_by_priority(s),
        0 <= i < s.len(),
    ensures
        err_sorted_by_priority(s.remove(i)),
{
    let t = s.remove(i);
    assert forall|a: int, b: int| 0 <= a < b < t.len() implies #[trigger] t[a].priority
        <= #[trigger] t[b].priority by {
        let sa = if a < i { a } else { a + 1 };
        let sb = if b < i { b } else { b + 1 };
        assert(t[a] == s[sa]);
        assert(t[b] == s[sb]);
    }
}

/// The error dispatch fold. Starting from a provisional result and a
/// handled flag, each matching handler's response updates them: `Handled`
/// stops the walk at once with a handled outcome; `Partial` records
/// partial success, which is remembered as the best outcome so far;
/// `Ignored` records the dismissal unless partial success is already
/// remembered; `Unhandled` changes nothing. Non-matching handlers are
/// skipped.
pub open spec fn spec_error_dispatch(
    hs: Seq<ErrorHandlerEntry>,
    e: SystemError,
    cur: ErrorResult,
    handled: bool,
) -> (ErrorResult, bool)
    decreases hs.len(),
{
    if hs.len() == 0 {
        (cur, handled)
    } else {
        let h = hs[0];
        if !spec_entry_matches(h, e) {
            spec_error_dispatch(hs.skip(1), e, cur, handled)
        } else {
            match spec_error_response(h.handler, e) {
                ErrorResult::Handled => (ErrorResult::Handled, true),
                ErrorResult::Partial => spec_error_dispatch(hs.skip(1), e, ErrorResult::Partial, true),
                ErrorResult::Ignored => spec_error_dispatch(
                    hs.skip(1),
                    e,
                    if cur == ErrorResult::Partial {
                        ErrorResult::Partial
                    } else {
                        ErrorResult::Ignored
                    },
                    handled,
                ),
                ErrorResult::Unhandled => spec_error_dispatch(hs.skip(1), e, cur, handled),
            }
        }
    }
}

/// The error registry: a priority-ordered handler table, the circular
/// error log, and the panic-mode latch.
pub struct ErrorManager {
    /// Registered handlers, sorted by ascending priority.
    pub handlers: Vec<ErrorHandlerEntry>,
    /// The circular error log.
    pub log: ErrorLog,
    /// The panic-mode latch: while set, errors are logged as ignored and
    /// no handler runs.
    pub panic_mode: bool,
}

impl ErrorManager {
    /// Manager invariant: table within capacity and sorted; log well
    /// formed.
    pub open spec fn wf(&self) -> bool {
        &&& self.handlers@.len() <= MAX_ERROR_HANDLERS
        &&& err_sorted_by_priority(self.handlers@)
        &&& self.log.wf()
    }

    /// A fresh manager with no handlers, an empty log, and panic mode off.
    pub fn new() -> (r: ErrorManager)
        ensures
            r.wf(),
            r.handlers@.len() == 0,
            r.log.count == 0,
            r.log.history@ == Seq::<ErrorLogEntry>::empty(),
            r.panic_mode == false,
    {
        ErrorManager { handlers: Vec::new(), log: ErrorLog::new(), panic_mode: false }
    }

    /// Register an error handler at its priority slot; fails only when the
    /// table is full.
    pub fn register_handler(&mut self, handler: ErrorHandlerEntry) -> (r: bool)
        requires
            old(self).wf(),
        ensures
            final(self).wf(),
            final(self).log == old(self).log,
            final(self).panic_mode == old(self).panic_mode,
            if old(self).handlers@.len() >= MAX_ERROR_HANDLERS {
                r == false && final(self).handlers@ == old(self).handlers@
            } else {
                r == true && final(self).handlers@ == old(self).handlers@.insert(
                    err_insert_pos(old(self).handlers@, handler.priority),
                    handler,
                )
            },
    {
        if self.handlers.len() >= MAX_ERROR_HANDLERS {
            return false;
        }
        let pos = Self::insert_position(&self.handlers, handler.priority);
        proof {
            lemma_err_insert_pos(self.handlers@, handler.priority);
            lemma_err_sorted_insert(self.handlers@, handler);
        }
        self.handlers.insert(pos, handler);
        true
    }

    /// Remove the first handler with the given description; reports
    /// whether one was found.
    pub fn unregister_handler(&mut self, description: &str) -> (r: bool)
        requires
            old(self).wf(),
        ensures
            final(self).wf(),
            final(self).log == old(self).log,
            final(self).panic_mode == old(self).panic_mode,
            if err_has_description(old(self).handlers@, description@) {
                r == true && final(self).handlers@ == old(self).handlers@.remove(
                    err_find_description(old(self).handlers@, description@),
                )
            } else {
                r == false && final(self).handlers@ == old(self).handlers@
            },
    {
        let d = description.to_owned();
        let pos = Self::find_position(&self.handlers, &d);
        if pos >= self.handlers.len() {
            return false;
        }
        proof {
            lemma_err_find_description(self.handlers@, d@);
            lemma_err_sorted_remove(self.handlers@, pos as int);
        }
        self.handlers.remove(pos);
        true
    }

    /// Handle a system error. In panic mode the error is logged as ignored
    /// and nothing runs. Otherwise a fatal error latches panic mode first;
    /// the matching handlers then run in priority order under the dispatch
    /// fold; the outcome is logged. The second component of the result
    /// asks the caller to halt the platform: it is set exactly when a
    /// fatal error went unhandled.
    pub fn handle_error(&mut self, error: SystemError) -> (r: (ErrorResult, bool))
        requires
            old(self).wf(),
            old(self).log.count < usize::MAX,
        ensures
            final(self).wf(),
            final(self).handlers@ == old(self).handlers@,
            if old(self).panic_mode {
                &&& r == (ErrorResult::Ignored, false)
                &&& final(self).panic_mode == true
                &&& final(self).log.history@ == old(self).log.history@.push(
                    ErrorLogEntry {
                        error,
                        handled: false,
                        result: ErrorResult::Ignored,
                    },
                )
            } else {
                let outcome = spec_error_dispatch(
                    old(self).handlers@,
                    error,
                    ErrorResult::Unhandled,
                    false,
                );
                &&& r.0 == outcome.0
                &&& r.1 == (error.spec_is_fatal() && !outcome.1)
                &&& final(self).panic_mode == (old(self).panic_mode || error.spec_is_fatal())
                &&& final(self).log.history@ == old(self).log.history@.push(
                    ErrorLogEntry { error, handled: outcome.1, result: outcome.0 },
                )
            },
    {
        if self.panic_mode {
            self.log.log(error, false, ErrorResult::Ignored);
            return (ErrorResult::Ignored, false);
        }
        let fatal = error.code().is_fatal();
        if fatal {
            self.panic_mode = true;
        }
        let ghost hs = self.handlers@;
        let mut current: ErrorResult = ErrorResult::Unhandled;
        let mut handled: bool = false;
        let mut done: bool = false;
        let mut i: usize = 0;
        proof {
            assert(hs.skip(0) =~= hs);
        }
        while i < self.handlers.len() && !done
            invariant
                self.wf(),
                hs == self.handlers@,
                i <= hs.len(),
                if done {
                    spec_error_dispatch(hs, error, ErrorResult::Unhandled, false) == (
                        current,
                        handled,
                    )
                } else {
                    spec_error_dispatch(hs, error, ErrorResult::Unhandled, false)
                        == spec_error_dispatch(hs.skip(i as int), error, current, handled)
                },
            decreases hs.len() - i, (if done { 0int } else { 1int }),
        {
            proof {
                assert(hs.skip(i as int)[0] == hs[i as int]);
                assert(hs.skip(i as int).skip(1) =~= hs.skip(i as int + 1));
            }
            let entry = &self.handlers[i];
            if entry.matches(&error) {
                let response = run_error_handler(&entry.handler, &error);
                match response {
                    ErrorResult::Handled => {
                        current = ErrorResult::Handled;
                        handled = true;
                        done = true;
                    },
                    ErrorResult::Partial => {
                        current = ErrorResult::Partial;
                        handled = true;
                    },
                    ErrorResult::Ignored => {
                        if !matches!(current, ErrorResult::Partial) {
                            current = ErrorResult::Ignored;
                        }
                    },
                    ErrorResult::Unhandled => {},
                }
            }
            if !done {
                i += 1;
            }
        }
        proof {
            if !done {
                assert(hs.skip(i as int).len() == 0);
            }
        }
        self.log.log(error, handled, current);
        (current, fatal && !handled)
    }

    /// Whether the panic-mode latch is set.
    pub fn is_panic_mode(&self) -> (r: bool)
        ensures
            r == self.panic_mode,
    {
        self.panic_mode
    }

    /// Clear the panic-mode latch: the explicit operator action that
    /// re-enables error dispatch.
    pub fn reset_panic_mode(&mut self)
        ensures
            *final(self) == (ErrorManager { panic_mode: false, ..*old(self) }),
    {
        self.panic_mode = false;
    }

    /// The error log.
    pub fn get_log(&self) -> (r: &ErrorLog)
        ensures
            r == &self.log,
    {
        &self.log
    }

    /// The error log, for mutation.
    pub fn get_log_mut(&mut self) -> (r: &mut ErrorLog)
        ensures
            *r == old(self).log,
            *final(self) == (ErrorManager { log: *final(r), ..*old(self) }),
    {
        &mut self.log
    }

    /// Build a system error from its parts. The timestamp is supplied by
    /// the caller, who reads the platform timer.
    pub fn create_error(
        &self,
        source: ErrorSource,
        level: ErrorLevel,
        code: u16,
        address: Option<usize>,
        ip: usize,
        timestamp: u64,
    ) -> (r: SystemError)
        ensures
            r.code.value == crate::error::spec_pack_code(source, level, code),
            r.address == address,
            r.instruction_pointer == ip,
            r.timestamp == timestamp,
    {
        let error_code = ErrorCode::new(source, level, code);
        SystemError::new(error_code, address, ip, timestamp)
    }

    /// How many handlers are registered.
    pub fn handler_count(&self) -> (r: usize)
        ensures
            r == self.handlers@.len(),
    {
        self.handlers.len()
    }

    /// The handler entry at a table index, for inspection and display.
    pub fn handler_at(&self, index: usize) -> (r: &ErrorHandlerEntry)
        requires
            index < self.handlers@.len(),
        ensures
            *r == self.handlers@[index as int],
    {
        &self.handlers[index]
    }

    /// First index in `handlers` whose description equals `d`, or the
    /// length of the table when none matches.
    fn find_position(handlers: &Vec<ErrorHandlerEntry>, d: &String) -> (r: usize)
        ensures
            r == err_find_description(handlers@, d@),
    {
        proof {
            lemma_err_find_description(handlers@, d@);
        }
        let mut i: usize = 0;
        while i < handlers.len()
            invariant
                i <= handlers@.len(),
                forall|k: int| 0 <= k < i ==> (#[trigger] handlers@[k].description)@ != d@,
            decreases handlers@.len() - i,
        {
            if handlers[i].description == *d {
                proof {
                    lemma_err_find_description(handlers@, d@);
                }
                return i;
            }
            i += 1;
        }
        proof {
            lemma_err_find_description(handlers@, d@);
        }
        i
    }

    /// First index in `handlers` whose priority is strictly greater than
    /// `p`, or the length of the table when none is.
    fn insert_position(handlers: &Vec<ErrorHandlerEntry>, p: u8) -> (r: usize)
        ensures
            r == err_insert_pos(handlers@, p),
    {
        proof {
            lemma_err_insert_pos(handlers@, p);
        }
        let mut i: usize = 0;
        while i < handlers.len()
            invariant
                i <= handlers@.len(),
                forall|k: int| 0 <= k < i ==> #[trigger] handlers@[k].priority <= p,
            decreases handlers@.len() - i,
        {
            if handlers[i].priority > p {
                proof {
                    lemma_err_insert_pos(handlers@, p);
                }
                return i;
            }
            i += 1;
        }
        proof {
            lemma_err_insert_pos(handlers@, p);
        }
        i
    }
}

} // verus!
