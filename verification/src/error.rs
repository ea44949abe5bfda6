//! Software-error data model: packed error codes, error records, handler
//! behaviours with source and severity filters, and the circular error log.

use vstd::prelude::*;

verus! {

/// Severity of a system error, most severe first.
#[derive(Debug, Copy, Clone, PartialEq, Eq, Structural)]
pub enum ErrorLevel {
    /// Unrecoverable; latches panic mode and may halt the system.
    Fatal,
    /// May require terminating the current process.
    Critical,
    /// Ordinarily recoverable.
    Error,
    /// Noteworthy but harmless.
    Warning,
    /// Informational only.
    Info,
}

impl ErrorLevel {
    /// The numeric severity stored in a packed error code.
    pub fn rank(&self) -> (r: u8)
        ensures
            r == self.spec_rank(),
    {
        match self {
            ErrorLevel::Fatal => 0,
            ErrorLevel::Critical => 1,
            ErrorLevel::Error => 2,
            ErrorLevel::Warning => 3,
            ErrorLevel::Info => 4,
        }
    }

    /// Severity ranks: `Fatal` is 0 and `Info` is 4.
    pub open spec fn spec_rank(&self) -> u8 {
        match self {
            ErrorLevel::Fatal => 0,
            ErrorLevel::Critical => 1,
            ErrorLevel::Error => 2,
            ErrorLevel::Warning => 3,
            ErrorLevel::Info => 4,
        }
    }
}

/// Subsystem a system error originates from.
#[derive(Debug, Copy, Clone, PartialEq, Eq, Structural)]
pub enum ErrorSource {
    Unknown,
    Interrupt,
    Memory,
    Process,
    FileSystem,
    Device,
    Network,
    Syscall,
    Power,
    Synchronization,
    Scheduler,
}

impl ErrorSource {
    /// The numeric source stored in a packed error code.
    pub fn rank(&self) -> (r: u8)
        ensures
            r == self.spec_rank(),
    {
        match self {
            ErrorSource::Unknown => 0,
            ErrorSource::Interrupt => 1,
            ErrorSource::Memory => 2,
            ErrorSource::Process => 3,
            ErrorSource::FileSystem => 4,
            ErrorSource::Device => 5,
            ErrorSource::Network => 6,
            ErrorSource::Syscall => 7,
            ErrorSource::Power => 8,
            ErrorSource::Synchronization => 9,
            ErrorSource::Scheduler => 10,
        }
    }

    /// Source ranks, `Unknown` being 0.
    pub open spec fn spec_rank(&self) -> u8 {
        match self {
            ErrorSource::Unknown => 0,
            ErrorSource::Interrupt => 1,
            ErrorSource::Memory => 2,
            ErrorSource::Process => 3,
            ErrorSource::FileSystem => 4,
            ErrorSource::Device => 5,
            ErrorSource::Network => 6,
            ErrorSource::Syscall => 7,
            ErrorSource::Power => 8,
            ErrorSource::Synchronization => 9,
            ErrorSource::Scheduler => 10,
        }
    }
}

/// A packed 32-bit error code: source in the top byte, severity in the next
/// byte, and a 16-bit error number below.
pub open spec fn spec_pack_code(source: ErrorSource, level: ErrorLevel, code: u16) -> u32 {
    ((source.spec_rank() as u32) << 24) | ((level.spec_rank() as u32) << 16) | (code as u32)
}

/// The source encoded in a packed value; unmapped bytes give `Unknown`.
pub open spec fn spec_source_of(value: u32) -> ErrorSource {
    let s = (value >> 24) as u8;
    if s == 1 {
        ErrorSource::Interrupt
    } else if s == 2 {
        ErrorSource::Memory
    } else if s == 3 {
        ErrorSource::Process
    } else if s == 4 {
        ErrorSource::FileSystem
    } else if s == 5 {
        ErrorSource::Device
    } else if s == 6 {
        ErrorSource::Network
    } else if s == 7 {
        ErrorSource::Syscall
    } else if s == 8 {
        ErrorSource::Power
    } else if s == 9 {
        ErrorSource::Synchronization
    } else if s == 10 {
        ErrorSource::Scheduler
    } else {
        ErrorSource::Unknown
    }
}

/// The severity encoded in a packed value; unmapped bytes give `Error`.
pub open spec fn spec_level_of(value: u32) -> ErrorLevel {
    let l = ((value >> 16) & 0xFF) as u8;
    if l == 0 {
        ErrorLevel::Fatal
    } else if l == 1 {
        ErrorLevel::Critical
    } else if l == 2 {
        ErrorLevel::Error
    } else if l == 3 {
        ErrorLevel::Warning
    } else if l == 4 {
        ErrorLevel::Info
    } else {
        ErrorLevel::Error
    }
}

/// The 16-bit error number encoded in a packed value.
pub open spec fn spec_number_of(value: u32) -> u16 {
    (value & 0xFFFF) as u16
}

/// A packed error code: source category, severity level and error number
/// in one 32-bit word.
#[derive(Debug, Copy, Clone, PartialEq, Eq, Structural)]
pub struct ErrorCode {
    /// The packed word.
    pub value: u32,
}

impl ErrorCode {
    /// Pack a source, severity and error number.
    pub fn new(source: ErrorSource, level: ErrorLevel, code: u16) -> (r: ErrorCode)
        ensures
            r.value == spec_pack_code(source, level, code),
    {
        let value = ((source.rank() as u32) << 24) | ((level.rank() as u32) << 16) | (code as u32);
        ErrorCode { value }
    }

    /// The raw packed word.
    pub fn value(&self) -> (r: u32)
        ensures
            r == self.value,
    {
        self.value
    }

    /// The source category of the error.
    pub fn source(&self) -> (r: ErrorSource)
        ensures
            r == spec_source_of(self.value),
    {
        let s = (self.value >> 24) as u8;
        if s == 1 {
            ErrorSource::Interrupt
        } else if s == 2 {
            ErrorSource::Memory
        } else if s == 3 {
            ErrorSource::Process
        } else if s == 4 {
            ErrorSource::FileSystem
        } else if s == 5 {
            ErrorSource::Device
        } else if s == 6 {
            ErrorSource::Network
        } else if s == 7 {
            ErrorSource::Syscall
        } else if s == 8 {
            ErrorSource::Power
        } else if s == 9 {
            ErrorSource::Synchronization
        } else if s == 10 {
            ErrorSource::Scheduler
        } else {
            ErrorSource::Unknown
        }
    }

    /// The severity level of the error.
    pub fn level(&self) -> (r: ErrorLevel)
        ensures
            r == spec_level_of(self.value),
    {
        let l = ((self.value >> 16) & 0xFF) as u8;
        if l == 0 {
            ErrorLevel::Fatal
        } else if l == 1 {
            ErrorLevel::Critical
        } else if l == 2 {
            ErrorLevel::Error
        } else if l == 3 {
            ErrorLevel::Warning
        } else if l == 4 {
            ErrorLevel::Info
        } else {
            ErrorLevel::Error
        }
    }

    /// The 16-bit error number.
    pub fn code(&self) -> (r: u16)
        ensures
            r == spec_number_of(self.value),
    {
        (self.value & 0xFFFF) as u16
    }

    /// Whether the error is fatal.
    pub fn is_fatal(&self) -> (r: bool)
        ensures
            r == (spec_level_of(self.value) == ErrorLevel::Fatal),
    {
        matches!(self.level(), ErrorLevel::Fatal)
    }

    /// Whether the error is merely advisory (a warning or information).
    pub fn is_warning(&self) -> (r: bool)
        ensures
            r == (spec_level_of(self.value) == ErrorLevel::Warning || spec_level_of(self.value)
                == ErrorLevel::Info),
    {
        matches!(self.level(), ErrorLevel::Warning | ErrorLevel::Info)
    }
}

/// Packing is lossless: the source, severity and number read back exactly.
pub proof fn lemma_error_code_roundtrip(source: ErrorSource, level: ErrorLevel, code: u16)
    ensures
        spec_source_of(spec_pack_code(source, level, code)) == source,
        spec_level_of(spec_pack_code(source, level, code)) == level,
        spec_number_of(spec_pack_code(source, level, code)) == code,
{
    let s = source.spec_rank();
    let l = level.spec_rank();
    let v = spec_pack_code(source, level, code);
    assert(s <= 10 && l <= 4);
    assert(v >> 24 == s as u32) by (bit_vector)
        requires
            v == ((s as u32) << 24) | ((l as u32) << 16) | (code as u32),
            s <= 10,
            l <= 4,
    ;
    assert((v >> 16) & 0xFF == l as u32) by (bit_vector)
        requires
            v == ((s as u32) << 24) | ((l as u32) << 16) | (code as u32),
            s <= 10,
            l <= 4,
    ;
    assert(v & 0xFFFF == code as u32) by (bit_vector)
        requires
            v == ((s as u32) << 24) | ((l as u32) << 16) | (code as u32),
            s <= 10,
            l <= 4,
    ;
}

/// A system error: its packed code, the faulting address when one exists,
/// the instruction pointer at the fault, and a timestamp. Immutable once
/// created.
#[derive(Debug, Copy, Clone)]
pub struct SystemError {
    /// Packed error code.
    pub code: ErrorCode,
    /// Faulting address, when the error has one.
    pub address: Option<usize>,
    /// Instruction pointer at the time of the error.
    pub instruction_pointer: usize,
    /// Time the error was raised, in platform timer ticks.
    pub timestamp: u64,
}

impl SystemError {
    /// Assemble a system error.
    pub fn new(code: ErrorCode, address: Option<usize>, instruction_pointer: usize, timestamp: u64)
        -> (r: SystemError)
        ensures
            r == (SystemError { code, address, instruction_pointer, timestamp }),
    {
        SystemError { code, address, instruction_pointer, timestamp }
    }

    /// The packed error code.
    pub fn code(&self) -> (r: ErrorCode)
        ensures
            r == self.code,
    {
        self.code
    }

    /// The faulting address, when recorded.
    pub fn address(&self) -> (r: Option<usize>)
        ensures
            r == self.address,
    {
        self.address
    }

    /// The instruction pointer at the fault.
    pub fn instruction_pointer(&self) -> (r: usize)
        ensures
            r == self.instruction_pointer,
    {
        self.instruction_pointer
    }

    /// The timestamp of the error.
    pub fn timestamp(&self) -> (r: u64)
        ensures
            r == self.timestamp,
    {
        self.timestamp
    }

    /// Whether this error's severity is fatal.
    pub open spec fn spec_is_fatal(&self) -> bool {
        spec_level_of(self.code.value) == ErrorLevel::Fatal
    }
}

/// What one error handler reports.
#[derive(Debug, Copy, Clone, PartialEq, Eq, Structural)]
pub enum ErrorResult {
    /// Fully handled; dispatch stops.
    Handled,
    /// Partially handled; dispatch continues, remembering partial success.
    Partial,
    /// Not handled; dispatch continues unchanged.
    Unhandled,
    /// Deliberately ignored; dispatch continues, remembering the dismissal.
    Ignored,
}

/// An error handler's behaviour, dispatched as a tagged union so that
/// every response is known exactly.
#[derive(Debug, Copy, Clone, PartialEq, Eq, Structural)]
pub enum ErrorHandler {
    /// Report a fixed result for every matching error.
    Respond(ErrorResult),
    /// The built-in memory triage: error number 1 (a recoverable page
    /// fault) is partially handled, 3 (an invalid access) is handled, and
    /// everything else is unhandled.
    MemoryTriage,
}

/// The result an error handler reports for a given error.
pub open spec fn spec_error_response(h: ErrorHandler, e: SystemError) -> ErrorResult {
    match h {
        ErrorHandler::Respond(r) => r,
        ErrorHandler::MemoryTriage => {
            let n = spec_number_of(e.code.value);
            if n == 1 {
                ErrorResult::Partial
            } else if n == 3 {
                ErrorResult::Handled
            } else {
                ErrorResult::Unhandled
            }
        },
    }
}

/// Run one error handler on an error.
pub fn run_error_handler(h: &ErrorHandler, e: &SystemError) -> (r: ErrorResult)
    ensures
        r == spec_error_response(*h, *e),
{
    match h {
        ErrorHandler::Respond(r) => *r,
        ErrorHandler::MemoryTriage => {
            let n = e.code().code();
            if n == 1 {
                ErrorResult::Partial
            } else if n == 3 {
                ErrorResult::Handled
            } else {
                ErrorResult::Unhandled
            }
        },
    }
}

/// A registered error handler: behaviour, priority, description, and
/// optional source and severity filters. A handler with no filters matches
/// every error.
#[derive(Debug, Clone)]
pub struct ErrorHandlerEntry {
    /// The handler behaviour.
    pub handler: ErrorHandler,
    /// Priority; numerically smaller values run first.
    pub priority: u8,
    /// Description used for unregistration and display.
    pub description: String,
    /// When present, the handler only matches errors of this source.
    pub source: Option<ErrorSource>,
    /// When present, the handler only matches errors of this severity.
    pub level: Option<ErrorLevel>,
}

/// Whether an entry's filters accept an error: each present filter must
/// agree with the error's packed code.
pub open spec fn spec_entry_matches(entry: ErrorHandlerEntry, e: SystemError) -> bool {
    &&& (match entry.source {
        Option::Some(src) => spec_source_of(e.code.value) == src,
        Option::None => true,
    })
    &&& (match entry.level {
        Option::Some(lvl) => spec_level_of(e.code.value) == lvl,
        Option::None => true,
    })
}

impl ErrorHandlerEntry {
    /// Assemble an error handler entry.
    pub fn new(
        handler: ErrorHandler,
        priority: u8,
        description: &str,
        source: Option<ErrorSource>,
        level: Option<ErrorLevel>,
    ) -> (r: ErrorHandlerEntry)
        ensures
            r.handler == handler,
            r.priority == priority,
            r.description@ == description@,
            r.source == source,
            r.level == level,
    {
        ErrorHandlerEntry { handler, priority, description: description.to_owned(), source, level }
    }

    /// An equal copy of the entry.
    pub fn clone_entry(&self) -> (r: ErrorHandlerEntry)
        ensures
            r == *self,
    {
        ErrorHandlerEntry {
            handler: self.handler,
            priority: self.priority,
            description: self.description.clone(),
            source: self.source,
            level: self.level,
        }
    }

    /// Whether this handler's filters accept the error.
    pub fn matches(&self, error: &SystemError) -> (r: bool)
        ensures
            r == spec_entry_matches(*self, *error),
    {
        let source_ok = match self.source {
            Some(src) => {
                let actual = error.code().source();
                actual == src
            },
            None => true,
        };
        let level_ok = match self.level {
            Some(lvl) => {
                let actual = error.code().level();
                actual == lvl
            },
            None => true,
        };
        source_ok && level_ok
    }
}

/// One record of the error log: the error, whether any handler claimed it,
/// and the final dispatch outcome.
#[derive(Debug, Copy, Clone)]
pub struct ErrorLogEntry {
    /// The logged error.
    pub error: SystemError,
    /// Whether a handler reported `Handled` or `Partial` for it.
    pub handled: bool,
    /// The final dispatch result that was recorded.
    pub result: ErrorResult,
}

/// Capacity of the circular error log.
pub const ERROR_LOG_CAPACITY: usize = 32;

/// A fixed-capacity circular log of the most recent errors, with a
/// monotonic total count that keeps growing after the buffer wraps.
pub struct ErrorLog {
    /// The circular buffer; slot `k` holds the record of the `j`-th logged
    /// error for the most recent `j` with `j % capacity == k`.
    pub entries: Vec<Option<ErrorLogEntry>>,
    /// Next slot to overwrite.
    pub current: usize,
    /// Total number of records ever logged.
    pub count: usize,
    /// The full chronological history of logged records; the buffer holds
    /// its last `capacity` elements.
    pub history: Ghost<Seq<ErrorLogEntry>>,
}

impl ErrorLog {
    /// How many records the buffer currently retains.
    pub open spec fn spec_kept(&self) -> int {
        if self.count <= ERROR_LOG_CAPACITY {
            self.count as int
        } else {
            ERROR_LOG_CAPACITY as int
        }
    }

    /// Log invariant: the buffer has fixed capacity, the write cursor
    /// follows the total count, and the last `capacity` records of the
    /// history sit at their count-modulo-capacity slots, every other slot
    /// being empty.
    pub open spec fn wf(&self) -> bool {
        &&& self.entries@.len() == ERROR_LOG_CAPACITY
        &&& self.count == self.history@.len()
        &&& self.current == self.count % ERROR_LOG_CAPACITY
        &&& forall|j: int|
            self.count - self.spec_kept() <= j < self.count ==> self.entries@[j % (
            ERROR_LOG_CAPACITY as int)] == Some(#[trigger] self.history@[j])
        &&& self.count < ERROR_LOG_CAPACITY ==> (forall|k: int|
            self.count <= k < ERROR_LOG_CAPACITY ==> (#[trigger] self.entries@[k]) is None)
    }

    /// An empty log.
    pub fn new() -> (r: ErrorLog)
        ensures
            r.wf(),
            r.count == 0,
            r.history@ == Seq::<ErrorLogEntry>::empty(),
    {
        let mut entries: Vec<Option<ErrorLogEntry>> = Vec::new();
        let mut i: usize = 0;
        while i < ERROR_LOG_CAPACITY
            invariant
                i <= ERROR_LOG_CAPACITY,
                entries@.len() == i,
                forall|k: int| 0 <= k < i ==> entries@[k] is None,
            decreases ERROR_LOG_CAPACITY - i,
        {
            entries.push(None);
            i += 1;
        }
        ErrorLog { entries, current: 0, count: 0, history: Ghost(Seq::empty()) }
    }

    /// Append a record, overwriting the oldest once the buffer is full.
    pub fn log(&mut self, error: SystemError, handled: bool, result: ErrorResult)
        requires
            old(self).wf(),
            old(self).count < usize::MAX,
        ensures
            final(self).wf(),
            final(self).count == old(self).count + 1,
            final(self).history@ == old(self).history@.push(
                ErrorLogEntry { error, handled, result },
            ),
    {
        let entry = ErrorLogEntry { error, handled, result };
        let index = self.current;
        self.current = (self.current + 1) % ERROR_LOG_CAPACITY;
        let slot = &mut self.entries[index];
        *slot = Some(entry);
        self.count = self.count + 1;
        proof {
            self.history@ = self.history@.push(entry);
        }
    }

    /// The total number of records ever logged.
    pub fn count(&self) -> (r: usize)
        ensures
            r == self.count,
    {
        self.count
    }

    /// The record a chronological position within the retained window: for
    /// a log that has retained `kept` records, position `i` (counting from
    /// the oldest retained) is the `count - kept + i`-th record ever
    /// logged; positions at or past `kept` hold nothing.
    pub open spec fn spec_get(&self, index: int) -> Option<ErrorLogEntry> {
        if index >= ERROR_LOG_CAPACITY {
            None
        } else if index < self.spec_kept() {
            Some(self.history@[self.count - self.spec_kept() + index])
        } else {
            None
        }
    }

    /// The retained record at chronological position `index` (oldest
    /// retained first), or `None` past the retained window.
    pub fn get(&self, index: usize) -> (r: Option<ErrorLogEntry>)
        requires
            self.wf(),
        ensures
            r == self.spec_get(index as int),
    {
        if index >= ERROR_LOG_CAPACITY {
            return None;
        }
        let count = self.count;
        if count <= ERROR_LOG_CAPACITY {
            if index < count {
                return self.entries[index];
            }
            return None;
        }
        let actual_index = (self.current + index) % ERROR_LOG_CAPACITY;
        proof {
            let cap = ERROR_LOG_CAPACITY as int;
            let c = self.count as int;
            let cur = self.current as int;
            let ix = index as int;
            let j = c - cap + ix;
            assert(j % cap == (cur + ix) % cap) by {
                assert(cur == c % cap);
                assert((c - cap + ix) % cap == (c + ix) % cap);
                assert((c + ix) % cap == (c % cap + ix) % cap);
            }
            assert(actual_index as int == (cur + ix) % cap);
        }
        self.entries[actual_index]
    }

    /// Empty the log.
    pub fn clear(&mut self)
        ensures
            final(self).wf(),
            final(self).count == 0,
            final(self).history@ == Seq::<ErrorLogEntry>::empty(),
    {
        let mut entries: Vec<Option<ErrorLogEntry>> = Vec::new();
        let mut i: usize = 0;
        while i < ERROR_LOG_CAPACITY
            invariant
                i <= ERROR_LOG_CAPACITY,
                entries@.len() == i,
                forall|k: int| 0 <= k < i ==> entries@[k] is None,
            decreases ERROR_LOG_CAPACITY - i,
        {
            entries.push(None);
            i += 1;
        }
        self.entries = entries;
        self.current = 0;
        self.count = 0;
        proof {
            self.history@ = Seq::empty();
        }
    }

    /// The most recent records in chronological order: for a request of
    /// `n`, the last `min(n, retained)` records, oldest of the kept set
    /// first. Reconstructs the order across the wrap boundary.
    pub fn recent_entries(&self, n: usize) -> (r: Vec<ErrorLogEntry>)
        requires
            self.wf(),
        ensures
            r@ == self.history@.subrange(
                self.count - spec_min_usize(n as int, self.spec_kept()),
                self.count as int,
            ),
    {
        let kept: usize = if self.count <= ERROR_LOG_CAPACITY {
            self.count
        } else {
            ERROR_LOG_CAPACITY
        };
        let k: usize = if n <= kept {
            n
        } else {
            kept
        };
        let mut out: Vec<ErrorLogEntry> = Vec::new();
        let mut i: usize = 0;
        while i < k
            invariant
                self.wf(),
                kept == self.spec_kept(),
                k == spec_min_usize(n as int, self.spec_kept()),
                i <= k,
                out@ == self.history@.subrange(self.count - k, self.count - k + i),
            decreases k - i,
        {
            let pos = kept - k + i;
            let got = self.get(pos);
            proof {
                assert(pos < self.spec_kept());
                assert(self.spec_get(pos as int) == Some(
                    self.history@[self.count - self.spec_kept() + pos],
                ));
            }
            match got {
                Some(entry) => {
                    out.push(entry);
                    proof {
                        assert(out@ =~= self.history@.subrange(
                            self.count - k,
                            self.count - k + i + 1,
                        ));
                    }
                },
                None => {
                    proof {
                        assert(false);
                    }
                },
            }
            i += 1;
        }
        proof {
            assert(out@ =~= self.history@.subrange(
                self.count - spec_min_usize(n as int, self.spec_kept()),
                self.count as int,
            ));
        }
        out
    }
}

/// The smaller of two mathematical integers.
pub open spec fn spec_min_usize(a: int, b: int) -> int {
    if a <= b {
        a
    } else {
        b
    }
}

} // verus!
