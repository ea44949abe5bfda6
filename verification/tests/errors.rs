use trap_core::error::{
    run_error_handler, ErrorCode, ErrorHandler, ErrorHandlerEntry, ErrorLevel, ErrorLog,
    ErrorResult, ErrorSource, SystemError, ERROR_LOG_CAPACITY,
};
use trap_core::error_manager::ErrorManager;

fn err(source: ErrorSource, level: ErrorLevel, code: u16, stamp: u64) -> SystemError {
    SystemError::new(ErrorCode::new(source, level, code), None, 0x1000, stamp)
}

#[test]
fn error_code_packs_exactly() {
    // Memory is source 2, Critical level 1, number 7:
    // (2 << 24) | (1 << 16) | 7.
    let c = ErrorCode::new(ErrorSource::Memory, ErrorLevel::Critical, 7);
    assert_eq!(c.value(), 0x0201_0007);
    assert_eq!(c.source(), ErrorSource::Memory);
    assert_eq!(c.level(), ErrorLevel::Critical);
    assert_eq!(c.code(), 7);
}

#[test]
fn error_code_roundtrips_for_every_source_and_level() {
    let sources = [
        ErrorSource::Unknown,
        ErrorSource::Interrupt,
        ErrorSource::Memory,
        ErrorSource::Process,
        ErrorSource::FileSystem,
        ErrorSource::Device,
        ErrorSource::Network,
        ErrorSource::Syscall,
        ErrorSource::Power,
        ErrorSource::Synchronization,
        ErrorSource::Scheduler,
    ];
    let levels = [
        ErrorLevel::Fatal,
        ErrorLevel::Critical,
        ErrorLevel::Error,
        ErrorLevel::Warning,
        ErrorLevel::Info,
    ];
    for s in sources {
        for l in levels {
            let c = ErrorCode::new(s, l, 0xBEEF);
            assert_eq!(c.source(), s);
            assert_eq!(c.level(), l);
            assert_eq!(c.code(), 0xBEEF);
        }
    }
}

#[test]
fn fatal_and_warning_predicates() {
    assert!(ErrorCode::new(ErrorSource::Memory, ErrorLevel::Fatal, 0).is_fatal());
    assert!(!ErrorCode::new(ErrorSource::Memory, ErrorLevel::Error, 0).is_fatal());
    assert!(ErrorCode::new(ErrorSource::Memory, ErrorLevel::Warning, 0).is_warning());
    assert!(ErrorCode::new(ErrorSource::Memory, ErrorLevel::Info, 0).is_warning());
    assert!(!ErrorCode::new(ErrorSource::Memory, ErrorLevel::Critical, 0).is_warning());
}

#[test]
fn filters_match_only_when_both_agree() {
    let e = err(ErrorSource::Memory, ErrorLevel::Error, 3, 0);
    let both = ErrorHandlerEntry::new(
        ErrorHandler::Respond(ErrorResult::Handled),
        10,
        "both",
        Some(ErrorSource::Memory),
        Some(ErrorLevel::Error),
    );
    assert!(both.matches(&e));
    let wrong_source = ErrorHandlerEntry::new(
        ErrorHandler::Respond(ErrorResult::Handled),
        10,
        "ws",
        Some(ErrorSource::Device),
        None,
    );
    assert!(!wrong_source.matches(&e));
    let wrong_level = ErrorHandlerEntry::new(
        ErrorHandler::Respond(ErrorResult::Handled),
        10,
        "wl",
        None,
        Some(ErrorLevel::Fatal),
    );
    assert!(!wrong_level.matches(&e));
    let unfiltered =
        ErrorHandlerEntry::new(ErrorHandler::Respond(ErrorResult::Handled), 10, "any", None, None);
    assert!(unfiltered.matches(&e));
}

#[test]
fn memory_triage_responses() {
    let page_fault = err(ErrorSource::Memory, ErrorLevel::Error, 1, 0);
    let oom = err(ErrorSource::Memory, ErrorLevel::Error, 2, 0);
    let invalid = err(ErrorSource::Memory, ErrorLevel::Error, 3, 0);
    assert_eq!(run_error_handler(&ErrorHandler::MemoryTriage, &page_fault), ErrorResult::Partial);
    assert_eq!(run_error_handler(&ErrorHandler::MemoryTriage, &oom), ErrorResult::Unhandled);
    assert_eq!(run_error_handler(&ErrorHandler::MemoryTriage, &invalid), ErrorResult::Handled);
}

#[test]
fn dispatch_fold_remembers_best_outcome() {
    let mut m = ErrorManager::new();
    assert!(m.register_handler(ErrorHandlerEntry::new(
        ErrorHandler::Respond(ErrorResult::Partial),
        10,
        "partial",
        None,
        None,
    )));
    assert!(m.register_handler(ErrorHandlerEntry::new(
        ErrorHandler::Respond(ErrorResult::Unhandled),
        20,
        "unhandled",
        None,
        None,
    )));
    let (result, halt) = m.handle_error(err(ErrorSource::Device, ErrorLevel::Error, 1, 1));
    // Partial is remembered even though a later handler did nothing.
    assert_eq!(result, ErrorResult::Partial);
    assert!(!halt);

    // A handled response stops the walk at once.
    assert!(m.register_handler(ErrorHandlerEntry::new(
        ErrorHandler::Respond(ErrorResult::Handled),
        5,
        "handles",
        None,
        None,
    )));
    let (result, _) = m.handle_error(err(ErrorSource::Device, ErrorLevel::Error, 2, 2));
    assert_eq!(result, ErrorResult::Handled);
}

#[test]
fn partial_survives_a_later_ignored() {
    // Partial success is the best-so-far outcome: a later handler that
    // merely ignores the error does not displace it.
    let mut m = ErrorManager::new();
    assert!(m.register_handler(ErrorHandlerEntry::new(
        ErrorHandler::Respond(ErrorResult::Partial),
        10,
        "partial first",
        None,
        None,
    )));
    assert!(m.register_handler(ErrorHandlerEntry::new(
        ErrorHandler::Respond(ErrorResult::Ignored),
        20,
        "ignores later",
        None,
        None,
    )));
    let (result, halt) = m.handle_error(err(ErrorSource::Device, ErrorLevel::Error, 4, 3));
    assert_eq!(result, ErrorResult::Partial);
    assert!(!halt);

    // With no partial success recorded, the dismissal is what remains.
    let mut m2 = ErrorManager::new();
    assert!(m2.register_handler(ErrorHandlerEntry::new(
        ErrorHandler::Respond(ErrorResult::Ignored),
        10,
        "only ignores",
        None,
        None,
    )));
    let (result, _) = m2.handle_error(err(ErrorSource::Device, ErrorLevel::Error, 4, 4));
    assert_eq!(result, ErrorResult::Ignored);
}

#[test]
fn panic_latch() {
    // A fatal error no handler claims latches panic mode; every further
    // error is logged as Ignored without dispatch, until the explicit
    // reset.
    let mut m = ErrorManager::new();
    assert!(m.register_handler(ErrorHandlerEntry::new(
        ErrorHandler::Respond(ErrorResult::Unhandled),
        10,
        "useless",
        None,
        None,
    )));
    let fatal = err(ErrorSource::Power, ErrorLevel::Fatal, 9, 5);
    let (result, halt) = m.handle_error(fatal);
    assert_eq!(result, ErrorResult::Unhandled);
    // Fatal and unhandled: the caller must halt the platform.
    assert!(halt);
    assert!(m.is_panic_mode());

    // Subsequent errors are only logged, as Ignored.
    let before = m.get_log().count();
    let (result, halt) = m.handle_error(err(ErrorSource::Device, ErrorLevel::Error, 1, 6));
    assert_eq!(result, ErrorResult::Ignored);
    assert!(!halt);
    assert_eq!(m.get_log().count(), before + 1);
    let last = m.get_log().get(before).expect("logged entry");
    assert!(!last.handled);
    assert_eq!(last.result, ErrorResult::Ignored);

    m.reset_panic_mode();
    assert!(!m.is_panic_mode());
    let (result, _) = m.handle_error(err(ErrorSource::Device, ErrorLevel::Error, 1, 7));
    assert_eq!(result, ErrorResult::Unhandled);
}

#[test]
fn fatal_but_handled_does_not_halt() {
    let mut m = ErrorManager::new();
    assert!(m.register_handler(ErrorHandlerEntry::new(
        ErrorHandler::Respond(ErrorResult::Handled),
        10,
        "rescuer",
        None,
        None,
    )));
    let (result, halt) = m.handle_error(err(ErrorSource::Power, ErrorLevel::Fatal, 9, 5));
    assert_eq!(result, ErrorResult::Handled);
    assert!(!halt);
    // Panic mode still latched: fatal errors always latch before dispatch.
    assert!(m.is_panic_mode());
}

#[test]
fn log_wraparound_keeps_most_recent_in_order() {
    // Logging capacity + 5 errors leaves the most recent `capacity` in
    // correct chronological order, oldest of the kept set first.
    let mut log = ErrorLog::new();
    let total = ERROR_LOG_CAPACITY + 5;
    for i in 0..total {
        log.log(
            err(ErrorSource::Device, ErrorLevel::Info, i as u16, i as u64),
            false,
            ErrorResult::Unhandled,
        );
    }
    assert_eq!(log.count(), total);
    let recent = log.recent_entries(ERROR_LOG_CAPACITY);
    assert_eq!(recent.len(), ERROR_LOG_CAPACITY);
    for (k, entry) in recent.iter().enumerate() {
        assert_eq!(entry.error.timestamp(), (5 + k) as u64);
    }
    // Chronological access through `get` agrees.
    for k in 0..ERROR_LOG_CAPACITY {
        let e = log.get(k).expect("kept entry");
        assert_eq!(e.error.timestamp(), (5 + k) as u64);
    }
    assert!(log.get(ERROR_LOG_CAPACITY).is_none());
}

#[test]
fn log_before_wrap_and_clear() {
    let mut log = ErrorLog::new();
    for i in 0..4u64 {
        log.log(err(ErrorSource::Device, ErrorLevel::Info, 0, i), true, ErrorResult::Handled);
    }
    let recent = log.recent_entries(2);
    assert_eq!(recent.len(), 2);
    assert_eq!(recent[0].error.timestamp(), 2);
    assert_eq!(recent[1].error.timestamp(), 3);
    // Asking for more than is kept returns everything kept.
    assert_eq!(log.recent_entries(100).len(), 4);
    log.clear();
    assert_eq!(log.count(), 0);
    assert!(log.get(0).is_none());
    assert_eq!(log.recent_entries(10).len(), 0);
}

#[test]
fn error_handler_table_capacity_and_unregistration() {
    let mut m = ErrorManager::new();
    for k in 0..16 {
        let name = format!("h{}", k);
        assert!(m.register_handler(ErrorHandlerEntry::new(
            ErrorHandler::Respond(ErrorResult::Unhandled),
            k as u8,
            &name,
            None,
            None,
        )));
    }
    assert!(!m.register_handler(ErrorHandlerEntry::new(
        ErrorHandler::Respond(ErrorResult::Unhandled),
        99,
        "overflowing",
        None,
        None,
    )));
    assert_eq!(m.handler_count(), 16);
    assert!(m.unregister_handler("h3"));
    assert!(!m.unregister_handler("h3"));
    assert_eq!(m.handler_count(), 15);
}
