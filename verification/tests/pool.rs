use trap_core::container::TrapSystem;
use trap_core::handler::TrapHandler;
use trap_core::pool::{
    create_process, destroy_process, ContextPool, PoolError, ProcessControlBlock, ProcessHandle,
    CONTEXT_POOL_SIZE,
};
use trap_core::types::{TrapMode, TrapType};

#[test]
fn create_and_destroy() {
    let mut pool: ContextPool<ProcessControlBlock> = ContextPool::new();
    let (id, token, version) = pool.create_context(5).expect("creation");
    assert_eq!(id, 5);
    assert_ne!(token, 0);
    assert_eq!(version, 1);
    assert_eq!(pool.count(), 1);
    assert_eq!(pool.create_context(5), Err(PoolError::ContextExists));
    pool.destroy_context(5).expect("destruction");
    assert_eq!(pool.count(), 0);
    assert_eq!(pool.destroy_context(5), Err(PoolError::ContextNotFound));
}

#[test]
fn pool_fills_up() {
    let mut pool: ContextPool<ProcessControlBlock> = ContextPool::new();
    for id in 0..CONTEXT_POOL_SIZE {
        pool.create_context(id).expect("within capacity");
    }
    assert_eq!(pool.create_context(9999), Err(PoolError::PoolFull));
    assert_eq!(pool.count(), CONTEXT_POOL_SIZE);
}

#[test]
fn token_and_version_guard_access() {
    let mut pool: ContextPool<ProcessControlBlock> = ContextPool::new();
    let (id, token, version) = pool.create_context(3).expect("creation");
    assert!(pool.validate_access(id, token, version).is_ok());
    assert_eq!(pool.validate_access(id, token + 1, version), Err(PoolError::InvalidToken));
    assert_eq!(pool.validate_access(id, token, version + 1), Err(PoolError::ContextDestroyed));
    assert_eq!(pool.validate_access(77, token, version), Err(PoolError::ContextNotFound));

    // After destruction and re-creation of the same identity, the stale
    // token no longer opens the slot.
    pool.destroy_context(3).expect("destruction");
    let (_, token2, version2) = pool.create_context(3).expect("re-creation");
    assert_ne!((token, version), (token2, version2));
    assert!(pool.validate_access(3, token, version).is_err());
    assert!(pool.validate_access(3, token2, version2).is_ok());
}

#[test]
fn live_ids_lists_the_pool_contents() {
    let mut pool: ContextPool<ProcessControlBlock> = ContextPool::new();
    assert!(pool.live_ids().is_empty());
    pool.create_context(7).expect("creation");
    pool.create_context(3).expect("creation");
    pool.create_context(9).expect("creation");
    assert_eq!(pool.live_ids(), vec![7, 3, 9]);
    pool.destroy_context(3).expect("destruction");
    assert_eq!(pool.live_ids(), vec![7, 9]);
}

#[test]
fn with_object_reads_through_a_closure() {
    let mut pool: ContextPool<ProcessControlBlock> = ContextPool::new();
    let (id, token, version) = pool.create_context(11).expect("creation");
    let state = pool.with_object(id, token, version, |p: &ProcessControlBlock| p.state);
    assert_eq!(state, Ok(0));
}

#[test]
fn process_handle_state_and_name() {
    let mut pool: ContextPool<ProcessControlBlock> = ContextPool::new();
    let mut sys = TrapSystem::new();
    let mut handle = create_process(&mut pool, &mut sys, Some(21)).expect("creation");
    assert_eq!(handle.get_state(&pool), Ok(0));
    handle.set_state(&mut pool, 3).expect("state update");
    assert_eq!(handle.get_state(&pool), Ok(3));
    assert_eq!(handle.get_name(&pool).expect("name"), "unnamed");
    handle.set_name(&mut pool, "idle task").expect("name update");
    assert_eq!(handle.get_name(&pool).expect("name"), "idle task");
    // The state survived the rename.
    assert_eq!(handle.get_state(&pool), Ok(3));
    handle.invalidate();
    assert_eq!(handle.get_state(&pool), Err(PoolError::InvalidToken));
}

#[test]
fn stale_handle_is_refused() {
    let mut pool: ContextPool<ProcessControlBlock> = ContextPool::new();
    let mut sys = TrapSystem::new();
    let handle = create_process(&mut pool, &mut sys, Some(30)).expect("creation");
    pool.destroy_context(30).expect("destruction");
    assert_eq!(handle.get_state(&pool), Err(PoolError::ContextNotFound));
    // Recreate the identity: the old handle's token is stale.
    pool.create_context(30).expect("re-creation");
    assert!(handle.get_state(&pool).is_err());
}

#[test]
fn destroying_a_process_cleans_up_its_handlers() {
    let mut pool: ContextPool<ProcessControlBlock> = ContextPool::new();
    let mut sys = TrapSystem::new();
    assert!(sys.initialize(TrapMode::Direct, 0x8020_0000));
    let handle = create_process(&mut pool, &mut sys, None).expect("creation");
    let pid = handle.pid;
    handle
        .register_handler(&mut sys, TrapType::TimerInterrupt, TrapHandler::Acknowledge, 30, "p1")
        .expect("handler registration");
    handle
        .register_handler(&mut sys, TrapType::Breakpoint, TrapHandler::Acknowledge, 30, "p2")
        .expect("handler registration");
    assert_eq!(sys.handler_count(TrapType::TimerInterrupt), 2);
    let removed = destroy_process(&mut pool, &mut sys, pid).expect("destruction");
    assert_eq!(removed, 2);
    assert_eq!(sys.handler_count(TrapType::TimerInterrupt), 1);
    assert_eq!(sys.handler_count(TrapType::Breakpoint), 1);
    assert_eq!(pool.count(), 0);
}

#[test]
fn invalidated_handle_cannot_register() {
    let mut sys = TrapSystem::new();
    assert!(sys.initialize(TrapMode::Direct, 0x8020_0000));
    let handle = ProcessHandle { pid: 4, token: 1, version: 1, valid: false };
    assert_eq!(
        handle.register_handler(
            &mut sys,
            TrapType::TimerInterrupt,
            TrapHandler::Acknowledge,
            30,
            "never",
        ),
        Err(PoolError::InvalidToken)
    );
    assert_eq!(sys.handler_count(TrapType::TimerInterrupt), 1);
}
