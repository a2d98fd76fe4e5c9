use dynamorio_rs::event::{fire_exit, register_exit_handler, register_fork_event};
use dynamorio_rs::exec_memory::ExecAllocator;
use dynamorio_rs::handlers::{LogEntry, RecordingHandler};
use dynamorio_rs::host::{EventKind, HostModel, SlotKind, TeardownStep};
use dynamorio_rs::manager::Manager;
use dynamorio_rs::sync::Mutex;
use dynamorio_rs::wrap::Wrapper;
use dynamorio_rs::ClientId;

#[test]
fn exit_event_end_to_end() {
    let mut host = HostModel::new();
    let mut alloc = ExecAllocator::new();
    let mut handler = Mutex::new(RecordingHandler::new());
    let token = register_exit_handler(&mut host, &mut alloc, 0xd15b, 0xab1e).unwrap();
    assert_eq!(host.registration_count(), 1);
    // The host fires the exit event once, through the generated pointer
    // with zero arguments: the counter must be exactly 1.
    let fired = fire_exit(&host, &token, &mut handler);
    assert!(fired);
    assert_eq!(handler.value.count(), 1);
    assert_eq!(handler.value.log, vec![LogEntry::Exit]);
    assert!(!handler.locked);
}

#[test]
fn exit_token_teardown_is_two_phase_and_idempotent() {
    let mut host = HostModel::new();
    let mut alloc = ExecAllocator::new();
    let mut handler = Mutex::new(RecordingHandler::new());
    let mut token = register_exit_handler(&mut host, &mut alloc, 0xd15b, 0xab1e).unwrap();
    fire_exit(&host, &token, &mut handler);
    assert_eq!(handler.value.count(), 1);
    assert_eq!(alloc.live_count(), 1);

    let entry = token.entry();
    let steps = token.destroy(&mut host, &mut alloc);
    // Strictly unregister-then-free, exactly once.
    assert_eq!(steps.len(), 2);
    assert_eq!(
        steps[0],
        TeardownStep::Unregister { kind: EventKind::Exit, entry }
    );
    match steps[1] {
        TeardownStep::Free { addr, size } => {
            assert_eq!(addr + 16, entry);
            assert_eq!(size, 16 + 13);
        }
        _ => panic!("second step must release the block"),
    }
    assert_eq!(alloc.live_count(), 0);

    // The host is made to retry calling the stale pointer: nothing may be
    // dispatched and the handler state must not change.
    let fired = fire_exit(&host, &token, &mut handler);
    assert!(!fired);
    assert_eq!(handler.value.count(), 1);

    // Destruction is idempotent: no further step, no double release.
    let steps_again = token.destroy(&mut host, &mut alloc);
    assert!(steps_again.is_empty());
    assert_eq!(alloc.live_count(), 0);
}

#[test]
fn exit_registration_failure_leaves_nothing_behind() {
    let mut host = HostModel::new();
    let mut alloc = ExecAllocator::new();
    // Exhaust the model's address space so that allocation must fail: one
    // huge block leaves fewer bytes than the smallest trampoline needs.
    alloc.allocate((u64::MAX - 0x1000 - 10) as usize).unwrap();
    let before = alloc.live_count();
    let result = register_exit_handler(&mut host, &mut alloc, 0x1, 0x2);
    assert!(result.is_err());
    assert_eq!(host.registration_count(), 0);
    assert_eq!(alloc.live_count(), before);
}

#[test]
fn syscall_token_owns_three_registrations_and_one_block() {
    let mut host = HostModel::new();
    let mut alloc = ExecAllocator::new();
    let manager = Manager::new();
    let mut token = manager
        .register_syscall_handler(&mut host, &mut alloc, 0xab1e, 0xf1, 0xb2, 0xa3)
        .unwrap();
    assert_eq!(host.registration_count(), 3);
    assert_eq!(alloc.live_count(), 1);

    let steps = token.destroy(&mut host, &mut alloc);
    assert_eq!(steps.len(), 4);
    assert!(matches!(
        steps[0],
        TeardownStep::Unregister { kind: EventKind::FilterSyscall, .. }
    ));
    assert_eq!(
        steps[1],
        TeardownStep::Unregister { kind: EventKind::BeforeSyscall, entry: 0xb2 }
    );
    assert_eq!(
        steps[2],
        TeardownStep::Unregister { kind: EventKind::AfterSyscall, entry: 0xa3 }
    );
    assert!(matches!(steps[3], TeardownStep::Free { .. }));
    assert_eq!(host.registration_count(), 0);
    assert_eq!(alloc.live_count(), 0);

    let steps_again = token.destroy(&mut host, &mut alloc);
    assert!(steps_again.is_empty());
}

#[test]
fn module_token_registers_and_unregisters_pair() {
    let mut host = HostModel::new();
    let manager = Manager::new();
    let mut token = manager.register_module_handler(&mut host, 0xab1e, 0x10ad, 0x0f0f);
    assert_eq!(host.registration_count(), 2);
    let steps = token.destroy(&mut host);
    assert_eq!(
        steps,
        vec![
            TeardownStep::Unregister { kind: EventKind::ModuleLoad, entry: 0x10ad },
            TeardownStep::Unregister { kind: EventKind::ModuleUnload, entry: 0x0f0f },
        ]
    );
    assert_eq!(host.registration_count(), 0);
    assert!(token.destroy(&mut host).is_empty());
}

#[test]
fn thread_token_registers_and_unregisters_pair() {
    let mut host = HostModel::new();
    let manager = Manager::new();
    let mut token = manager.register_thread_handler(&mut host, 0xab1e, 0x11, 0x22);
    assert_eq!(host.registration_count(), 2);
    let steps = token.destroy(&mut host);
    assert_eq!(steps.len(), 2);
    assert_eq!(host.registration_count(), 0);
}

#[test]
fn basic_block_token_owns_two_blocks() {
    let mut host = HostModel::new();
    let mut alloc = ExecAllocator::new();
    let mut token =
        Manager::instrument_basic_block(&mut host, &mut alloc, 0xab1e, 0xa0a0, 0xb0b0).unwrap();
    assert_eq!(host.registration_count(), 2);
    assert_eq!(alloc.live_count(), 2);
    let steps = token.destroy(&mut host, &mut alloc);
    assert_eq!(steps.len(), 4);
    assert!(matches!(
        steps[0],
        TeardownStep::Unregister { kind: EventKind::BasicBlockAnalysis, .. }
    ));
    assert!(matches!(
        steps[1],
        TeardownStep::Unregister { kind: EventKind::BasicBlockInstrumentation, .. }
    ));
    assert!(matches!(steps[2], TeardownStep::Free { .. }));
    assert!(matches!(steps[3], TeardownStep::Free { .. }));
    assert_eq!(host.registration_count(), 0);
    assert_eq!(alloc.live_count(), 0);
    assert!(token.destroy(&mut host, &mut alloc).is_empty());
}

#[test]
fn fork_slot_last_writer_wins() {
    let mut host = HostModel::new();
    assert_eq!(host.get_slot(SlotKind::Fork), None);
    register_fork_event(&mut host, 0x111);
    assert_eq!(host.get_slot(SlotKind::Fork), Some(0x111));
    register_fork_event(&mut host, 0x222);
    assert_eq!(host.get_slot(SlotKind::Fork), Some(0x222));
    assert_eq!(host.registration_count(), 0);
}

#[test]
fn nudge_slot_is_installed() {
    let mut host = HostModel::new();
    dynamorio_rs::event::register_nudge_event(&mut host, 0x333, ClientId(42));
    assert_eq!(host.get_slot(SlotKind::Nudge), Some(0x333));
}

#[test]
fn bb_slots_install_and_clear() {
    let mut host = HostModel::new();
    let manager = Manager::new();
    manager.register_bb_instrumentation_event(&mut host, Some(0x1), Some(0x2));
    assert_eq!(host.get_slot(SlotKind::BbAnalysis), Some(0x1));
    assert_eq!(host.get_slot(SlotKind::BbInstrumentation), Some(0x2));
    manager.register_bb_instrumentation_event(&mut host, None, Some(0x3));
    assert_eq!(host.get_slot(SlotKind::BbAnalysis), None);
    assert_eq!(host.get_slot(SlotKind::BbInstrumentation), Some(0x3));
}

#[test]
fn module_load_slot_is_installed() {
    let mut host = HostModel::new();
    let manager = Manager::new();
    manager.register_module_load_event(&mut host, 0x444);
    assert_eq!(host.get_slot(SlotKind::ModuleLoad), Some(0x444));
}

#[test]
fn thread_init_and_exit_events_register() {
    let mut host = HostModel::new();
    let manager = Manager::new();
    manager.register_thread_init_event(&mut host, 0x555);
    manager.register_thread_exit_event(&mut host, 0x666);
    assert_eq!(host.registration_count(), 2);
}

#[test]
fn replace_native_accept_and_decline() {
    let mut host = HostModel::new();
    let wrapper = Wrapper::new();
    let declined = wrapper.replace_native(&mut host, 0x4000, 0x9000, 0xab1e, false);
    assert!(declined.is_none());
    assert_eq!(host.registration_count(), 0);

    let mut token = wrapper
        .replace_native(&mut host, 0x4000, 0x9000, 0xab1e, true)
        .unwrap();
    assert_eq!(token.original(), 0x4000);
    assert_eq!(host.registration_count(), 1);

    let steps = token.destroy(&mut host);
    assert_eq!(
        steps,
        vec![TeardownStep::Unregister { kind: EventKind::FunctionReplace, entry: 0x4000 }]
    );
    assert_eq!(host.registration_count(), 0);
    assert!(token.destroy(&mut host).is_empty());
}

#[test]
fn replace_module_function_requires_symbol() {
    let mut host = HostModel::new();
    let wrapper = Wrapper::new();
    let module = dynamorio_rs::module::ModuleData::new(0x1000, 0x2000);
    let missing = wrapper.replace_module_function(&mut host, &module, None, 0x9000, 0xab1e, true);
    assert!(missing.is_none());
    let found = wrapper
        .replace_module_function(&mut host, &module, Some(0x1234), 0x9000, 0xab1e, true)
        .unwrap();
    assert_eq!(found.original(), 0x1234);
}
