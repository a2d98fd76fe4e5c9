use dynamorio_rs::c_string_bytes;
use dynamorio_rs::context::Context;
use dynamorio_rs::event::{exit_wrapper, fork_event, nudge_event};
use dynamorio_rs::extension::{soft_kills_event, Extension};
use dynamorio_rs::handlers::{EmitFlags, LogEntry, RecordingHandler};
use dynamorio_rs::host::HostModel;
use dynamorio_rs::instruction::{instruction_shape_supported, Instruction, InstructionList};
use dynamorio_rs::basic_block::{bb_analysis_event, bb_instrumentation_event};
use dynamorio_rs::manager::{
    after_syscall_event, before_syscall_event, dispatch_syscall_pair, filter_syscall_event,
    module_load_event, module_unload_event, thread_exit_event, thread_init_event, Manager,
};
use dynamorio_rs::module::ModuleData;
use dynamorio_rs::sync::Mutex;
use dynamorio_rs::syscall::{
    filter_syscall_default, filter_syscall_event as filter_syscall_slot_event,
    register_filter_syscall_event,
};
use dynamorio_rs::wrap::call_wrapper;

#[test]
fn module_load_delivers_descriptor_unchanged() {
    // Synthetic descriptor: start=0x1000, end=0x2000, loaded=true must
    // reach the handler's load method exactly as given.
    let mut handler = Mutex::new(RecordingHandler::new());
    let module = ModuleData::new(0x1000, 0x2000);
    module_load_event(0x77, &module, true, &mut handler);
    assert_eq!(
        handler.value.log,
        vec![LogEntry::Load { context: 0x77, start: 0x1000, end: 0x2000, loaded: true }]
    );
    assert!(!handler.locked);
}

#[test]
fn module_unload_delivers_descriptor() {
    let mut handler = Mutex::new(RecordingHandler::new());
    let module = ModuleData::new(0x4000, 0x5000);
    module_unload_event(0x78, &module, &mut handler);
    assert_eq!(
        handler.value.log,
        vec![LogEntry::Unload { context: 0x78, start: 0x4000, end: 0x5000 }]
    );
}

#[test]
fn syscall_pair_serializes_without_interleaving() {
    // Two dispatches against one shared handler: the log must hold exactly
    // two complete, non-interleaved entries, in the order the lock was
    // granted.
    let mut handler = Mutex::new(RecordingHandler::new());
    dispatch_syscall_pair(&mut handler, 0x1, 11, 0x2, 22);
    assert_eq!(
        handler.value.log,
        vec![
            LogEntry::Before { context: 0x1, sysno: 11 },
            LogEntry::After { context: 0x2, sysno: 22 },
        ]
    );
    assert!(!handler.locked);
}

#[test]
fn syscall_adapters_convert_decisions() {
    let mut handler = Mutex::new(RecordingHandler::new());
    let keep = filter_syscall_event(0x9, 42, &mut handler);
    assert_eq!(keep, 1);
    let proceed = before_syscall_event(0x9, 42, &mut handler);
    assert_eq!(proceed, 1);
    after_syscall_event(0x9, 42, &mut handler);
    assert_eq!(
        handler.value.log,
        vec![
            LogEntry::Filter { context: 0x9, sysno: 42 },
            LogEntry::Before { context: 0x9, sysno: 42 },
            LogEntry::After { context: 0x9, sysno: 42 },
        ]
    );
}

#[test]
fn exit_wrapper_applies_transition_once() {
    let mut handler = Mutex::new(RecordingHandler::new());
    exit_wrapper(&mut handler);
    assert_eq!(handler.value.count(), 1);
    assert_eq!(handler.value.log, vec![LogEntry::Exit]);
}

#[test]
fn bb_adapters_return_default_flags() {
    let mut handler = Mutex::new(RecordingHandler::new());
    let bb = InstructionList::from_raw(0x9, 0xb1);
    let flags = bb_analysis_event(0x9, &bb, true, false, &mut handler);
    assert_eq!(flags, EmitFlags::default());
    let mut bb = bb;
    let instr = Instruction::from_raw(0x9, 0xc1);
    let flags = bb_instrumentation_event(0x9, &mut bb, &instr, false, true, &mut handler);
    assert_eq!(flags.bits, 0);
    assert_eq!(
        handler.value.log,
        vec![
            LogEntry::Analyse { for_trace: true, translating: false },
            LogEntry::Instrument { for_trace: false, translating: true },
        ]
    );
}

#[test]
fn bb_slot_adapters_dispatch_and_default() {
    let mut host = HostModel::new();
    // Empty slots: nothing is dispatched and the default emit flags are
    // reported.
    let (call, flags) = dynamorio_rs::manager::bb_analysis_event(&host, 0x9, 0xb1, true, false);
    assert!(call.is_none());
    assert_eq!(flags.bits, 0);
    let (call, flags) =
        dynamorio_rs::manager::bb_instrumentation_event(&host, 0x9, 0xb1, 0xc1, false, true);
    assert!(call.is_none());
    assert_eq!(flags.bits, 0);
    // Installed handlers: the dispatched call carries the exact argument
    // vector.
    let manager = Manager::new();
    manager.register_bb_instrumentation_event(&mut host, Some(0xa1), Some(0xa2));
    let (call, flags) = dynamorio_rs::manager::bb_analysis_event(&host, 0x9, 0xb1, true, false);
    let call = call.unwrap();
    assert_eq!(call.target, 0xa1);
    assert_eq!(call.args, vec![0x9, 0xb1, 1, 0]);
    assert_eq!(flags.bits, 0);
    let (call, _) =
        dynamorio_rs::manager::bb_instrumentation_event(&host, 0x9, 0xb1, 0xc1, false, true);
    let call = call.unwrap();
    assert_eq!(call.target, 0xa2);
    assert_eq!(call.args, vec![0x9, 0xb1, 0xc1, 0, 1]);
}

#[test]
fn module_load_slot_adapter() {
    let mut host = HostModel::new();
    let module = ModuleData::new(0x1000, 0x2000);
    assert!(dynamorio_rs::module::module_load_event(&host, 0x77, &module, true).is_none());
    let manager = Manager::new();
    manager.register_module_load_event(&mut host, 0x4444);
    let call = dynamorio_rs::module::module_load_event(&host, 0x77, &module, true).unwrap();
    assert_eq!(call.target, 0x4444);
    assert_eq!(call.args, vec![0x77, 0x1000, 0x2000, 1]);
}

#[test]
fn thread_adapters_record_context() {
    let mut handler = Mutex::new(RecordingHandler::new());
    thread_init_event(0x31, &mut handler);
    thread_exit_event(0x32, &mut handler);
    assert_eq!(
        handler.value.log,
        vec![
            LogEntry::ThreadCreate { context: 0x31 },
            LogEntry::ThreadExit { context: 0x32 },
        ]
    );
}

#[test]
fn call_wrapper_forwards_arguments() {
    let mut handler = Mutex::new(RecordingHandler::new());
    let args = vec![5, 6, 7];
    let r = call_wrapper(&args, &mut handler);
    assert_eq!(r, 3);
    assert_eq!(handler.value.log, vec![LogEntry::Call { count: 3 }]);
}

#[test]
fn fork_adapter_dispatches_installed_handler() {
    let mut host = HostModel::new();
    assert!(fork_event(&host, 0x51).is_none());
    dynamorio_rs::event::register_fork_event(&mut host, 0xf0f0);
    let call = fork_event(&host, 0x51).unwrap();
    assert_eq!(call.target, 0xf0f0);
    assert_eq!(call.args, vec![0x51]);
}

#[test]
fn nudge_adapter_forwards_argument() {
    let mut host = HostModel::new();
    assert!(nudge_event(&host, 0x52, 99).is_none());
    dynamorio_rs::event::register_nudge_event(&mut host, 0xabcd, dynamorio_rs::ClientId(7));
    let call = nudge_event(&host, 0x52, 99).unwrap();
    assert_eq!(call.target, 0xabcd);
    assert_eq!(call.args, vec![0x52, 99]);
}

#[test]
fn filter_slot_adapter_and_default() {
    let mut host = HostModel::new();
    assert!(filter_syscall_slot_event(&host, 0x53, -2).is_none());
    assert_eq!(filter_syscall_default(), 0);
    register_filter_syscall_event(&mut host, 0x7777);
    let call = filter_syscall_slot_event(&host, 0x53, -2).unwrap();
    assert_eq!(call.target, 0x7777);
    assert_eq!(call.args, vec![0x53, (-2i32) as u64]);
}

#[test]
fn soft_kills_adapter() {
    let mut host = HostModel::new();
    assert!(soft_kills_event(&host, 123, -9).is_none());
    let extension = Extension::new();
    extension.register_soft_kills(&mut host, 0x8888);
    let call = soft_kills_event(&host, 123, -9).unwrap();
    assert_eq!(call.target, 0x8888);
    assert_eq!(call.args, vec![123, (-9i32) as u64]);
}

#[test]
fn module_range_queries() {
    let module = ModuleData::new(0x1000, 0x2000);
    assert_eq!(module.start(), 0x1000);
    assert_eq!(module.end(), 0x2000);
    assert_eq!(module.range(), (0x1000, 0x2000));
    assert!(!module.contains(0xfff));
    assert!(module.contains(0x1000));
    assert!(module.contains(0x1fff));
    assert!(!module.contains(0x2000));
}

#[test]
fn empty_module_contains_nothing() {
    let module = ModuleData::new(0x3000, 0x3000);
    assert!(!module.contains(0x3000));
}

#[test]
fn decode_sysnum_interprets_host_answer() {
    let manager = Manager::new();
    assert_eq!(manager.decode_sysnum_from_wrapper(-1), None);
    assert_eq!(manager.decode_sysnum_from_wrapper(i32::MIN), None);
    assert_eq!(manager.decode_sysnum_from_wrapper(0), Some(0));
    assert_eq!(manager.decode_sysnum_from_wrapper(61), Some(61));
}

#[test]
fn instruction_builder_shapes() {
    assert!(instruction_shape_supported(1, 1));
    assert!(instruction_shape_supported(1, 2));
    assert!(!instruction_shape_supported(1, 3));
    assert!(!instruction_shape_supported(0, 1));
    assert!(!instruction_shape_supported(2, 1));
}

#[test]
fn context_round_trips_raw_handle() {
    let context = Context::from_raw(0xfeed);
    assert_eq!(context.raw(), 0xfeed);
}

#[test]
fn c_string_bytes_appends_terminator() {
    let text = b"strace".to_vec();
    assert_eq!(c_string_bytes(&text), Some(b"strace\0".to_vec()));
    assert_eq!(c_string_bytes(&Vec::new()), Some(vec![0]));
    let bad = vec![0x61, 0x00, 0x62];
    assert_eq!(c_string_bytes(&bad), None);
}
