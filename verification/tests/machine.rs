use guest_vm::engine::{EngineStep, GuestEngine, ImportCall, InstanceExports};
use guest_vm::errors::{NewErr, RunErr, StartErr, Trap};
use guest_vm::jit::{ExecOutcome, ImportResolver, Jit, Thread};
use guest_vm::memory::LinearMemory;
use guest_vm::module_info::{ExportKind, ImportEntry, ImportKind, ModuleInfo};
use guest_vm::primitives::{Signature, ValueType, WasmValue};

/// An engine that replays a fixed script of steps and checks the replies the
/// machine hands back.
struct ScriptEngine {
    memory: Option<Vec<u8>>,
    steps: Vec<EngineStep>,
    expected_replies: Vec<Option<WasmValue>>,
}

impl ScriptEngine {
    fn new(steps: Vec<EngineStep>) -> ScriptEngine {
        ScriptEngine { memory: None, steps, expected_replies: Vec::new() }
    }
}

impl GuestEngine for ScriptEngine {
    fn instantiate(&mut self) -> Result<InstanceExports, Trap> {
        Ok(InstanceExports {
            memory: self.memory.take().map(LinearMemory::new),
            indirect_table: None,
        })
    }

    fn start(&mut self, _memory: &mut Option<LinearMemory>) -> EngineStep {
        self.steps.remove(0)
    }

    fn resume(&mut self, _memory: &mut Option<LinearMemory>, reply: Option<WasmValue>) -> EngineStep {
        if !self.expected_replies.is_empty() {
            let expected = self.expected_replies.remove(0);
            assert_eq!(reply, expected);
        }
        self.steps.remove(0)
    }
}

/// An engine that must never be reached.
struct PanicEngine;

impl GuestEngine for PanicEngine {
    fn instantiate(&mut self) -> Result<InstanceExports, Trap> {
        panic!("the engine must not be touched");
    }

    fn start(&mut self, _memory: &mut Option<LinearMemory>) -> EngineStep {
        panic!("the engine must not be touched");
    }

    fn resume(&mut self, _memory: &mut Option<LinearMemory>, _reply: Option<WasmValue>) -> EngineStep {
        panic!("the engine must not be touched");
    }
}

/// An engine whose instantiation traps.
struct TrapOnInstantiate;

impl GuestEngine for TrapOnInstantiate {
    fn instantiate(&mut self) -> Result<InstanceExports, Trap> {
        Err(Trap::Aborted("instantiation failed".to_string()))
    }

    fn start(&mut self, _memory: &mut Option<LinearMemory>) -> EngineStep {
        panic!("an instantiation trap is reported without running the engine");
    }

    fn resume(&mut self, _memory: &mut Option<LinearMemory>, _reply: Option<WasmValue>) -> EngineStep {
        panic!("an instantiation trap is reported without running the engine");
    }
}

/// Resolves `env.log` to identifier 7 and `env.read` to identifier 9.
struct MapResolver;

impl ImportResolver for MapResolver {
    fn resolve(&mut self, module: &str, name: &str, _signature: &Signature) -> Result<usize, ()> {
        match (module, name) {
            ("env", "log") => Ok(7),
            ("env", "read") => Ok(9),
            _ => Err(()),
        }
    }
}

/// Rejects every import.
struct FailResolver;

impl ImportResolver for FailResolver {
    fn resolve(&mut self, _module: &str, _name: &str, _signature: &Signature) -> Result<usize, ()> {
        Err(())
    }
}

fn func_import(module: &str, name: &str, params: Vec<ValueType>, result: Option<ValueType>) -> ImportEntry {
    ImportEntry {
        module: module.to_string(),
        name: name.to_string(),
        kind: ImportKind::Function(Signature { params, result }),
    }
}

fn plain_module(imports: Vec<ImportEntry>) -> ModuleInfo {
    ModuleInfo { imports, start: Some(ExportKind::Function) }
}

#[test]
fn zero_imports_finishes() {
    let engine = ScriptEngine::new(vec![EngineStep::Finished(Some(WasmValue::I32(1)))]);
    let mut vm = Jit::new(&plain_module(Vec::new()), engine, "main", &mut MapResolver).unwrap();
    assert!(!vm.is_poisoned());
    let thread = vm.thread(0).unwrap();
    match thread.run(None).unwrap() {
        ExecOutcome::ThreadFinished { thread_index, return_value, user_data } => {
            assert_eq!(thread_index, 0);
            assert_eq!(return_value, Some(WasmValue::I32(1)));
            assert_eq!(user_data, "main");
        }
        ExecOutcome::Interrupted { .. } => panic!("a module without imports cannot be interrupted"),
        ExecOutcome::Errored { .. } => panic!("the guest finished normally"),
    }
    assert!(vm.is_poisoned());
}

#[test]
fn import_call_roundtrip() {
    // The guest calls `env.log(42)` (no result), then the entry point
    // returns 1.
    let mut engine = ScriptEngine::new(vec![
        EngineStep::Import(ImportCall {
            import_index: 0,
            parameters: vec![WasmValue::I32(42)],
        }),
        EngineStep::Finished(Some(WasmValue::I32(1))),
    ]);
    engine.expected_replies = vec![None];
    let module = plain_module(vec![func_import("env", "log", vec![ValueType::I32], None)]);
    let mut vm = Jit::new(&module, engine, (), &mut MapResolver).unwrap();
    let thread = vm.thread(0).unwrap();
    let (thread, id, params) = match thread.run(None).unwrap() {
        ExecOutcome::Interrupted { thread, id, params } => (thread, id, params),
        _ => panic!("the first run must be interrupted by the import call"),
    };
    assert_eq!(id, 7);
    assert_eq!(params, vec![WasmValue::I32(42)]);
    match thread.run(None).unwrap() {
        ExecOutcome::ThreadFinished { return_value, .. } => {
            assert_eq!(return_value, Some(WasmValue::I32(1)));
        }
        _ => panic!("the guest finishes after the import call"),
    }
}

#[test]
fn reply_value_reaches_the_guest() {
    // The guest calls `env.read()` (one result) and receives 9 back.
    let mut engine = ScriptEngine::new(vec![
        EngineStep::Import(ImportCall { import_index: 0, parameters: Vec::new() }),
        EngineStep::Finished(None),
    ]);
    engine.expected_replies = vec![Some(WasmValue::I64(9))];
    let module = plain_module(vec![func_import("env", "read", Vec::new(), Some(ValueType::I64))]);
    let mut vm = Jit::new(&module, engine, (), &mut MapResolver).unwrap();
    let thread = vm.thread(0).unwrap();
    let thread = match thread.run(None).unwrap() {
        ExecOutcome::Interrupted { thread, id, .. } => {
            assert_eq!(id, 9);
            thread
        }
        _ => panic!("the first run must be interrupted by the import call"),
    };
    match thread.run(Some(WasmValue::I64(9))).unwrap() {
        ExecOutcome::ThreadFinished { return_value, .. } => assert_eq!(return_value, None),
        _ => panic!("the guest finishes after the import call"),
    }
}

#[test]
fn poisoning_is_idempotent() {
    let engine = ScriptEngine::new(vec![EngineStep::Finished(None)]);
    let mut vm = Jit::new(&plain_module(Vec::new()), engine, (), &mut MapResolver).unwrap();
    let thread = vm.thread(0).unwrap();
    assert!(matches!(thread.run(None), Ok(ExecOutcome::ThreadFinished { .. })));
    assert!(vm.is_poisoned());
    assert!(vm.thread(0).is_none());
    for _ in 0..3 {
        let thread = Thread { vm: &mut vm };
        assert!(matches!(thread.run(None), Err(RunErr::Poisoned)));
    }
}

#[test]
fn unresolved_imports_fail_before_any_engine_work() {
    let module = plain_module(vec![
        func_import("env", "first", Vec::new(), None),
        func_import("env", "second", Vec::new(), None),
    ]);
    let err = match Jit::new(&module, PanicEngine, (), &mut FailResolver) {
        Err(e) => e,
        Ok(_) => panic!("construction must fail"),
    };
    assert_eq!(
        err,
        NewErr::UnresolvedFunctionImport { module: "env".to_string(), name: "first".to_string() }
    );
}

#[test]
fn trap_before_any_import_errors_and_poisons() {
    let engine = ScriptEngine::new(vec![EngineStep::Trapped(Trap::Aborted(
        "out-of-bounds access".to_string(),
    ))]);
    let mut vm = Jit::new(&plain_module(Vec::new()), engine, (), &mut MapResolver).unwrap();
    let thread = vm.thread(0).unwrap();
    match thread.run(None).unwrap() {
        ExecOutcome::Errored { thread, error } => {
            assert_eq!(error, Trap::Aborted("out-of-bounds access".to_string()));
            assert!(thread.vm.is_poisoned());
        }
        _ => panic!("a trapped guest must report an errored outcome"),
    }
    assert!(vm.is_poisoned());
}

#[test]
fn non_function_imports_are_rejected() {
    let module = plain_module(vec![ImportEntry {
        module: "env".to_string(),
        name: "table".to_string(),
        kind: ImportKind::Table,
    }]);
    let err = match Jit::new(&module, PanicEngine, (), &mut MapResolver) {
        Err(e) => e,
        Ok(_) => panic!("construction must fail"),
    };
    assert_eq!(
        err,
        NewErr::UnsupportedImportKind { module: "env".to_string(), name: "table".to_string() }
    );
}

#[test]
fn entry_point_must_exist_and_be_a_function() {
    let no_start = ModuleInfo { imports: Vec::new(), start: None };
    let err = match Jit::new(&no_start, PanicEngine, (), &mut MapResolver) {
        Err(e) => e,
        Ok(_) => panic!("construction must fail"),
    };
    assert_eq!(err, NewErr::StartNotFound);

    let bad_start = ModuleInfo { imports: Vec::new(), start: Some(ExportKind::Memory) };
    let err = match Jit::new(&bad_start, PanicEngine, (), &mut MapResolver) {
        Err(e) => e,
        Ok(_) => panic!("construction must fail"),
    };
    assert_eq!(err, NewErr::StartIsntAFunction);
}

#[test]
fn resume_value_arity_is_checked() {
    // First run must pass no value.
    let engine = ScriptEngine::new(vec![EngineStep::Finished(None)]);
    let mut vm = Jit::new(&plain_module(Vec::new()), engine, (), &mut MapResolver).unwrap();
    let thread = vm.thread(0).unwrap();
    assert!(matches!(
        thread.run(Some(WasmValue::I32(1))),
        Err(RunErr::BadResumeValue { expected_value: false })
    ));
    assert!(!vm.is_poisoned());

    // An import without a result must be answered with no value; the
    // rejected attempt has no effect and the right reply still works.
    let engine = ScriptEngine::new(vec![
        EngineStep::Import(ImportCall { import_index: 0, parameters: Vec::new() }),
        EngineStep::Finished(None),
    ]);
    let module = plain_module(vec![func_import("env", "log", vec![ValueType::I32], None)]);
    let mut vm = Jit::new(&module, engine, (), &mut MapResolver).unwrap();
    let thread = vm.thread(0).unwrap();
    assert!(matches!(thread.run(None), Ok(ExecOutcome::Interrupted { .. })));
    let thread = vm.thread(0).unwrap();
    assert!(matches!(
        thread.run(Some(WasmValue::I32(5))),
        Err(RunErr::BadResumeValue { expected_value: false })
    ));
    assert!(!vm.is_poisoned());
    let thread = vm.thread(0).unwrap();
    assert!(matches!(thread.run(None), Ok(ExecOutcome::ThreadFinished { .. })));
}

#[test]
fn unknown_import_index_errors_and_poisons() {
    let engine = ScriptEngine::new(vec![EngineStep::Import(ImportCall {
        import_index: 5,
        parameters: Vec::new(),
    })]);
    let module = plain_module(vec![func_import("env", "log", Vec::new(), None)]);
    let mut vm = Jit::new(&module, engine, (), &mut MapResolver).unwrap();
    let thread = vm.thread(0).unwrap();
    match thread.run(None).unwrap() {
        ExecOutcome::Errored { error, .. } => assert_eq!(error, Trap::UnknownImport(5)),
        _ => panic!("an out-of-range import index must error"),
    }
    assert!(vm.is_poisoned());
}

#[test]
fn instantiation_trap_surfaces_on_the_first_run() {
    let mut vm = Jit::new(&plain_module(Vec::new()), TrapOnInstantiate, (), &mut MapResolver)
        .unwrap();
    assert!(!vm.is_poisoned());
    let thread = vm.thread(0).unwrap();
    match thread.run(None).unwrap() {
        ExecOutcome::Errored { error, .. } => {
            assert_eq!(error, Trap::Aborted("instantiation failed".to_string()));
        }
        _ => panic!("the held instantiation trap must be reported as errored"),
    }
    assert!(vm.is_poisoned());
    assert!(vm.thread(0).is_none());
    let thread = Thread { vm: &mut vm };
    assert!(matches!(thread.run(None), Err(RunErr::Poisoned)));
}

#[test]
fn user_data_lifecycle() {
    // User data can be read and changed through the handle, is carried out
    // by the finish outcome exactly once, and is gone afterwards.
    let engine = ScriptEngine::new(vec![
        EngineStep::Import(ImportCall { import_index: 0, parameters: Vec::new() }),
        EngineStep::Finished(None),
    ]);
    let module = plain_module(vec![func_import("env", "log", Vec::new(), None)]);
    let mut vm = Jit::new(&module, engine, 10u64, &mut MapResolver).unwrap();
    let thread = vm.thread(0).unwrap();
    let thread = match thread.run(None).unwrap() {
        ExecOutcome::Interrupted { thread, .. } => thread,
        _ => panic!("the guest calls one import first"),
    };
    assert_eq!(thread.index(), 0);
    let mut thread = thread;
    assert_eq!(*thread.user_data(), 10);
    *thread.user_data() = 14;
    let data = thread.into_user_data();
    assert_eq!(*data, 14);
    *data = 11;
    let thread = vm.thread(0).unwrap();
    match thread.run(None).unwrap() {
        ExecOutcome::ThreadFinished { user_data, .. } => assert_eq!(user_data, 11),
        _ => panic!("the guest finishes after the import call"),
    }
    assert_eq!(vm.into_user_datas(), None);
}

#[test]
fn user_data_is_yielded_when_never_taken() {
    let engine = ScriptEngine::new(vec![EngineStep::Finished(None)]);
    let vm = Jit::new(&plain_module(Vec::new()), engine, 5u32, &mut MapResolver).unwrap();
    assert_eq!(vm.num_threads(), 1);
    assert_eq!(vm.into_user_datas(), Some(5));
}

#[test]
fn further_threads_cannot_be_started() {
    let engine = ScriptEngine::new(vec![EngineStep::Finished(None)]);
    let mut vm = Jit::new(&plain_module(Vec::new()), engine, (), &mut MapResolver).unwrap();
    assert!(matches!(
        vm.start_thread_by_id(1, Vec::new(), ()),
        Err(StartErr::InvalidThreadId)
    ));
    assert!(vm.thread(1).is_none());
    assert!(vm.thread(0).is_some());
}
