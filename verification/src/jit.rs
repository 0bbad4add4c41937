//! The execution driver: a machine that runs one guest thread cooperatively.
//!
//! Bootstrap resolves every import of the module to a host-assigned
//! identifier (or fails), instantiates the module through the engine, and
//! captures the exported linear memory and indirect-call table. Afterwards
//! the host repeatedly obtains a transient [`Thread`] handle and calls
//! [`Thread::run`]: the guest runs until it finishes, traps, or calls an
//! import, and exactly one [`ExecOutcome`] reports which. Once the guest has
//! finished or trapped the machine is permanently poisoned: every further
//! run attempt fails with [`RunErr::Poisoned`] and has no effect.

use vstd::prelude::*;
use crate::coroutine::{Coroutine, RunOut};
use crate::engine::{EngineBody, GuestEngine, ImportCall, InstanceExports};
use crate::errors::{NewErr, RunErr, StartErr, Trap};
use crate::memory::{range_in_bounds, spec_read, spec_write, LinearMemory};
use crate::module_info::{ExportKind, ImportEntry, ImportKind, ModuleInfo};
use crate::primitives::{Signature, WasmValue};

verus! {

/// What one coroutine run step reported: either a pending import call or the
/// guest's terminal result.
pub type EngineEvent = RunOut<ImportCall, Result<Option<WasmValue>, Trap>>;

/// One entry of the import resolution table: the host-assigned identifier of
/// a function import, and whether that import's signature declares a result.
#[derive(Clone, Copy, Debug, PartialEq, Eq, Structural)]
pub struct ResolvedImport {
    /// The identifier the resolver assigned to this import.
    pub id: usize,
    /// Whether the import's signature declares a (single) result.
    pub returns_value: bool,
}

/// The host's import resolver: a mapping from an import's names and
/// signature to a host-assigned numeric identifier, or to a refusal.
///
/// An implementation states its mapping as `spec_resolve` and answers by it;
/// a verified implementation proves that, an unverified one is believed. The
/// machine's contracts tie the identifiers in its resolution table — and so
/// the identifier each interrupted outcome carries — to this mapping.
pub trait ImportResolver {
    /// The mapping this resolver implements. The default refuses every
    /// import; an implementation that resolves any overrides it.
    open spec fn spec_resolve(module: Seq<char>, name: Seq<char>, signature: Signature) -> Result<
        usize,
        (),
    > {
        Err(())
    }

    /// Resolves the import `module`.`name` with the given signature.
    fn resolve(&mut self, module: &str, name: &str, signature: &Signature) -> (r: Result<
        usize,
        (),
    >)
        ensures
            r == Self::spec_resolve(module@, name@, *signature),
    ;
}

/// Whether an import is a function import that the resolver accepts.
pub open spec fn import_resolves<R: ImportResolver>(entry: ImportEntry) -> bool {
    entry.kind matches ImportKind::Function(sig) && R::spec_resolve(
        entry.module@,
        entry.name@,
        sig,
    ) is Ok
}

/// Whether every import of the list is a function import that the resolver
/// accepts.
pub open spec fn all_imports_resolve<R: ImportResolver>(imports: Seq<ImportEntry>) -> bool {
    forall|j: int| 0 <= j < imports.len() ==> import_resolves::<R>(#[trigger] imports[j])
}

/// A resolution table entry records an import exactly: the import is a
/// function, the identifier is the resolver's answer for it, and the
/// recorded result arity is its signature's.
pub open spec fn resolves_to<R: ImportResolver>(entry: ImportEntry, res: ResolvedImport) -> bool {
    entry.kind matches ImportKind::Function(sig) && R::spec_resolve(entry.module@, entry.name@, sig)
        == Ok::<usize, ()>(res.id) && res.returns_value == sig.returns_value_spec()
}

/// The machine's control state, as contracts speak of it: whether it is
/// poisoned, which import (by position) awaits its reply, the import
/// resolution table, and the thread's user data while it is still held.
pub struct MachineModel<T> {
    /// Whether the guest has finished or trapped; permanent once set.
    pub poisoned: bool,
    /// Position (in the resolution table) of the import call awaiting its
    /// reply, or `None` when the guest has not started or is not suspended
    /// inside an import.
    pub pending: Option<usize>,
    /// The import resolution table, fixed at construction.
    pub resolutions: Vec<ResolvedImport>,
    /// The thread's user data, until a finish outcome moves it out.
    pub user_data: Option<T>,
    /// A trap raised during instantiation, held until the first run step
    /// reports it as an errored outcome.
    pub boot_trap: Option<Trap>,
}

/// Whether the pending import call, if any, declares a result; before the
/// guest starts no value is expected.
pub open spec fn spec_expects_value<T>(m: MachineModel<T>) -> bool {
    match m.pending {
        Some(k) => m.resolutions@[k as int].returns_value,
        None => false,
    }
}

/// Whether a resume value's presence matches what the machine expects.
pub open spec fn resume_value_matches<T>(m: MachineModel<T>, value: Option<WasmValue>) -> bool {
    (value is Some) == spec_expects_value(m)
}

/// The outcome of a run step, stripped of the transient thread handle.
pub enum OutcomeModel<T> {
    /// The guest finished; carries the thread's index, the entry point's
    /// return value, and the user data moved out of the machine.
    Finished { thread_index: usize, return_value: Option<WasmValue>, user_data: T },
    /// The guest called an import; carries the import's resolved identifier
    /// and the call's arguments.
    Interrupted { id: usize, params: Vec<WasmValue> },
    /// Guest execution aborted.
    Errored { error: Trap },
}

/// The machine's run step as a function of its state, the resume value, and
/// the event the engine produced: the state afterwards and what the step
/// reports. A poisoned machine rejects the step unchanged whatever the
/// event; so does a resume value of the wrong arity. A held instantiation
/// trap is reported as the errored outcome of the first step, without
/// consulting the engine.
pub open spec fn spec_run<T>(
    m: MachineModel<T>,
    value: Option<WasmValue>,
    ev: EngineEvent,
) -> (MachineModel<T>, Result<OutcomeModel<T>, RunErr>) {
    if m.poisoned {
        (m, Err(RunErr::Poisoned))
    } else if !resume_value_matches(m, value) {
        (m, Err(RunErr::BadResumeValue { expected_value: spec_expects_value(m) }))
    } else if m.boot_trap is Some {
        (
            MachineModel {
                poisoned: true,
                pending: None,
                resolutions: m.resolutions,
                user_data: m.user_data,
                boot_trap: None,
            },
            Ok(OutcomeModel::Errored { error: m.boot_trap->0 }),
        )
    } else {
        match ev {
            RunOut::Interrupted(call) => {
                if call.import_index < m.resolutions@.len() {
                    (
                        MachineModel {
                            poisoned: false,
                            pending: Some(call.import_index),
                            resolutions: m.resolutions,
                            user_data: m.user_data,
                            boot_trap: None,
                        },
                        Ok(
                            OutcomeModel::Interrupted {
                                id: m.resolutions@[call.import_index as int].id,
                                params: call.parameters,
                            },
                        ),
                    )
                } else {
                    (
                        MachineModel {
                            poisoned: true,
                            pending: None,
                            resolutions: m.resolutions,
                            user_data: m.user_data,
                            boot_trap: None,
                        },
                        Ok(OutcomeModel::Errored { error: Trap::UnknownImport(call.import_index) }),
                    )
                }
            },
            RunOut::Finished(result) => match result {
                Ok(v) => (
                    MachineModel {
                        poisoned: true,
                        pending: None,
                        resolutions: m.resolutions,
                        user_data: None,
                        boot_trap: None,
                    },
                    Ok(
                        OutcomeModel::Finished {
                            thread_index: 0,
                            return_value: v,
                            user_data: m.user_data->0,
                        },
                    ),
                ),
                Err(t) => (
                    MachineModel {
                        poisoned: true,
                        pending: None,
                        resolutions: m.resolutions,
                        user_data: m.user_data,
                        boot_trap: None,
                    },
                    Ok(OutcomeModel::Errored { error: t }),
                ),
            },
        }
    }
}

/// How a machine relates to what its instantiation produced: a normal
/// instantiation leaves it with exactly the reported exports and no held
/// trap; a trapped one leaves no exports and the trap, to be reported by the
/// first run step.
pub open spec fn bootstrapped_from<E: GuestEngine, T>(
    m: Jit<E, T>,
    init: Result<InstanceExports, Trap>,
) -> bool {
    match init {
        Ok(exports) => {
            &&& m@.boot_trap is None
            &&& m.memory_view() == (match exports.memory {
                Some(mem) => Some(mem@),
                None => None::<Seq<u8>>,
            })
            &&& m.table_view() == exports.indirect_table
        },
        Err(trap) => {
            &&& m@.boot_trap == Some(trap)
            &&& m.memory_view() is None
            &&& m.table_view() is None
        },
    }
}

/// The machine: owns the coroutine running the guest — which holds the
/// guest's linear memory between steps — the captured indirect-call-table
/// handle, and the single thread's user data.
pub struct Jit<E: GuestEngine, T> {
    main_thread: Coroutine<EngineBody<E>>,
    indirect_table: Option<u32>,
    /// Only one thread is supported; this is its user data.
    thread_user_data: Option<T>,
    resolutions: Vec<ResolvedImport>,
    pending: Option<usize>,
    poisoned: bool,
    boot_trap: Option<Trap>,
}

/// Access to a thread within the virtual machine; a transient, exclusively
/// borrowing view used to drive one run step.
pub struct Thread<'a, E: GuestEngine, T> {
    /// The machine the thread lives in. A handle is nothing more than this
    /// exclusive borrow; building one directly skips only the poison gate of
    /// [`Jit::thread`], which [`Thread::run`] checks again.
    pub vm: &'a mut Jit<E, T>,
}

/// Exactly one outcome is produced per successful run step.
pub enum ExecOutcome<'a, E: GuestEngine, T> {
    /// The thread finished: the entry point returned. Carries the thread's
    /// index, the entry point's return value, and the thread's user data,
    /// which is moved out of the machine exactly once.
    ThreadFinished { thread_index: usize, return_value: Option<WasmValue>, user_data: T },
    /// The thread called an import: carries a fresh handle to the thread,
    /// the import's resolved identifier, and the call's arguments. Resolve
    /// the call and run the thread again with the reply.
    Interrupted { thread: Thread<'a, E, T>, id: usize, params: Vec<WasmValue> },
    /// Guest execution aborted; the machine is poisoned but remains
    /// inspectable through the handle.
    Errored { thread: Thread<'a, E, T>, error: Trap },
}

impl<E: GuestEngine, T> View for Jit<E, T> {
    type V = MachineModel<T>;

    closed spec fn view(&self) -> MachineModel<T> {
        MachineModel {
            poisoned: self.poisoned,
            pending: self.pending,
            resolutions: self.resolutions,
            user_data: self.thread_user_data,
            boot_trap: self.boot_trap,
        }
    }
}

impl<E: GuestEngine, T> Jit<E, T> {
    /// Contents of the guest's linear memory, when the module exports one.
    /// The memory is owned by the running guest: each run step may change
    /// it, and between steps the accessors below read and write it.
    pub closed spec fn memory_view(&self) -> Option<Seq<u8>> {
        self.main_thread.body_view().memory_view()
    }

    /// Element count of the exported indirect-call table, when the module
    /// exports one; captured at instantiation and fixed afterwards.
    pub closed spec fn table_view(&self) -> Option<u32> {
        self.indirect_table
    }

    /// Well-formedness of the machine: the pending import, when there is
    /// one, lies within the resolution table; the user data is held until
    /// the machine is poisoned; the poison flag covers a finished coroutine;
    /// and a held instantiation trap precedes any run. Constructors
    /// establish it and every run step preserves it.
    pub closed spec fn wf(&self) -> bool {
        &&& self.main_thread.finished_spec() ==> self.poisoned
        &&& !self.poisoned ==> self.thread_user_data is Some
        &&& match self.pending {
            Some(k) => k < self.resolutions@.len() && self.main_thread.started_spec(),
            None => true,
        }
        &&& !self.main_thread.started_spec() ==> self.pending is None
        &&& (!self.poisoned && self.main_thread.started_spec()) ==> self.pending is Some
        &&& self.boot_trap is Some ==> (!self.poisoned && !self.main_thread.started_spec()
            && self.pending is None)
    }

    /// Creates a new machine from the given module description.
    ///
    /// The resolver is consulted for each import the module declares, in
    /// order, and must assign a numeric identifier to each; when the guest
    /// later calls an import, that identifier reports which one. A resolver
    /// refusal, an import that is not a function, and a missing or
    /// non-function entry-point export are each fatal, reported as the first
    /// one encountered. Afterwards the engine instantiates the module and
    /// the exports it reports are captured; a trap during instantiation is
    /// held and reported as the errored outcome of the first run step.
    ///
    /// A single main thread, whose user data is passed here, is created and
    /// paused at the start of the module's entry point.
    pub fn new<R: ImportResolver>(
        module: &ModuleInfo,
        engine: E,
        main_thread_user_data: T,
        symbols: &mut R,
    ) -> (r: Result<Jit<E, T>, NewErr>)
        ensures
            r is Ok <==> (all_imports_resolve::<R>(module.imports@)
                && module.has_function_start()),
            match r {
                Ok(m) => {
                    &&& m.wf()
                    &&& !m@.poisoned
                    &&& m@.pending is None
                    &&& m@.user_data == Some(main_thread_user_data)
                    &&& m@.resolutions@.len() == module.imports@.len()
                    &&& forall|j: int|
                        0 <= j < module.imports@.len() ==> resolves_to::<R>(
                            module.imports@[j],
                            #[trigger] m@.resolutions@[j],
                        )
                    &&& module.all_imports_are_functions()
                    &&& module.has_function_start()
                    &&& exists|init: Result<InstanceExports, Trap>|
                        #[trigger] bootstrapped_from(m, init)
                },
                Err(e) => match e {
                    NewErr::UnresolvedFunctionImport { module: em, name: en } => exists|j: int|
                        {
                            &&& 0 <= j < module.imports@.len()
                            &&& (#[trigger] module.imports@[j]).kind matches ImportKind::Function(
                                sig,
                            ) && R::spec_resolve(
                                module.imports@[j].module@,
                                module.imports@[j].name@,
                                sig,
                            ) is Err
                            &&& module.imports@[j].module@ == em@
                            &&& module.imports@[j].name@ == en@
                            &&& forall|k: int|
                                0 <= k < j ==> import_resolves::<R>(#[trigger] module.imports@[k])
                        },
                    NewErr::UnsupportedImportKind { module: em, name: en } => exists|j: int|
                        0 <= j < module.imports@.len() && !(
                        #[trigger] module.imports@[j]).is_function() && module.imports@[j].module@
                            == em@ && module.imports@[j].name@ == en@ && (forall|k: int|
                            0 <= k < j ==> import_resolves::<R>(#[trigger] module.imports@[k])),
                    NewErr::StartNotFound => all_imports_resolve::<R>(module.imports@)
                        && module.start is None,
                    NewErr::StartIsntAFunction => all_imports_resolve::<R>(module.imports@)
                        && module.start is Some && !module.has_function_start(),
                },
            },
    {
        let import_count = module.imports.len();
        let mut resolutions: Vec<ResolvedImport> = Vec::new();
        let mut i: usize = 0;
        while i < import_count
            invariant
                i <= import_count == module.imports@.len(),
                resolutions@.len() == i,
                forall|k: int| 0 <= k < i ==> import_resolves::<R>(#[trigger] module.imports@[k]),
                forall|j: int|
                    0 <= j < i ==> resolves_to::<R>(module.imports@[j], #[trigger] resolutions@[j]),
            decreases import_count - i,
        {
            let entry = &module.imports[i];
            match &entry.kind {
                ImportKind::Function(signature) => {
                    match symbols.resolve(entry.module.as_str(), entry.name.as_str(), signature) {
                        Ok(id) => {
                            resolutions.push(
                                ResolvedImport { id, returns_value: signature.returns_value() },
                            );
                        },
                        Err(()) => {
                            return Err(
                                NewErr::UnresolvedFunctionImport {
                                    module: entry.module.clone(),
                                    name: entry.name.clone(),
                                },
                            );
                        },
                    }
                },
                _ => {
                    return Err(
                        NewErr::UnsupportedImportKind {
                            module: entry.module.clone(),
                            name: entry.name.clone(),
                        },
                    );
                },
            }
            i += 1;
        }
        match module.start {
            Some(ExportKind::Function) => {},
            Some(_) => {
                return Err(NewErr::StartIsntAFunction);
            },
            None => {
                return Err(NewErr::StartNotFound);
            },
        }
        let mut engine = engine;
        let init = engine.instantiate();
        let ghost init_snapshot = init;
        let (memory, indirect_table, boot_trap) = match init {
            Ok(exports) => (exports.memory, exports.indirect_table, None),
            Err(trap) => (None, None, Some(trap)),
        };
        let machine = Jit {
            main_thread: Coroutine::new(EngineBody::new(engine, memory)),
            indirect_table,
            thread_user_data: Some(main_thread_user_data),
            resolutions,
            pending: None,
            poisoned: false,
            boot_trap,
        };
        proof {
            assert(bootstrapped_from(machine, init_snapshot));
        }
        Ok(machine)
    }

    /// Whether the machine is poisoned: its guest has finished or trapped
    /// and it cannot run anymore.
    pub fn is_poisoned(&self) -> (r: bool)
        ensures
            r == self@.poisoned,
    {
        self.poisoned
    }

    /// Starting further threads is not supported: only the single main
    /// thread created at construction exists, so this always fails.
    pub fn start_thread_by_id(
        &mut self,
        id: u32,
        params: Vec<WasmValue>,
        user_data: T,
    ) -> (r: Result<Thread<'_, E, T>, StartErr>)
        ensures
            r matches Err(StartErr::InvalidThreadId),
            *final(self) == *old(self),
    {
        let _ = id;
        let _ = params;
        let _ = user_data;
        Err(StartErr::InvalidThreadId)
    }

    /// The number of threads that are running; always one in this model.
    pub fn num_threads(&self) -> (r: usize)
        ensures
            r == 1,
    {
        1
    }

    /// Returns a handle to the thread with the given index: only index 0
    /// exists, and only while the machine is not poisoned.
    pub fn thread(&mut self, index: usize) -> (r: Option<Thread<'_, E, T>>)
        ensures
            match r {
                Some(h) => {
                    &&& index == 0
                    &&& !old(self)@.poisoned
                    &&& *h.vm == *old(self)
                    &&& *final(self) == *final(h.vm)
                },
                None => {
                    &&& (index != 0 || old(self)@.poisoned)
                    &&& *final(self) == *old(self)
                },
            },
    {
        if index == 0 && !self.is_poisoned() {
            Some(Thread { vm: self })
        } else {
            None
        }
    }

    /// Consumes the machine and yields the thread's user data, unless a
    /// finish outcome already moved it out.
    pub fn into_user_datas(self) -> (r: Option<T>)
        ensures
            r == self@.user_data,
    {
        self.thread_user_data
    }

    /// Copies the given range of the exported linear memory into a vector.
    ///
    /// Fails exactly when no memory export exists or the range does not lie
    /// within the memory's current size.
    pub fn read_memory(&self, offset: u32, size: u32) -> (r: Result<Vec<u8>, ()>)
        ensures
            r is Ok <==> match self.memory_view() {
                Some(mem) => range_in_bounds(mem, offset as int, size as int),
                None => false,
            },
            match r {
                Ok(v) => v@ == spec_read(self.memory_view()->0, offset as int, size as int),
                Err(()) => true,
            },
    {
        match self.main_thread.body().memory() {
            Some(mem) => mem.read(offset, size),
            None => Err(()),
        }
    }

    /// Writes the data at the given location of the exported linear memory.
    ///
    /// Fails exactly when no memory export exists or the range does not lie
    /// within the memory's current size; a failed write changes no byte.
    pub fn write_memory(&mut self, offset: u32, value: &[u8]) -> (r: Result<(), ()>)
        ensures
            final(self)@ == old(self)@,
            r is Ok <==> match old(self).memory_view() {
                Some(mem) => range_in_bounds(mem, offset as int, value@.len() as int),
                None => false,
            },
            final(self).memory_view() == match (r, old(self).memory_view()) {
                (Ok(()), Some(mem)) => Some(spec_write(mem, offset as int, value@)),
                _ => old(self).memory_view(),
            },
            final(self).table_view() == old(self).table_view(),
            old(self).wf() ==> final(self).wf(),
    {
        match self.main_thread.body_mut().memory_mut() {
            Some(mem) => mem.write(offset, value),
            None => Err(()),
        }
    }
}

impl<'a, E: GuestEngine, T> Thread<'a, E, T> {
    /// Starts or continues execution of this thread.
    ///
    /// On the first call for the thread, pass `None`. After an interrupted
    /// outcome, pass the import call's result: a value exactly when the
    /// import's signature declares one; a mismatch is rejected with a typed
    /// error before the guest is touched. On a poisoned machine every call
    /// fails with [`RunErr::Poisoned`] and has no effect. A trap raised at
    /// instantiation is reported by the first call as an errored outcome.
    ///
    /// While the guest runs it owns its linear memory and may change it, so
    /// what [`Jit::memory_view`] describes before the call says nothing of
    /// what it describes after; the accessors read whatever the guest left.
    pub fn run(self, value: Option<WasmValue>) -> (r: Result<ExecOutcome<'a, E, T>, RunErr>)
        requires
            old(self.vm).wf(),
        ensures
            r is Err <==> (old(self.vm)@.poisoned || !resume_value_matches(old(self.vm)@, value)),
            old(self.vm)@.poisoned ==> r == Err::<ExecOutcome<'a, E, T>, RunErr>(RunErr::Poisoned),
            match r {
                Err(e) => {
                    &&& *final(self.vm) == *old(self.vm)
                    &&& (!old(self.vm)@.poisoned ==> e == RunErr::BadResumeValue {
                        expected_value: spec_expects_value(old(self.vm)@),
                    })
                },
                Ok(out) => match out {
                    ExecOutcome::ThreadFinished { thread_index, return_value, user_data } => {
                        &&& thread_index == 0
                        &&& old(self.vm)@.user_data == Some(user_data)
                        &&& final(self.vm).wf()
                        &&& final(self.vm)@ == MachineModel {
                            poisoned: true,
                            pending: None,
                            resolutions: old(self.vm)@.resolutions,
                            user_data: None::<T>,
                            boot_trap: None::<Trap>,
                        }
                        &&& final(self.vm).table_view() == old(self.vm).table_view()
                    },
                    ExecOutcome::Interrupted { thread, id, params } => {
                        &&& thread.vm.wf()
                        &&& thread.vm@.poisoned == false
                        &&& thread.vm@.user_data == old(self.vm)@.user_data
                        &&& thread.vm@.resolutions == old(self.vm)@.resolutions
                        &&& thread.vm@.pending matches Some(k) && k < old(
                            self.vm,
                        )@.resolutions@.len() && old(self.vm)@.resolutions@[k as int].id == id
                        &&& thread.vm@.boot_trap is None
                        &&& thread.vm.table_view() == old(self.vm).table_view()
                        &&& *final(self.vm) == *final(thread.vm)
                    },
                    ExecOutcome::Errored { thread, error } => {
                        &&& thread.vm.wf()
                        &&& thread.vm@ == MachineModel {
                            poisoned: true,
                            pending: None,
                            resolutions: old(self.vm)@.resolutions,
                            user_data: old(self.vm)@.user_data,
                            boot_trap: None::<Trap>,
                        }
                        &&& thread.vm.table_view() == old(self.vm).table_view()
                        &&& *final(self.vm) == *final(thread.vm)
                    },
                },
            },
            exists|ev: EngineEvent|
                match r {
                    Err(e) => #[trigger] spec_run(old(self.vm)@, value, ev) == (
                        old(self.vm)@,
                        Err::<OutcomeModel<T>, RunErr>(e),
                    ),
                    Ok(out) => match out {
                        ExecOutcome::ThreadFinished { thread_index, return_value, user_data } => spec_run(
                            old(self.vm)@,
                            value,
                            ev,
                        ) == (
                            final(self.vm)@,
                            Ok::<OutcomeModel<T>, RunErr>(
                                OutcomeModel::Finished { thread_index, return_value, user_data },
                            ),
                        ),
                        ExecOutcome::Interrupted { thread, id, params } => spec_run(
                            old(self.vm)@,
                            value,
                            ev,
                        ) == (
                            thread.vm@,
                            Ok::<OutcomeModel<T>, RunErr>(OutcomeModel::Interrupted { id, params }),
                        ),
                        ExecOutcome::Errored { thread, error } => spec_run(
                            old(self.vm)@,
                            value,
                            ev,
                        ) == (
                            thread.vm@,
                            Ok::<OutcomeModel<T>, RunErr>(OutcomeModel::Errored { error }),
                        ),
                    },
                },
    {
        let ghost pre = self.vm@;
        if self.vm.poisoned {
            proof {
                let ev: EngineEvent = RunOut::Finished(Ok(None));
                assert(spec_run(pre, value, ev) == (pre, Err::<OutcomeModel<T>, RunErr>(
                    RunErr::Poisoned,
                )));
            }
            return Err(RunErr::Poisoned);
        }
        let expects_value = match self.vm.pending {
            None => false,
            Some(k) => self.vm.resolutions[k].returns_value,
        };
        if expects_value != value.is_some() {
            proof {
                let ev: EngineEvent = RunOut::Finished(Ok(None));
                assert(spec_run(pre, value, ev) == (pre, Err::<OutcomeModel<T>, RunErr>(
                    RunErr::BadResumeValue { expected_value: expects_value },
                )));
            }
            return Err(RunErr::BadResumeValue { expected_value: expects_value });
        }
        let mut held_trap: Option<Trap> = None;
        std::mem::swap(&mut held_trap, &mut self.vm.boot_trap);
        match held_trap {
            Some(error) => {
                self.vm.poisoned = true;
                proof {
                    let ev: EngineEvent = RunOut::Finished(Ok(None));
                    assert(spec_run(pre, value, ev) == (self.vm@, Ok::<
                        OutcomeModel<T>,
                        RunErr,
                    >(OutcomeModel::Errored { error })));
                }
                return Ok(ExecOutcome::Errored { thread: self, error });
            },
            None => {},
        }
        let out = match self.vm.pending {
            None => self.vm.main_thread.run(None),
            Some(_) => self.vm.main_thread.run(Some(value)),
        };
        let ghost ev = out;
        match out {
            RunOut::Finished(Ok(return_value)) => {
                self.vm.poisoned = true;
                self.vm.pending = None;
                let mut taken: Option<T> = None;
                std::mem::swap(&mut taken, &mut self.vm.thread_user_data);
                let user_data = match taken {
                    Some(d) => d,
                    None => vstd::pervasive::unreached(),
                };
                proof {
                    assert(spec_run(pre, value, ev) == (self.vm@, Ok::<
                        OutcomeModel<T>,
                        RunErr,
                    >(OutcomeModel::Finished { thread_index: 0, return_value, user_data })));
                }
                Ok(ExecOutcome::ThreadFinished { thread_index: 0, return_value, user_data })
            },
            RunOut::Finished(Err(error)) => {
                self.vm.poisoned = true;
                self.vm.pending = None;
                proof {
                    assert(spec_run(pre, value, ev) == (self.vm@, Ok::<
                        OutcomeModel<T>,
                        RunErr,
                    >(OutcomeModel::Errored { error })));
                }
                Ok(ExecOutcome::Errored { thread: self, error })
            },
            RunOut::Interrupted(call) => {
                if call.import_index < self.vm.resolutions.len() {
                    let k = call.import_index;
                    self.vm.pending = Some(k);
                    let id = self.vm.resolutions[k].id;
                    proof {
                        assert(spec_run(pre, value, ev) == (self.vm@, Ok::<
                            OutcomeModel<T>,
                            RunErr,
                        >(OutcomeModel::Interrupted { id, params: call.parameters })));
                    }
                    Ok(ExecOutcome::Interrupted { thread: self, id, params: call.parameters })
                } else {
                    self.vm.poisoned = true;
                    self.vm.pending = None;
                    let error = Trap::UnknownImport(call.import_index);
                    proof {
                        assert(spec_run(pre, value, ev) == (self.vm@, Ok::<
                            OutcomeModel<T>,
                            RunErr,
                        >(OutcomeModel::Errored { error })));
                    }
                    Ok(ExecOutcome::Errored { thread: self, error })
                }
            },
        }
    }

    /// The index of the thread; always 0, since only the single main thread
    /// exists.
    pub fn index(&self) -> (r: usize)
        ensures
            r == 0,
    {
        0
    }

    /// A mutable reference to the thread's user data, valid while the thread
    /// has not finished.
    pub fn user_data(&mut self) -> (r: &mut T)
        requires
            (old(self).vm@.user_data is Some),
        ensures
            old(self).vm@.user_data == Some(*r),
            final(self).vm@ == (MachineModel {
                poisoned: old(self).vm@.poisoned,
                pending: old(self).vm@.pending,
                resolutions: old(self).vm@.resolutions,
                user_data: Some(*final(r)),
                boot_trap: old(self).vm@.boot_trap,
            }),
            final(self).vm.memory_view() == old(self).vm.memory_view(),
            old(self).vm.wf() ==> final(self).vm.wf(),
    {
        match &mut self.vm.thread_user_data {
            Some(d) => d,
            None => vstd::pervasive::unreached(),
        }
    }

    /// Turns this handle into a mutable reference to the thread's user data;
    /// the data itself stays owned by the machine.
    pub fn into_user_data(self) -> (r: &'a mut T)
        requires
            (old(self.vm)@.user_data is Some),
        ensures
            old(self.vm)@.user_data == Some(*r),
            final(self.vm)@ == (MachineModel {
                poisoned: old(self.vm)@.poisoned,
                pending: old(self.vm)@.pending,
                resolutions: old(self.vm)@.resolutions,
                user_data: Some(*final(r)),
                boot_trap: old(self.vm)@.boot_trap,
            }),
            final(self.vm).memory_view() == old(self.vm).memory_view(),
            old(self.vm).wf() ==> final(self.vm).wf(),
    {
        match &mut self.vm.thread_user_data {
            Some(d) => d,
            None => vstd::pervasive::unreached(),
        }
    }
}

/// A machine whose module declares no imports never delivers an interrupted
/// outcome: whatever event a run step consumes, it reports the thread
/// finished, errored, or a rejected call.
pub proof fn lemma_no_imports_never_interrupted<T>(
    m: MachineModel<T>,
    value: Option<WasmValue>,
    ev: EngineEvent,
)
    requires
        m.resolutions@.len() == 0,
    ensures
        !(spec_run(m, value, ev).1 matches Ok(OutcomeModel::Interrupted { .. })),
{
}

/// An interrupted run step leaves the thread runnable: the machine is not
/// poisoned afterwards, and the import call that suspended the guest is
/// recorded as awaiting its reply.
pub proof fn lemma_interrupted_stays_runnable<T>(
    m: MachineModel<T>,
    value: Option<WasmValue>,
    ev: EngineEvent,
)
    requires
        spec_run(m, value, ev).1 matches Ok(OutcomeModel::Interrupted { .. }),
    ensures
        !spec_run(m, value, ev).0.poisoned,
        (spec_run(m, value, ev).0.pending matches Some(k) && k
            < spec_run(m, value, ev).0.resolutions@.len()),
        spec_run(m, value, ev).0.user_data == m.user_data,
{
}

/// Poisoning is permanent and idempotent: a run step that reports the thread
/// finished or errored leaves the machine poisoned, and a poisoned machine
/// rejects every further run step with [`RunErr::Poisoned`], unchanged,
/// whatever resume value is passed and whatever event the engine would have
/// produced.
pub proof fn lemma_poisoning_is_permanent<T>(
    m: MachineModel<T>,
    value: Option<WasmValue>,
    ev: EngineEvent,
    value2: Option<WasmValue>,
    ev2: EngineEvent,
)
    requires
        spec_run(m, value, ev).1 matches Ok(out) && !(out matches OutcomeModel::Interrupted { .. }),
    ensures
        spec_run(m, value, ev).0.poisoned,
        spec_run(spec_run(m, value, ev).0, value2, ev2) == (
            spec_run(m, value, ev).0,
            Err::<OutcomeModel<T>, RunErr>(RunErr::Poisoned),
        ),
{
}

} // verus!
