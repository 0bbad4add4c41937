//! The boundary to the embedded bytecode engine.
//!
//! The engine that decodes, validates and executes the guest program is an
//! external collaborator, specified only at this interface. A host import
//! call must be able to suspend guest execution for an unbounded time; an
//! engine meets this by reporting the pending import call as a step outcome
//! and picking execution up again, inside the call, when it is next resumed.

use vstd::prelude::*;
use crate::coroutine::{BodyStep, CoroutineBody};
use crate::errors::Trap;
use crate::memory::LinearMemory;
use crate::primitives::WasmValue;

verus! {

/// An import call intercepted inside the engine: which of the module's
/// imports was invoked (by its position in the module's import list) and
/// with what arguments.
pub struct ImportCall {
    /// Position of the invoked import in the module's import list.
    pub import_index: usize,
    /// The call's arguments, in order.
    pub parameters: Vec<WasmValue>,
}

/// What one slice of guest execution did.
pub enum EngineStep {
    /// The guest invoked an import; execution is suspended inside that call
    /// until the engine is resumed with the call's result.
    Import(ImportCall),
    /// The entry point returned, with its return value if it has one.
    Finished(Option<WasmValue>),
    /// Guest execution aborted.
    Trapped(Trap),
}

/// What instantiation produced: the exports the driver captures before any
/// guest bytecode runs.
pub struct InstanceExports {
    /// The exported linear memory, when the module exports one.
    pub memory: Option<LinearMemory>,
    /// Element count of the exported indirect-call table, when the module
    /// exports one.
    pub indirect_table: Option<u32>,
}

/// An embedded engine bound to one guest module.
///
/// `instantiate` is called exactly once, before anything else; `start` is
/// called exactly once afterwards and begins the entry point; `resume` is
/// called after each [`EngineStep::Import`], carrying the import call's
/// result (`None` for an import whose signature declares no result). After
/// `Finished` or `Trapped` the engine is never called again.
///
/// `start` and `resume` receive the guest's linear memory — the one
/// `instantiate` reported — and may read and write it freely while they run:
/// guest stores become visible to the driver when the step returns, and what
/// the driver wrote between steps is visible to the guest. The driver never
/// touches the memory while a step is in progress.
pub trait GuestEngine {
    /// Instantiates the module and reports its exports, or the trap that
    /// aborted instantiation.
    fn instantiate(&mut self) -> Result<InstanceExports, Trap>;

    /// Begins executing the entry point.
    fn start(&mut self, memory: &mut Option<LinearMemory>) -> EngineStep;

    /// Continues execution inside the pending import call, which returns
    /// `reply` to the guest.
    fn resume(&mut self, memory: &mut Option<LinearMemory>, reply: Option<WasmValue>) -> EngineStep;
}

/// The coroutine body that runs the guest: each step hands one resume value
/// and the guest's linear memory to the engine and runs guest bytecode until
/// the next suspension point.
pub struct EngineBody<E: GuestEngine> {
    engine: E,
    memory: Option<LinearMemory>,
}

impl<E: GuestEngine> EngineBody<E> {
    /// The guest's linear memory as the body holds it between steps.
    pub closed spec fn mem(&self) -> Option<LinearMemory> {
        self.memory
    }

    /// Contents of the guest's linear memory, when the module exports one.
    pub open spec fn memory_view(&self) -> Option<Seq<u8>> {
        match self.mem() {
            Some(m) => Some(m@),
            None => None,
        }
    }

    /// Wraps an instantiated engine, with the linear memory its
    /// instantiation exported, as a coroutine body.
    pub fn new(engine: E, memory: Option<LinearMemory>) -> (r: EngineBody<E>)
        ensures
            r.mem() == memory,
    {
        EngineBody { engine, memory }
    }

    /// The linear memory between steps.
    pub fn memory(&self) -> (r: &Option<LinearMemory>)
        ensures
            *r == self.mem(),
    {
        &self.memory
    }

    /// The linear memory between steps, mutably.
    pub fn memory_mut(&mut self) -> (r: &mut Option<LinearMemory>)
        ensures
            *r == old(self).mem(),
            final(self).mem() == *final(r),
    {
        &mut self.memory
    }
}

impl<E: GuestEngine> CoroutineBody for EngineBody<E> {
    type Resume = Option<WasmValue>;

    type Yield = ImportCall;

    type Return = Result<Option<WasmValue>, Trap>;

    fn step(&mut self, resume: Option<Option<WasmValue>>) -> BodyStep<
        ImportCall,
        Result<Option<WasmValue>, Trap>,
    > {
        let step = match resume {
            None => self.engine.start(&mut self.memory),
            Some(reply) => self.engine.resume(&mut self.memory, reply),
        };
        match step {
            EngineStep::Import(call) => BodyStep::Yielded(call),
            EngineStep::Finished(value) => BodyStep::Done(Ok(value)),
            EngineStep::Trapped(trap) => BodyStep::Done(Err(trap)),
        }
    }
}

} // verus!
