//! A cooperatively scheduled virtual-machine core.
//!
//! The crate models a single guest program driven by a host: the guest runs
//! until it either finishes or calls a host-supplied import, at which point
//! control returns to the host together with the call's identity and
//! arguments; the host later resumes the guest with a reply value.
//!
//! [`coroutine`] holds the resumable-computation primitive the machine is
//! built on; [`engine`] the boundary to the embedded bytecode engine;
//! [`jit`] the machine itself, with its bootstrap and the run-resume
//! protocol; [`memory`] the bounds-checked accessors of the guest's linear
//! memory; [`primitives`] and [`module_info`] the value and module
//! vocabulary; [`random`] the client of the random-data service; and
//! [`net`] the address and error vocabulary of the network interface layer.

pub mod coroutine;
pub mod engine;
pub mod errors;
pub mod jit;
pub mod memory;
pub mod module_info;
pub mod net;
pub mod primitives;
pub mod random;
