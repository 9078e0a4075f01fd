//! A register-based bytecode virtual machine for a dynamically typed,
//! prototype-based object language.
//!
//! The machine owns a heap of objects addressed by [`object_pointer::ObjectPointer`]
//! handles, a table of threads with their call-frame stacks, and the set of
//! files it has already run. Execution is a state machine: `step` performs one
//! iteration of the dispatch loop, and everything that needs the host (the
//! standard streams, the filesystem, floating-point arithmetic, the bytecode
//! parser, starting an operating-system thread) is handed out as a
//! [`host::Request`] and comes back through `resume`.
pub mod object_pointer;
pub mod virtual_machine_result;
pub mod instruction;
pub mod compiled_code;
pub mod object_value;
pub mod object;
pub mod memory_manager;
pub mod host;
pub mod call_frame;
pub mod thread;
pub mod errors;
pub mod text;
pub mod state;
pub mod thread_list;
pub mod virtual_machine;
pub mod instructions;
pub mod interpreter;
pub mod report;
pub mod lifecycle;
pub mod laws;
pub mod soundness;
