//! A meta-tracing execution engine: a baseline bytecode interpreter, a tracer
//! that records hot loops as guarded straight-line traces, a trace executor
//! with guard-failure recovery, and a merge-point controller.
pub mod value;
pub mod bytecode;
pub mod fault;
pub mod binop;
pub mod opt;
pub mod machine;
pub mod interp;
pub mod tracer;
pub mod driver;
pub mod laws;
