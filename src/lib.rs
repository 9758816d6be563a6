//! A builder for the intermediate representation of a JIT code generator.
//!
//! A [`ctx::Context`] is an arena that owns every type, value, function and
//! block created through it; handles are small indices into that arena. The
//! builder keeps the engine's rules on the recording itself (blocks end in
//! exactly one terminator, opaque structs receive their fields once, derived
//! types are interned) so that a context can be checked before it is handed
//! to the native engine for compilation.
pub mod block;
pub mod field;
pub mod function;
pub mod location;
pub mod lvalue;
pub mod parameter;
pub mod rvalue;
pub mod structs;
mod text;
pub mod ty;
pub mod ctx;
pub mod prim;
