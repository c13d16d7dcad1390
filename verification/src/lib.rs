//! # Thread scoped reference
//!
//! A per-thread, per-slot cell that temporarily publishes a value for the
//! duration of a caller-supplied body, so that code the caller does not
//! control — and cannot pass extra arguments to — can read that value while
//! the body runs. The published value is never observable after the
//! publishing call returns: [`Scope::scoped`] restores the cell's prior
//! contents on return, whatever the body left in it, so nested publications
//! behave like a stack and each one hands back its predecessor's value.
//!
//! A reader anywhere inside the body calls [`Scope::with`], which runs a
//! function with the currently published value, or with absence if nothing is
//! published — absence is a normal optional outcome, not an error.
//!
//! [`laws`] states the publish/restore discipline over the scope's view and
//! proves its guarantees for every state, every value and every finite
//! nesting depth. The thread-local registry that hands out one independent,
//! initially empty scope per (thread, slot) is the host environment's part
//! and stays outside this library, as does restoration on the unwinding path
//! of a panicking body, which that glue performs with a drop guard.

pub mod laws;
mod scope;

pub use scope::Scope;
pub use scope::read_view;
