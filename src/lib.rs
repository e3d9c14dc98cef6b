//! Typed callbacks for the named signals of a native GUI toolkit's objects.
//!
//! `signal` holds the table of signals (their names, the category that declares
//! each, and how their arguments and results are converted) and the trampoline
//! that carries one emission into a callback and its result back. `hub` connects
//! callbacks and emits signals with the native dispatch contract, and `connect`
//! gives each object category its registration methods. `translate` has the
//! native boolean and string encodings, and `recent_data` the native form of a
//! record of recently used resources.

pub mod connect;
pub mod hub;
pub mod recent_data;
pub mod signal;
pub mod translate;
