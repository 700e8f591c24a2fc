//! Run-time binding layer for a natively supplied GUI toolkit.
//!
//! The crate locates the toolkit's shared-library files next to the running
//! executable, plans the one-time re-launch that fixes the dynamic loader's
//! search path, resolves a fixed table of exported symbols, and exposes the
//! bound functions through a typed facade that marshals text to and from the
//! native C-string representation and translates the toolkit's sentinel
//! return codes.
//!
//! Opening a shared library and invoking a resolved function pointer are
//! inherently unsafe operations; they live outside this crate, behind the
//! [`binder::NativeLibrary`] capability trait. Everything here - path
//! resolution, the re-launch plan, symbol binding, text marshalling and
//! sentinel translation - is verified.

pub mod binder;
pub mod iup;
pub mod lifecycle;
pub mod path;
pub mod prelude;
pub mod relaunch;
pub mod stub;
pub mod text;
pub mod xerror;
