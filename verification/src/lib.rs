//! Verified control core for cloaking a window through the shell's
//! unpublished object-model interfaces.
//!
//! Changing a window's "cloak" state means reaching through a chain of
//! undocumented shell interfaces: initialize the object-model runtime on the
//! calling thread in apartment mode, create a root service-provider object,
//! query it for an application-view collection, look up the view for the
//! window handle, and finally invoke the unpublished cloak-setting method on
//! that view. Every acquired handle is reference counted and must be released
//! exactly once, on every exit path, in reverse acquisition order.
//!
//! This crate holds the decision core of that chain: which call comes next,
//! how each outcome is classified, which handles are live, and in what order
//! they are released. The raw interop calls themselves — runtime
//! initialization, object creation, interface queries, and the
//! virtual-dispatch-table invocation — cannot be verified and are performed
//! by a thin unverified shell, which reports each outcome back to the state
//! machine here as a plain status code or handle.
//!
//! - [`apartment`] keeps the per-thread runtime-initialization bookkeeping.
//! - [`chain`] is the per-invocation state machine over the acquisition
//!   chain.
//! - [`errors`] is the failure taxonomy.

pub mod apartment;
pub mod chain;
pub mod errors;
