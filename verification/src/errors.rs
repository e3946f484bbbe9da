//! The failure taxonomy of the cloak chain.

use vstd::prelude::*;

verus! {

/// Why a cloak invocation stopped before the target method reported success.
///
/// Every failure is surfaced to the caller; no step retries, and no step
/// swallows an error.
#[derive(Clone, Copy, Debug, PartialEq, Eq, Structural)]
pub enum CloakError {
    /// The object-model runtime could not be initialized in apartment mode on
    /// the calling thread; the thread cannot use this layer at all.
    ApartmentInitFailed,
    /// The root broker object could not be created, typically because the
    /// shell component is absent or not running.
    ServiceUnavailable,
    /// The broker does not implement the requested (unpublished) collection
    /// interface; likely an operating-system-version incompatibility.
    InterfaceNotSupported,
    /// The window handle is not currently tracked by the shell. A normal,
    /// expected condition (a stale handle), not a defect.
    ViewNotFound,
    /// The dynamic invocation of the cloak-setting method reported a failure.
    /// The status code is opaque and is surfaced for diagnostics.
    MethodCallFailed(i32),
}

} // verus!
