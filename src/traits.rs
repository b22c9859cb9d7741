//! The interface toward the platform adapters.

use vstd::prelude::*;
use crate::channel::ResultProducer;
use crate::types::{PermissionResult, PermissionStatus, PermissionType};

verus! {

/// A platform adapter: one check and one request per permission kind.
pub trait PermissionHandler: Send + Sync {
    /// Whether `r` is an outcome that this adapter's check of `typ` may
    /// report. An adapter that says nothing about its outcomes keeps the
    /// default, which admits every outcome.
    open spec fn check_outcome(&self, typ: PermissionType, r: PermissionResult) -> bool {
        true
    }

    /// Whether `r` is an outcome that this adapter's request of `typ` may
    /// deliver. The default admits every outcome.
    open spec fn request_outcome(&self, typ: PermissionType, r: PermissionResult) -> bool {
        true
    }

    /// The current status of `typ`, without ever showing a consent dialog.
    fn check_permission(&self, typ: PermissionType) -> (r: PermissionResult)
        ensures
            self.check_outcome(typ, r),
    ;

    /// Starts a request of `typ`. The outcome goes into `tx`, once, on every
    /// path, from whatever thread the platform delivers it on; it is one that
    /// `request_outcome` admits.
    fn request_permission(&self, typ: PermissionType, tx: ResultProducer)
        requires
            tx@ is Pending,
    ;
}

/// Whether `adapter` may report `status` for `typ`, from a check or from a request.
pub open spec fn reportable<H: PermissionHandler>(
    adapter: H,
    typ: PermissionType,
    status: PermissionStatus,
) -> bool {
    adapter.check_outcome(typ, Ok(status)) || adapter.request_outcome(typ, Ok(status))
}

} // verus!
