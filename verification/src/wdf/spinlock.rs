//! A framework spin lock, known by the handle that `WdfSpinLockCreate` gave.

use vstd::prelude::*;
use crate::status::{
    NTSTATUS, NT_SUCCESS, is_error_type, is_success_status, is_warning_type,
    lemma_status_classes_partition,
};

verus! {

/// A framework spin lock. It is only ever built from a successful
/// `WdfSpinLockCreate`, and keeps the handle that call wrote.
#[derive(Debug)]
pub struct SpinLock {
    wdf_spin_lock: usize,
}

impl View for SpinLock {
    type V = usize;

    /// The handle of the framework object.
    closed spec fn view(&self) -> usize {
        self.wdf_spin_lock
    }
}

impl SpinLock {
    /// What a creation call that returned `nt_status` and wrote `handle`
    /// comes to: the lock with that handle where the status counts as
    /// success, else that status as the error.
    pub open spec fn creation_outcome(
        nt_status: NTSTATUS,
        handle: usize,
        r: Result<SpinLock, NTSTATUS>,
    ) -> bool {
        match r {
            Ok(lock) => is_success_status(nt_status) && lock@ == handle,
            Err(e) => !is_success_status(nt_status) && e == nt_status,
        }
    }

    /// Builds the spin lock from the status that `WdfSpinLockCreate`
    /// returned and the handle it wrote: `Ok` exactly when the status counts
    /// as success (`NT_SUCCESS`), else `Err` with that status.
    pub fn try_new(nt_status: NTSTATUS, handle: usize) -> (r: Result<SpinLock, NTSTATUS>)
        ensures
            Self::creation_outcome(nt_status, handle, r),
            nt_status >= 0 ==> r is Ok && r->Ok_0@ == handle,
            nt_status < 0 ==> r == Err::<SpinLock, NTSTATUS>(nt_status),
    {
        let spin_lock = SpinLock { wdf_spin_lock: handle };
        if NT_SUCCESS(nt_status) {
            Ok(spin_lock)
        } else {
            Err(nt_status)
        }
    }

    /// A status and a handle decide the outcome of a creation: two outcomes
    /// of the same call agree on success, on the handle kept and on the
    /// error returned. So `create` gives what `try_new` gives.
    pub proof fn lemma_creation_outcome_unique(
        nt_status: NTSTATUS,
        handle: usize,
        r1: Result<SpinLock, NTSTATUS>,
        r2: Result<SpinLock, NTSTATUS>,
    )
        requires
            Self::creation_outcome(nt_status, handle, r1),
            Self::creation_outcome(nt_status, handle, r2),
        ensures
            r1 is Ok <==> r2 is Ok,
            r1 is Ok ==> r1->Ok_0@ == r2->Ok_0@,
            r1 is Err ==> r1 == r2,
    {
    }

    /// The same as [`SpinLock::try_new`].
    pub fn create(nt_status: NTSTATUS, handle: usize) -> (r: Result<SpinLock, NTSTATUS>)
        ensures
            Self::creation_outcome(nt_status, handle, r),
            nt_status >= 0 ==> r is Ok && r->Ok_0@ == handle,
            nt_status < 0 ==> r == Err::<SpinLock, NTSTATUS>(nt_status),
    {
        Self::try_new(nt_status, handle)
    }

    /// The handle to pass to `WdfSpinLockAcquire` and `WdfSpinLockRelease`.
    pub fn handle(&self) -> (r: usize)
        ensures
            r == self@,
    {
        self.wdf_spin_lock
    }
}

/// Creation succeeds exactly on a non-negative status (`NT_SUCCESS`), and
/// then the object hands back, unchanged, every bit of the handle the
/// framework wrote; on a negative status (warning or error) it fails with
/// that very status. This holds of `try_new` and of `create` alike.
pub proof fn lemma_lock_creation_keeps_handle(
    nt_status: NTSTATUS,
    handle: usize,
    r_try_new: Result<SpinLock, NTSTATUS>,
    r_create: Result<SpinLock, NTSTATUS>,
)
    requires
        call_ensures(SpinLock::try_new, (nt_status, handle), r_try_new),
        call_ensures(SpinLock::create, (nt_status, handle), r_create),
    ensures
        r_try_new is Ok <==> nt_status >= 0,
        r_create is Ok <==> nt_status >= 0,
        nt_status >= 0 ==> forall|h: usize|
            #![trigger call_ensures(SpinLock::handle, (&r_try_new->Ok_0,), h)]
            call_ensures(SpinLock::handle, (&r_try_new->Ok_0,), h) ==> h == handle,
        nt_status >= 0 ==> forall|h: usize|
            #![trigger call_ensures(SpinLock::handle, (&r_create->Ok_0,), h)]
            call_ensures(SpinLock::handle, (&r_create->Ok_0,), h) ==> h == handle,
        nt_status < 0 ==> r_try_new == Err::<SpinLock, NTSTATUS>(nt_status),
        nt_status < 0 ==> r_create == Err::<SpinLock, NTSTATUS>(nt_status),
        is_warning_type(nt_status) ==> r_try_new == Err::<SpinLock, NTSTATUS>(nt_status),
        is_error_type(nt_status) ==> r_try_new == Err::<SpinLock, NTSTATUS>(nt_status),
{
    lemma_status_classes_partition(nt_status);
}

} // verus!
