//! A framework timer, known by the handle that `WdfTimerCreate` gave.

use vstd::prelude::*;
use crate::status::{
    NTSTATUS, NT_SUCCESS, is_error_type, is_success_status, is_warning_type,
    lemma_status_classes_partition,
};

verus! {

/// The framework's one-byte boolean: zero is false, anything else true.
#[allow(non_camel_case_types)]
pub type BOOLEAN = u8;

/// A framework timer. It is only ever built from a successful
/// `WdfTimerCreate`, and keeps the handle that call wrote.
#[derive(Debug)]
pub struct Timer {
    wdf_timer: usize,
}

impl View for Timer {
    type V = usize;

    /// The handle of the framework object.
    closed spec fn view(&self) -> usize {
        self.wdf_timer
    }
}

impl Timer {
    /// What a creation call that returned `nt_status` and wrote `handle`
    /// comes to: the timer with that handle where the status counts as
    /// success, else that status as the error.
    pub open spec fn creation_outcome(
        nt_status: NTSTATUS,
        handle: usize,
        r: Result<Timer, NTSTATUS>,
    ) -> bool {
        match r {
            Ok(timer) => is_success_status(nt_status) && timer@ == handle,
            Err(e) => !is_success_status(nt_status) && e == nt_status,
        }
    }

    /// Builds the timer from the status that `WdfTimerCreate` returned and
    /// the handle it wrote: `Ok` exactly when the status counts as success
    /// (`NT_SUCCESS`), else `Err` with that status.
    pub fn try_new(nt_status: NTSTATUS, handle: usize) -> (r: Result<Timer, NTSTATUS>)
        ensures
            Self::creation_outcome(nt_status, handle, r),
            nt_status >= 0 ==> r is Ok && r->Ok_0@ == handle,
            nt_status < 0 ==> r == Err::<Timer, NTSTATUS>(nt_status),
    {
        let timer = Timer { wdf_timer: handle };
        if NT_SUCCESS(nt_status) {
            Ok(timer)
        } else {
            Err(nt_status)
        }
    }

    /// A status and a handle decide the outcome of a creation: two outcomes
    /// of the same call agree on success, on the handle kept and on the
    /// error returned. So `create` gives what `try_new` gives.
    pub proof fn lemma_creation_outcome_unique(
        nt_status: NTSTATUS,
        handle: usize,
        r1: Result<Timer, NTSTATUS>,
        r2: Result<Timer, NTSTATUS>,
    )
        requires
            Self::creation_outcome(nt_status, handle, r1),
            Self::creation_outcome(nt_status, handle, r2),
        ensures
            r1 is Ok <==> r2 is Ok,
            r1 is Ok ==> r1->Ok_0@ == r2->Ok_0@,
            r1 is Err ==> r1 == r2,
    {
    }

    /// The same as [`Timer::try_new`].
    pub fn create(nt_status: NTSTATUS, handle: usize) -> (r: Result<Timer, NTSTATUS>)
        ensures
            Self::creation_outcome(nt_status, handle, r),
            nt_status >= 0 ==> r is Ok && r->Ok_0@ == handle,
            nt_status < 0 ==> r == Err::<Timer, NTSTATUS>(nt_status),
    {
        Self::try_new(nt_status, handle)
    }

    /// The handle to pass to `WdfTimerStart` and `WdfTimerStop`.
    pub fn handle(&self) -> (r: usize)
        ensures
            r == self@,
    {
        self.wdf_timer
    }
}

/// The framework boolean that stands for `b`: 1 for true, 0 for false.
pub open spec fn boolean_of(b: bool) -> BOOLEAN {
    if b {
        1
    } else {
        0
    }
}

/// The `bool` that a framework boolean stands for.
pub open spec fn bool_of(raw: BOOLEAN) -> bool {
    raw != 0
}

/// The `Wait` argument of `WdfTimerStop` for `wait`.
pub fn stop_wait_argument(wait: bool) -> (r: BOOLEAN)
    ensures
        r == boolean_of(wait),
{
    if wait {
        1
    } else {
        0
    }
}

/// What the framework's answer to `WdfTimerStart` or `WdfTimerStop` says:
/// true exactly when it is not zero.
pub fn timer_call_result(raw: BOOLEAN) -> (r: bool)
    ensures
        r == bool_of(raw),
{
    raw != 0
}

/// A `bool` handed to the framework and read back is the same `bool`.
pub proof fn lemma_boolean_round_trip(b: bool)
    ensures
        bool_of(boolean_of(b)) == b,
{
}

/// Creation succeeds exactly on a non-negative status (`NT_SUCCESS`), and
/// then the object hands back, unchanged, every bit of the handle the
/// framework wrote; on a negative status (warning or error) it fails with
/// that very status. This holds of `try_new` and of `create` alike.
pub proof fn lemma_timer_creation_keeps_handle(
    nt_status: NTSTATUS,
    handle: usize,
    r_try_new: Result<Timer, NTSTATUS>,
    r_create: Result<Timer, NTSTATUS>,
)
    requires
        call_ensures(Timer::try_new, (nt_status, handle), r_try_new),
        call_ensures(Timer::create, (nt_status, handle), r_create),
    ensures
        r_try_new is Ok <==> nt_status >= 0,
        r_create is Ok <==> nt_status >= 0,
        nt_status >= 0 ==> forall|h: usize|
            #![trigger call_ensures(Timer::handle, (&r_try_new->Ok_0,), h)]
            call_ensures(Timer::handle, (&r_try_new->Ok_0,), h) ==> h == handle,
        nt_status >= 0 ==> forall|h: usize|
            #![trigger call_ensures(Timer::handle, (&r_create->Ok_0,), h)]
            call_ensures(Timer::handle, (&r_create->Ok_0,), h) ==> h == handle,
        nt_status < 0 ==> r_try_new == Err::<Timer, NTSTATUS>(nt_status),
        nt_status < 0 ==> r_create == Err::<Timer, NTSTATUS>(nt_status),
        is_warning_type(nt_status) ==> r_try_new == Err::<Timer, NTSTATUS>(nt_status),
        is_error_type(nt_status) ==> r_try_new == Err::<Timer, NTSTATUS>(nt_status),
{
    lemma_status_classes_partition(nt_status);
}

} // verus!
