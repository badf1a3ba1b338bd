//! Process-level policy: the realtime priority a thread asks for, the
//! gate on capability-scoped actions, and the rule that demotes
//! permission denials from best-effort privileged operations to
//! warnings.  The scheduler, capability and memory-locking calls
//! themselves are made by the surrounding process.
use vstd::prelude::*;

verus! {

/// How a privileged operation failed.
#[derive(Clone, Copy, Debug, PartialEq, Eq, Structural)]
pub enum PrivError {
    /// The credentials lack the needed capability.
    PermissionDenied,
    /// Any other failure, by its OS number.
    Other(i32),
}

/// The realtime priority for a requested offset: the scheduler's minimum
/// plus the offset, capped at the scheduler's maximum.
pub fn rt_priority(min_prio: i32, max_prio: i32, offset: i32) -> (r: i32)
    requires
        i32::MIN <= min_prio + offset <= i32::MAX,
    ensures
        r == if max_prio < min_prio + offset {
            max_prio as int
        } else {
            min_prio + offset
        },
{
    let sum: i64 = min_prio as i64 + offset as i64;
    let m: i64 = max_prio as i64;
    let r: i64 = if m < sum {
        m
    } else {
        sum
    };
    r as i32
}

/// Whether a capability-scoped action may run at all: the capability
/// must already be in the permitted set; otherwise the action is not
/// invoked and permission is denied.
pub fn capability_gate(permitted: bool) -> (r: Result<(), PrivError>)
    ensures
        match r {
            Ok(_) => permitted,
            Err(e) => !permitted && e == PrivError::PermissionDenied,
        },
{
    if permitted {
        Ok(())
    } else {
        Err(PrivError::PermissionDenied)
    }
}

/// The policy for best-effort privileged operations: a permission denial
/// is demoted to a warning (the `true` result) and execution goes on
/// without the privilege; any other failure is passed on.
pub fn accept_noperm(r: Result<(), PrivError>) -> (out: Result<bool, PrivError>)
    ensures
        match out {
            Ok(warned) => (r is Ok && !warned) || (r == Err::<(), PrivError>(
                PrivError::PermissionDenied,
            ) && warned),
            Err(e) => r == Err::<(), PrivError>(e) && e is Other,
        },
{
    match r {
        Ok(_) => Ok(false),
        Err(PrivError::PermissionDenied) => Ok(true),
        Err(e) => Err(e),
    }
}

} // verus!
