//! The lock policy flag: the persisted setting that says whether the native
//! lock gesture of the platform is available at all.
//!
//! The flag lives outside the process, in a configuration area of the user,
//! and is written by the caller. Here is what is written, how the status of
//! a write is read, and a model of the flag under a series of writes.

use vstd::prelude::*;
use crate::action::Action;

verus! {

/// The grace interval, in milliseconds, between a lock action and the
/// write that disables the native lock again.
///
/// A lock action that is followed at once by that write is likely to find
/// locking disabled by the time it is served. The wait is a heuristic and
/// no guarantee: the two are not atomic.
pub const GRACE_INTERVAL_MS: u64 = 500;

/// The native status of a write that succeeded.
pub const WRITE_SUCCEEDED: u32 = 0;

/// The native error of a write of the flag that failed, as the system gave
/// it. A lack of privilege is one such error and no kind of its own.
#[derive(Debug, Hash, Clone, Copy, PartialEq, Eq, Structural)]
pub struct PolicyError {
    /// The error code of the operating system.
    pub code: i32,
}

/// The value that is persisted for a state of the flag. The setting is
/// named for the disabling, so it is set where the native lock is not
/// enabled.
pub open spec fn spec_policy_value(enabled: bool) -> u32 {
    if enabled {
        0
    } else {
        1
    }
}

/// Whether a persisted value leaves the native lock enabled.
pub open spec fn spec_value_enables(value: u32) -> bool {
    value == 0
}

/// How the status of a write reads: zero is success, and every other status
/// is the native error code, kept bit for bit.
pub open spec fn spec_write_result(status: u32) -> Result<(), PolicyError> {
    if status == WRITE_SUCCEEDED {
        Ok(())
    } else {
        Err(PolicyError { code: status as i32 })
    }
}

/// The flag after one write that took effect. What the flag was before has
/// no part in it.
pub open spec fn written(before: bool, enabled: bool) -> bool {
    enabled
}

/// The flag after the writes among the given actions took effect in their
/// order, given what it was before: what the last of the writes set, or
/// what it was where there is none.
pub open spec fn policy_after(before: bool, actions: Seq<Action>) -> bool
    decreases actions.len(),
{
    if actions.len() == 0 {
        before
    } else {
        match actions.last() {
            Action::SetPolicy(enabled) => written(
                policy_after(before, actions.drop_last()),
                enabled,
            ),
            _ => policy_after(before, actions.drop_last()),
        }
    }
}

/// The value to persist so that the native lock is enabled or disabled.
#[verifier::when_used_as_spec(spec_policy_value)]
pub fn policy_value(enabled: bool) -> (r: u32)
    ensures
        r == spec_policy_value(enabled),
{
    if enabled {
        0
    } else {
        1
    }
}

/// Whether a persisted value leaves the native lock enabled.
#[verifier::when_used_as_spec(spec_value_enables)]
pub fn value_enables(value: u32) -> (r: bool)
    ensures
        r == spec_value_enables(value),
{
    value == 0
}

/// Reads the status that the write of the flag returned.
#[verifier::when_used_as_spec(spec_write_result)]
pub fn write_result(status: u32) -> (r: Result<(), PolicyError>)
    ensures
        r == spec_write_result(status),
{
    if status == WRITE_SUCCEEDED {
        Ok(())
    } else {
        Err(PolicyError { code: status as i32 })
    }
}

/// The persisted value says what was asked for, and the status of a failed
/// write loses nothing of the native error code.
pub proof fn lemma_value_round_trip(enabled: bool, status: u32)
    ensures
        value_enables(policy_value(enabled)) == enabled,
        write_result(status) is Ok <==> status == WRITE_SUCCEEDED,
        write_result(status) matches Err(error) ==> error.code as u32 == status,
{
    assert((status as i32) as u32 == status) by (bit_vector);
}

/// A write is idempotent and does not look at the value before it: the
/// same value written twice leaves what one write of it leaves, whatever
/// the flag was and whatever was done earlier.
pub proof fn lemma_write_idempotent(before: bool, earlier: Seq<Action>, enabled: bool)
    ensures
        written(written(before, enabled), enabled) == written(before, enabled),
        written(before, enabled) == written(!before, enabled),
        policy_after(before, earlier.push(Action::SetPolicy(enabled))) == enabled,
        policy_after(
            before,
            earlier.push(Action::SetPolicy(enabled)).push(Action::SetPolicy(enabled)),
        ) == policy_after(before, earlier.push(Action::SetPolicy(enabled))),
{
    let once = earlier.push(Action::SetPolicy(enabled));
    let twice = once.push(Action::SetPolicy(enabled));
    assert(twice.drop_last() == once);
    assert(once.drop_last() == earlier);
}

} // verus!
