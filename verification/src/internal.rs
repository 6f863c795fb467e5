//! The portable backend: every primitive built from stable language features alone.
use vstd::prelude::*;
use crate::guard::NoPanic;

verus! {

/// Marks the path that leads to the call as cold.
///
/// Calls `core::hint::cold_path`, std's hint that the path it stands on is unlikely to be
/// taken. The hint takes nothing and returns nothing. Taken on trust, not proved: the call
/// does not unwind. Nothing else is claimed of it.
#[inline(always)]
#[verifier::external_body]
fn cold()
    no_unwind
{
    core::hint::cold_path()
}

/// A false `b` would lead to the unreachable-code marker; the precondition makes that branch
/// dead code.
#[inline(always)]
pub fn assume_true(b: bool)
    requires
        b,
    no_unwind
{
    if !b {
        crate::unreach();
    }
}

/// Returns `b`, with the branch on which `b` is `true` marked as the cold one.
#[inline(always)]
pub fn unlikely(b: bool) -> (r: bool)
    ensures
        r == b,
    no_unwind
{
    if b {
        cold()
    }
    b
}

/// Returns `b`, with the branch on which `b` is `false` marked as the cold one.
#[inline(always)]
pub fn likely(b: bool) -> (r: bool)
    ensures
        r == b,
    no_unwind
{
    if !b {
        cold()
    }
    b
}

/// Runs `f` under a freshly armed token. The return of `f` disarms the token, so when the
/// token is torn down at the end its release action, the unreachable-code marker, is not due.
#[inline(always)]
pub fn assume_nopanic<F: FnOnce() -> T, T>(f: F) -> (r: T)
    requires
        f.requires(()),
    ensures
        f.ensures((), r),
{
    let mut no_panic = NoPanic::arm();
    let r = no_panic.run(f);
    if no_panic.tear_down() {
        crate::unreach();
    }
    r
}

} // verus!
