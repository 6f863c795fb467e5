//! Sometimes it just takes a small nudge for the compiler to generate the code you want.
//!
//! Every primitive here is a hint to the code generator and nothing else: a hint may change
//! how fast the surrounding code runs, never what it computes. Where a hint rests on a promise
//! of the caller, that promise is the function's precondition, so a verified caller proves it
//! instead of merely claiming it.
use vstd::prelude::*;

pub mod guard;
mod internal;

verus! {

/// The proposition that never holds.
///
/// A caller who has to establish it can do so only from facts that contradict each other,
/// that is, only at a program point that no execution arrives at.
pub open spec fn contradiction() -> bool {
    false
}

/// Takes the value of an expression to be `true`.
///
/// The compiler is sometimes able to use this to optimize better, but it often backfires.
/// The caller owes the truth of `b`; when it holds, the call has no effect and control
/// continues behind it.
#[inline(always)]
pub fn assume_true(b: bool)
    requires
        b,
    no_unwind
{
    crate::internal::assume_true(b)
}

/// Tells the compiler this `bool` is probably `false`.
#[inline(always)]
pub fn unlikely(b: bool) -> (r: bool)
    ensures
        r == b,
    no_unwind
{
    crate::internal::unlikely(b)
}

/// Tells the compiler this `bool` is probably `true`.
#[inline(always)]
pub fn likely(b: bool) -> (r: bool)
    ensures
        r == b,
    no_unwind
{
    crate::internal::likely(b)
}

/// Tells the compiler this code is unreachable.
///
/// No execution may arrive at a call of this function: its precondition can be shown only
/// where the call is dead code, and so the function has no value to return.
#[inline(always)]
pub fn unreach() -> core::convert::Infallible
    requires
        contradiction(),
{
    unreached()
}

/// Runs a closure that is taken not to panic, and hands back what it returned.
#[inline]
pub fn assume_nopanic<F: FnOnce() -> T, T>(f: F) -> (r: T)
    requires
        f.requires(()),
    ensures
        f.ensures((), r),
{
    crate::internal::assume_nopanic(f)
}

} // verus!
