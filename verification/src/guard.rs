//! The scoped token of the no-panic wrapper and the rules by which it changes state.
//!
//! A token is armed when the wrapper is entered. It is disarmed once the wrapped computation
//! has returned, and torn down when the scope that owns it is left, whichever way that
//! happens. Tearing down a token that is still armed fires its release action.
use vstd::prelude::*;

verus! {

/// What a token has been through.
#[derive(Clone, Copy, Debug, PartialEq, Eq, Structural)]
pub enum GuardState {
    /// The wrapped computation has not returned yet.
    Armed,
    /// The wrapped computation returned: tearing the token down stays silent.
    Disarmed,
    /// The token was torn down while armed: its release action has fired.
    Released,
}

/// The state that follows `s` when the wrapped computation returns.
pub open spec fn disarmed(s: GuardState) -> GuardState {
    match s {
        GuardState::Armed => GuardState::Disarmed,
        _ => s,
    }
}

/// Whether tearing down a token in state `s` fires the release action.
pub open spec fn fires(s: GuardState) -> bool {
    s == GuardState::Armed
}

/// The state that follows `s` when the scope that owns the token is left.
pub open spec fn torn_down(s: GuardState) -> GuardState {
    match s {
        GuardState::Armed => GuardState::Released,
        _ => s,
    }
}

/// The state in which a freshly armed token stands when its scope is about to be left:
/// disarmed if the wrapped computation returned, still armed if it did not.
pub open spec fn at_exit(returned: bool) -> GuardState {
    if returned {
        disarmed(GuardState::Armed)
    } else {
        GuardState::Armed
    }
}

/// The token that the no-panic wrapper holds while the wrapped computation runs.
///
/// A token starts out armed and can only move along the two edges of its state machine, so
/// a disarmed token has seen the computation return and a released one has not.
#[derive(Debug)]
pub struct NoPanic {
    state: GuardState,
}

impl View for NoPanic {
    type V = GuardState;

    closed spec fn view(&self) -> GuardState {
        self.state
    }
}

impl NoPanic {
    /// Acquires a token, armed.
    #[inline(always)]
    pub fn arm() -> (token: NoPanic)
        ensures
            token@ == GuardState::Armed,
        no_unwind
    {
        NoPanic { state: GuardState::Armed }
    }

    /// The state the token is in.
    #[inline(always)]
    pub fn state(&self) -> (s: GuardState)
        ensures
            s == self@,
        no_unwind
    {
        self.state
    }

    /// Disarms the token: from now on tearing it down stays silent. A token that is no
    /// longer armed is left as it is.
    #[inline(always)]
    pub fn disarm(&mut self)
        ensures
            final(self)@ == disarmed(old(self)@),
        no_unwind
    {
        match self.state {
            GuardState::Armed => {
                self.state = GuardState::Disarmed;
            },
            _ => {},
        }
    }

    /// Tears the token down and says whether its release action is due. The action is due
    /// exactly when the token was still armed; whoever owns the scope has to perform it.
    #[inline(always)]
    pub fn tear_down(&mut self) -> (due: bool)
        ensures
            due == fires(old(self)@),
            final(self)@ == torn_down(old(self)@),
        no_unwind
    {
        match self.state {
            GuardState::Armed => {
                self.state = GuardState::Released;
                true
            },
            _ => false,
        }
    }

    /// Runs `f` under the token and disarms the token once `f` has returned.
    ///
    /// If `f` does not return, control never comes back here and the token stays as it was.
    #[inline(always)]
    pub fn run<F: FnOnce() -> T, T>(&mut self, f: F) -> (r: T)
        requires
            f.requires(()),
        ensures
            f.ensures((), r),
            final(self)@ == disarmed(old(self)@),
    {
        let r = f();
        self.disarm();
        r
    }
}

/// A token is released exactly when the wrapped computation did not return, and disarmed
/// exactly when it did: whatever happened, leaving the scope ends in one of the two final
/// states, and the release action fires on the first path only.
pub proof fn lemma_release_iff_not_returned(returned: bool)
    ensures
        fires(at_exit(returned)) <==> !returned,
        torn_down(at_exit(returned)) == GuardState::Released <==> !returned,
        torn_down(at_exit(returned)) == GuardState::Disarmed <==> returned,
{
}

/// The release action fires at most once: a token that has been torn down is in a final
/// state, in which neither disarming nor tearing down changes or fires anything.
pub proof fn lemma_torn_down_is_final(s: GuardState)
    ensures
        torn_down(s) != GuardState::Armed,
        !fires(torn_down(s)),
        torn_down(torn_down(s)) == torn_down(s),
        disarmed(torn_down(s)) == torn_down(s),
{
}

} // verus!
