//! Failure kinds of the guard engine.
//!
//! Every guard-local failure short-circuits the whole evaluation pass: the
//! first failure encountered in kind order is the one surfaced, and no later
//! guard runs. All kinds but one describe user-facing conditions the caller
//! can act on; `UnknownLabel` is a fatal condition that signals a broken
//! guard (a label read that was never written in the same pass).
use vstd::prelude::*;

verus! {

/// The failure kinds one evaluation pass can surface.
#[derive(Clone, Copy, PartialEq, Eq, Structural, Debug)]
pub enum GuardError {
    /// The resource cursor ran past the end of the caller-supplied list.
    MissingResource,
    /// A claimed resource's identity does not match the configured value.
    ResourceMismatch,
    /// The payer's balance is below the required amount.
    InsufficientFunds,
    /// The current time is before the configured start.
    NotYetActive,
    /// The transfer primitive could not move the requested amount.
    TransferFailed,
    /// Fatal: a guard recalled a label that was never remembered this pass.
    UnknownLabel,
}

impl GuardError {
    /// A user-facing kind describes a condition of the request itself, one
    /// the caller can self-diagnose and fix.
    pub open spec fn is_user_facing(self) -> bool {
        self != GuardError::UnknownLabel
    }

    /// A fatal kind signals a broken guard implementation, never a property
    /// of the request.
    pub open spec fn is_fatal(self) -> bool {
        self == GuardError::UnknownLabel
    }
}

/// The fatal kind is distinct from every user-facing kind: an error is fatal
/// exactly when it is not user-facing, and the only fatal kind is
/// `UnknownLabel`.
pub proof fn lemma_fatal_kind_distinct(e: GuardError)
    ensures
        e.is_fatal() <==> !e.is_user_facing(),
        e.is_fatal() <==> e == GuardError::UnknownLabel,
        !GuardError::MissingResource.is_fatal(),
        !GuardError::ResourceMismatch.is_fatal(),
        !GuardError::InsufficientFunds.is_fatal(),
        !GuardError::NotYetActive.is_fatal(),
        !GuardError::TransferFailed.is_fatal(),
{
}

/// A result of the unit type is `Ok(())` as soon as it is `Ok` at all; the
/// solver does not apply this on its own where the value comes from a call.
pub proof fn lemma_ok_unit(r: Result<(), GuardError>)
    ensures
        r is Ok ==> r == Ok::<(), GuardError>(()),
{
    match r {
        Ok(u) => {
            assert(u == ());
            assert(r == Ok::<(), GuardError>(u));
        },
        Err(_) => {
        },
    }
}

/// The ways a persisted guard-set image can be rejected at decode time.
#[derive(Clone, Copy, PartialEq, Eq, Structural, Debug)]
pub enum DecodeError {
    /// The activation mask has a bit set outside the known registry.
    UnknownGuardBits,
    /// The byte length does not match what the mask demands.
    LengthMismatch,
}

} // verus!
