//! The start-time guard: the gated action is live only from a configured
//! date on.
//!
//! Validate-only: it claims no resource and has no pre-action. It fails with
//! `NotYetActive` while the externally supplied clock reading is strictly
//! before the configured date, and succeeds from the date on, the boundary
//! instant included. Without this guard in a set, the action is always live.
use vstd::prelude::*;

use crate::errors::GuardError;
use crate::registry::GuardType;

verus! {

/// Configuration of the start-time guard.
#[derive(Debug, PartialEq, Eq)]
pub struct StartDate {
    pub date: i64,
}

/// The plain value a `StartDate` configuration carries.
#[verifier::ext_equal]
pub struct StartDateV {
    pub date: i64,
}

impl View for StartDate {
    type V = StartDateV;

    open spec fn view(&self) -> StartDateV {
        StartDateV { date: self.date }
    }
}

impl StartDate {
    /// The fixed serialized byte length: the date alone.
    pub fn size() -> (r: usize)
        ensures
            r == GuardType::StartDate.spec_size(),
    {
        8  // date
    }

    /// The registry bit this kind owns.
    pub fn mask() -> (r: u64)
        ensures
            r == GuardType::StartDate.spec_mask(),
    {
        proof {
            assert(0b1u64 << 3 == 0b1000u64) by (bit_vector);
        }
        0b1u64 << 3
    }

    /// The outcome of this guard's validate phase for a clock reading.
    pub open spec fn spec_validate(self, now: i64) -> Result<(), GuardError> {
        if now < self.date {
            Err(GuardError::NotYetActive)
        } else {
            Ok(())
        }
    }

    /// Succeeds exactly when the clock reading has reached the configured
    /// date; strictly earlier readings fail with `NotYetActive`.
    pub fn validate(&self, now: i64) -> (r: Result<(), GuardError>)
        ensures
            r == self.spec_validate(now),
            r is Ok <==> now >= self.date,
            r is Err ==> r->Err_0 == GuardError::NotYetActive,
    {
        if now < self.date {
            return Err(GuardError::NotYetActive);
        }
        Ok(())
    }

    /// The boundary behaviour at a configured date: the instant just before
    /// it is rejected, the date itself and every later instant pass.
    pub proof fn lemma_start_boundary(self)
        requires
            i64::MIN < self.date,
            self.date < i64::MAX,
        ensures
            self.spec_validate((self.date - 1) as i64) == Err::<(), GuardError>(
                GuardError::NotYetActive,
            ),
            self.spec_validate(self.date) == Ok::<(), GuardError>(()),
            self.spec_validate((self.date + 1) as i64) == Ok::<(), GuardError>(()),
    {
    }
}

} // verus!
