//! The fee-splitting payment guard: charges an amount in lamports and splits
//! it between a fixed protocol-revenue recipient and the configured
//! destination.
//!
//! Validate has the same shape as the flat payment guard, against this
//! guard's own label. Pre-action computes the protocol fee as
//! `floor(FEE_RATE_NUMERATOR * lamports / FEE_RATE_DENOMINATOR)`, moves the
//! fee to the revenue recipient, then moves the remainder to the
//! destination. The two transfers are separate ledger steps: when the second
//! fails after the first succeeded, the first is not rolled back — the
//! enclosing transaction boundary is the only backstop for atomicity.
use vstd::prelude::*;

use crate::context::EvaluationContext;
use crate::errors::GuardError;
use crate::registry::GuardType;
use crate::resource::{spec_apply_transfer, spec_transfer_fails, transfer, transfer_direct, Pubkey, Resource};

verus! {

/// Numerator of the protocol fee rate.
pub const FEE_RATE_NUMERATOR: u64 = 1000;

/// Denominator of the protocol fee rate.
pub const FEE_RATE_DENOMINATOR: u64 = 10000;

/// The label this guard namespaces its recorded position under.
pub open spec fn sol_payment_label() -> Seq<char> {
    "sol_payment_destination"@
}

/// The protocol fee taken out of a charged amount.
pub open spec fn spec_fee(lamports: u64) -> u64 {
    ((FEE_RATE_NUMERATOR * lamports) / (FEE_RATE_DENOMINATOR as int)) as u64
}

/// What is left for the destination once the fee is taken.
pub open spec fn spec_remainder(lamports: u64) -> u64 {
    (lamports - spec_fee(lamports)) as u64
}

/// The fee never exceeds the charged amount, so fee and remainder always sum
/// back to it exactly: splitting loses nothing.
pub proof fn lemma_fee_split_conserves(lamports: u64)
    ensures
        spec_fee(lamports) <= lamports,
        spec_fee(lamports) == (FEE_RATE_NUMERATOR * lamports) / (FEE_RATE_DENOMINATOR as int),
        spec_fee(lamports) + spec_remainder(lamports) == lamports,
{
    assert((1000 * lamports) / (10000 as int) <= lamports && (1000 * lamports) / (
    10000 as int) >= 0) by (nonlinear_arith);
}

/// Configuration of the fee-splitting payment guard.
#[derive(Debug, PartialEq, Eq)]
pub struct SolPayment {
    pub lamports: u64,
    pub destination: Pubkey,
}

/// The plain values a `SolPayment` configuration carries.
#[verifier::ext_equal]
pub struct SolPaymentV {
    pub lamports: u64,
    pub destination: Seq<u8>,
}

impl View for SolPayment {
    type V = SolPaymentV;

    open spec fn view(&self) -> SolPaymentV {
        SolPaymentV { lamports: self.lamports, destination: self.destination@ }
    }
}

impl SolPayment {
    pub open spec fn wf(self) -> bool {
        self.destination.wf()
    }

    /// The fixed serialized byte length: the amount, then the destination.
    pub fn size() -> (r: usize)
        ensures
            r == GuardType::SolPayment.spec_size(),
    {
        8  // lamports
        + 32  // destination
    }

    /// The registry bit this kind owns.
    pub fn mask() -> (r: u64)
        ensures
            r == GuardType::SolPayment.spec_mask(),
    {
        GuardType::SolPayment.as_mask()
    }

    /// The outcome of this guard's validate phase, as a function of the
    /// state it starts from.
    pub open spec fn spec_validate(
        self,
        payer: Resource,
        resources: Seq<Resource>,
        cursor: usize,
        indices: Map<Seq<char>, usize>,
    ) -> (Result<(), GuardError>, int, Map<Seq<char>, usize>) {
        if cursor >= resources.len() {
            (Err(GuardError::MissingResource), cursor as int, indices)
        } else if resources[cursor as int].key@ != self.destination@ {
            (Err(GuardError::ResourceMismatch), cursor + 1, indices)
        } else if payer.lamports < self.lamports {
            (
                Err(GuardError::InsufficientFunds),
                cursor + 1,
                indices.insert(sol_payment_label(), cursor),
            )
        } else {
            (Ok(()), cursor + 1, indices.insert(sol_payment_label(), cursor))
        }
    }

    /// Read-only feasibility check: claims the next resource, checks it is
    /// the configured destination, records where it was found, and requires
    /// the payer to hold at least the charged amount.
    pub fn validate(
        &self,
        payer: &Resource,
        resources: &Vec<Resource>,
        ctx: &mut EvaluationContext,
    ) -> (r: Result<(), GuardError>)
        requires
            old(ctx).wf(),
            !old(ctx).indices().contains_key(sol_payment_label()),
        ensures
            final(ctx).wf(),
            ({
                let (sr, sc, sm) = self.spec_validate(
                    *payer,
                    resources@,
                    old(ctx).account_cursor,
                    old(ctx).indices(),
                );
                r == sr && final(ctx).account_cursor == sc && final(ctx).indices() == sm
            }),
    {
        let index = match ctx.next_resource(resources) {
            Ok(i) => i,
            Err(e) => {
                return Err(e);
            },
        };
        let dest = &resources[index];
        if !dest.key.equals(&self.destination) {
            return Err(GuardError::ResourceMismatch);
        }
        ctx.remember("sol_payment_destination", index);
        if payer.lamports < self.lamports {
            return Err(GuardError::InsufficientFunds);
        }
        Ok(())
    }

    /// The outcome of this guard's pre-action: the result together with the
    /// payer, the revenue recipient and the resource list it leaves behind.
    /// When the fee moved but the remainder could not, the fee stays moved:
    /// the middle branch below keeps the fee transfer applied.
    pub open spec fn spec_pre_action(
        self,
        payer: Resource,
        revenue: Resource,
        resources: Seq<Resource>,
        indices: Map<Seq<char>, usize>,
    ) -> (Result<(), GuardError>, Resource, Resource, Seq<Resource>) {
        if !indices.contains_key(sol_payment_label()) {
            (Err(GuardError::UnknownLabel), payer, revenue, resources)
        } else {
            let idx = indices[sol_payment_label()];
            if idx >= resources.len() {
                (Err(GuardError::MissingResource), payer, revenue, resources)
            } else {
                let fee = spec_fee(self.lamports);
                let remainder = spec_remainder(self.lamports);
                if spec_transfer_fails(payer.lamports, revenue.lamports, fee) {
                    (Err(GuardError::TransferFailed), payer, revenue, resources)
                } else {
                    let payer1 = Resource {
                        lamports: (payer.lamports - fee) as u64,
                        ..payer
                    };
                    let revenue1 = Resource {
                        lamports: (revenue.lamports + fee) as u64,
                        ..revenue
                    };
                    if spec_transfer_fails(
                        payer1.lamports,
                        resources[idx as int].lamports,
                        remainder,
                    ) {
                        (Err(GuardError::TransferFailed), payer1, revenue1, resources)
                    } else {
                        let (payer2, resources2) = spec_apply_transfer(
                            payer1,
                            resources,
                            idx as int,
                            remainder,
                        );
                        (Ok(()), payer2, revenue1, resources2)
                    }
                }
            }
        }
    }

    /// Effectful phase: moves the protocol fee to the revenue recipient,
    /// then the remainder to the destination recorded during validate.
    pub fn pre_action(
        &self,
        payer: &mut Resource,
        revenue: &mut Resource,
        resources: &mut Vec<Resource>,
        ctx: &EvaluationContext,
    ) -> (r: Result<(), GuardError>)
        requires
            ctx.wf(),
        ensures
            ({
                let (sr, sp, srev, srs) = self.spec_pre_action(
                    *old(payer),
                    *old(revenue),
                    old(resources)@,
                    ctx.indices(),
                );
                r == sr && *final(payer) == sp && *final(revenue) == srev
                    && final(resources)@ == srs
            }),
    {
        let index = match ctx.recall("sol_payment_destination") {
            Ok(i) => i,
            Err(e) => {
                return Err(e);
            },
        };
        if index >= resources.len() {
            return Err(GuardError::MissingResource);
        }
        let fee = self.fee();
        let remainder = self.lamports - fee;

        // tax payout: the protocol-revenue recipient takes the fee first
        match transfer_direct(payer, revenue, fee) {
            Ok(()) => {
            },
            Err(e) => {
                return Err(e);
            },
        }

        let r = transfer(payer, resources, index, remainder);
        proof {
            crate::errors::lemma_ok_unit(r);
        }
        r
    }

    /// The protocol fee for this guard's charged amount, computed without
    /// intermediate overflow.
    pub fn fee(&self) -> (r: u64)
        ensures
            r == spec_fee(self.lamports),
            r <= self.lamports,
    {
        proof {
            lemma_fee_split_conserves(self.lamports);
        }
        (((FEE_RATE_NUMERATOR as u128) * (self.lamports as u128)) / (
        FEE_RATE_DENOMINATOR as u128)) as u64
    }
}

} // verus!
