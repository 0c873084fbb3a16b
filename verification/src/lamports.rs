//! The flat payment guard: charges a fixed amount of lamports.
//!
//! Validate claims one resource from the shared cursor, checks that it
//! identifies the configured destination, records the claimed position under
//! this guard's label, and fails with `InsufficientFunds` when the payer's
//! balance is below the configured amount. Pre-action recalls the recorded
//! position and moves exactly the configured amount from the payer to that
//! destination.
use vstd::prelude::*;

use crate::context::EvaluationContext;
use crate::errors::GuardError;
use crate::registry::GuardType;
use crate::resource::{spec_apply_transfer, spec_transfer_fails, transfer, Pubkey, Resource};

verus! {

/// The label this guard namespaces its recorded position under.
pub open spec fn lamports_label() -> Seq<char> {
    "lamports_destination"@
}

/// Configuration of the flat payment guard.
#[derive(Debug, PartialEq, Eq)]
pub struct Lamports {
    pub amount: u64,
    pub destination: Pubkey,
}

/// The plain values a `Lamports` configuration carries.
#[verifier::ext_equal]
pub struct LamportsV {
    pub amount: u64,
    pub destination: Seq<u8>,
}

impl View for Lamports {
    type V = LamportsV;

    open spec fn view(&self) -> LamportsV {
        LamportsV { amount: self.amount, destination: self.destination@ }
    }
}

impl Lamports {
    pub open spec fn wf(self) -> bool {
        self.destination.wf()
    }

    /// The fixed serialized byte length: the amount, then the destination.
    pub fn size() -> (r: usize)
        ensures
            r == GuardType::Lamports.spec_size(),
    {
        8  // amount
        + 32  // destination
    }

    /// The registry bit this kind owns.
    pub fn mask() -> (r: u64)
        ensures
            r == GuardType::Lamports.spec_mask(),
    {
        proof {
            assert(0b1u64 << 1 == 0b10u64) by (bit_vector);
        }
        0b1u64 << 1
    }

    /// The outcome of this guard's validate phase: the result together with
    /// the cursor and the label map it leaves behind, as a function of the
    /// state it starts from.
    pub open spec fn spec_validate(
        self,
        payer: Resource,
        resources: Seq<Resource>,
        cursor: usize,
        indices: Map<Seq<char>, usize>,
    ) -> (Result<(), GuardError>, int, Map<Seq<char>, usize>) {
        if cursor >= resources.len() {
            (Err(GuardError::MissingResource), cursor as int, indices)
        } else if resources[cursor as int].key@ != self.destination@ {
            (Err(GuardError::ResourceMismatch), cursor + 1, indices)
        } else if payer.lamports < self.amount {
            (
                Err(GuardError::InsufficientFunds),
                cursor + 1,
                indices.insert(lamports_label(), cursor),
            )
        } else {
            (Ok(()), cursor + 1, indices.insert(lamports_label(), cursor))
        }
    }

    /// Read-only feasibility check: claims the next resource, checks it is
    /// the configured destination, records where it was found, and requires
    /// the payer to hold at least the configured amount.
    pub fn validate(
        &self,
        payer: &Resource,
        resources: &Vec<Resource>,
        ctx: &mut EvaluationContext,
    ) -> (r: Result<(), GuardError>)
        requires
            old(ctx).wf(),
            !old(ctx).indices().contains_key(lamports_label()),
        ensures
            final(ctx).wf(),
            ({
                let (sr, sc, sm) = self.spec_validate(
                    *payer,
                    resources@,
                    old(ctx).account_cursor,
                    old(ctx).indices(),
                );
                r == sr && final(ctx).account_cursor == sc && final(ctx).indices() == sm
            }),
    {
        let index = match ctx.next_resource(resources) {
            Ok(i) => i,
            Err(e) => {
                return Err(e);
            },
        };
        let dest = &resources[index];
        if !dest.key.equals(&self.destination) {
            return Err(GuardError::ResourceMismatch);
        }
        ctx.remember("lamports_destination", index);
        if payer.lamports < self.amount {
            return Err(GuardError::InsufficientFunds);
        }
        Ok(())
    }

    /// The outcome of this guard's pre-action: the result together with the
    /// payer and resource list it leaves behind. A missing label is the
    /// fatal `UnknownLabel`; a recorded position past the list is
    /// `MissingResource`; a transfer the ledger could not perform is
    /// `TransferFailed`, applied atomically or not at all.
    pub open spec fn spec_pre_action(
        self,
        payer: Resource,
        resources: Seq<Resource>,
        indices: Map<Seq<char>, usize>,
    ) -> (Result<(), GuardError>, Resource, Seq<Resource>) {
        if !indices.contains_key(lamports_label()) {
            (Err(GuardError::UnknownLabel), payer, resources)
        } else {
            let idx = indices[lamports_label()];
            if idx >= resources.len() {
                (Err(GuardError::MissingResource), payer, resources)
            } else if spec_transfer_fails(
                payer.lamports,
                resources[idx as int].lamports,
                self.amount,
            ) {
                (Err(GuardError::TransferFailed), payer, resources)
            } else {
                let (p, rs) = spec_apply_transfer(payer, resources, idx as int, self.amount);
                (Ok(()), p, rs)
            }
        }
    }

    /// Effectful phase: moves exactly the configured amount from the payer
    /// to the destination recorded during validate.
    pub fn pre_action(
        &self,
        payer: &mut Resource,
        resources: &mut Vec<Resource>,
        ctx: &EvaluationContext,
    ) -> (r: Result<(), GuardError>)
        requires
            ctx.wf(),
        ensures
            ({
                let (sr, sp, srs) = self.spec_pre_action(
                    *old(payer),
                    old(resources)@,
                    ctx.indices(),
                );
                r == sr && *final(payer) == sp && final(resources)@ == srs
            }),
    {
        let index = match ctx.recall("lamports_destination") {
            Ok(i) => i,
            Err(e) => {
                return Err(e);
            },
        };
        if index >= resources.len() {
            return Err(GuardError::MissingResource);
        }
        let r = transfer(payer, resources, index, self.amount);
        proof {
            crate::errors::lemma_ok_unit(r);
        }
        r
    }
}

} // verus!
