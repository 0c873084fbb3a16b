//! The engine's model of a ledger resource.
//!
//! The host transaction system locates, signs and moves funds between
//! accounts; the engine only ever reads two things of an account: its
//! identity (a 32-byte public key) and its balance in lamports. A
//! [`Resource`] holds exactly those two, so every rule the engine enforces
//! is stated and proved over plain values. The embedding runtime converts
//! its own account handles to resources before a pass and mirrors the
//! balance changes of a successful pass back onto the ledger.
use vstd::prelude::*;

use crate::errors::GuardError;

verus! {

/// The byte length of a public key.
pub const PUBKEY_LEN: usize = 32;

/// A 32-byte public key identifying a resource.
#[derive(Debug, PartialEq, Eq)]
pub struct Pubkey {
    pub bytes: Vec<u8>,
}

impl View for Pubkey {
    type V = Seq<u8>;

    open spec fn view(&self) -> Seq<u8> {
        self.bytes@
    }
}

impl Pubkey {
    /// A well-formed key holds exactly `PUBKEY_LEN` bytes.
    pub open spec fn wf(self) -> bool {
        self@.len() == PUBKEY_LEN
    }

    pub fn new(bytes: Vec<u8>) -> (r: Pubkey)
        requires
            bytes@.len() == PUBKEY_LEN,
        ensures
            r@ == bytes@,
            r.wf(),
    {
        Pubkey { bytes }
    }

    /// Two keys are equal exactly when their byte sequences are.
    pub fn equals(&self, other: &Pubkey) -> (r: bool)
        ensures
            r == (self@ == other@),
    {
        if self.bytes.len() != other.bytes.len() {
            return false;
        }
        let n = self.bytes.len();
        let mut i: usize = 0;
        while i < n
            invariant
                i <= n,
                n == self@.len(),
                n == other@.len(),
                forall|j: int| 0 <= j < i ==> self@[j] == other@[j],
            decreases n - i,
        {
            if self.bytes[i] != other.bytes[i] {
                return false;
            }
            i += 1;
        }
        proof {
            assert(self@ =~= other@);
        }
        true
    }
}

/// One entry of the caller-supplied resource list: an identity and a balance.
#[derive(Debug, PartialEq, Eq)]
pub struct Resource {
    pub key: Pubkey,
    pub lamports: u64,
}

impl Resource {
    pub open spec fn wf(self) -> bool {
        self.key.wf()
    }
}

/// The transfer `amount` from a balance `from` to a balance `to` cannot be
/// performed: the source is short, or the destination balance would not fit.
pub open spec fn spec_transfer_fails(from: u64, to: u64, amount: u64) -> bool {
    from < amount || to + amount > u64::MAX
}

/// The state after moving `amount` from the payer to the resource at `idx`:
/// the pair of the payer's and the list's new values.
pub open spec fn spec_apply_transfer(
    payer: Resource,
    resources: Seq<Resource>,
    idx: int,
    amount: u64,
) -> (Resource, Seq<Resource>)
    recommends
        0 <= idx < resources.len(),
        !spec_transfer_fails(payer.lamports, resources[idx].lamports, amount),
{
    (
        Resource { lamports: (payer.lamports - amount) as u64, ..payer },
        resources.update(
            idx,
            Resource {
                lamports: (resources[idx].lamports + amount) as u64,
                ..resources[idx]
            },
        ),
    )
}

/// Moves `amount` lamports between two resources held separately: the
/// engine's model of the host's atomic transfer primitive — either both
/// balances change together, or neither does and the step fails with
/// `TransferFailed`.
pub fn transfer_direct(payer: &mut Resource, dest: &mut Resource, amount: u64) -> (r: Result<
    (),
    GuardError,
>)
    ensures
        match r {
            Ok(()) => !spec_transfer_fails(old(payer).lamports, old(dest).lamports, amount)
                && *final(payer) == (Resource {
                lamports: (old(payer).lamports - amount) as u64,
                ..*old(payer)
            }) && *final(dest) == (Resource {
                lamports: (old(dest).lamports + amount) as u64,
                ..*old(dest)
            }),
            Err(e) => e == GuardError::TransferFailed && spec_transfer_fails(
                old(payer).lamports,
                old(dest).lamports,
                amount,
            ) && *final(payer) == *old(payer) && *final(dest) == *old(dest),
        },
{
    if payer.lamports < amount {
        return Err(GuardError::TransferFailed);
    }
    if dest.lamports > u64::MAX - amount {
        return Err(GuardError::TransferFailed);
    }
    payer.lamports = payer.lamports - amount;
    dest.lamports = dest.lamports + amount;
    Ok(())
}

/// Moves `amount` lamports from the payer to the resource at `idx`, the
/// engine's model of the host's atomic transfer primitive: either both
/// balances change together, or neither does and the pass fails with
/// `TransferFailed`.
pub fn transfer(
    payer: &mut Resource,
    resources: &mut Vec<Resource>,
    idx: usize,
    amount: u64,
) -> (r: Result<(), GuardError>)
    requires
        idx < old(resources)@.len(),
    ensures
        match r {
            Ok(()) => !spec_transfer_fails(
                old(payer).lamports,
                old(resources)@[idx as int].lamports,
                amount,
            ) && (*final(payer), final(resources)@) == spec_apply_transfer(
                *old(payer),
                old(resources)@,
                idx as int,
                amount,
            ),
            Err(e) => e == GuardError::TransferFailed && spec_transfer_fails(
                old(payer).lamports,
                old(resources)@[idx as int].lamports,
                amount,
            ) && *final(payer) == *old(payer) && final(resources)@ == old(resources)@,
        },
{
    if payer.lamports < amount {
        return Err(GuardError::TransferFailed);
    }
    let dest_balance = resources[idx].lamports;
    if dest_balance > u64::MAX - amount {
        return Err(GuardError::TransferFailed);
    }
    payer.lamports = payer.lamports - amount;
    let dest = &mut resources[idx];
    dest.lamports = dest_balance + amount;
    Ok(())
}

} // verus!
