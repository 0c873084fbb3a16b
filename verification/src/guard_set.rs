//! The guard set: the enabled combination of guards for one configuration.
//!
//! A set holds the activation mask together with one instance per active
//! kind — an instance is present exactly when its bit is set — and owns the
//! composition of one evaluation pass: every active guard's `validate` runs
//! first, in ascending bit order; only when all of them succeed does every
//! active guard's `pre_action` run, in the same order. Any failure aborts
//! the pass at once and is surfaced unchanged. Pre-actions already applied
//! when a later one fails are not rolled back: the enclosing transaction
//! boundary is the only backstop for atomicity.
use vstd::prelude::*;

use crate::context::EvaluationContext;
use crate::errors::GuardError;
use crate::lamports::{lamports_label, Lamports, LamportsV};
use crate::registry::{GuardType, KNOWN_GUARDS_MASK};
use crate::resource::Resource;
use crate::sol_payment::{sol_payment_label, spec_fee, spec_remainder, lemma_fee_split_conserves, SolPayment, SolPaymentV, FEE_RATE_NUMERATOR, FEE_RATE_DENOMINATOR};
use crate::start_date::{StartDate, StartDateV};

verus! {

/// The enabled guards of one configuration: the activation mask and one
/// instance per set bit.
#[derive(Debug, PartialEq, Eq)]
pub struct GuardSet {
    pub active_mask: u64,
    pub lamports: Option<Lamports>,
    pub sol_payment: Option<SolPayment>,
    pub start_date: Option<StartDate>,
}

/// The plain values a guard set carries.
#[verifier::ext_equal]
pub struct GuardSetV {
    pub active_mask: u64,
    pub lamports: Option<LamportsV>,
    pub sol_payment: Option<SolPaymentV>,
    pub start_date: Option<StartDateV>,
}

impl View for GuardSet {
    type V = GuardSetV;

    open spec fn view(&self) -> GuardSetV {
        GuardSetV {
            active_mask: self.active_mask,
            lamports: match self.lamports {
                Some(g) => Some(g@),
                None => None,
            },
            sol_payment: match self.sol_payment {
                Some(g) => Some(g@),
                None => None,
            },
            start_date: match self.start_date {
                Some(g) => Some(g@),
                None => None,
            },
        }
    }
}

/// The activation mask composed from which kinds are present: the kinds own
/// disjoint bits, so enabling a kind adds its mask.
pub open spec fn spec_compose_mask(lamports: bool, sol_payment: bool, start_date: bool) -> u64 {
    ((if lamports {
        GuardType::Lamports.spec_mask() as int
    } else {
        0int
    }) + (if sol_payment {
        GuardType::SolPayment.spec_mask() as int
    } else {
        0int
    }) + (if start_date {
        GuardType::StartDate.spec_mask() as int
    } else {
        0int
    })) as u64
}

/// The composed mask has exactly the requested bits, and no bit outside the
/// known registry.
pub proof fn lemma_compose_mask(l: bool, s: bool, d: bool)
    ensures
        ({
            let m = spec_compose_mask(l, s, d);
            &&& (m & 0b10u64 != 0) == l
            &&& (m & 0b100u64 != 0) == s
            &&& (m & 0b1000u64 != 0) == d
            &&& m & KNOWN_GUARDS_MASK == m
        }),
{
    assert(0b1110u64 & 0b10 != 0 && 0b1110u64 & 0b100 != 0 && 0b1110u64 & 0b1000 != 0
        && 0b1110u64 & 0b1110 == 0b1110u64 && 0b110u64 & 0b10 != 0 && 0b110u64 & 0b100 != 0
        && 0b110u64 & 0b1000 == 0 && 0b110u64 & 0b1110 == 0b110u64 && 0b1010u64 & 0b10 != 0
        && 0b1010u64 & 0b100 == 0 && 0b1010u64 & 0b1000 != 0 && 0b1010u64 & 0b1110 == 0b1010u64
        && 0b10u64 & 0b10 != 0 && 0b10u64 & 0b100 == 0 && 0b10u64 & 0b1000 == 0 && 0b10u64
        & 0b1110 == 0b10u64 && 0b1100u64 & 0b10 == 0 && 0b1100u64 & 0b100 != 0 && 0b1100u64
        & 0b1000 != 0 && 0b1100u64 & 0b1110 == 0b1100u64 && 0b100u64 & 0b10 == 0 && 0b100u64
        & 0b100 != 0 && 0b100u64 & 0b1000 == 0 && 0b100u64 & 0b1110 == 0b100u64 && 0b1000u64
        & 0b10 == 0 && 0b1000u64 & 0b100 == 0 && 0b1000u64 & 0b1000 != 0 && 0b1000u64 & 0b1110
        == 0b1000u64 && 0u64 & 0b10 == 0 && 0u64 & 0b100 == 0 && 0u64 & 0b1000 == 0 && 0u64
        & 0b1110 == 0u64) by (bit_vector);
}

impl GuardSetV {
    /// The set is coherent: no unknown bit, an instance exactly for each set
    /// bit, and well-formed instances.
    pub open spec fn wf(self) -> bool {
        &&& self.active_mask & KNOWN_GUARDS_MASK == self.active_mask
        &&& (self.lamports is Some <==> self.active_mask & GuardType::Lamports.spec_mask()
            != 0)
        &&& (self.sol_payment is Some <==> self.active_mask & GuardType::SolPayment.spec_mask()
            != 0)
        &&& (self.start_date is Some <==> self.active_mask & GuardType::StartDate.spec_mask()
            != 0)
        &&& (self.lamports is Some ==> self.lamports->0.destination.len() == 32)
        &&& (self.sol_payment is Some ==> self.sol_payment->0.destination.len() == 32)
    }
}

impl GuardSet {
    /// The set is coherent: no unknown bit, an instance exactly for each set
    /// bit, and well-formed instances.
    pub open spec fn wf(self) -> bool {
        self@.wf()
    }

    /// Whether a kind's bit is set in the activation mask.
    pub open spec fn has(self, kind: GuardType) -> bool {
        self.active_mask & kind.spec_mask() != 0
    }

    /// Whether a kind is active, decided from the mask alone.
    pub fn is_active(&self, kind: GuardType) -> (r: bool)
        ensures
            r == self.has(kind),
    {
        self.active_mask & kind.as_mask() != 0
    }

    /// Builds a set from the instances to enable, composing the mask: the
    /// activation arithmetic in one place.
    pub fn new(
        lamports: Option<Lamports>,
        sol_payment: Option<SolPayment>,
        start_date: Option<StartDate>,
    ) -> (r: GuardSet)
        requires
            (lamports matches Some(g) ==> g.wf()),
            (sol_payment matches Some(g) ==> g.wf()),
        ensures
            r.wf(),
            r.lamports == lamports,
            r.sol_payment == sol_payment,
            r.start_date == start_date,
            r.active_mask == spec_compose_mask(
                lamports is Some,
                sol_payment is Some,
                start_date is Some,
            ),
    {
        let mut mask: u64 = 0;
        if lamports.is_some() {
            mask = mask + GuardType::Lamports.as_mask();
        }
        if sol_payment.is_some() {
            mask = mask + GuardType::SolPayment.as_mask();
        }
        if start_date.is_some() {
            mask = mask + GuardType::StartDate.as_mask();
        }
        proof {
            lemma_compose_mask(lamports is Some, sol_payment is Some, start_date is Some);
        }
        GuardSet { active_mask: mask, lamports, sol_payment, start_date }
    }

    /// Removes a kind from the set: clears its bit and drops its instance,
    /// leaving every other kind untouched — the deactivation arithmetic.
    pub fn disable(&mut self, kind: GuardType)
        requires
            old(self).wf(),
        ensures
            final(self).wf(),
            !final(self).has(kind),
            forall|k: GuardType| k != kind ==> final(self).has(k) == old(self).has(k),
            final(self).lamports == (if kind == GuardType::Lamports {
                Option::<Lamports>::None
            } else {
                old(self).lamports
            }),
            final(self).sol_payment == (if kind == GuardType::SolPayment {
                Option::<SolPayment>::None
            } else {
                old(self).sol_payment
            }),
            final(self).start_date == (if kind == GuardType::StartDate {
                Option::<StartDate>::None
            } else {
                old(self).start_date
            }),
    {
        let ghost m = self.active_mask;
        match kind {
            GuardType::Lamports => {
                self.lamports = None;
                self.active_mask = self.active_mask & 0b1100;
                proof {
                    assert(m & 0b1110 == m ==> (m & 0b1100) & 0b10 == 0 && (m & 0b1100) & 0b100
                        == m & 0b100 && (m & 0b1100) & 0b1000 == m & 0b1000 && (m & 0b1100)
                        & 0b1110 == m & 0b1100) by (bit_vector);
                }
            },
            GuardType::SolPayment => {
                self.sol_payment = None;
                self.active_mask = self.active_mask & 0b1010;
                proof {
                    assert(m & 0b1110 == m ==> (m & 0b1010) & 0b100 == 0 && (m & 0b1010) & 0b10
                        == m & 0b10 && (m & 0b1010) & 0b1000 == m & 0b1000 && (m & 0b1010)
                        & 0b1110 == m & 0b1010) by (bit_vector);
                }
            },
            GuardType::StartDate => {
                self.start_date = None;
                self.active_mask = self.active_mask & 0b110;
                proof {
                    assert(m & 0b1110 == m ==> (m & 0b110) & 0b1000 == 0 && (m & 0b110) & 0b10
                        == m & 0b10 && (m & 0b110) & 0b100 == m & 0b100 && (m & 0b110) & 0b1110
                        == m & 0b110) by (bit_vector);
                }
            },
        }
        proof {
            assert forall|k: GuardType| k != kind implies self.has(k) == old(self).has(
                k,
            ) by {
                match k {
                    GuardType::Lamports => {},
                    GuardType::SolPayment => {},
                    GuardType::StartDate => {},
                }
            }
        }
    }

    /// The outcome of the validate phase: the first failure in kind order,
    /// or success, together with the cursor and label map left behind.
    pub open spec fn spec_validate_phase(
        self,
        payer: Resource,
        resources: Seq<Resource>,
        now: i64,
    ) -> (Result<(), GuardError>, int, Map<Seq<char>, usize>) {
        let s0 = (Ok::<(), GuardError>(()), 0int, Map::<Seq<char>, usize>::empty());
        let s1 = if self.lamports is Some {
            self.lamports->0.spec_validate(payer, resources, 0, s0.2)
        } else {
            s0
        };
        if s1.0 is Err {
            s1
        } else {
            let s2 = if self.sol_payment is Some {
                self.sol_payment->0.spec_validate(payer, resources, s1.1 as usize, s1.2)
            } else {
                s1
            };
            if s2.0 is Err {
                s2
            } else {
                if self.start_date is Some {
                    (self.start_date->0.spec_validate(now), s2.1, s2.2)
                } else {
                    s2
                }
            }
        }
    }

    /// The outcome of one whole evaluation pass: the result together with
    /// the payer, the revenue recipient and the resource list it leaves
    /// behind. A validate failure leaves everything untouched; a pre-action
    /// failure keeps the effects already applied before it.
    pub open spec fn spec_evaluate(
        self,
        payer: Resource,
        revenue: Resource,
        resources: Seq<Resource>,
        now: i64,
    ) -> (Result<(), GuardError>, Resource, Resource, Seq<Resource>) {
        let v = self.spec_validate_phase(payer, resources, now);
        if v.0 is Err {
            (v.0, payer, revenue, resources)
        } else {
            let ind = v.2;
            let s1 = if self.lamports is Some {
                let t = self.lamports->0.spec_pre_action(payer, resources, ind);
                (t.0, t.1, revenue, t.2)
            } else {
                (Ok::<(), GuardError>(()), payer, revenue, resources)
            };
            if s1.0 is Err {
                s1
            } else {
                if self.sol_payment is Some {
                    self.sol_payment->0.spec_pre_action(s1.1, s1.2, s1.3, ind)
                } else {
                    s1
                }
            }
        }
    }

    /// Runs one evaluation pass: every active guard validates against the
    /// caller-supplied resources and the externally read clock, then — only
    /// if all of them succeeded — every active guard applies its pre-action,
    /// in the same fixed kind order, over one fresh shared context.
    pub fn evaluate(
        &self,
        payer: &mut Resource,
        revenue: &mut Resource,
        resources: &mut Vec<Resource>,
        _mint_args: &[u8],
        now: i64,
    ) -> (r: Result<(), GuardError>)
        requires
            self.wf(),
        ensures
            ({
                let (sr, sp, srev, srs) = self.spec_evaluate(
                    *old(payer),
                    *old(revenue),
                    old(resources)@,
                    now,
                );
                r == sr && *final(payer) == sp && *final(revenue) == srev
                    && final(resources)@ == srs
            }),
    {
        proof {
            lemma_labels_distinct();
        }
        let mut ctx = EvaluationContext::new();

        // validate phase: all feasibility checks before any effect
        if let Some(g) = &self.lamports {
            match g.validate(payer, resources, &mut ctx) {
                Ok(()) => {},
                Err(e) => {
                    return Err(e);
                },
            }
        }
        if let Some(g) = &self.sol_payment {
            match g.validate(payer, resources, &mut ctx) {
                Ok(()) => {},
                Err(e) => {
                    return Err(e);
                },
            }
        }
        if let Some(g) = &self.start_date {
            match g.validate(now) {
                Ok(()) => {},
                Err(e) => {
                    return Err(e);
                },
            }
        }

        // pre-action phase: effects, in the same kind order
        if let Some(g) = &self.lamports {
            match g.pre_action(payer, resources, &ctx) {
                Ok(()) => {},
                Err(e) => {
                    return Err(e);
                },
            }
        }
        if let Some(g) = &self.sol_payment {
            match g.pre_action(payer, revenue, resources, &ctx) {
                Ok(()) => {},
                Err(e) => {
                    return Err(e);
                },
            }
        }
        proof {
            let (sr, sp, srev, srs) = self.spec_evaluate(
                *old(payer),
                *old(revenue),
                old(resources)@,
                now,
            );
            crate::errors::lemma_ok_unit(sr);
        }
        Ok(())
    }
}

/// The two payment guards namespace their scratch labels apart, so running
/// both in one pass never collides.
pub proof fn lemma_labels_distinct()
    ensures
        lamports_label() != sol_payment_label(),
{
    reveal_strlit("lamports_destination");
    reveal_strlit("sol_payment_destination");
    assert(lamports_label().len() == 20);
    assert(sol_payment_label().len() == 23);
}

/// A guard kind's bit is set in the activation mask exactly when an
/// instance of that kind is present in the set.
pub proof fn lemma_mask_iff_instance(s: GuardSet)
    requires
        s.wf(),
    ensures
        s.has(GuardType::Lamports) <==> s.lamports is Some,
        s.has(GuardType::SolPayment) <==> s.sol_payment is Some,
        s.has(GuardType::StartDate) <==> s.start_date is Some,
{
}

/// Fail-fast: when the first active guard's validate fails, the pass
/// surfaces exactly that failure and nothing else is observable — no later
/// validate matters, no pre-action effect happens, every balance and the
/// whole resource list stay untouched, whatever the later guards are.
pub proof fn lemma_fail_fast(
    s: GuardSet,
    payer: Resource,
    revenue: Resource,
    resources: Seq<Resource>,
    now: i64,
)
    requires
        s.lamports is Some,
        s.lamports->0.spec_validate(
            payer,
            resources,
            0,
            Map::<Seq<char>, usize>::empty(),
        ).0 is Err,
    ensures
        ({
            let e = s.lamports->0.spec_validate(
                payer,
                resources,
                0,
                Map::<Seq<char>, usize>::empty(),
            ).0;
            let (sr, sp, srev, srs) = s.spec_evaluate(payer, revenue, resources, now);
            sr == e && sp == payer && srev == revenue && srs == resources
        }),
{
}

/// A flat payment guard whose payer cannot cover the configured amount
/// fails the pass with `InsufficientFunds`, and no balance moves.
pub proof fn lemma_flat_payment_insufficient(
    s: GuardSet,
    payer: Resource,
    revenue: Resource,
    resources: Seq<Resource>,
    now: i64,
)
    requires
        s.lamports is Some,
        resources.len() > 0,
        resources[0].key@ == s.lamports->0.destination@,
        payer.lamports < s.lamports->0.amount,
    ensures
        ({
            let (sr, sp, srev, srs) = s.spec_evaluate(payer, revenue, resources, now);
            sr == Err::<(), GuardError>(GuardError::InsufficientFunds) && sp == payer && srev
                == revenue && srs == resources
        }),
{
}

/// A flat payment guard with a sufficient balance and a correctly
/// identified destination passes validate, and its pre-action moves exactly
/// the configured amount from the payer to that destination — no other
/// resource and no other balance changes.
pub proof fn lemma_flat_payment_success(
    s: GuardSet,
    payer: Resource,
    revenue: Resource,
    resources: Seq<Resource>,
    now: i64,
)
    requires
        s.lamports is Some,
        s.sol_payment is None,
        s.start_date is None,
        resources.len() > 0,
        resources[0].key@ == s.lamports->0.destination@,
        payer.lamports >= s.lamports->0.amount,
        resources[0].lamports + s.lamports->0.amount <= u64::MAX,
    ensures
        ({
            let amount = s.lamports->0.amount;
            let (sr, sp, srev, srs) = s.spec_evaluate(payer, revenue, resources, now);
            &&& sr == Ok::<(), GuardError>(())
            &&& sp.lamports == payer.lamports - amount
            &&& sp.key == payer.key
            &&& srev == revenue
            &&& srs.len() == resources.len()
            &&& srs[0].lamports == resources[0].lamports + amount
            &&& srs[0].key == resources[0].key
            &&& forall|i: int| 0 < i < resources.len() ==> srs[i] == resources[i]
        }),
{
    let ind = Map::<Seq<char>, usize>::empty().insert(lamports_label(), 0);
    assert(ind[lamports_label()] == 0);
}

/// The fee-splitting guard moves exactly the protocol fee to the revenue
/// recipient and exactly the remainder to the destination; fee and
/// remainder sum to the charged amount, so nothing is lost to rounding.
pub proof fn lemma_fee_split_payment(
    s: GuardSet,
    payer: Resource,
    revenue: Resource,
    resources: Seq<Resource>,
    now: i64,
)
    requires
        s.sol_payment is Some,
        s.lamports is None,
        s.start_date is None,
        resources.len() > 0,
        resources[0].key@ == s.sol_payment->0.destination@,
        payer.lamports >= s.sol_payment->0.lamports,
        revenue.lamports + spec_fee(s.sol_payment->0.lamports) <= u64::MAX,
        resources[0].lamports + spec_remainder(s.sol_payment->0.lamports) <= u64::MAX,
    ensures
        ({
            let charged = s.sol_payment->0.lamports;
            let fee = spec_fee(charged);
            let remainder = spec_remainder(charged);
            let (sr, sp, srev, srs) = s.spec_evaluate(payer, revenue, resources, now);
            &&& fee + remainder == charged
            &&& fee == (FEE_RATE_NUMERATOR * charged) / (FEE_RATE_DENOMINATOR as int)
            &&& sr == Ok::<(), GuardError>(())
            &&& sp.lamports == payer.lamports - charged
            &&& sp.key == payer.key
            &&& srev.lamports == revenue.lamports + fee
            &&& srev.key == revenue.key
            &&& srs.len() == resources.len()
            &&& srs[0].lamports == resources[0].lamports + remainder
            &&& srs[0].key == resources[0].key
            &&& forall|i: int| 0 < i < resources.len() ==> srs[i] == resources[i]
        }),
{
    lemma_fee_split_conserves(s.sol_payment->0.lamports);
    let ind = Map::<Seq<char>, usize>::empty().insert(sol_payment_label(), 0);
    assert(ind[sol_payment_label()] == 0);
}

} // verus!
