use candy_guard::errors::GuardError;
use candy_guard::registry::GuardType;
use candy_guard::guard_set::GuardSet;
use candy_guard::lamports::Lamports;
use candy_guard::resource::{Pubkey, Resource};
use candy_guard::sol_payment::SolPayment;
use candy_guard::start_date::StartDate;

fn key(b: u8) -> Pubkey {
    Pubkey::new(vec![b; 32])
}

fn resource(b: u8, lamports: u64) -> Resource {
    Resource { key: key(b), lamports }
}

#[test]
fn flat_payment_insufficient_funds_moves_nothing() {
    let set = GuardSet::new(Some(Lamports { amount: 1_000, destination: key(7) }), None, None);
    let mut payer = resource(1, 999);
    let mut revenue = resource(2, 0);
    let mut resources = vec![resource(7, 50)];
    let r = set.evaluate(&mut payer, &mut revenue, &mut resources, &[], 0);
    assert_eq!(r, Err(GuardError::InsufficientFunds));
    assert_eq!(payer.lamports, 999);
    assert_eq!(revenue.lamports, 0);
    assert_eq!(resources[0].lamports, 50);
}

#[test]
fn flat_payment_success_transfers_exact_amount() {
    let set = GuardSet::new(Some(Lamports { amount: 1_000, destination: key(7) }), None, None);
    let mut payer = resource(1, 5_000);
    let mut revenue = resource(2, 11);
    let mut resources = vec![resource(7, 50), resource(8, 60)];
    let r = set.evaluate(&mut payer, &mut revenue, &mut resources, &[], 0);
    assert_eq!(r, Ok(()));
    assert_eq!(payer.lamports, 4_000);
    assert_eq!(resources[0].lamports, 1_050);
    // no other resource moves
    assert_eq!(resources[1].lamports, 60);
    assert_eq!(revenue.lamports, 11);
}

#[test]
fn flat_payment_wrong_destination_is_mismatch() {
    let set = GuardSet::new(Some(Lamports { amount: 10, destination: key(7) }), None, None);
    let mut payer = resource(1, 100);
    let mut revenue = resource(2, 0);
    let mut resources = vec![resource(9, 0)];
    let r = set.evaluate(&mut payer, &mut revenue, &mut resources, &[], 0);
    assert_eq!(r, Err(GuardError::ResourceMismatch));
    assert_eq!(payer.lamports, 100);
}

#[test]
fn flat_payment_without_resource_is_missing() {
    let set = GuardSet::new(Some(Lamports { amount: 10, destination: key(7) }), None, None);
    let mut payer = resource(1, 100);
    let mut revenue = resource(2, 0);
    let mut resources: Vec<Resource> = vec![];
    let r = set.evaluate(&mut payer, &mut revenue, &mut resources, &[], 0);
    assert_eq!(r, Err(GuardError::MissingResource));
}

#[test]
fn fee_split_exact_division() {
    let set = GuardSet::new(None, Some(SolPayment { lamports: 10_000, destination: key(7) }), None);
    let mut payer = resource(1, 20_000);
    let mut revenue = resource(2, 5);
    let mut resources = vec![resource(7, 100)];
    let r = set.evaluate(&mut payer, &mut revenue, &mut resources, &[], 0);
    assert_eq!(r, Ok(()));
    // fee rate 1000/10000: exactly 1000 to revenue, exactly 9000 to the destination
    assert_eq!(revenue.lamports, 5 + 1_000);
    assert_eq!(resources[0].lamports, 100 + 9_000);
    assert_eq!(payer.lamports, 10_000);
}

#[test]
fn fee_split_inexact_division_loses_nothing() {
    let set = GuardSet::new(None, Some(SolPayment { lamports: 9_999, destination: key(7) }), None);
    let mut payer = resource(1, 9_999);
    let mut revenue = resource(2, 0);
    let mut resources = vec![resource(7, 0)];
    let r = set.evaluate(&mut payer, &mut revenue, &mut resources, &[], 0);
    assert_eq!(r, Ok(()));
    // fee = floor(1000 * 9999 / 10000) = 999, remainder = 9000
    assert_eq!(revenue.lamports, 999);
    assert_eq!(resources[0].lamports, 9_000);
    assert_eq!(payer.lamports, 0);
    assert_eq!(revenue.lamports + resources[0].lamports, 9_999);
}

#[test]
fn start_date_boundary() {
    let date: i64 = 1_650_000_000;
    let set = GuardSet::new(None, None, Some(StartDate { date }));
    let mut payer = resource(1, 0);
    let mut revenue = resource(2, 0);
    let mut resources: Vec<Resource> = vec![];
    let before = set.evaluate(&mut payer, &mut revenue, &mut resources, &[], date - 1);
    assert_eq!(before, Err(GuardError::NotYetActive));
    let at = set.evaluate(&mut payer, &mut revenue, &mut resources, &[], date);
    assert_eq!(at, Ok(()));
    let after = set.evaluate(&mut payer, &mut revenue, &mut resources, &[], date + 1);
    assert_eq!(after, Ok(()));
}

#[test]
fn first_failure_stops_the_pass() {
    // the flat payment guard fails validate; the fee-splitting and
    // start-time guards must leave no trace and the pass surfaces the
    // first failure
    let set = GuardSet::new(
        Some(Lamports { amount: 1_000, destination: key(7) }),
        Some(SolPayment { lamports: 500, destination: key(8) }),
        Some(StartDate { date: 100 }),
    );
    let mut payer = resource(1, 700);
    let mut revenue = resource(2, 0);
    let mut resources = vec![resource(7, 0), resource(8, 0)];
    // the clock reading would also fail the start-time guard, but the
    // payment failure comes first in kind order
    let r = set.evaluate(&mut payer, &mut revenue, &mut resources, &[], 0);
    assert_eq!(r, Err(GuardError::InsufficientFunds));
    assert_eq!(payer.lamports, 700);
    assert_eq!(revenue.lamports, 0);
    assert_eq!(resources[0].lamports, 0);
    assert_eq!(resources[1].lamports, 0);
}

#[test]
fn all_guards_pass_together() {
    let set = GuardSet::new(
        Some(Lamports { amount: 1_000, destination: key(7) }),
        Some(SolPayment { lamports: 10_000, destination: key(8) }),
        Some(StartDate { date: 100 }),
    );
    let mut payer = resource(1, 50_000);
    let mut revenue = resource(2, 0);
    let mut resources = vec![resource(7, 0), resource(8, 0)];
    let r = set.evaluate(&mut payer, &mut revenue, &mut resources, &[], 100);
    assert_eq!(r, Ok(()));
    assert_eq!(payer.lamports, 50_000 - 1_000 - 10_000);
    assert_eq!(resources[0].lamports, 1_000);
    assert_eq!(resources[1].lamports, 9_000);
    assert_eq!(revenue.lamports, 1_000);
}

#[test]
fn validation_needs_one_resource_per_payment_guard() {
    // two payment guards claim two distinct cursor positions in kind order
    let set = GuardSet::new(
        Some(Lamports { amount: 10, destination: key(7) }),
        Some(SolPayment { lamports: 20, destination: key(8) }),
        None,
    );
    let mut payer = resource(1, 1_000);
    let mut revenue = resource(2, 0);
    // only one resource supplied: the fee-splitting guard runs out
    let mut resources = vec![resource(7, 0)];
    let r = set.evaluate(&mut payer, &mut revenue, &mut resources, &[], 0);
    assert_eq!(r, Err(GuardError::MissingResource));
    assert_eq!(payer.lamports, 1_000);
    assert_eq!(resources[0].lamports, 0);
}

#[test]
fn no_rollback_when_second_transfer_fails() {
    // both payment guards validate against the same untouched balance, but
    // the pre-actions drain the payer: the flat payment succeeds, the
    // fee-splitting transfer then fails, and what already moved stays moved
    let set = GuardSet::new(
        Some(Lamports { amount: 900, destination: key(7) }),
        Some(SolPayment { lamports: 900, destination: key(8) }),
        None,
    );
    let mut payer = resource(1, 1_000);
    let mut revenue = resource(2, 0);
    let mut resources = vec![resource(7, 0), resource(8, 0)];
    let r = set.evaluate(&mut payer, &mut revenue, &mut resources, &[], 0);
    assert_eq!(r, Err(GuardError::TransferFailed));
    // the flat payment's transfer was applied and is not rolled back
    assert_eq!(resources[0].lamports, 900);
    // the fee (90) moved before the remainder transfer failed
    assert_eq!(revenue.lamports, 90);
    assert_eq!(payer.lamports, 10);
    assert_eq!(resources[1].lamports, 0);
}

#[test]
fn masks_and_sizes_follow_the_registry() {
    assert_eq!(Lamports::mask(), 0b10);
    assert_eq!(SolPayment::mask(), 0b100);
    assert_eq!(StartDate::mask(), 0b1000);
    assert_eq!(Lamports::size(), 40);
    assert_eq!(SolPayment::size(), 40);
    assert_eq!(StartDate::size(), 8);
    // pairwise distinct single bits
    assert_eq!(Lamports::mask() & SolPayment::mask(), 0);
    assert_eq!(Lamports::mask() & StartDate::mask(), 0);
    assert_eq!(SolPayment::mask() & StartDate::mask(), 0);
}

#[test]
fn mask_bit_set_iff_instance_present() {
    let set = GuardSet::new(Some(Lamports { amount: 1, destination: key(7) }), None, Some(StartDate { date: 0 }));
    assert!(set.is_active(GuardType::Lamports));
    assert!(!set.is_active(GuardType::SolPayment));
    assert!(set.is_active(GuardType::StartDate));
    assert!(set.lamports.is_some());
    assert!(set.sol_payment.is_none());
    assert!(set.start_date.is_some());
    let mut set = set;
    set.disable(GuardType::Lamports);
    assert!(!set.is_active(GuardType::Lamports));
    assert!(set.lamports.is_none());
    assert!(set.is_active(GuardType::StartDate));
    assert_eq!(set.active_mask, 0b1000);
}
