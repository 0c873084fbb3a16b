use candy_guard::context::EvaluationContext;
use candy_guard::errors::GuardError;
use candy_guard::lamports::Lamports;
use candy_guard::resource::{Pubkey, Resource};

fn resource(b: u8, lamports: u64) -> Resource {
    Resource { key: Pubkey::new(vec![b; 32]), lamports }
}

#[test]
fn cursor_claims_each_position_once() {
    let resources = vec![resource(1, 0), resource(2, 0)];
    let mut ctx = EvaluationContext::new();
    assert_eq!(ctx.account_cursor, 0);
    assert_eq!(ctx.next_resource(&resources), Ok(0));
    assert_eq!(ctx.next_resource(&resources), Ok(1));
    assert_eq!(ctx.account_cursor, 2);
    assert_eq!(ctx.next_resource(&resources), Err(GuardError::MissingResource));
    // a failed claim does not move the cursor
    assert_eq!(ctx.account_cursor, 2);
}

#[test]
fn remember_then_recall() {
    let mut ctx = EvaluationContext::new();
    ctx.remember("lamports_destination", 3);
    ctx.remember("sol_payment_destination", 5);
    assert_eq!(ctx.recall("lamports_destination"), Ok(3));
    assert_eq!(ctx.recall("sol_payment_destination"), Ok(5));
    // reading a label twice is fine
    assert_eq!(ctx.recall("lamports_destination"), Ok(3));
}

#[test]
fn recall_unwritten_label_is_fatal() {
    let ctx = EvaluationContext::new();
    let r = ctx.recall("lamports_destination");
    assert_eq!(r, Err(GuardError::UnknownLabel));
    // the fatal kind is none of the user-facing kinds
    let fatal = r.unwrap_err();
    assert_ne!(fatal, GuardError::MissingResource);
    assert_ne!(fatal, GuardError::ResourceMismatch);
    assert_ne!(fatal, GuardError::InsufficientFunds);
    assert_ne!(fatal, GuardError::NotYetActive);
    assert_ne!(fatal, GuardError::TransferFailed);
}

#[test]
fn pre_action_before_validate_is_fatal() {
    // a guard whose pre-action runs without its validate finds no label:
    // the distinct fatal kind, not a user-facing failure
    let guard = Lamports { amount: 10, destination: Pubkey::new(vec![7; 32]) };
    let mut payer = resource(1, 100);
    let mut resources = vec![resource(7, 0)];
    let ctx = EvaluationContext::new();
    let r = guard.pre_action(&mut payer, &mut resources, &ctx);
    assert_eq!(r, Err(GuardError::UnknownLabel));
    assert_eq!(payer.lamports, 100);
    assert_eq!(resources[0].lamports, 0);
}
