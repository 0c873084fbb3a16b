//! A composable guard engine: a privileged action is gated behind an ordered
//! set of independently configured conditions (payments, time windows).
//! Each guard kind owns one bit of an activation mask; a guard set holds the
//! mask together with one instance per active kind, evaluates every active
//! guard's read-only `validate` phase first, and only then applies the
//! effectful `pre_action` phase of each guard in the same fixed kind order.

pub mod codec;
pub mod context;
pub mod errors;
pub mod guard_set;
pub mod lamports;
pub mod registry;
pub mod resource;
pub mod sol_payment;
pub mod start_date;
