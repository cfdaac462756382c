//! Verified core of the Valkyrie governance and LP staking contracts.
//!
//! The chain storage, the bank/token queries and the JSON message encoding
//! live at the edge of the contracts; every decision the contracts take on the
//! values they load is made by the functions of this crate.
pub mod math;
pub mod errors;
pub mod messages;
pub mod schedule;
pub mod lp_staking;
pub mod governance;
pub mod keys;
pub mod bytes;
