//! A time-locked token escrow, verified.
//!
//! A depositor locks a fixed quantity of a fungible asset for a named
//! beneficiary; the beneficiary may withdraw the whole of it once a chosen
//! unlock time has passed. The locked units sit in a custody account whose
//! address and controlling authority are derived deterministically from
//! public seeds, so that only the escrow's own transitions — never any
//! individual holder — can move them.
//!
//! [`escrow::Escrow`] holds the persistent state; [`escrow::Escrow::create_fund`]
//! and [`escrow::Escrow::redeem`] are the two guarded transitions, and their
//! contracts state every check they make and every unit they move.

pub mod assoc;
pub mod escrow;
pub mod ids;
pub mod pda;
