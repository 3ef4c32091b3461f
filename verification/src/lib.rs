//! Core of a ledger-resident crowdfunding service: it decodes an opaque
//! instruction byte stream into a typed request, runs a fixed-width binary
//! codec for the campaign record, and handles one-time creation of the
//! record at an address derived deterministically from the creator.

pub mod address;
pub mod error;
pub mod instruction;
pub mod ledger;
pub mod processor;
pub mod state;
