use vstd::prelude::*;

verus! {

/// The taxonomy of failures this crate can report. All are terminal:
/// nothing is retried and no partial effect survives a failure.
#[derive(Clone, Copy, Debug, PartialEq, Eq, Structural)]
pub enum CampaignError {
    /// The instruction buffer is empty, or the create payload is
    /// structurally invalid (bad length prefix, missing bytes,
    /// trailing bytes, or a name that is not valid UTF-8).
    MalformedInstruction,
    /// The first byte of the instruction buffer selects an opcode
    /// this program does not implement.
    UnsupportedOpcode,
    /// The requesting identity did not authorize the call.
    MissingAuthorization,
    /// The caller-supplied target address differs from the address
    /// derived for the requester.
    AddressMismatch,
    /// The external storage environment reported a failure, carried
    /// here as its numeric reason code.
    AllocationFailed(u64),
    /// The record's one-time creation guard is already set.
    AlreadyInitialized,
    /// Stored bytes do not form a valid campaign record.
    CorruptRecord,
    /// The campaign name does not fit the fixed 256-byte name field.
    NameTooLong,
}

/// The reason code carried by `AllocationFailed` when the rent
/// configuration cannot quote a balance for the record's size: the
/// runtime's own InvalidArgument code.
pub const QUOTA_UNAVAILABLE_CODE: u64 = 0x2_0000_0000;

} // verus!
