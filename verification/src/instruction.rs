use vstd::prelude::*;

use vstd::bytes::{spec_u32_from_le_bytes, spec_u64_from_le_bytes, u32_from_le_bytes,
    u64_from_le_bytes};
use vstd::slice::{slice_index_get, slice_subrange, slice_to_vec};
use vstd::utf8::valid_utf8;

use crate::error::CampaignError;

verus! {

/// The request carried by a "create campaign" instruction.
#[derive(Clone, Debug, PartialEq, Eq)]
pub struct CreateFundPayload {
    /// The campaign name's UTF-8 bytes.
    pub name: Vec<u8>,
    pub goal_amount: u64,
    /// Seconds since the epoch.
    pub deadline: i64,
}

/// A typed, opcode-dispatched request.
#[derive(Debug, PartialEq, Eq)]
pub enum CrowdfundInstruction {
    /// Create a new `Crowdfund`.
    ///
    /// Accounts expected:
    ///
    /// 0. `[signer]` The account of the person creating the Crowdfund
    /// 1. `[writable]` The Crowdfund account that will hold information relevant to the funding campaign
    /// 2. `[]` The system program
    CreateFund { payload: CreateFundPayload },
}

/// The byte length of the name, read from the payload's 4-byte
/// little-endian length prefix. `s` is the whole instruction buffer,
/// opcode byte included.
pub open spec fn spec_name_len(s: Seq<u8>) -> int {
    spec_u32_from_le_bytes(s.subrange(1, 5)) as int
}

/// The name bytes of a create payload.
pub open spec fn spec_name_bytes(s: Seq<u8>) -> Seq<u8> {
    s.subrange(5, 5 + spec_name_len(s))
}

/// A create payload is structurally sound when the buffer holds the
/// opcode, the 4-byte length prefix, exactly as many name bytes as the
/// prefix announces, and the two 8-byte integer fields — nothing less
/// and nothing more.
pub open spec fn create_payload_sound(s: Seq<u8>) -> bool {
    &&& s.len() >= 21
    &&& s.len() - 21 == spec_name_len(s)
}

/// The goal amount of a create payload, little endian.
pub open spec fn spec_goal_amount(s: Seq<u8>) -> u64 {
    spec_u64_from_le_bytes(s.subrange(5 + spec_name_len(s), 13 + spec_name_len(s)))
}

/// The deadline of a create payload: the same bits, read as signed.
pub open spec fn spec_deadline(s: Seq<u8>) -> i64 {
    spec_u64_from_le_bytes(s.subrange(13 + spec_name_len(s), 21 + spec_name_len(s))) as i64
}

/// A create instruction decodes successfully exactly when its payload is
/// structurally sound and its name bytes form valid UTF-8.
pub open spec fn create_decode_ok(s: Seq<u8>) -> bool {
    &&& create_payload_sound(s)
    &&& valid_utf8(spec_name_bytes(s))
}

/// Relies on core::str::from_utf8: it accepts exactly the byte sequences
/// that form a valid UTF-8 encoding.
#[verifier::external_body]
fn utf8_check(bytes: &[u8]) -> (r: bool)
    ensures
        r == valid_utf8(bytes@),
{
    core::str::from_utf8(bytes).is_ok()
}

impl CrowdfundInstruction {
    /// Reads the first byte as the opcode selector and parses the rest as
    /// that opcode's payload, strictly left to right; neither missing nor
    /// trailing bytes are tolerated. A pure parse with no side effects.
    pub fn unpack(input: &[u8]) -> (r: Result<CrowdfundInstruction, CampaignError>)
        ensures
            input@.len() == 0 ==> r == Err::<CrowdfundInstruction, CampaignError>(
                CampaignError::MalformedInstruction,
            ),
            input@.len() > 0 && input@[0] != 0 ==> r == Err::<CrowdfundInstruction, CampaignError>(
                CampaignError::UnsupportedOpcode,
            ),
            input@.len() > 0 && input@[0] == 0 && !create_decode_ok(input@) ==> r == Err::<
                CrowdfundInstruction,
                CampaignError,
            >(CampaignError::MalformedInstruction),
            input@.len() > 0 && input@[0] == 0 && create_decode_ok(input@) ==> (r matches Ok(
                CrowdfundInstruction::CreateFund { payload },
            ) && payload.name@ == spec_name_bytes(input@) && payload.goal_amount
                == spec_goal_amount(input@) && payload.deadline == spec_deadline(input@)),
    {
        if input.len() == 0 {
            return Err(CampaignError::MalformedInstruction);
        }
        let opcode = *slice_index_get(input, 0);
        if opcode != 0 {
            return Err(CampaignError::UnsupportedOpcode);
        }
        if input.len() < 21 {
            return Err(CampaignError::MalformedInstruction);
        }
        let name_len = u32_from_le_bytes(slice_subrange(input, 1, 5)) as usize;
        if input.len() - 21 != name_len {
            return Err(CampaignError::MalformedInstruction);
        }
        let name_slice = slice_subrange(input, 5, 5 + name_len);
        if !utf8_check(name_slice) {
            return Err(CampaignError::MalformedInstruction);
        }
        let name = slice_to_vec(name_slice);
        let goal_amount = u64_from_le_bytes(slice_subrange(input, 5 + name_len, 13 + name_len));
        let deadline_bits = u64_from_le_bytes(slice_subrange(input, 13 + name_len, 21 + name_len));
        let deadline = #[verifier::truncate] (deadline_bits as i64);
        Ok(CrowdfundInstruction::CreateFund { payload: CreateFundPayload { name, goal_amount, deadline } })
    }
}

} // verus!
