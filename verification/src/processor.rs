use vstd::prelude::*;

use solana_program::account_info::AccountInfo;

use vstd::slice::slice_index_get;

use crate::address::{campaign_seed, campaign_seed_bytes, Address};
use crate::error::{CampaignError, QUOTA_UNAVAILABLE_CODE};
use crate::instruction::{create_decode_ok, spec_name_bytes, CreateFundPayload, CrowdfundInstruction};
use crate::ledger::{
    account_is_signer, account_key, build_create_account, derive_campaign_address, error_code,
    fetch_rent, invoke_allocation, pda_of, read_account_data, rent_minimum_balance,
    store_account_data,
};
use crate::state::{record_bytes_ok, spec_serialized, Crowdfund, CROWDFUND_ACCOUNT_SIZE};

verus! {

/// What the handler reads of the requesting identity: its address, and
/// whether it authorized ("signed") this invocation.
pub struct RequesterInfo {
    pub key: Address,
    pub is_signer: bool,
}

/// The record a successful creation persists: the creation guard set,
/// the payload's fields copied, the requester recorded as creator, and
/// the derivation's bump stored for later re-derivation.
pub open spec fn created_record(payload: CreateFundPayload, requester: Address, bump: u8) -> Crowdfund {
    Crowdfund {
        is_initialized: true,
        name: payload.name,
        initializer_pubkey: requester,
        goal_amount: payload.goal_amount,
        deadline: payload.deadline,
        bump,
    }
}

pub struct Processor;

impl Processor {
    /// The first two steps of creation. Authorization is checked before
    /// anything else; then the campaign address is derived for the
    /// requester under the fixed domain seed and held against the
    /// caller-supplied target. Only a match yields the bump to sign with.
    /// In the statistically improbable case that derivation yields no
    /// address at all, no target can match it.
    pub fn plan_create(requester: &RequesterInfo, target: &Address, program_id: &Address) -> (r:
        Result<u8, CampaignError>)
        ensures
            !requester.is_signer ==> r == Err::<u8, CampaignError>(
                CampaignError::MissingAuthorization,
            ),
            requester.is_signer ==> match pda_of(campaign_seed(), requester.key@, program_id@) {
                Some(p) => {
                    if p.0 == target@ {
                        r == Ok::<u8, CampaignError>(p.1)
                    } else {
                        r == Err::<u8, CampaignError>(CampaignError::AddressMismatch)
                    }
                },
                None => r == Err::<u8, CampaignError>(CampaignError::AddressMismatch),
            },
    {
        if !requester.is_signer {
            return Err(CampaignError::MissingAuthorization);
        }
        let seed = campaign_seed_bytes();
        match derive_campaign_address(seed.as_slice(), &requester.key, program_id) {
            Some((pda, bump)) => {
                if pda.equals(target) {
                    Ok(bump)
                } else {
                    Err(CampaignError::AddressMismatch)
                }
            },
            None => Err(CampaignError::AddressMismatch),
        }
    }

    /// The last two steps of creation, on the bytes the fresh account
    /// holds: decode them, refuse a record whose creation guard is
    /// already set, then populate the record from the request and encode
    /// it — rejecting an over-long name rather than truncating it.
    pub fn initialize_account_data(
        payload: CreateFundPayload,
        requester_key: &Address,
        bump: u8,
        current: &[u8],
    ) -> (r: Result<Vec<u8>, CampaignError>)
        ensures
            !record_bytes_ok(current@) ==> r == Err::<Vec<u8>, CampaignError>(
                CampaignError::CorruptRecord,
            ),
            record_bytes_ok(current@) && current@[0] == 1 ==> r == Err::<Vec<u8>, CampaignError>(
                CampaignError::AlreadyInitialized,
            ),
            record_bytes_ok(current@) && current@[0] == 0 && payload.name@.len() > 256 ==> r
                == Err::<Vec<u8>, CampaignError>(CampaignError::NameTooLong),
            record_bytes_ok(current@) && current@[0] == 0 && payload.name@.len() <= 256 ==> (
            r matches Ok(bytes) && bytes@ == spec_serialized(
                created_record(payload, *requester_key, bump),
            )),
    {
        let decoded = Crowdfund::decode(current);
        let existing = match decoded {
            Ok(rec) => rec,
            Err(e) => { return Err(e) },
        };
        if existing.is_initialized() {
            return Err(CampaignError::AlreadyInitialized);
        }
        let record = Crowdfund {
            is_initialized: true,
            name: payload.name,
            initializer_pubkey: *requester_key,
            goal_amount: payload.goal_amount,
            deadline: payload.deadline,
            bump,
        };
        record.encode()
    }

    /// The creation handler, a linear one-shot pipeline: authorization,
    /// address verification, rent quote, allocation through the host
    /// environment, then one-time initialization of the fresh account.
    /// Failures reported by the host environment surface as
    /// `AllocationFailed` with the environment's reason code; a rent
    /// configuration that cannot quote a balance surfaces the same way
    /// under `QUOTA_UNAVAILABLE_CODE`. Everything the handler itself
    /// decides is stated here or on `plan_create` and
    /// `initialize_account_data`, whose contracts pin each error exactly.
    pub fn process_create_fund<'a>(
        program_id: &Address,
        accounts: &[AccountInfo<'a>],
        payload: CreateFundPayload,
    ) -> (r: Result<(), CampaignError>)
        ensures
            r == Err::<(), CampaignError>(CampaignError::MalformedInstruction) <==> accounts@.len()
                < 3,
            payload.name@.len() > 256 ==> r is Err,
            r == Err::<(), CampaignError>(CampaignError::NameTooLong) ==> payload.name@.len()
                > 256,
            r is Ok ==> accounts@.len() >= 3 && payload.name@.len() <= 256,
    {
        if accounts.len() < 3 {
            return Err(CampaignError::MalformedInstruction);
        }
        let initializer = slice_index_get(accounts, 0);
        let crowdfund_account = slice_index_get(accounts, 1);
        let system_program = slice_index_get(accounts, 2);

        let requester = RequesterInfo {
            key: account_key(initializer),
            is_signer: account_is_signer(initializer),
        };
        let target = account_key(crowdfund_account);
        let bump = match Self::plan_create(&requester, &target, program_id) {
            Ok(b) => b,
            Err(e) => { return Err(e) },
        };

        let rent = match fetch_rent() {
            Ok(rent) => rent,
            Err(e) => { return Err(CampaignError::AllocationFailed(error_code(e))) },
        };
        let lamports = match rent_minimum_balance(&rent, CROWDFUND_ACCOUNT_SIZE) {
            Some(lamports) => lamports,
            None => { return Err(CampaignError::AllocationFailed(QUOTA_UNAVAILABLE_CODE)) },
        };

        let ix = build_create_account(
            &requester.key,
            &target,
            lamports,
            CROWDFUND_ACCOUNT_SIZE as u64,
            program_id,
        );
        let seed = campaign_seed_bytes();
        match invoke_allocation(
            &ix,
            initializer,
            crowdfund_account,
            system_program,
            seed.as_slice(),
            &requester.key,
            bump,
        ) {
            Ok(_) => {},
            Err(e) => { return Err(CampaignError::AllocationFailed(error_code(e))) },
        }

        let current = match read_account_data(crowdfund_account) {
            Ok(data) => data,
            Err(e) => { return Err(CampaignError::AllocationFailed(error_code(e))) },
        };
        let fresh = match Self::initialize_account_data(
            payload,
            &requester.key,
            bump,
            current.as_slice(),
        ) {
            Ok(bytes) => bytes,
            Err(e) => { return Err(e) },
        };
        match store_account_data(crowdfund_account, &fresh) {
            Ok(_) => Ok(()),
            Err(e) => Err(CampaignError::AllocationFailed(error_code(e))),
        }
    }

    /// Entry point: decode the instruction buffer and dispatch on its
    /// opcode. Decoder failures are returned untouched, so an empty
    /// buffer, an unknown opcode and a structurally bad payload each
    /// surface exactly as the decoder's contract states.
    pub fn process<'a>(
        program_id: &Address,
        accounts: &[AccountInfo<'a>],
        instruction_data: &[u8],
    ) -> (r: Result<(), CampaignError>)
        ensures
            instruction_data@.len() == 0 ==> r == Err::<(), CampaignError>(
                CampaignError::MalformedInstruction,
            ),
            instruction_data@.len() > 0 && instruction_data@[0] != 0 ==> r == Err::<
                (),
                CampaignError,
            >(CampaignError::UnsupportedOpcode),
            instruction_data@.len() > 0 && instruction_data@[0] == 0 && !create_decode_ok(
                instruction_data@,
            ) ==> r == Err::<(), CampaignError>(CampaignError::MalformedInstruction),
            instruction_data@.len() > 0 && instruction_data@[0] == 0 && create_decode_ok(
                instruction_data@,
            ) && accounts@.len() < 3 ==> r == Err::<(), CampaignError>(
                CampaignError::MalformedInstruction,
            ),
            instruction_data@.len() > 0 && instruction_data@[0] == 0 && create_decode_ok(
                instruction_data@,
            ) && accounts@.len() >= 3 ==> r != Err::<(), CampaignError>(
                CampaignError::MalformedInstruction,
            ),
            instruction_data@.len() > 0 && instruction_data@[0] == 0 && create_decode_ok(
                instruction_data@,
            ) && spec_name_bytes(instruction_data@).len() > 256 ==> r is Err,
            r is Ok ==> accounts@.len() >= 3,
    {
        let instruction = match CrowdfundInstruction::unpack(instruction_data) {
            Ok(ix) => ix,
            Err(e) => { return Err(e) },
        };
        match instruction {
            CrowdfundInstruction::CreateFund { payload } => {
                Self::process_create_fund(program_id, accounts, payload)
            },
        }
    }
}

} // verus!
