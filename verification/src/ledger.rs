//! The trusted boundary to the host ledger environment: address
//! derivation, the rent quote, account access and the allocation call.
//! Each item here wraps exactly one function of the host libraries; its
//! contract is what that function's source and documentation show.

use vstd::prelude::*;

use solana_program::account_info::AccountInfo;
use solana_program::instruction::Instruction;
use solana_program::program_error::ProgramError;
use solana_program::rent::Rent;
use solana_program::sysvar::Sysvar;

use crate::address::Address;

verus! {

#[verifier::external_type_specification]
#[verifier::external_body]
pub struct ExAccountInfo<'a>(AccountInfo<'a>);

#[verifier::external_type_specification]
#[verifier::external_body]
pub struct ExInstruction(Instruction);

#[verifier::external_type_specification]
#[verifier::external_body]
pub struct ExProgramError(ProgramError);

#[verifier::external_type_specification]
#[verifier::external_body]
pub struct ExRent(Rent);

/// The address and bump that derivation yields for a domain seed, a
/// requester identity and a program identity — a pure function of those
/// three inputs alone, so repeated calls agree across processes and
/// machines. `None` names the statistically improbable case that no bump
/// yields a valid derived address.
pub uninterp spec fn pda_of(seed: Seq<u8>, requester: Seq<u8>, program: Seq<u8>) -> Option<
    (Seq<u8>, u8),
>;

/// Relies on Pubkey::try_find_program_address over the seed pair
/// `[seed, requester]`: deterministic in its inputs, the returned bump is
/// chosen so the address falls outside the space ordinary key generation
/// can reach.
#[verifier::external_body]
pub(crate) fn derive_campaign_address(seed: &[u8], requester: &Address, program: &Address) -> (r: Option<
    (Address, u8),
>)
    ensures
        r is Some <==> pda_of(seed@, requester@, program@) is Some,
        r matches Some(p) ==> Some((p.0@, p.1)) == pda_of(seed@, requester@, program@),
{
    let req = solana_program::pubkey::Pubkey::new_from_array(requester.bytes);
    let prog = solana_program::pubkey::Pubkey::new_from_array(program.bytes);
    match solana_program::pubkey::Pubkey::try_find_program_address(&[seed, req.as_ref()], &prog) {
        Some((pk, bump)) => Some((Address { bytes: pk.to_bytes() }, bump)),
        None => None,
    }
}

/// Relies on AccountInfo: `key` is the account's 32-byte address. The
/// account value is opaque here, so nothing is promised of the result.
#[verifier::external_body]
pub(crate) fn account_key<'a>(info: &AccountInfo<'a>) -> (a: Address) {
    Address { bytes: *info.key.as_array() }
}

/// Relies on AccountInfo: `is_signer` is the authorization proof the
/// runtime attached to the account. Opaque input, so nothing is promised.
#[verifier::external_body]
pub(crate) fn account_is_signer<'a>(info: &AccountInfo<'a>) -> (r: bool) {
    info.is_signer
}

/// Relies on AccountInfo::try_borrow_data: a snapshot of the account's
/// current data bytes, or the borrow failure.
#[verifier::external_body]
pub(crate) fn read_account_data<'a>(info: &AccountInfo<'a>) -> (r: Result<Vec<u8>, ProgramError>) {
    match info.try_borrow_data() {
        Ok(data) => Ok(data.to_vec()),
        Err(e) => Err(e),
    }
}

/// Relies on AccountInfo::try_borrow_mut_data; mirrors the length guard
/// of solana_program_pack::Pack::pack, refusing an account whose data
/// size differs from the buffer being stored.
#[verifier::external_body]
pub(crate) fn store_account_data<'a>(info: &AccountInfo<'a>, bytes: &Vec<u8>) -> (r: Result<
    (),
    ProgramError,
>) {
    let mut data = match info.try_borrow_mut_data() {
        Ok(data) => data,
        Err(e) => return Err(e),
    };
    if data.len() != bytes.len() {
        return Err(ProgramError::InvalidAccountData);
    }
    data.copy_from_slice(bytes.as_slice());
    Ok(())
}

/// Relies on Rent::get: reads the rent sysvar from the execution
/// environment; outside that environment it reports UnsupportedSysvar.
/// The outcome is the environment's, so nothing is promised of it.
#[verifier::external_body]
pub(crate) fn fetch_rent() -> (r: Result<Rent, ProgramError>) {
    Rent::get()
}

/// Relies on Rent::try_minimum_balance: the smallest balance that keeps
/// an account of the given data size persistently allocated under this
/// rent configuration, or `None` when the size exceeds the maximum
/// permitted data length or the environment-supplied configuration would
/// overflow the computation.
#[verifier::external_body]
pub(crate) fn rent_minimum_balance(rent: &Rent, data_len: usize) -> (r: Option<u64>) {
    rent.try_minimum_balance(data_len)
}

/// Relies on solana_system_interface::instruction::create_account: builds
/// the system instruction that allocates `space` bytes at `to`, owned by
/// `owner`, funded with `lamports` drawn from `from`.
#[verifier::external_body]
pub(crate) fn build_create_account(
    from: &Address,
    to: &Address,
    lamports: u64,
    space: u64,
    owner: &Address,
) -> (ix: Instruction) {
    solana_system_interface::instruction::create_account(
        &solana_program::pubkey::Pubkey::new_from_array(from.bytes),
        &solana_program::pubkey::Pubkey::new_from_array(to.bytes),
        lamports,
        space,
        &solana_program::pubkey::Pubkey::new_from_array(owner.bytes),
    )
}

/// Relies on solana_program::program::invoke_signed: submits the
/// instruction to the execution environment together with the payer, the
/// target and the system program accounts, signing with the
/// `(seed, requester, bump)` triple as delegated authority. Whether it
/// succeeds is the environment's to decide, so nothing is promised.
#[verifier::external_body]
pub(crate) fn invoke_allocation<'a>(
    ix: &Instruction,
    payer: &AccountInfo<'a>,
    target: &AccountInfo<'a>,
    system: &AccountInfo<'a>,
    seed: &[u8],
    requester: &Address,
    bump: u8,
) -> (r: Result<(), ProgramError>) {
    solana_program::program::invoke_signed(
        ix,
        &[payer.clone(), target.clone(), system.clone()],
        &[&[seed, requester.bytes.as_ref(), &[bump]]],
    )
}

/// Relies on the conversion solana encodes in `From<ProgramError> for
/// u64`: each failure's stable numeric reason code.
#[verifier::external_body]
pub(crate) fn error_code(e: ProgramError) -> (c: u64) {
    u64::from(e)
}

} // verus!
