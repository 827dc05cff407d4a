use vstd::prelude::*;
use crate::address::Address;
use crate::cpi::{
    Cpi, spl_token_program_id, is_token_transfer, is_token_mint_to, is_token_set_owner,
    is_system_transfer, token_transfer_instruction, token_mint_to_instruction,
    token_set_owner_instruction, system_transfer_instruction,
};
use crate::error::{PoolError, Failure, INCORRECT_PROGRAM_ID};

verus! {

/// A token transfer signed by a program-derived authority.
#[derive(Clone, Debug)]
pub struct TokenTransferParams {
    pub source: Address,
    pub destination: Address,
    pub amount: u64,
    pub authority: Address,
    pub authority_signer_seeds: Vec<Vec<u8>>,
    pub token_program: Address,
}

/// A transfer of lamports by debiting and crediting two balances directly.
#[derive(Clone, Copy, Debug)]
pub struct SolTransferParams {
    pub source_lamports: u64,
    pub destination_lamports: u64,
    pub amount: u64,
}

/// A token transfer authorised by a signer of the transaction.
#[derive(Clone, Copy, Debug)]
pub struct TokenTransferParamsWithoutSeed {
    pub source: Address,
    pub destination: Address,
    pub amount: u64,
    pub authority: Address,
    pub token_program: Address,
}

/// A transfer of lamports through the system program, paid by a signer.
#[derive(Clone, Copy, Debug)]
pub struct SolTransferParamsWithoutSeed {
    pub source: Address,
    pub destination: Address,
    pub amount: u64,
}

/// A change of the owner of a token account.
#[derive(Clone, Copy, Debug)]
pub struct TokenSetAuthorityParams {
    pub authority: Address,
    pub new_authority: Address,
    pub account: Address,
    pub token_program: Address,
}

/// A minting of tokens into an account.
#[derive(Clone, Copy, Debug)]
pub struct TokenMintToParams {
    pub mint: Address,
    pub account: Address,
    pub owner: Address,
    pub token_program: Address,
    pub amount: u64,
}

/// The call that moves `amount` tokens from `source` to `destination` on the
/// authority of a program-derived address, signed with the given seeds.
pub fn spl_token_transfer(params: TokenTransferParams) -> (r: Result<Cpi, Failure>)
    ensures
        r is Ok <==> params.token_program@ == spl_token_program_id(),
        r matches Ok(c) ==> {
            &&& is_token_transfer(c.instruction, params.token_program, params.source,
                params.destination, params.authority, params.amount)
            &&& c.signer_seeds@ == params.authority_signer_seeds@
            &&& c.on_failure == PoolError::TokenTransferFailed
        },
        r matches Err(e) ==> e == Failure::Program(INCORRECT_PROGRAM_ID),
{
    let TokenTransferParams { source, destination, amount, authority, authority_signer_seeds, token_program } = params;
    match token_transfer_instruction(&token_program, &source, &destination, &authority, amount) {
        Ok(instruction) => Ok(Cpi {
            instruction,
            signer_seeds: authority_signer_seeds,
            on_failure: PoolError::TokenTransferFailed,
        }),
        Err(code) => Err(Failure::Program(code)),
    }
}

/// Debits `amount` lamports from the source balance and credits them to the
/// destination balance; refuses when the source holds fewer than `amount`.
pub fn sol_transfer(params: SolTransferParams) -> (r: Result<(u64, u64), PoolError>)
    requires
        params.source_lamports >= params.amount ==> params.destination_lamports + params.amount
            <= u64::MAX,
    ensures
        r is Err <==> params.source_lamports < params.amount,
        r matches Err(e) ==> e == PoolError::InsufficentFunds,
        r matches Ok(balances) ==> {
            &&& balances.0 == params.source_lamports - params.amount
            &&& balances.1 == params.destination_lamports + params.amount
            &&& balances.0 + balances.1 == params.source_lamports + params.destination_lamports
        },
{
    if params.source_lamports < params.amount {
        return Err(PoolError::InsufficentFunds);
    }
    Ok((params.source_lamports - params.amount, params.destination_lamports + params.amount))
}

/// The call that moves `amount` tokens from `source` to `destination` on the
/// authority of a signer of the transaction.
pub fn spl_token_transfer_without_seed(params: TokenTransferParamsWithoutSeed) -> (r: Result<Cpi, Failure>)
    ensures
        r is Ok <==> params.token_program@ == spl_token_program_id(),
        r matches Ok(c) ==> {
            &&& is_token_transfer(c.instruction, params.token_program, params.source,
                params.destination, params.authority, params.amount)
            &&& c.signer_seeds@.len() == 0
            &&& c.on_failure == PoolError::TokenTransferFailed
        },
        r matches Err(e) ==> e == Failure::Program(INCORRECT_PROGRAM_ID),
{
    match token_transfer_instruction(&params.token_program, &params.source, &params.destination,
        &params.authority, params.amount) {
        Ok(instruction) => Ok(Cpi {
            instruction,
            signer_seeds: Vec::new(),
            on_failure: PoolError::TokenTransferFailed,
        }),
        Err(code) => Err(Failure::Program(code)),
    }
}

/// The call to the system program that moves `amount` lamports from the
/// signer `source` to `destination`.
pub fn sol_transfer_without_seed(params: SolTransferParamsWithoutSeed) -> (c: Cpi)
    ensures
        is_system_transfer(c.instruction, params.source, params.destination, params.amount),
        c.signer_seeds@.len() == 0,
        c.on_failure == PoolError::SOLTransferFailed,
{
    Cpi {
        instruction: system_transfer_instruction(&params.source, &params.destination, params.amount),
        signer_seeds: Vec::new(),
        on_failure: PoolError::SOLTransferFailed,
    }
}

/// The call that makes `new_authority` the owner of the token account
/// `account`, on the authority of its current owner.
pub fn spl_token_set_authority(params: TokenSetAuthorityParams) -> (r: Result<Cpi, Failure>)
    ensures
        r is Ok <==> params.token_program@ == spl_token_program_id(),
        r matches Ok(c) ==> {
            &&& is_token_set_owner(c.instruction, params.token_program, params.account,
                params.new_authority, params.authority)
            &&& c.signer_seeds@.len() == 0
            &&& c.on_failure == PoolError::TokenSetAuthorityFailed
        },
        r matches Err(e) ==> e == Failure::Program(INCORRECT_PROGRAM_ID),
{
    match token_set_owner_instruction(&params.token_program, &params.account, &params.new_authority,
        &params.authority) {
        Ok(instruction) => Ok(Cpi {
            instruction,
            signer_seeds: Vec::new(),
            on_failure: PoolError::TokenSetAuthorityFailed,
        }),
        Err(code) => Err(Failure::Program(code)),
    }
}

/// The call that mints `amount` tokens of `mint` into `account`, on the
/// authority of the mint's owner.
pub fn spl_token_mint_to(params: TokenMintToParams) -> (r: Result<Cpi, Failure>)
    ensures
        r is Ok <==> params.token_program@ == spl_token_program_id(),
        r matches Ok(c) ==> {
            &&& is_token_mint_to(c.instruction, params.token_program, params.mint, params.account,
                params.owner, params.amount)
            &&& c.signer_seeds@.len() == 0
            &&& c.on_failure == PoolError::TokenMintToFailed
        },
        r matches Err(e) ==> e == Failure::Program(INCORRECT_PROGRAM_ID),
{
    match token_mint_to_instruction(&params.token_program, &params.mint, &params.account,
        &params.owner, params.amount) {
        Ok(instruction) => Ok(Cpi {
            instruction,
            signer_seeds: Vec::new(),
            on_failure: PoolError::TokenMintToFailed,
        }),
        Err(code) => Err(Failure::Program(code)),
    }
}

/// Moves `amount` lamports from the account `from` to the account `to`, given
/// their balances as read before the move. When the two keys name the same
/// account, debiting and then crediting it leaves it as it was, so only the
/// check for funds remains; otherwise this is `sol_transfer`. Returns the new
/// balances of `from` and `to`.
pub fn sol_transfer_between(
    from: &Address,
    to: &Address,
    from_lamports: u64,
    to_lamports: u64,
    amount: u64,
) -> (r: Result<(u64, u64), PoolError>)
    requires
        from@ != to@ && from_lamports >= amount ==> to_lamports + amount <= u64::MAX,
    ensures
        r is Err <==> from_lamports < amount,
        r matches Err(e) ==> e == PoolError::InsufficentFunds,
        r matches Ok(balances) ==> if from@ == to@ {
            balances.0 == from_lamports && balances.1 == from_lamports
        } else {
            &&& balances.0 == from_lamports - amount
            &&& balances.1 == to_lamports + amount
        },
{
    if from.same(to) {
        if from_lamports < amount {
            return Err(PoolError::InsufficentFunds);
        }
        return Ok((from_lamports, from_lamports));
    }
    sol_transfer(SolTransferParams { source_lamports: from_lamports, destination_lamports: to_lamports, amount })
}

} // verus!
