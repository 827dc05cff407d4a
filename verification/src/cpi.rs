use vstd::prelude::*;
use vstd::bytes::spec_u64_to_le_bytes;
use spl_token::solana_program::pubkey::Pubkey;
use crate::address::Address;
use crate::error::{PoolError, INCORRECT_PROGRAM_ID};

verus! {

/// One account named by an instruction, with how the instruction uses it.
#[derive(Clone, Copy, Debug, PartialEq, Eq)]
pub struct AccountRef {
    pub key: Address,
    pub is_signer: bool,
    pub is_writable: bool,
}

/// An instruction for another program: which program, which accounts, what data.
#[derive(Clone, Debug, PartialEq, Eq)]
pub struct Instruction {
    pub program_id: Address,
    pub accounts: Vec<AccountRef>,
    pub data: Vec<u8>,
}

/// A call into another program that the runtime is to make, signed with the
/// given seeds (none for an ordinary call), and the error to report if the
/// runtime refuses it.
#[derive(Clone, Debug)]
pub struct Cpi {
    pub instruction: Instruction,
    pub signer_seeds: Vec<Vec<u8>>,
    pub on_failure: PoolError,
}

/// What an instruction of the program asks the runtime to do with funds,
/// in order: call another program, or move lamports between two accounts.
#[derive(Clone, Debug)]
pub enum Effect {
    Invoke(Cpi),
    MoveLamports { from: Address, to: Address, amount: u64 },
}

impl Instruction {
    /// Assembles an instruction from its program's key, its accounts as
    /// (key, is signer, is writable) triples, and its data.
    pub fn from_parts(program_id: [u8; 32], metas: Vec<([u8; 32], bool, bool)>, data: Vec<u8>) -> (r: Instruction)
        ensures
            r.program_id.bytes == program_id,
            r.accounts@.len() == metas@.len(),
            forall|i: int| 0 <= i < metas@.len() ==> #[trigger] r.accounts@[i] == (AccountRef {
                key: Address { bytes: metas@[i].0 },
                is_signer: metas@[i].1,
                is_writable: metas@[i].2,
            }),
            r.data@ == data@,
    {
        let mut accounts: Vec<AccountRef> = Vec::new();
        let mut i: usize = 0;
        while i < metas.len()
            invariant
                0 <= i <= metas@.len(),
                accounts@.len() == i,
                forall|j: int| 0 <= j < i ==> #[trigger] accounts@[j] == (AccountRef {
                    key: Address { bytes: metas@[j].0 },
                    is_signer: metas@[j].1,
                    is_writable: metas@[j].2,
                }),
            decreases metas@.len() - i,
        {
            let (key, is_signer, is_writable) = metas[i];
            accounts.push(AccountRef { key: Address { bytes: key }, is_signer, is_writable });
            i = i + 1;
        }
        Instruction { program_id: Address { bytes: program_id }, accounts, data }
    }
}

/// The address of the token program (`TokenkegQfeZyiNwAJbNbGKPFXCWuBvf9Ss623VQ5DA`).
pub open spec fn spl_token_program_id() -> Seq<u8> {
    seq![
        6u8, 221, 246, 225, 215, 101, 161, 147, 217, 203, 225, 70, 206, 235, 121, 172,
        28, 180, 133, 237, 95, 91, 55, 145, 58, 140, 245, 133, 126, 255, 0, 169,
    ]
}

/// The address of the system program (all zero bytes).
pub open spec fn system_program_id() -> Seq<u8> {
    Seq::new(32, |i: int| 0u8)
}

/// A writable account that does not sign.
pub open spec fn writable(key: Address) -> AccountRef {
    AccountRef { key, is_signer: false, is_writable: true }
}

/// A read-only account that signs.
pub open spec fn readonly_signer(key: Address) -> AccountRef {
    AccountRef { key, is_signer: true, is_writable: false }
}

/// A writable account that signs.
pub open spec fn writable_signer(key: Address) -> AccountRef {
    AccountRef { key, is_signer: true, is_writable: true }
}

/// `ix` is the token program's `Transfer` of `amount` from `source` to
/// `destination`, authorised by `authority` alone.
pub open spec fn is_token_transfer(
    ix: Instruction,
    token_program: Address,
    source: Address,
    destination: Address,
    authority: Address,
    amount: u64,
) -> bool {
    &&& ix.program_id == token_program
    &&& ix.accounts@ == seq![writable(source), writable(destination), readonly_signer(authority)]
    &&& ix.data@ == seq![3u8] + spec_u64_to_le_bytes(amount)
}

/// `ix` is the token program's `MintTo` of `amount` tokens of `mint` into
/// `account`, authorised by `owner` alone.
pub open spec fn is_token_mint_to(
    ix: Instruction,
    token_program: Address,
    mint: Address,
    account: Address,
    owner: Address,
    amount: u64,
) -> bool {
    &&& ix.program_id == token_program
    &&& ix.accounts@ == seq![writable(mint), writable(account), readonly_signer(owner)]
    &&& ix.data@ == seq![7u8] + spec_u64_to_le_bytes(amount)
}

/// `ix` is the token program's `SetAuthority` that makes `new_authority` the
/// owner of `account`, authorised by `owner` alone.
pub open spec fn is_token_set_owner(
    ix: Instruction,
    token_program: Address,
    account: Address,
    new_authority: Address,
    owner: Address,
) -> bool {
    &&& ix.program_id == token_program
    &&& ix.accounts@ == seq![writable(account), readonly_signer(owner)]
    &&& ix.data@ == seq![6u8, 2u8, 1u8] + new_authority@
}

/// `ix` is the system program's `Transfer` of `lamports` from `from` to `to`.
pub open spec fn is_system_transfer(ix: Instruction, from: Address, to: Address, lamports: u64) -> bool {
    &&& ix.program_id@ == system_program_id()
    &&& ix.accounts@ == seq![writable_signer(from), writable(to)]
    &&& ix.data@ == seq![2u8, 0u8, 0u8, 0u8] + spec_u64_to_le_bytes(lamports)
}

/// Builds the token program's `Transfer` instruction through
/// `spl_token::instruction::transfer` with no multisig signers. As its source
/// shows, it fails with `IncorrectProgramId` exactly when `token_program` is
/// not the token program, and otherwise names the source and destination as
/// writable, the authority as a read-only signer, and packs tag 3 and the
/// amount in little-endian bytes.
#[verifier::external_body]
pub(crate) fn token_transfer_instruction(
    token_program: &Address,
    source: &Address,
    destination: &Address,
    authority: &Address,
    amount: u64,
) -> (r: Result<Instruction, u64>)
    ensures
        r is Ok <==> token_program@ == spl_token_program_id(),
        r matches Ok(ix) ==> is_token_transfer(ix, *token_program, *source, *destination, *authority, amount),
        r matches Err(code) ==> code == INCORRECT_PROGRAM_ID,
{
    let k = |a: &Address| Pubkey::new_from_array(a.bytes);
    let ix = spl_token::instruction::transfer(&k(token_program), &k(source), &k(destination), &k(authority), &[], amount)
        .map_err(u64::from)?;
    let metas = ix.accounts.iter().map(|m| (m.pubkey.to_bytes(), m.is_signer, m.is_writable)).collect();
    Ok(Instruction::from_parts(ix.program_id.to_bytes(), metas, ix.data))
}

/// Builds the token program's `MintTo` instruction through
/// `spl_token::instruction::mint_to` with no multisig signers. As its source
/// shows, it fails with `IncorrectProgramId` exactly when `token_program` is
/// not the token program, and otherwise names the mint and the receiving
/// account as writable, the mint's owner as a read-only signer, and packs tag
/// 7 and the amount in little-endian bytes.
#[verifier::external_body]
pub(crate) fn token_mint_to_instruction(
    token_program: &Address,
    mint: &Address,
    account: &Address,
    owner: &Address,
    amount: u64,
) -> (r: Result<Instruction, u64>)
    ensures
        r is Ok <==> token_program@ == spl_token_program_id(),
        r matches Ok(ix) ==> is_token_mint_to(ix, *token_program, *mint, *account, *owner, amount),
        r matches Err(code) ==> code == INCORRECT_PROGRAM_ID,
{
    let k = |a: &Address| Pubkey::new_from_array(a.bytes);
    let ix = spl_token::instruction::mint_to(&k(token_program), &k(mint), &k(account), &k(owner), &[], amount)
        .map_err(u64::from)?;
    let metas = ix.accounts.iter().map(|m| (m.pubkey.to_bytes(), m.is_signer, m.is_writable)).collect();
    Ok(Instruction::from_parts(ix.program_id.to_bytes(), metas, ix.data))
}

/// Builds the token program's `SetAuthority` instruction through
/// `spl_token::instruction::set_authority`, for the `AccountOwner` authority
/// and with no multisig signers. As its source shows, it fails with
/// `IncorrectProgramId` exactly when `token_program` is not the token program,
/// and otherwise names the account as writable, its current owner as a
/// read-only signer, and packs tag 6, authority type 2 (account owner), the
/// tag 1 of a present key, and the new owner's 32 bytes.
#[verifier::external_body]
pub(crate) fn token_set_owner_instruction(
    token_program: &Address,
    account: &Address,
    new_authority: &Address,
    owner: &Address,
) -> (r: Result<Instruction, u64>)
    ensures
        r is Ok <==> token_program@ == spl_token_program_id(),
        r matches Ok(ix) ==> is_token_set_owner(ix, *token_program, *account, *new_authority, *owner),
        r matches Err(code) ==> code == INCORRECT_PROGRAM_ID,
{
    let k = |a: &Address| Pubkey::new_from_array(a.bytes);
    let ix = spl_token::instruction::set_authority(&k(token_program), &k(account), Some(&k(new_authority)),
        spl_token::instruction::AuthorityType::AccountOwner, &k(owner), &[]).map_err(u64::from)?;
    let metas = ix.accounts.iter().map(|m| (m.pubkey.to_bytes(), m.is_signer, m.is_writable)).collect();
    Ok(Instruction::from_parts(ix.program_id.to_bytes(), metas, ix.data))
}

/// Builds the system program's `Transfer` instruction through
/// `solana_program::system_instruction::transfer`. As its source shows, the
/// program is the system program, the payer is a writable signer and the
/// payee writable, and the data is the bincode encoding of
/// `SystemInstruction::Transfer`: the variant index 2 as a little-endian
/// `u32`, then the lamports as a little-endian `u64`.
#[verifier::external_body]
pub(crate) fn system_transfer_instruction(from: &Address, to: &Address, lamports: u64) -> (r: Instruction)
    ensures
        is_system_transfer(r, *from, *to, lamports),
{
    let k = |a: &Address| Pubkey::new_from_array(a.bytes);
    let ix = spl_token::solana_program::system_instruction::transfer(&k(from), &k(to), lamports);
    let metas = ix.accounts.iter().map(|m| (m.pubkey.to_bytes(), m.is_signer, m.is_writable)).collect();
    Instruction::from_parts(ix.program_id.to_bytes(), metas, ix.data)
}

} // verus!
