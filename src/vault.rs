//! The vault program: decoding its instructions, creating a vault at the
//! address derived from its owner, and withdrawals that only the owner can make.
use crate::account::{with_lamports, Account};
use crate::address::Address;
use crate::codec::{le_u64, read_address, read_u64_at, write_address};
use crate::error::ProgramError;
use vstd::prelude::*;

verus! {

/// Size in bytes of a vault's data: one owner address.
pub const VAULT_ACCOUNT_SIZE: u64 = 32;

/// A decoded vault instruction.
#[derive(Clone, Copy, Debug, PartialEq, Eq, Structural)]
pub enum InstructionData {
    /// Create the payer's vault under `bump` and fund it with `amount`.
    Init { bump: u8, amount: u64 },
    /// Move `amount` from the vault back to its owner.
    Withdraw { amount: u64 },
}

/// The instruction that a byte buffer encodes: tag 0, a bump byte and an
/// eight-byte amount for `Init`; tag 1 and an eight-byte amount for `Withdraw`.
/// Bytes past these are not read.
pub open spec fn decode_spec(b: Seq<u8>) -> Option<InstructionData> {
    if b.len() >= 10 && b[0] == 0 {
        Some(InstructionData::Init { bump: b[1], amount: le_u64(b.subrange(2, 10)) as u64 })
    } else if b.len() >= 9 && b[0] == 1 {
        Some(InstructionData::Withdraw { amount: le_u64(b.subrange(1, 9)) as u64 })
    } else {
        None
    }
}

/// Decodes an instruction; an unknown tag or a short buffer is
/// `InvalidInstructionData`.
pub fn decode(b: &[u8]) -> (r: Result<InstructionData, ProgramError>)
    ensures
        r == (match decode_spec(b@) {
            Some(i) => Ok(i),
            None => Err(ProgramError::InvalidInstructionData),
        }),
{
    if b.len() == 0 {
        return Err(ProgramError::InvalidInstructionData);
    }
    if b[0] == 0 {
        if b.len() < 2 {
            return Err(ProgramError::InvalidInstructionData);
        }
        match read_u64_at(b, 2) {
            Some(amount) => Ok(InstructionData::Init { bump: b[1], amount }),
            None => Err(ProgramError::InvalidInstructionData),
        }
    } else if b[0] == 1 {
        match read_u64_at(b, 1) {
            Some(amount) => Ok(InstructionData::Withdraw { amount }),
            None => Err(ProgramError::InvalidInstructionData),
        }
    } else {
        Err(ProgramError::InvalidInstructionData)
    }
}

/// What the host is asked to do on a vault's creation: create account `vault`
/// at the address derived from `payer` and `bump`, signing for it with the
/// program's authority over that address; fund it with `lamports` from
/// `payer`, give it `space` bytes of data and make `owner` its owning program.
#[derive(Clone, Copy, Debug)]
pub struct CreateAccountRequest {
    pub payer: Address,
    pub vault: Address,
    pub lamports: u64,
    pub space: u64,
    pub owner: Address,
    pub bump: u8,
}

/// What an `Init` asks of the host, given the payer and the vault account.
/// Whether the bump derives the vault's address from the payer's is for the
/// host to decide when it checks the program's signature for the vault.
pub open spec fn init_request(
    program_id: Address,
    payer: Account,
    vault: Account,
    bump: u8,
    amount: u64,
) -> CreateAccountRequest {
    CreateAccountRequest {
        payer: payer.key,
        vault: vault.key,
        lamports: amount,
        space: VAULT_ACCOUNT_SIZE,
        owner: program_id,
        bump,
    }
}

/// First half of `Init`, on accounts `[payer, vault]`: the creation request
/// that the host must carry out (see `complete_vault_init` for the rest).
pub fn begin_vault_init(
    program_id: &Address,
    accounts: &Vec<Account>,
    bump: u8,
    amount: u64,
) -> (r: Result<CreateAccountRequest, ProgramError>)
    ensures
        accounts@.len() < 2 ==> r == Err::<CreateAccountRequest, ProgramError>(
            ProgramError::NotEnoughAccountKeys,
        ),
        accounts@.len() >= 2 ==> r == Ok::<CreateAccountRequest, ProgramError>(
            init_request(*program_id, accounts@[0], accounts@[1], bump, amount),
        ),
{
    if accounts.len() < 2 {
        return Err(ProgramError::NotEnoughAccountKeys);
    }
    let payer = &accounts[0];
    let vault = &accounts[1];
    Ok(
        CreateAccountRequest {
            payer: payer.key,
            vault: vault.key,
            lamports: amount,
            space: VAULT_ACCOUNT_SIZE,
            owner: *program_id,
            bump,
        },
    )
}

/// Second half of `Init`, once the host has answered the creation request
/// with `created`: a refusal (the address already holds an account, the payer
/// cannot pay, the bump does not give the vault's address, ...) is returned as
/// it is and nothing changes; otherwise the payer's address is written to the
/// front of the vault's data, which must have room for it. On any error
/// nothing changes.
pub fn complete_vault_init(
    accounts: &mut Vec<Account>,
    created: Result<(), ProgramError>,
) -> (r: Result<(), ProgramError>)
    ensures
        old(accounts)@.len() < 2 ==> r == Err::<(), ProgramError>(
            ProgramError::NotEnoughAccountKeys,
        ),
        old(accounts)@.len() >= 2 && created is Err ==> r == created,
        old(accounts)@.len() >= 2 && created is Ok ==> r == (if old(accounts)@[1].data@.len()
            >= 32 {
            Ok::<(), ProgramError>(())
        } else {
            Err(ProgramError::BorshIoError)
        }),
        r is Err ==> final(accounts)@ == old(accounts)@,
        r is Ok ==> final(accounts)@ == old(accounts)@.update(
            1,
            (Account { data: final(accounts)@[1].data, ..old(accounts)@[1] }),
        ),
        r is Ok ==> final(accounts)@[1].data@ == old(accounts)@[0].key@ + old(
            accounts,
        )@[1].data@.subrange(32, old(accounts)@[1].data@.len() as int),
{
    if accounts.len() < 2 {
        return Err(ProgramError::NotEnoughAccountKeys);
    }
    match created {
        Err(e) => Err(e),
        Ok(()) => {
            if accounts[1].data.len() < 32 {
                return Err(ProgramError::BorshIoError);
            }
            let payer_key = accounts[0].key;
            if write_address(&mut accounts[1].data, &payer_key) {
                Ok(())
            } else {
                Err(ProgramError::BorshIoError)
            }
        },
    }
}

/// The outcome of a withdrawal of `amount` by `payer` from `vault`, its checks
/// taken in order: the vault's data must hold exactly one address, and it must
/// be the payer's; the vault must hold `amount`; the payer must be writable;
/// the vault must belong to this program; the payer's new balance must fit.
pub open spec fn withdraw_check(
    program_id: Address,
    payer: Account,
    vault: Account,
    amount: u64,
) -> Result<(), ProgramError> {
    if vault.data@.len() != 32 {
        Err(ProgramError::InvalidAccountData)
    } else if payer.key@ != vault.data@ {
        Err(ProgramError::IllegalOwner)
    } else if amount > vault.lamports {
        Err(ProgramError::InsufficientFunds)
    } else if !payer.is_writable {
        Err(ProgramError::InvalidAccountData)
    } else if vault.owner@ != program_id@ {
        Err(ProgramError::IllegalOwner)
    } else if payer.lamports + amount > u64::MAX {
        Err(ProgramError::ArithmeticOverflow)
    } else {
        Ok(())
    }
}

/// The accounts `[payer, vault, ..]` after `amount` has moved from the vault's
/// balance to the payer's.
pub open spec fn withdrawn(accounts: Seq<Account>, amount: u64) -> Seq<Account> {
    accounts.update(0, with_lamports(accounts[0], (accounts[0].lamports + amount) as u64)).update(
        1,
        with_lamports(accounts[1], (accounts[1].lamports - amount) as u64),
    )
}

/// `Withdraw` on accounts `[payer, vault]`: after the checks of
/// `withdraw_check`, moves `amount` from the vault's balance to the payer's.
/// On an error nothing changes.
pub fn process_vault_withdraw(
    program_id: &Address,
    accounts: &mut Vec<Account>,
    amount: u64,
) -> (r: Result<(), ProgramError>)
    ensures
        old(accounts)@.len() < 2 ==> r == Err::<(), ProgramError>(
            ProgramError::NotEnoughAccountKeys,
        ),
        old(accounts)@.len() >= 2 ==> r == withdraw_check(
            *program_id,
            old(accounts)@[0],
            old(accounts)@[1],
            amount,
        ),
        r is Err ==> final(accounts)@ == old(accounts)@,
        r is Ok ==> final(accounts)@ == withdrawn(old(accounts)@, amount),
        r is Ok ==> final(accounts)@[0].lamports + final(accounts)@[1].lamports == old(
            accounts,
        )@[0].lamports + old(accounts)@[1].lamports,
        old(accounts)@.len() >= 2 && old(accounts)@[1].data@.len() == 32 && old(
            accounts,
        )@[0].key@ != old(accounts)@[1].data@ ==> r == Err::<(), ProgramError>(
            ProgramError::IllegalOwner,
        ) && final(accounts)@ == old(accounts)@,
{
    if accounts.len() < 2 {
        return Err(ProgramError::NotEnoughAccountKeys);
    }
    let stored = read_address(accounts[1].data.as_slice());
    let recorded_owner = match stored {
        None => {
            return Err(ProgramError::InvalidAccountData);
        },
        Some(o) => o,
    };
    if accounts[0].key != recorded_owner {
        return Err(ProgramError::IllegalOwner);
    }
    if amount > accounts[1].lamports {
        return Err(ProgramError::InsufficientFunds);
    }
    if !accounts[0].is_writable {
        return Err(ProgramError::InvalidAccountData);
    }
    if accounts[1].owner != *program_id {
        return Err(ProgramError::IllegalOwner);
    }
    let vault_after = match accounts[1].lamports.checked_sub(amount) {
        None => {
            return Err(ProgramError::ArithmeticOverflow);
        },
        Some(v) => v,
    };
    let payer_after = match accounts[0].lamports.checked_add(amount) {
        None => {
            return Err(ProgramError::ArithmeticOverflow);
        },
        Some(v) => v,
    };
    accounts[1].lamports = vault_after;
    accounts[0].lamports = payer_after;
    Ok(())
}

/// What a processed instruction leaves for the host to do.
#[derive(Clone, Copy, Debug)]
pub enum Step {
    /// Nothing: the instruction is complete.
    Done,
    /// Carry out this creation, then hand the result to `complete_vault_init`.
    CreateAccount(CreateAccountRequest),
}

/// The vault program's entry: decodes `data` and runs the instruction on
/// `accounts`. A withdrawal completes here; an `Init` returns the creation
/// request that the host must carry out.
pub fn process_instruction(
    program_id: &Address,
    accounts: &mut Vec<Account>,
    data: &[u8],
) -> (r: Result<Step, ProgramError>)
    ensures
        decode_spec(data@) is None ==> r == Err::<Step, ProgramError>(
            ProgramError::InvalidInstructionData,
        ),
        decode_spec(data@) is None || decode_spec(data@).unwrap() is Init || r is Err
            ==> final(accounts)@ == old(accounts)@,
        decode_spec(data@) matches Some(InstructionData::Init { bump, amount }) ==> {
            &&& old(accounts)@.len() < 2 ==> r == Err::<Step, ProgramError>(
                ProgramError::NotEnoughAccountKeys,
            )
            &&& old(accounts)@.len() >= 2 ==> (r matches Ok(Step::CreateAccount(q)) && q
                == init_request(*program_id, old(accounts)@[0], old(accounts)@[1], bump, amount))
        },
        decode_spec(data@) matches Some(InstructionData::Withdraw { amount }) ==> {
            &&& old(accounts)@.len() < 2 ==> r == Err::<Step, ProgramError>(
                ProgramError::NotEnoughAccountKeys,
            )
            &&& old(accounts)@.len() >= 2 ==> match withdraw_check(
                *program_id,
                old(accounts)@[0],
                old(accounts)@[1],
                amount,
            ) {
                Ok(()) => r matches Ok(Step::Done) && final(accounts)@ == withdrawn(
                    old(accounts)@,
                    amount,
                ),
                Err(e) => r == Err::<Step, ProgramError>(e),
            }
        },
{
    match decode(data) {
        Err(e) => Err(e),
        Ok(InstructionData::Init { bump, amount }) => {
            match begin_vault_init(program_id, accounts, bump, amount) {
                Ok(req) => Ok(Step::CreateAccount(req)),
                Err(e) => Err(e),
            }
        },
        Ok(InstructionData::Withdraw { amount }) => {
            match process_vault_withdraw(program_id, accounts, amount) {
                Ok(()) => Ok(Step::Done),
                Err(e) => Err(e),
            }
        },
    }
}

/// At the edge of the balance: with the owner's address recorded, the payer
/// writable, the vault owned by the program and room in the payer's balance,
/// withdrawing the whole balance succeeds and empties the vault, while one
/// unit more fails with `InsufficientFunds`.
pub proof fn lemma_withdraw_boundary(program_id: Address, payer: Account, vault: Account)
    requires
        vault.data@ == payer.key@,
        payer.is_writable,
        vault.owner@ == program_id@,
        payer.lamports + vault.lamports <= u64::MAX,
    ensures
        withdraw_check(program_id, payer, vault, vault.lamports) is Ok,
        withdrawn(seq![payer, vault], vault.lamports)[1].lamports == 0,
        withdrawn(seq![payer, vault], vault.lamports)[0].lamports == payer.lamports
            + vault.lamports,
        vault.lamports < u64::MAX ==> withdraw_check(
            program_id,
            payer,
            vault,
            (vault.lamports + 1) as u64,
        ) == Err::<(), ProgramError>(ProgramError::InsufficientFunds),
{
    assert(payer.key@.len() == 32);
}

/// A vault's life from `Init` on: once the host has created the vault of
/// `created` with room for one address, funded with `amount` and owned by the
/// program, and `complete_vault_init` has turned `created` into `set_up`, the
/// vault records the payer as its owner. The payer can then withdraw `take` of
/// it, which leaves `amount - take` in the vault and adds `take` to the
/// payer's balance, while any other account is refused with `IllegalOwner`.
pub proof fn lemma_init_then_withdraw(
    program_id: Address,
    created: Seq<Account>,
    set_up: Seq<Account>,
    amount: u64,
    take: u64,
    stranger: Account,
)
    requires
        created.len() >= 2,
        created[1].data@.len() == 32,
        created[1].lamports == amount,
        created[1].owner@ == program_id@,
        created[0].is_writable,
        take <= amount,
        created[0].lamports + take <= u64::MAX,
        set_up == created.update(1, (Account { data: set_up[1].data, ..created[1] })),
        set_up[1].data@ == created[0].key@ + created[1].data@.subrange(32, 32),
        stranger.key@ != created[0].key@,
    ensures
        set_up[1].data@ == created[0].key@,
        set_up[1].lamports == amount,
        withdraw_check(program_id, set_up[0], set_up[1], take) is Ok,
        withdrawn(set_up, take)[1].lamports == amount - take,
        withdrawn(set_up, take)[0].lamports == created[0].lamports + take,
        withdrawn(set_up, take)[1].data == set_up[1].data,
        withdraw_check(program_id, stranger, set_up[1], 1) == Err::<(), ProgramError>(
            ProgramError::IllegalOwner,
        ),
{
    assert(created[0].key@.len() == 32);
    assert(set_up[1].data@ =~= created[0].key@);
}

} // verus!
