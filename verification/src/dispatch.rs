//! Decoding an instruction and carrying it out on a ledger.
//!
//! An instruction is one code byte followed by the operation's payload:
//! 0 creates a pool, 1 deposits, 2 withdraws, 3 asks for the caller's
//! deposit.

use crate::deposit::{DepositParam, Deposits, QueryParam, TransferInput};
use crate::error::{LedgerError, TransferError};
use crate::identity::Identity;
use crate::ledger::{Ledger, LedgerView};
use crate::operations::{
    check_create, create_pool, deposit, get_user_deposit, plan_deposit, plan_withdraw, withdraw,
};
use crate::pool::PoolParam;
use crate::wire::{
    deposit_payload, parse_deposit_param, parse_pool_param, parse_query_param, pool_payload_holds,
    pool_payload_valid, query_payload,
};
use vstd::prelude::*;
use vstd::slice::slice_subrange;

verus! {

/// A decoded instruction.
#[derive(Clone, Debug, PartialEq, Eq)]
pub enum Instruction {
    CreatePool(PoolParam),
    Deposit(DepositParam),
    Withdraw(QueryParam),
    UserDeposit(QueryParam),
}

/// What the host knows when it hands over an instruction.
#[derive(Clone, Copy, Debug, PartialEq, Eq)]
pub struct Context {
    /// Who sent the instruction; the depositor of a deposit or withdrawal.
    pub caller: Identity,
    /// Whether the caller's signature is present.
    pub is_signer: bool,
    /// The storage location offered for a new pool's record.
    pub location: Identity,
    /// The current time in seconds.
    pub now: u64,
}

/// What a completed instruction answers.
#[derive(Clone, Copy, Debug, PartialEq, Eq)]
pub enum Reply {
    /// A pool was created under this id.
    PoolCreated(u64),
    Deposited,
    Withdrawn,
    /// The caller's deposit, as asked for.
    UserDeposit(Deposits),
}

/// The payload of an instruction: all but its first byte.
pub open spec fn payload(data: Seq<u8>) -> Seq<u8> {
    data.subrange(1, data.len() as int)
}

/// Whether `data` decodes to an instruction.
pub open spec fn decodable(data: Seq<u8>) -> bool {
    &&& data.len() >= 1
    &&& {
        ||| data[0] == 0 && pool_payload_valid(payload(data))
        ||| data[0] == 1 && deposit_payload(payload(data)) is Ok
        ||| data[0] == 2 && query_payload(payload(data)) is Ok
        ||| data[0] == 3 && query_payload(payload(data)) is Ok
    }
}

/// Whether `instruction` is what `data` says, a new pool's asset being
/// stored at `location`.
pub open spec fn decoded(data: Seq<u8>, location: Identity, instruction: Instruction) -> bool {
    match instruction {
        Instruction::CreatePool(param) => data[0] == 0 && pool_payload_holds(
            payload(data),
            location,
            param,
        ),
        Instruction::Deposit(param) => data[0] == 1 && deposit_payload(payload(data)) == Ok::<
            DepositParam,
            LedgerError,
        >(param),
        Instruction::Withdraw(param) => data[0] == 2 && query_payload(payload(data)) == Ok::<
            QueryParam,
            LedgerError,
        >(param),
        Instruction::UserDeposit(param) => data[0] == 3 && query_payload(payload(data)) == Ok::<
            QueryParam,
            LedgerError,
        >(param),
    }
}

/// The transfer that `instruction` needs before it is carried out, if any,
/// or the error it fails with before any transfer. A deposit and a
/// withdrawal need the caller's signature.
pub open spec fn planned(ledger: LedgerView, context: Context, instruction: Instruction) -> Result<
    Option<TransferInput>,
    LedgerError,
> {
    match instruction {
        Instruction::CreatePool(param) => match ledger.create_check(
            context.caller,
            context.is_signer,
            param,
        ) {
            Ok(_) => Ok(None),
            Err(e) => Err(e),
        },
        Instruction::Deposit(param) => if !context.is_signer {
            Err(LedgerError::Authorization)
        } else {
            match ledger.deposit_plan(param) {
                Ok(request) => Ok(Some(request)),
                Err(e) => Err(e),
            }
        },
        Instruction::Withdraw(param) => if !context.is_signer {
            Err(LedgerError::Authorization)
        } else {
            match ledger.withdraw_plan(context.caller, param.pool_id, context.now) {
                Ok(request) => Ok(Some(request)),
                Err(e) => Err(e),
            }
        },
        Instruction::UserDeposit(param) => match ledger.deposit_shown(
            context.caller,
            param,
            context.now,
        ) {
            Ok(_) => Ok(None),
            Err(e) => Err(e),
        },
    }
}

/// The answer to `instruction` and the ledger after it, or the error it
/// fails with. `transfer` is the outcome of the transfer that `planned`
/// asked for; an instruction that asks for none does not look at it.
pub open spec fn executed(
    ledger: LedgerView,
    context: Context,
    instruction: Instruction,
    transfer: Result<(), TransferError>,
) -> Result<(Reply, LedgerView), LedgerError> {
    match instruction {
        Instruction::CreatePool(param) => match ledger.create_outcome(
            context.caller,
            context.is_signer,
            context.location,
            param,
        ) {
            Ok((id, next)) => Ok((Reply::PoolCreated(id), next)),
            Err(e) => Err(e),
        },
        Instruction::Deposit(param) => if !context.is_signer {
            Err(LedgerError::Authorization)
        } else {
            match ledger.deposit_outcome(context.caller, param, context.now, transfer) {
                Ok(next) => Ok((Reply::Deposited, next)),
                Err(e) => Err(e),
            }
        },
        Instruction::Withdraw(param) => if !context.is_signer {
            Err(LedgerError::Authorization)
        } else {
            match ledger.withdraw_outcome(context.caller, param.pool_id, context.now, transfer) {
                Ok(next) => Ok((Reply::Withdrawn, next)),
                Err(e) => Err(e),
            }
        },
        Instruction::UserDeposit(param) => match ledger.deposit_shown(
            context.caller,
            param,
            context.now,
        ) {
            Ok(deposit) => Ok((Reply::UserDeposit(deposit), ledger)),
            Err(e) => Err(e),
        },
    }
}

/// Decodes an instruction. Empty data, an unknown code and a malformed
/// payload are validation errors.
pub fn decode_instruction(data: &[u8], location: Identity) -> (r: Result<Instruction, LedgerError>)
    ensures
        decodable(data@) ==> r is Ok && decoded(data@, location, r.unwrap()),
        !decodable(data@) ==> r is Err && r.unwrap_err() == LedgerError::Validation,
{
    if data.len() < 1 {
        return Err(LedgerError::Validation);
    }
    let body: &[u8] = slice_subrange(data, 1, data.len());
    match data[0] {
        0 => Ok(Instruction::CreatePool(parse_pool_param(body, location)?)),
        1 => Ok(Instruction::Deposit(parse_deposit_param(body)?)),
        2 => Ok(Instruction::Withdraw(parse_query_param(body)?)),
        3 => Ok(Instruction::UserDeposit(parse_query_param(body)?)),
        _ => Err(LedgerError::Validation),
    }
}

/// Says which transfer a decoded instruction needs, without changing
/// anything.
pub fn plan(ledger: &Ledger, context: &Context, instruction: &Instruction) -> (r: Result<
    Option<TransferInput>,
    LedgerError,
>)
    ensures
        r == planned(ledger@, *context, *instruction),
{
    match instruction {
        Instruction::CreatePool(param) => {
            let _ = check_create(ledger, &context.caller, context.is_signer, param)?;
            Ok(None)
        },
        Instruction::Deposit(param) => {
            if !context.is_signer {
                return Err(LedgerError::Authorization);
            }
            Ok(Some(plan_deposit(ledger, param)?))
        },
        Instruction::Withdraw(param) => {
            if !context.is_signer {
                return Err(LedgerError::Authorization);
            }
            Ok(Some(plan_withdraw(ledger, &context.caller, param.pool_id, context.now)?))
        },
        Instruction::UserDeposit(param) => {
            let _ = get_user_deposit(ledger, &context.caller, param, context.now)?;
            Ok(None)
        },
    }
}

/// Carries out a decoded instruction.
pub fn execute(
    ledger: &mut Ledger,
    context: &Context,
    instruction: Instruction,
    transfer: Result<(), TransferError>,
) -> (r: Result<Reply, LedgerError>)
    ensures
        match executed(old(ledger)@, *context, instruction, transfer) {
            Ok((reply, next)) => r == Ok::<Reply, LedgerError>(reply) && final(ledger)@ == next,
            Err(e) => r == Err::<Reply, LedgerError>(e) && final(ledger)@ == old(ledger)@,
        },
{
    match instruction {
        Instruction::CreatePool(param) => {
            let id: u64 = create_pool(
                ledger,
                &context.caller,
                context.is_signer,
                context.location,
                param,
            )?;
            Ok(Reply::PoolCreated(id))
        },
        Instruction::Deposit(param) => {
            if !context.is_signer {
                return Err(LedgerError::Authorization);
            }
            deposit(ledger, context.caller, param, context.now, transfer)?;
            Ok(Reply::Deposited)
        },
        Instruction::Withdraw(param) => {
            if !context.is_signer {
                return Err(LedgerError::Authorization);
            }
            withdraw(ledger, context.caller, param.pool_id, context.now, transfer)?;
            Ok(Reply::Withdrawn)
        },
        Instruction::UserDeposit(param) => {
            let deposit: Deposits = get_user_deposit(ledger, &context.caller, &param, context.now)?;
            Ok(Reply::UserDeposit(deposit))
        },
    }
}

/// Says which transfer the instruction in `data` needs, without changing
/// anything.
pub fn plan_instruction(ledger: &Ledger, context: &Context, data: &[u8]) -> (r: Result<
    Option<TransferInput>,
    LedgerError,
>)
    ensures
        !decodable(data@) ==> r == Err::<Option<TransferInput>, LedgerError>(
            LedgerError::Validation,
        ),
        decodable(data@) ==> exists|instruction: Instruction|
            decoded(data@, context.location, instruction) && r == planned(
                ledger@,
                *context,
                instruction,
            ),
{
    let instruction: Instruction = decode_instruction(data, context.location)?;
    plan(ledger, context, &instruction)
}

/// Decodes the instruction in `data` and carries it out, `transfer` being
/// the outcome of the transfer that `plan_instruction` asked for.
pub fn process_instruction(
    ledger: &mut Ledger,
    context: &Context,
    data: &[u8],
    transfer: Result<(), TransferError>,
) -> (r: Result<Reply, LedgerError>)
    ensures
        !decodable(data@) ==> r == Err::<Reply, LedgerError>(LedgerError::Validation)
            && final(ledger)@ == old(ledger)@,
        decodable(data@) ==> exists|instruction: Instruction|
            decoded(data@, context.location, instruction) && match executed(
                old(ledger)@,
                *context,
                instruction,
                transfer,
            ) {
                Ok((reply, next)) => r == Ok::<Reply, LedgerError>(reply) && final(ledger)@
                    == next,
                Err(e) => r == Err::<Reply, LedgerError>(e) && final(ledger)@ == old(ledger)@,
            },
{
    let instruction: Instruction = decode_instruction(data, context.location)?;
    execute(ledger, context, instruction, transfer)
}

} // verus!
