use pool_ledger::deposit::{DepositParam, DepositStatus, QueryParam, TransferInput};
use pool_ledger::dispatch::{
    decode_instruction, execute, plan, plan_instruction, process_instruction, Context,
    Instruction, Reply,
};
use pool_ledger::error::{BusinessRule, LedgerError, StateFault, TransferError};
use pool_ledger::identity::Identity;
use pool_ledger::ledger::Ledger;
use pool_ledger::operations::{create_pool, get_pool_by_id, get_pool_tvl};
use pool_ledger::policy::Policy;
use pool_ledger::pool::{AssetType, RiskType};
use pool_ledger::wire::{
    parse_deposit_param, parse_pool_param, parse_query_param, transfer_data, TRANSFER_CODE,
};

fn key(n: u8) -> Identity {
    Identity::new([n; 32])
}

fn pool_payload(name: &[u8], asset: u8, apy: u64, min_period: u64, base_value: u64) -> Vec<u8> {
    let mut data = vec![name.len() as u8];
    data.extend_from_slice(name);
    data.push(asset);
    data.extend_from_slice(&apy.to_le_bytes());
    data.extend_from_slice(&min_period.to_le_bytes());
    data.extend_from_slice(&base_value.to_le_bytes());
    data
}

fn deposit_payload(pool_id: u64, amount: u64) -> Vec<u8> {
    let mut data = pool_id.to_le_bytes().to_vec();
    data.extend_from_slice(&amount.to_le_bytes());
    data
}

fn with_code(code: u8, payload: &[u8]) -> Vec<u8> {
    let mut data = vec![code];
    data.extend_from_slice(payload);
    data
}

fn context(caller: u8, is_signer: bool, now: u64) -> Context {
    Context { caller: key(caller), is_signer, location: key(101), now }
}

fn ledger() -> Ledger {
    Ledger::new(
        Policy { admin_gated: false, reward_bearing: true, reactivate_on_deposit: true },
        Vec::new(),
    )
}

#[test]
fn a_deposit_payload_is_two_little_endian_integers() {
    assert_eq!(
        parse_deposit_param(&deposit_payload(1, 500)),
        Ok(DepositParam { pool_id: 1, amount: 500 })
    );
    let data = [1, 2, 0, 0, 0, 0, 0, 0, 0xF4, 0x01, 0, 0, 0, 0, 0, 0x80];
    assert_eq!(
        parse_deposit_param(&data),
        Ok(DepositParam { pool_id: 0x0201, amount: 0x8000_0000_0000_01F4 })
    );
}

#[test]
fn a_deposit_payload_has_exactly_sixteen_bytes() {
    assert_eq!(parse_deposit_param(&[0; 15]), Err(LedgerError::Validation));
    assert_eq!(parse_deposit_param(&[0; 17]), Err(LedgerError::Validation));
    assert_eq!(parse_deposit_param(&[]), Err(LedgerError::Validation));
}

#[test]
fn a_query_payload_is_one_little_endian_integer() {
    assert_eq!(
        parse_query_param(&[7, 1, 0, 0, 0, 0, 0, 0]),
        Ok(QueryParam { pool_id: 263 })
    );
    assert_eq!(
        parse_query_param(&u64::MAX.to_le_bytes()),
        Ok(QueryParam { pool_id: u64::MAX })
    );
}

#[test]
fn a_query_payload_has_exactly_eight_bytes() {
    assert_eq!(parse_query_param(&[0; 7]), Err(LedgerError::Validation));
    assert_eq!(parse_query_param(&[0; 9]), Err(LedgerError::Validation));
}

#[test]
fn a_pool_payload_names_the_pool_and_its_terms() {
    let data = pool_payload(b"alpha", 1, 10, 3600, 77);
    assert_eq!(data.len(), 31);
    let param = parse_pool_param(&data, key(9)).unwrap();
    assert_eq!(param.pool_name, "alpha");
    assert_eq!(param.asset_type, 1);
    assert_eq!(param.apy, 10);
    assert_eq!(param.min_period, 3600);
    assert_eq!(param.base_value, 77);
    assert_eq!(param.risk_type, 0);
    assert_eq!(param.investment_arm, 0);
    assert_eq!(param.asset_pubkey, key(9));
}

#[test]
fn a_pool_payload_may_have_an_empty_or_a_non_ascii_name() {
    let unnamed = parse_pool_param(&pool_payload(b"", 0, 1, 2, 3), key(9)).unwrap();
    assert_eq!(unnamed.pool_name, "");
    assert_eq!(unnamed.base_value, 3);
    let named = parse_pool_param(&pool_payload("gr\u{fc}n".as_bytes(), 0, 1, 2, 3), key(9)).unwrap();
    assert_eq!(named.pool_name, "gr\u{fc}n");
    assert_eq!(named.min_period, 2);
}

#[test]
fn bytes_after_a_pool_payload_are_not_looked_at() {
    let mut data = pool_payload(b"alpha", 1, 10, 3600, 77);
    data.extend_from_slice(&[9, 9, 9]);
    assert_eq!(parse_pool_param(&data, key(9)).unwrap().base_value, 77);
}

#[test]
fn an_undersized_pool_payload_is_a_validation_error() {
    let data = pool_payload(b"alpha", 1, 10, 3600, 77);
    assert_eq!(
        parse_pool_param(&data[..data.len() - 1], key(9)),
        Err(LedgerError::Validation)
    );
    assert_eq!(parse_pool_param(&[], key(9)), Err(LedgerError::Validation));
    assert_eq!(parse_pool_param(&[200], key(9)), Err(LedgerError::Validation));
    assert_eq!(parse_pool_param(&[0; 25], key(9)), Err(LedgerError::Validation));
    assert!(parse_pool_param(&[0; 26], key(9)).is_ok());
}

#[test]
fn a_name_that_is_not_utf8_is_a_validation_error() {
    assert_eq!(
        parse_pool_param(&pool_payload(&[0xff, 0xfe], 1, 10, 3600, 77), key(9)),
        Err(LedgerError::Validation)
    );
    assert_eq!(
        parse_pool_param(&pool_payload(&[0xc3], 1, 10, 3600, 77), key(9)),
        Err(LedgerError::Validation)
    );
}

#[test]
fn transfer_data_is_the_code_and_the_amount() {
    assert_eq!(TRANSFER_CODE, 3);
    assert_eq!(
        transfer_data(&TransferInput::new(500)),
        vec![3, 0xF4, 0x01, 0, 0, 0, 0, 0, 0]
    );
    assert_eq!(
        transfer_data(&TransferInput::new(0x0102_0304_0506_0708)),
        vec![3, 8, 7, 6, 5, 4, 3, 2, 1]
    );
}

#[test]
fn instructions_decode_by_their_code() {
    assert_eq!(
        decode_instruction(&with_code(1, &deposit_payload(2, 40)), key(101)),
        Ok(Instruction::Deposit(DepositParam { pool_id: 2, amount: 40 }))
    );
    assert_eq!(
        decode_instruction(&with_code(2, &5u64.to_le_bytes()), key(101)),
        Ok(Instruction::Withdraw(QueryParam { pool_id: 5 }))
    );
    assert_eq!(
        decode_instruction(&with_code(3, &5u64.to_le_bytes()), key(101)),
        Ok(Instruction::UserDeposit(QueryParam { pool_id: 5 }))
    );
    match decode_instruction(&with_code(0, &pool_payload(b"alpha", 2, 10, 3600, 77)), key(101)) {
        Ok(Instruction::CreatePool(param)) => {
            assert_eq!(param.pool_name, "alpha");
            assert_eq!(param.asset_type, 2);
            assert_eq!(param.asset_pubkey, key(101));
        }
        other => panic!("unexpected: {:?}", other),
    }
}

#[test]
fn bad_instructions_are_validation_errors() {
    assert_eq!(decode_instruction(&[], key(101)), Err(LedgerError::Validation));
    assert_eq!(
        decode_instruction(&with_code(4, &5u64.to_le_bytes()), key(101)),
        Err(LedgerError::Validation)
    );
    assert_eq!(decode_instruction(&[1], key(101)), Err(LedgerError::Validation));
    assert_eq!(decode_instruction(&[2, 0], key(101)), Err(LedgerError::Validation));
    assert_eq!(decode_instruction(&[0], key(101)), Err(LedgerError::Validation));
}

#[test]
fn instructions_run_from_bytes() {
    let mut ledger = ledger();
    let create = with_code(0, &pool_payload(b"alpha", 2, 10, 3600, 77));
    assert_eq!(plan_instruction(&ledger, &context(1, true, 0), &create), Ok(None));
    assert_eq!(
        process_instruction(&mut ledger, &context(1, true, 0), &create, Ok(())),
        Ok(Reply::PoolCreated(1))
    );
    let pool = get_pool_by_id(&ledger, 1).unwrap();
    assert_eq!(pool.pool_pubkey, key(101));
    assert_eq!(pool.asset_pubkey, key(101));
    assert_eq!(pool.asset_type, AssetType::Ordinals);
    assert_eq!(pool.risk_type, RiskType::Low);
    assert_eq!(pool.base_value, 77);

    let deposit = with_code(1, &deposit_payload(1, 1_000_000));
    assert_eq!(
        plan_instruction(&ledger, &context(2, true, 1000), &deposit),
        Ok(Some(TransferInput::new(1_000_000)))
    );
    assert_eq!(
        process_instruction(&mut ledger, &context(2, true, 1000), &deposit, Ok(())),
        Ok(Reply::Deposited)
    );
    assert_eq!(get_pool_tvl(&ledger, 1), Ok(1_000_000));

    let query = with_code(3, &1u64.to_le_bytes());
    assert_eq!(plan_instruction(&ledger, &context(2, false, 1000), &query), Ok(None));
    match process_instruction(&mut ledger, &context(2, false, 1000), &query, Ok(())) {
        Ok(Reply::UserDeposit(shown)) => {
            assert_eq!(shown.deposited_amount, 1_000_000);
            assert_eq!(shown.status, DepositStatus::Active);
        }
        other => panic!("unexpected: {:?}", other),
    }

    let withdraw = with_code(2, &1u64.to_le_bytes());
    assert_eq!(
        plan_instruction(&ledger, &context(2, true, 4599), &withdraw),
        Err(LedgerError::BusinessRule(BusinessRule::Locked))
    );
    assert_eq!(
        plan_instruction(&ledger, &context(2, true, 4600), &withdraw),
        Ok(Some(TransferInput::new(1_000_000)))
    );
    assert_eq!(
        process_instruction(&mut ledger, &context(2, true, 4600), &withdraw, Ok(())),
        Ok(Reply::Withdrawn)
    );
    assert_eq!(get_pool_tvl(&ledger, 1), Ok(0));
}

#[test]
fn deposits_and_withdrawals_need_a_signature() {
    let mut ledger = ledger();
    create_pool(&mut ledger, &key(1),
            true,
            key(101),
            pool_ledger::pool::PoolParam {
                pool_name: String::from("alpha"),
                risk_type: 0,
                apy: 10,
                min_period: 0,
                asset_pubkey: key(9),
                asset_type: 0,
                investment_arm: 0,
                base_value: 0,
            },
        )
        .unwrap();
    let before = ledger.clone();
    let deposit = Instruction::Deposit(DepositParam { pool_id: 1, amount: 5 });
    let withdraw = Instruction::Withdraw(QueryParam { pool_id: 1 });
    assert_eq!(plan(&ledger, &context(2, false, 0), &deposit), Err(LedgerError::Authorization));
    assert_eq!(plan(&ledger, &context(2, false, 0), &withdraw), Err(LedgerError::Authorization));
    assert_eq!(
        execute(&mut ledger, &context(2, false, 0), deposit, Ok(())),
        Err(LedgerError::Authorization)
    );
    assert_eq!(
        execute(&mut ledger, &context(2, false, 0), withdraw, Ok(())),
        Err(LedgerError::Authorization)
    );
    assert_eq!(ledger, before);
}

#[test]
fn a_failed_instruction_changes_nothing() {
    let mut ledger = ledger();
    let before = ledger.clone();
    let create = with_code(0, &pool_payload(b"alpha", 7, 10, 3600, 77));
    assert_eq!(
        process_instruction(&mut ledger, &context(1, true, 0), &create, Ok(())),
        Err(LedgerError::Validation)
    );
    assert_eq!(
        process_instruction(&mut ledger, &context(1, true, 0), &[9, 9], Ok(())),
        Err(LedgerError::Validation)
    );
    let deposit = with_code(1, &deposit_payload(1, 10));
    assert_eq!(
        process_instruction(&mut ledger, &context(2, true, 0), &deposit, Ok(())),
        Err(LedgerError::State(StateFault::PoolNotFound))
    );
    assert_eq!(
        plan_instruction(&ledger, &context(2, true, 0), &[]),
        Err(LedgerError::Validation)
    );
    assert_eq!(ledger, before);
    let create = with_code(0, &pool_payload(b"alpha", 0, 10, 3600, 77));
    process_instruction(&mut ledger, &context(1, true, 0), &create, Ok(())).unwrap();
    let before = ledger.clone();
    assert_eq!(
        process_instruction(
            &mut ledger,
            &context(2, true, 0),
            &deposit,
            Err(TransferError { code: 3 })
        ),
        Err(LedgerError::Transfer(TransferError { code: 3 }))
    );
    assert_eq!(ledger, before);
}
