//! Tests of validation, execution and the entry dispatcher: one invocation
//! end to end, every error path, and the atomicity guarantee.

use contracts::context::AccountHandle;
use contracts::context::ExecutionContext;
use contracts::dispatch::dispatch;
use contracts::errors::ErrorKind;
use contracts::instruction::Instruction;
use contracts::schema::decode_record;
use contracts::schema::encode_record;
use contracts::schema::Record;
use contracts::validation::validate;

const PROGRAM_ID: u64 = 0xfeed;

fn record_account(record: &Record, is_signer: bool) -> AccountHandle {
    AccountHandle {
        data: encode_record(record),
        owner_program: PROGRAM_ID,
        is_signer,
        is_writable: true,
    }
}

fn single_account_ctx(account: AccountHandle) -> ExecutionContext {
    ExecutionContext {
        program_id: PROGRAM_ID,
        accounts: vec![account],
    }
}

fn base_record() -> Record {
    Record {
        owner_authority: 5,
        counter: 10,
        transitions: 3,
        flag: false,
    }
}

fn increment_data(amount: u64) -> Vec<u8> {
    let mut data = vec![1u8];
    data.extend_from_slice(&amount.to_le_bytes());
    data
}

#[test]
fn initialize_succeeds_without_mutation() {
    let account = record_account(&base_record(), true);
    let before = account.data.clone();
    let mut ctx = single_account_ctx(account);
    assert_eq!(dispatch(&mut ctx, &vec![0]), Ok(()));
    assert_eq!(ctx.accounts[0].data, before);
    assert_eq!(ctx.accounts.len(), 1);
}

#[test]
fn initialize_without_signer_fails_unchanged() {
    let account = record_account(&base_record(), false);
    let before = account.data.clone();
    let mut ctx = single_account_ctx(account);
    assert_eq!(dispatch(&mut ctx, &vec![0]), Err(ErrorKind::NotSigner));
    assert_eq!(ctx.accounts[0].data, before);
}

#[test]
fn increment_applies_transition() {
    let mut ctx = single_account_ctx(record_account(&base_record(), true));
    assert_eq!(dispatch(&mut ctx, &increment_data(32)), Ok(()));
    let updated = decode_record(&ctx.accounts[0].data).unwrap();
    assert_eq!(
        updated,
        Record {
            owner_authority: 5,
            counter: 42,
            transitions: 4,
            flag: false,
        }
    );
    assert!(ctx.accounts[0].is_signer);
    assert!(ctx.accounts[0].is_writable);
    assert_eq!(ctx.accounts[0].owner_program, PROGRAM_ID);
}

#[test]
fn set_flag_applies_transition() {
    let mut ctx = single_account_ctx(record_account(&base_record(), true));
    assert_eq!(dispatch(&mut ctx, &vec![2, 1]), Ok(()));
    let updated = decode_record(&ctx.accounts[0].data).unwrap();
    assert_eq!(
        updated,
        Record {
            owner_authority: 5,
            counter: 10,
            transitions: 4,
            flag: true,
        }
    );
}

#[test]
fn wrong_account_count_with_no_accounts() {
    let mut ctx = ExecutionContext {
        program_id: PROGRAM_ID,
        accounts: Vec::new(),
    };
    assert_eq!(
        dispatch(&mut ctx, &vec![0]),
        Err(ErrorKind::WrongAccountCount)
    );
}

#[test]
fn wrong_account_count_reported_before_not_signer() {
    // Both failure conditions hold at once: two accounts instead of one, and
    // neither is a signer. The count failure is the one reported.
    let first = record_account(&base_record(), false);
    let second = record_account(&base_record(), false);
    let mut ctx = ExecutionContext {
        program_id: PROGRAM_ID,
        accounts: vec![first, second],
    };
    assert_eq!(
        dispatch(&mut ctx, &vec![0]),
        Err(ErrorKind::WrongAccountCount)
    );
    let instruction = Instruction::Initialize;
    assert_eq!(
        validate(&ctx, &instruction),
        Err(ErrorKind::WrongAccountCount)
    );
}

#[test]
fn foreign_owner_cannot_be_mutated() {
    let mut account = record_account(&base_record(), true);
    account.owner_program = PROGRAM_ID + 1;
    let before = account.data.clone();
    let mut ctx = single_account_ctx(account);
    assert_eq!(
        dispatch(&mut ctx, &increment_data(1)),
        Err(ErrorKind::NotOwner)
    );
    assert_eq!(ctx.accounts[0].data, before);
}

#[test]
fn initialize_does_not_demand_ownership() {
    // Initialize mutates nothing, so the ownership rule does not apply.
    let mut account = record_account(&base_record(), true);
    account.owner_program = PROGRAM_ID + 1;
    let mut ctx = single_account_ctx(account);
    assert_eq!(dispatch(&mut ctx, &vec![0]), Ok(()));
}

#[test]
fn counter_overflow_is_invariant_violation() {
    let record = Record {
        counter: u64::MAX - 5,
        ..base_record()
    };
    let account = record_account(&record, true);
    let before = account.data.clone();
    let mut ctx = single_account_ctx(account);
    assert_eq!(
        dispatch(&mut ctx, &increment_data(6)),
        Err(ErrorKind::InvariantViolation)
    );
    assert_eq!(ctx.accounts[0].data, before);
    // One less and the transition fits.
    let mut ok_ctx = single_account_ctx(record_account(&record, true));
    assert_eq!(dispatch(&mut ok_ctx, &increment_data(5)), Ok(()));
    let updated = decode_record(&ok_ctx.accounts[0].data).unwrap();
    assert_eq!(updated.counter, u64::MAX);
}

#[test]
fn undecodable_account_state_fails_validation() {
    let account = AccountHandle {
        data: vec![0xab; 5],
        owner_program: PROGRAM_ID,
        is_signer: true,
        is_writable: true,
    };
    let mut ctx = single_account_ctx(account);
    assert_eq!(
        dispatch(&mut ctx, &increment_data(1)),
        Err(ErrorKind::SchemaMismatch)
    );
    assert_eq!(ctx.accounts[0].data, vec![0xab; 5]);
}

#[test]
fn failed_multi_field_update_mutates_nothing() {
    // The increment would update the counter and then overflow the
    // transition count: the executor must report ExecutionError and leave
    // every byte of the buffer untouched, counter included.
    let record = Record {
        owner_authority: 5,
        counter: 10,
        transitions: u64::MAX,
        flag: false,
    };
    let account = record_account(&record, true);
    let before = account.data.clone();
    let mut ctx = single_account_ctx(account);
    assert_eq!(
        dispatch(&mut ctx, &increment_data(1)),
        Err(ErrorKind::ExecutionError)
    );
    assert_eq!(ctx.accounts[0].data, before);
    assert_eq!(decode_record(&ctx.accounts[0].data).unwrap(), record);
}

#[test]
fn decode_errors_propagate_through_dispatch() {
    let mut ctx = single_account_ctx(record_account(&base_record(), true));
    assert_eq!(
        dispatch(&mut ctx, &vec![9]),
        Err(ErrorKind::UnknownInstruction)
    );
    assert_eq!(
        dispatch(&mut ctx, &Vec::new()),
        Err(ErrorKind::MalformedPayload)
    );
}

#[test]
fn error_codes_are_stable() {
    assert_eq!(ErrorKind::SchemaMismatch.code(), 1);
    assert_eq!(ErrorKind::UnknownInstruction.code(), 2);
    assert_eq!(ErrorKind::MalformedPayload.code(), 3);
    assert_eq!(ErrorKind::NotSigner.code(), 4);
    assert_eq!(ErrorKind::NotOwner.code(), 5);
    assert_eq!(ErrorKind::WrongAccountCount.code(), 6);
    assert_eq!(ErrorKind::InvariantViolation.code(), 7);
    assert_eq!(ErrorKind::ExecutionError.code(), 8);
}
