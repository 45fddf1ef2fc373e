use crowdfund_ledger::account::Account;
use crowdfund_ledger::codec::{decode_campaign, decode_withdraw, encode_campaign, encode_withdraw};
use crowdfund_ledger::dispatch::process_instruction;
use crowdfund_ledger::errors::LedgerError;
use crowdfund_ledger::handlers::{create_campaign, donate, withdraw};
use crowdfund_ledger::keys::Pubkey;
use crowdfund_ledger::record::{CampaignRecord, WithdrawRequest};

fn key(tag: u8) -> Pubkey {
    Pubkey { bytes: vec![tag; 32] }
}

fn record(admin_tag: u8, name: &str, description: &str, image_link: &str, amount: u64) -> CampaignRecord {
    CampaignRecord {
        admin: key(admin_tag),
        name: name.as_bytes().to_vec(),
        description: description.as_bytes().to_vec(),
        image_link: image_link.as_bytes().to_vec(),
        amount_donated: amount,
    }
}

fn account(key_tag: u8, owner_tag: u8, is_signer: bool, lamports: u64, data: Vec<u8>) -> Account {
    Account {
        key: key(key_tag),
        owner: key(owner_tag),
        is_signer,
        lamports,
        data,
    }
}

fn create_payload(admin_tag: u8, name: &str, description: &str, image_link: &str, amount: u64) -> Vec<u8> {
    encode_campaign(&record(admin_tag, name, description, image_link, amount))
}

#[test]
fn campaign_round_trip() {
    let rec = record(7, "x", "a longer description", "http://img", 123456789);
    let bytes = encode_campaign(&rec);
    let back = decode_campaign(&bytes).expect("round trip must decode");
    assert_eq!(back.admin.bytes, rec.admin.bytes);
    assert_eq!(back.name, rec.name);
    assert_eq!(back.description, rec.description);
    assert_eq!(back.image_link, rec.image_link);
    assert_eq!(back.amount_donated, rec.amount_donated);
}

#[test]
fn withdraw_round_trip() {
    let bytes = encode_withdraw(&WithdrawRequest { amount: 987654321 });
    let back = decode_withdraw(&bytes).expect("round trip must decode");
    assert_eq!(back.amount, 987654321);
}

#[test]
fn campaign_encoding_matches_borsh() {
    let rec = record(9, "name", "desc", "link", 42);
    let admin: [u8; 32] = [9u8; 32];
    let tuple = (
        admin,
        "name".to_string(),
        "desc".to_string(),
        "link".to_string(),
        42u64,
    );
    let expected = borsh::to_vec(&tuple).expect("borsh serialization");
    assert_eq!(encode_campaign(&rec), expected);
}

#[test]
fn withdraw_encoding_matches_borsh() {
    let expected = borsh::to_vec(&300u64).expect("borsh serialization");
    assert_eq!(encode_withdraw(&WithdrawRequest { amount: 300 }), expected);
}

#[test]
fn decode_rejects_trailing_bytes() {
    let mut bytes = create_payload(7, "x", "y", "z", 0);
    bytes.push(0);
    assert!(decode_campaign(&bytes).is_none());
    assert!(decode_withdraw(&vec![0u8; 9]).is_none());
    assert!(decode_withdraw(&vec![0u8; 7]).is_none());
}

#[test]
fn decode_rejects_truncated_record() {
    let bytes = create_payload(7, "name", "desc", "link", 5);
    for cut in [0, 10, 35, 36, bytes.len() - 1] {
        let shorter = bytes[..cut].to_vec();
        assert!(decode_campaign(&shorter).is_none());
    }
}

#[test]
fn create_stores_record_with_zeroed_counter() {
    let program = key(1);
    let payload = create_payload(2, "x", "y", "z", 999);
    let mut writing = account(3, 1, false, 50, vec![0u8; payload.len()]);
    let creator = account(2, 4, true, 0, vec![]);
    let r = create_campaign(&program, &mut writing, &creator, &payload, 50);
    assert_eq!(r, Ok(()));
    let stored = decode_campaign(&writing.data).expect("stored bytes must decode");
    assert_eq!(stored.admin.bytes, vec![2u8; 32]);
    assert_eq!(stored.name, b"x".to_vec());
    assert_eq!(stored.description, b"y".to_vec());
    assert_eq!(stored.image_link, b"z".to_vec());
    assert_eq!(stored.amount_donated, 0);
    assert_eq!(writing.lamports, 50);
}

#[test]
fn create_requires_signer() {
    let program = key(1);
    let payload = create_payload(2, "x", "y", "z", 0);
    let mut writing = account(3, 1, false, 50, vec![0u8; payload.len()]);
    let creator = account(2, 4, false, 0, vec![]);
    let before = writing.data.clone();
    let r = create_campaign(&program, &mut writing, &creator, &payload, 50);
    assert_eq!(r, Err(LedgerError::MissingSignature));
    assert_eq!(writing.data, before);
}

#[test]
fn create_requires_program_ownership() {
    let program = key(1);
    let payload = create_payload(2, "x", "y", "z", 0);
    let mut writing = account(3, 5, false, 50, vec![0u8; payload.len()]);
    let creator = account(2, 4, true, 0, vec![]);
    let r = create_campaign(&program, &mut writing, &creator, &payload, 50);
    assert_eq!(r, Err(LedgerError::NotProgramOwned));
}

#[test]
fn create_rejects_malformed_payload() {
    let program = key(1);
    let payload = vec![1u8, 2, 3];
    let mut writing = account(3, 1, false, 50, vec![0u8; 64]);
    let creator = account(2, 4, true, 0, vec![]);
    let r = create_campaign(&program, &mut writing, &creator, &payload, 50);
    assert_eq!(r, Err(LedgerError::InvalidInstruction));
}

#[test]
fn create_rejects_admin_mismatch() {
    let program = key(1);
    let payload = create_payload(9, "x", "y", "z", 0);
    let mut writing = account(3, 1, false, 50, vec![0u8; payload.len()]);
    let creator = account(2, 4, true, 0, vec![]);
    let r = create_campaign(&program, &mut writing, &creator, &payload, 50);
    assert_eq!(r, Err(LedgerError::InvalidInstruction));
}

#[test]
fn create_rejects_underfunded_account() {
    let program = key(1);
    let payload = create_payload(2, "x", "y", "z", 0);
    let mut writing = account(3, 1, false, 49, vec![0u8; payload.len()]);
    let creator = account(2, 4, true, 0, vec![]);
    let r = create_campaign(&program, &mut writing, &creator, &payload, 50);
    assert_eq!(r, Err(LedgerError::InsufficientFunds));
}

#[test]
fn create_rejects_short_buffer() {
    let program = key(1);
    let payload = create_payload(2, "x", "y", "z", 0);
    let mut writing = account(3, 1, false, 50, vec![0u8; payload.len() - 1]);
    let creator = account(2, 4, true, 0, vec![]);
    let r = create_campaign(&program, &mut writing, &creator, &payload, 50);
    assert_eq!(r, Err(LedgerError::AccountDataTooSmall));
}

#[test]
fn create_preserves_buffer_slack() {
    let program = key(1);
    let payload = create_payload(2, "x", "y", "z", 0);
    let mut data = vec![0u8; payload.len()];
    data.extend_from_slice(&[0xAA, 0xBB]);
    let mut writing = account(3, 1, false, 50, data);
    let creator = account(2, 4, true, 0, vec![]);
    let r = create_campaign(&program, &mut writing, &creator, &payload, 50);
    assert_eq!(r, Ok(()));
    let n = writing.data.len();
    assert_eq!(&writing.data[n - 2..], &[0xAA, 0xBB]);
}

#[test]
fn withdraw_moves_exactly_the_amount() {
    let program = key(1);
    let stored = encode_campaign(&record(2, "x", "y", "z", 500));
    let mut writing = account(3, 1, false, 1000, stored.clone());
    let mut admin = account(2, 4, true, 10, vec![]);
    let payload = encode_withdraw(&WithdrawRequest { amount: 300 });
    let r = withdraw(&program, &mut writing, &mut admin, &payload, 600);
    assert_eq!(r, Ok(()));
    assert_eq!(writing.lamports, 700);
    assert_eq!(admin.lamports, 310);
    assert_eq!(writing.data, stored);
}

#[test]
fn withdraw_rejects_overdraw() {
    let program = key(1);
    let stored = encode_campaign(&record(2, "x", "y", "z", 500));
    let mut writing = account(3, 1, false, 1000, stored);
    let mut admin = account(2, 4, true, 10, vec![]);
    let payload = encode_withdraw(&WithdrawRequest { amount: 401 });
    let r = withdraw(&program, &mut writing, &mut admin, &payload, 600);
    assert_eq!(r, Err(LedgerError::InsufficientFunds));
    assert_eq!(writing.lamports, 1000);
    assert_eq!(admin.lamports, 10);
}

#[test]
fn withdraw_rejects_balance_at_or_below_rent_minimum() {
    let program = key(1);
    let stored = encode_campaign(&record(2, "x", "y", "z", 0));
    let mut writing = account(3, 1, false, 500, stored);
    let mut admin = account(2, 4, true, 10, vec![]);
    let payload = encode_withdraw(&WithdrawRequest { amount: 1 });
    let r = withdraw(&program, &mut writing, &mut admin, &payload, 600);
    assert_eq!(r, Err(LedgerError::InsufficientFunds));
    assert_eq!(writing.lamports, 500);
    assert_eq!(admin.lamports, 10);
}

#[test]
fn withdraw_rejects_wrong_admin() {
    let program = key(1);
    let stored = encode_campaign(&record(2, "x", "y", "z", 0));
    let mut writing = account(3, 1, false, 1000, stored);
    let mut admin = account(9, 4, true, 10, vec![]);
    let payload = encode_withdraw(&WithdrawRequest { amount: 1 });
    let r = withdraw(&program, &mut writing, &mut admin, &payload, 100);
    assert_eq!(r, Err(LedgerError::InvalidAccountData));
}

#[test]
fn withdraw_rejects_unsigned_admin() {
    let program = key(1);
    let stored = encode_campaign(&record(2, "x", "y", "z", 0));
    let mut writing = account(3, 1, false, 1000, stored);
    let mut admin = account(2, 4, false, 10, vec![]);
    let payload = encode_withdraw(&WithdrawRequest { amount: 1 });
    let r = withdraw(&program, &mut writing, &mut admin, &payload, 100);
    assert_eq!(r, Err(LedgerError::MissingSignature));
}

#[test]
fn withdraw_rejects_malformed_request() {
    let program = key(1);
    let stored = encode_campaign(&record(2, "x", "y", "z", 0));
    let mut writing = account(3, 1, false, 1000, stored);
    let mut admin = account(2, 4, true, 10, vec![]);
    let payload = vec![1u8, 2, 3];
    let r = withdraw(&program, &mut writing, &mut admin, &payload, 100);
    assert_eq!(r, Err(LedgerError::InvalidInstruction));
}

#[test]
fn withdraw_rejects_malformed_stored_record() {
    let program = key(1);
    let mut writing = account(3, 1, false, 1000, vec![1u8, 2, 3]);
    let mut admin = account(2, 4, true, 10, vec![]);
    let payload = encode_withdraw(&WithdrawRequest { amount: 1 });
    let r = withdraw(&program, &mut writing, &mut admin, &payload, 100);
    assert_eq!(r, Err(LedgerError::MalformedRecord));
}

#[test]
fn donate_sweeps_staging_balance() {
    let program = key(1);
    let stored = encode_campaign(&record(2, "x", "y", "z", 100));
    let mut writing = account(3, 1, false, 1000, stored);
    let mut staging = account(5, 1, false, 500, vec![]);
    let donator = account(6, 4, true, 77, vec![]);
    let r = donate(&program, &mut writing, &mut staging, &donator);
    assert_eq!(r, Ok(()));
    assert_eq!(writing.lamports, 1500);
    assert_eq!(staging.lamports, 0);
    let rec = decode_campaign(&writing.data).expect("stored bytes must decode");
    assert_eq!(rec.amount_donated, 600);
    assert_eq!(rec.admin.bytes, vec![2u8; 32]);
}

#[test]
fn donate_requires_both_program_owned() {
    let program = key(1);
    let stored = encode_campaign(&record(2, "x", "y", "z", 100));
    let mut writing = account(3, 9, false, 1000, stored.clone());
    let mut staging = account(5, 1, false, 500, vec![]);
    let donator = account(6, 4, true, 77, vec![]);
    let r = donate(&program, &mut writing, &mut staging, &donator);
    assert_eq!(r, Err(LedgerError::NotProgramOwned));

    let mut writing = account(3, 1, false, 1000, stored);
    let mut staging = account(5, 9, false, 500, vec![]);
    let r = donate(&program, &mut writing, &mut staging, &donator);
    assert_eq!(r, Err(LedgerError::NotProgramOwned));
    assert_eq!(staging.lamports, 500);
    assert_eq!(writing.lamports, 1000);
}

#[test]
fn donate_requires_donator_signature() {
    let program = key(1);
    let stored = encode_campaign(&record(2, "x", "y", "z", 100));
    let mut writing = account(3, 1, false, 1000, stored);
    let mut staging = account(5, 1, false, 500, vec![]);
    let donator = account(6, 4, false, 77, vec![]);
    let r = donate(&program, &mut writing, &mut staging, &donator);
    assert_eq!(r, Err(LedgerError::MissingSignature));
}

#[test]
fn donate_rejects_counter_overflow() {
    let program = key(1);
    let stored = encode_campaign(&record(2, "x", "y", "z", u64::MAX - 10));
    let mut writing = account(3, 1, false, 1000, stored);
    let mut staging = account(5, 1, false, 11, vec![]);
    let donator = account(6, 4, true, 77, vec![]);
    let r = donate(&program, &mut writing, &mut staging, &donator);
    assert_eq!(r, Err(LedgerError::ArithmeticOverflow));
    assert_eq!(staging.lamports, 11);
    assert_eq!(writing.lamports, 1000);
}

#[test]
fn withdraw_rejects_admin_balance_overflow() {
    let program = key(1);
    let stored = encode_campaign(&record(2, "x", "y", "z", 0));
    let mut writing = account(3, 1, false, 1000, stored);
    let mut admin = account(2, 4, true, u64::MAX - 10, vec![]);
    let payload = encode_withdraw(&WithdrawRequest { amount: 11 });
    let r = withdraw(&program, &mut writing, &mut admin, &payload, 100);
    assert_eq!(r, Err(LedgerError::ArithmeticOverflow));
    assert_eq!(writing.lamports, 1000);
    assert_eq!(admin.lamports, u64::MAX - 10);
}

#[test]
fn donate_rejects_campaign_balance_overflow() {
    let program = key(1);
    let stored = encode_campaign(&record(2, "x", "y", "z", 0));
    let mut writing = account(3, 1, false, u64::MAX - 10, stored);
    let mut staging = account(5, 1, false, 11, vec![]);
    let donator = account(6, 4, true, 77, vec![]);
    let r = donate(&program, &mut writing, &mut staging, &donator);
    assert_eq!(r, Err(LedgerError::ArithmeticOverflow));
    assert_eq!(staging.lamports, 11);
    assert_eq!(writing.lamports, u64::MAX - 10);
}

#[test]
fn dispatch_rejects_empty_and_unknown() {
    let program = key(1);
    let mut accounts = vec![];
    let r = process_instruction(&program, &mut accounts, &vec![], 0);
    assert_eq!(r, Err(LedgerError::InvalidInstruction));
    let r = process_instruction(&program, &mut accounts, &vec![3u8], 0);
    assert_eq!(r, Err(LedgerError::InvalidInstruction));
}

#[test]
fn dispatch_rejects_missing_accounts() {
    let program = key(1);
    let mut accounts = vec![account(3, 1, false, 0, vec![])];
    let r = process_instruction(&program, &mut accounts, &vec![0u8], 0);
    assert_eq!(r, Err(LedgerError::NotEnoughAccounts));
    let r = process_instruction(&program, &mut accounts, &vec![1u8], 0);
    assert_eq!(r, Err(LedgerError::NotEnoughAccounts));
    let r = process_instruction(&program, &mut accounts, &vec![2u8], 0);
    assert_eq!(r, Err(LedgerError::NotEnoughAccounts));
}

#[test]
fn full_scenario_create_donate_withdraw() {
    let program = key(1);
    let rent_min = 50;

    // Create with admin = A (tag 2), name "x", description "y", link "z",
    // creator signer = A, balance exactly the rent minimum.
    let payload = create_payload(2, "x", "y", "z", 0);
    let mut instruction = vec![0u8];
    instruction.extend_from_slice(&payload);
    let mut accounts = vec![
        account(3, 1, false, rent_min, vec![0u8; payload.len()]),
        account(2, 4, true, 10, vec![]),
    ];
    let r = process_instruction(&program, &mut accounts, &instruction, rent_min);
    assert_eq!(r, Ok(()));
    let stored = decode_campaign(&accounts[0].data).expect("stored bytes must decode");
    assert_eq!(stored.admin.bytes, vec![2u8; 32]);
    assert_eq!(stored.name, b"x".to_vec());
    assert_eq!(stored.description, b"y".to_vec());
    assert_eq!(stored.image_link, b"z".to_vec());
    assert_eq!(stored.amount_donated, 0);

    // Donate with staging balance 500.
    let campaign_data = accounts[0].data.clone();
    let mut accounts = vec![
        account(3, 1, false, rent_min, campaign_data),
        account(5, 1, false, 500, vec![]),
        account(6, 4, true, 7, vec![]),
    ];
    let r = process_instruction(&program, &mut accounts, &vec![2u8], rent_min);
    assert_eq!(r, Ok(()));
    assert_eq!(accounts[0].lamports, rent_min + 500);
    assert_eq!(accounts[1].lamports, 0);
    let stored = decode_campaign(&accounts[0].data).expect("stored bytes must decode");
    assert_eq!(stored.amount_donated, 500);

    // Withdraw 300 signed by A.
    let campaign_data = accounts[0].data.clone();
    let campaign_lamports = accounts[0].lamports;
    let mut instruction = vec![1u8];
    instruction.extend_from_slice(&encode_withdraw(&WithdrawRequest { amount: 300 }));
    let mut accounts = vec![
        account(3, 1, false, campaign_lamports, campaign_data),
        account(2, 4, true, 10, vec![]),
    ];
    let r = process_instruction(&program, &mut accounts, &instruction, rent_min);
    assert_eq!(r, Ok(()));
    assert_eq!(accounts[0].lamports, campaign_lamports - 300);
    assert_eq!(accounts[1].lamports, 310);

    // A further withdrawal past balance - rent_min is rejected unchanged.
    let remaining = accounts[0].lamports;
    let too_much = remaining - rent_min + 1;
    let mut instruction = vec![1u8];
    instruction.extend_from_slice(&encode_withdraw(&WithdrawRequest { amount: too_much }));
    let campaign_data = accounts[0].data.clone();
    let mut accounts = vec![
        account(3, 1, false, remaining, campaign_data),
        account(2, 4, true, 310, vec![]),
    ];
    let r = process_instruction(&program, &mut accounts, &instruction, rent_min);
    assert_eq!(r, Err(LedgerError::InsufficientFunds));
    assert_eq!(accounts[0].lamports, remaining);
    assert_eq!(accounts[1].lamports, 310);
}

#[test]
fn donation_counter_and_balance_diverge_after_withdraw() {
    // The stored counter tracks cumulative donations only: a withdrawal
    // lowers the balance but never the counter.
    let program = key(1);
    let stored = encode_campaign(&record(2, "x", "y", "z", 500));
    let mut writing = account(3, 1, false, 1000, stored);
    let mut admin = account(2, 4, true, 0, vec![]);
    let payload = encode_withdraw(&WithdrawRequest { amount: 100 });
    let r = withdraw(&program, &mut writing, &mut admin, &payload, 100);
    assert_eq!(r, Ok(()));
    let rec = decode_campaign(&writing.data).expect("stored bytes must decode");
    assert_eq!(rec.amount_donated, 500);
    assert_eq!(writing.lamports, 900);
}
