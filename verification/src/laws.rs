//! The ledger's laws: what each transition guarantees over all inputs,
//! stated against the outcome functions the executable transitions are
//! proved to implement.

use vstd::prelude::*;
use crate::account::AccountView;
use crate::codec::dec_campaign;
use crate::codec::enc_campaign;
use crate::codec::lemma_campaign_codec_round_trip;
use crate::errors::LedgerError;
use crate::handlers::create_outcome;
use crate::handlers::donate_outcome;
use crate::handlers::withdraw_outcome;
use crate::record::CampaignRecordView;

verus! {

/// For every valid creation — the payload encodes a well-formed record, the
/// creator signed, the writing account is program-owned and funded to the
/// rent-exemption minimum, the record's admin is the creator, and the buffer
/// holds the record — creation succeeds, and the bytes it stores decode to
/// the input record with its donation counter forced to zero and every other
/// field unchanged.
pub proof fn lemma_create_accepts(
    program_id: Seq<u8>,
    writing: AccountView,
    creator: AccountView,
    rec: CampaignRecordView,
    rent_minimum: u64,
)
    requires
        rec.wf(),
        creator.is_signer,
        writing.owner == program_id,
        rec.admin == creator.key,
        writing.lamports >= rent_minimum,
        enc_campaign(rec.with_amount(0)).len() <= writing.data.len(),
    ensures
        ({
            let stored = rec.with_amount(0);
            let outcome = create_outcome(program_id, writing, creator, enc_campaign(rec), rent_minimum);
            &&& outcome matches Ok(d)
            &&& d.take(enc_campaign(stored).len() as int) == enc_campaign(stored)
            &&& dec_campaign(enc_campaign(stored)) == Some(stored)
            &&& stored.admin == rec.admin
            &&& stored.name == rec.name
            &&& stored.description == rec.description
            &&& stored.image_link == rec.image_link
            &&& stored.amount_donated == 0
        }),
{
    let stored = rec.with_amount(0);
    lemma_campaign_codec_round_trip(rec);
    lemma_campaign_codec_round_trip(stored);
    let d = create_outcome(program_id, writing, creator, enc_campaign(rec), rent_minimum)
        .unwrap();
    assert(d.take(enc_campaign(stored).len() as int) =~= enc_campaign(stored));
}

/// Creation is refused — and by the transition's contract the account is
/// then untouched — whenever the payload is not a valid record, the creator
/// did not sign, the writing account is not program-owned, the record's
/// admin is not the creator, or the balance is below the rent-exemption
/// minimum.
pub proof fn lemma_create_rejects(
    program_id: Seq<u8>,
    writing: AccountView,
    creator: AccountView,
    payload: Seq<u8>,
    rent_minimum: u64,
)
    requires
        dec_campaign(payload) is None || !creator.is_signer || writing.owner != program_id
            || dec_campaign(payload).unwrap().admin != creator.key || writing.lamports
            < rent_minimum,
    ensures
        create_outcome(program_id, writing, creator, payload, rent_minimum) is Err,
{
}

/// For every withdrawal within means — the account is program-owned, the
/// admin signed and matches the stored record, the request is well formed,
/// and the amount leaves at least the rent-exemption minimum behind — the
/// campaign balance drops by exactly the amount and the admin balance rises
/// by exactly the amount. The record bytes are untouched by the
/// transition's contract.
pub proof fn lemma_withdraw_transfers(
    program_id: Seq<u8>,
    writing: AccountView,
    admin: AccountView,
    payload: Seq<u8>,
    rent_minimum: u64,
    amount: u64,
)
    requires
        writing.owner == program_id,
        admin.is_signer,
        dec_campaign(writing.data) matches Some(rec) && rec.admin == admin.key,
        payload == crate::codec::enc_withdraw(amount),
        rent_minimum <= writing.lamports,
        amount <= writing.lamports - rent_minimum,
        admin.lamports + amount <= u64::MAX,
    ensures
        withdraw_outcome(program_id, writing, admin, payload, rent_minimum) == Ok::<
            (u64, u64),
            LedgerError,
        >(((writing.lamports - amount) as u64, (admin.lamports + amount) as u64)),
{
    crate::codec::lemma_withdraw_codec_round_trip(amount, payload);
}

/// A withdrawal past the account's means — more than the balance less the
/// rent-exemption minimum, including every case where the balance is at or
/// below that minimum — is refused as insufficient funds, never wrapped
/// around.
pub proof fn lemma_withdraw_insufficient(
    program_id: Seq<u8>,
    writing: AccountView,
    admin: AccountView,
    payload: Seq<u8>,
    rent_minimum: u64,
    amount: u64,
)
    requires
        writing.owner == program_id,
        admin.is_signer,
        dec_campaign(writing.data) matches Some(rec) && rec.admin == admin.key,
        payload == crate::codec::enc_withdraw(amount),
        writing.lamports < rent_minimum || amount > writing.lamports - rent_minimum,
    ensures
        withdraw_outcome(program_id, writing, admin, payload, rent_minimum) == Err::<
            (u64, u64),
            LedgerError,
        >(LedgerError::InsufficientFunds),
{
    crate::codec::lemma_withdraw_codec_round_trip(amount, payload);
}

/// For every donation that passes the gates and stays within the 64-bit
/// range: the stored donation counter rises by exactly the staging account's
/// whole pre-donation balance, the campaign balance rises by the same
/// amount, and — by the transition's contract — the staging balance becomes
/// exactly zero.
pub proof fn lemma_donate_sweeps(
    program_id: Seq<u8>,
    writing: AccountView,
    staging: AccountView,
    donator: AccountView,
)
    requires
        writing.owner == program_id,
        staging.owner == program_id,
        donator.is_signer,
        dec_campaign(writing.data) is Some,
        dec_campaign(writing.data).unwrap().amount_donated + staging.lamports <= u64::MAX,
        writing.lamports + staging.lamports <= u64::MAX,
    ensures
        ({
            let rec = dec_campaign(writing.data).unwrap();
            let stored = rec.with_amount((rec.amount_donated + staging.lamports) as u64);
            let outcome = donate_outcome(program_id, writing, staging, donator);
            &&& outcome == Ok::<(Seq<u8>, u64), LedgerError>(
                (enc_campaign(stored), (writing.lamports + staging.lamports) as u64),
            )
            &&& dec_campaign(enc_campaign(stored)) == Some(stored)
            &&& stored.amount_donated == rec.amount_donated + staging.lamports
            &&& stored.admin == rec.admin
            &&& stored.name == rec.name
            &&& stored.description == rec.description
            &&& stored.image_link == rec.image_link
        }),
{
    let rec = dec_campaign(writing.data).unwrap();
    crate::codec::lemma_campaign_codec_sound(writing.data);
    let stored = rec.with_amount((rec.amount_donated + staging.lamports) as u64);
    lemma_campaign_codec_round_trip(stored);
}

} // verus!
