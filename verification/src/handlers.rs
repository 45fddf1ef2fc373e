//! The three state transitions: create a campaign, withdraw funds, donate.
//! Each one gates the supplied accounts (ownership, signer, rent exemption)
//! before it mutates anything; on any failure nothing changes.
//!
//! The rent-exemption minimum for the campaign account's data size is a fact
//! of the host's rent model, computed outside this core and handed in as a
//! plain number.

use vstd::prelude::*;
use crate::account::Account;
use crate::account::AccountView;
use crate::codec::dec_campaign;
use crate::codec::dec_withdraw;
use crate::codec::decode_campaign;
use crate::codec::decode_withdraw;
use crate::codec::enc_campaign;
use crate::codec::encode_campaign;
use crate::codec::lemma_campaign_codec_round_trip;
use crate::codec::lemma_campaign_codec_sound;
use crate::codec::lemma_enc_campaign_len;
use crate::codec::write_prefix;
use crate::errors::LedgerError;
use crate::keys::Pubkey;

verus! {

/// What creation does, as a function of the pre-state: either the campaign
/// account's new data bytes, or the exact failure. The checks run in the
/// order the transition applies them.
pub open spec fn create_outcome(
    program_id: Seq<u8>,
    writing: AccountView,
    creator: AccountView,
    payload: Seq<u8>,
    rent_minimum: u64,
) -> Result<Seq<u8>, LedgerError> {
    if !creator.is_signer {
        Err(LedgerError::MissingSignature)
    } else if writing.owner != program_id {
        Err(LedgerError::NotProgramOwned)
    } else {
        match dec_campaign(payload) {
            None => Err(LedgerError::InvalidInstruction),
            Some(rec) => if rec.admin != creator.key {
                Err(LedgerError::InvalidInstruction)
            } else if writing.lamports < rent_minimum {
                Err(LedgerError::InsufficientFunds)
            } else {
                let stored = rec.with_amount(0);
                let e = enc_campaign(stored);
                if e.len() > writing.data.len() {
                    Err(LedgerError::AccountDataTooSmall)
                } else {
                    Ok(e + writing.data.skip(e.len() as int))
                }
            },
        }
    }
}

/// What withdrawal does: either the pair of new balances
/// `(campaign account, admin account)`, or the exact failure.
pub open spec fn withdraw_outcome(
    program_id: Seq<u8>,
    writing: AccountView,
    admin: AccountView,
    payload: Seq<u8>,
    rent_minimum: u64,
) -> Result<(u64, u64), LedgerError> {
    if writing.owner != program_id {
        Err(LedgerError::NotProgramOwned)
    } else if !admin.is_signer {
        Err(LedgerError::MissingSignature)
    } else {
        match dec_campaign(writing.data) {
            None => Err(LedgerError::MalformedRecord),
            Some(rec) => if rec.admin != admin.key {
                Err(LedgerError::InvalidAccountData)
            } else {
                match dec_withdraw(payload) {
                    None => Err(LedgerError::InvalidInstruction),
                    Some(amount) => if writing.lamports < rent_minimum
                        || writing.lamports - rent_minimum < amount {
                        Err(LedgerError::InsufficientFunds)
                    } else if admin.lamports + amount > u64::MAX {
                        Err(LedgerError::ArithmeticOverflow)
                    } else {
                        Ok(
                            (
                                (writing.lamports - amount) as u64,
                                (admin.lamports + amount) as u64,
                            ),
                        )
                    },
                }
            },
        }
    }
}

/// What donation does: either the campaign account's new data bytes and new
/// balance, or the exact failure. The staging account's whole balance is the
/// donation; on success that balance becomes zero.
pub open spec fn donate_outcome(
    program_id: Seq<u8>,
    writing: AccountView,
    staging: AccountView,
    donator: AccountView,
) -> Result<(Seq<u8>, u64), LedgerError> {
    if writing.owner != program_id {
        Err(LedgerError::NotProgramOwned)
    } else if staging.owner != program_id {
        Err(LedgerError::NotProgramOwned)
    } else if !donator.is_signer {
        Err(LedgerError::MissingSignature)
    } else {
        match dec_campaign(writing.data) {
            None => Err(LedgerError::MalformedRecord),
            Some(rec) => if rec.amount_donated + staging.lamports > u64::MAX
                || writing.lamports + staging.lamports > u64::MAX {
                Err(LedgerError::ArithmeticOverflow)
            } else {
                let stored = rec.with_amount((rec.amount_donated + staging.lamports) as u64);
                Ok((enc_campaign(stored), (writing.lamports + staging.lamports) as u64))
            },
        }
    }
}

/// Registers a campaign in the writing account: requires the creator's
/// signature, program ownership of the writing account, a payload that is
/// exactly one record whose admin is the creator, and a balance at or above
/// the rent-exemption minimum. The stored record is the payload's with its
/// donation counter forced to zero; bytes of the data buffer beyond the
/// record keep their old values. On failure nothing changes.
pub fn create_campaign(
    program_id: &Pubkey,
    writing: &mut Account,
    creator: &Account,
    payload: &Vec<u8>,
    rent_minimum: u64,
) -> (r: Result<(), LedgerError>)
    ensures
        final(writing).key@ == old(writing).key@,
        final(writing).owner@ == old(writing).owner@,
        final(writing).is_signer == old(writing).is_signer,
        final(writing).lamports == old(writing).lamports,
        final(writing).data@.len() == old(writing).data@.len(),
        match r {
            Ok(()) => create_outcome(program_id@, old(writing)@, creator@, payload@, rent_minimum)
                matches Ok(d) && final(writing).data@ == d,
            Err(e) => create_outcome(program_id@, old(writing)@, creator@, payload@, rent_minimum)
                == Err::<Seq<u8>, LedgerError>(e) && final(writing).data@ == old(writing).data@,
        },
{
    if !creator.is_signer {
        return Err(LedgerError::MissingSignature);
    }
    if !writing.owner.key_eq(program_id) {
        return Err(LedgerError::NotProgramOwned);
    }
    let decoded = decode_campaign(payload);
    match decoded {
        None => Err(LedgerError::InvalidInstruction),
        Some(mut rec) => {
            if !rec.admin.key_eq(&creator.key) {
                return Err(LedgerError::InvalidInstruction);
            }
            if writing.lamports < rent_minimum {
                return Err(LedgerError::InsufficientFunds);
            }
            let ghost rec0 = rec@;
            rec.amount_donated = 0;
            assert(rec@ =~= rec0.with_amount(0));
            let enc = encode_campaign(&rec);
            if enc.len() > writing.data.len() {
                return Err(LedgerError::AccountDataTooSmall);
            }
            write_prefix(&mut writing.data, &enc);
            Ok(())
        },
    }
}

/// Moves `amount` lamports from the campaign account to its admin: requires
/// program ownership, the admin's signature, a stored record whose admin is
/// the signing account, a well-formed request, and a post-withdrawal balance
/// that stays at or above the rent-exemption minimum — a balance already at
/// or below that minimum is insufficient funds, never a wraparound. The
/// stored record bytes are untouched. On failure nothing changes.
pub fn withdraw(
    program_id: &Pubkey,
    writing: &mut Account,
    admin: &mut Account,
    payload: &Vec<u8>,
    rent_minimum: u64,
) -> (r: Result<(), LedgerError>)
    ensures
        final(writing).key@ == old(writing).key@,
        final(writing).owner@ == old(writing).owner@,
        final(writing).is_signer == old(writing).is_signer,
        final(writing).data@ == old(writing).data@,
        final(admin).key@ == old(admin).key@,
        final(admin).owner@ == old(admin).owner@,
        final(admin).is_signer == old(admin).is_signer,
        final(admin).data@ == old(admin).data@,
        match r {
            Ok(()) => withdraw_outcome(
                program_id@,
                old(writing)@,
                old(admin)@,
                payload@,
                rent_minimum,
            ) matches Ok(b) && final(writing).lamports == b.0 && final(admin).lamports == b.1,
            Err(e) => withdraw_outcome(
                program_id@,
                old(writing)@,
                old(admin)@,
                payload@,
                rent_minimum,
            ) == Err::<(u64, u64), LedgerError>(e) && final(writing).lamports == old(
                writing,
            ).lamports && final(admin).lamports == old(admin).lamports,
        },
{
    if !writing.owner.key_eq(program_id) {
        return Err(LedgerError::NotProgramOwned);
    }
    if !admin.is_signer {
        return Err(LedgerError::MissingSignature);
    }
    let stored = decode_campaign(&writing.data);
    match stored {
        None => Err(LedgerError::MalformedRecord),
        Some(rec) => {
            if !rec.admin.key_eq(&admin.key) {
                return Err(LedgerError::InvalidAccountData);
            }
            let request = decode_withdraw(payload);
            match request {
                None => Err(LedgerError::InvalidInstruction),
                Some(req) => {
                    if writing.lamports < rent_minimum
                        || writing.lamports - rent_minimum < req.amount {
                        return Err(LedgerError::InsufficientFunds);
                    }
                    if admin.lamports > u64::MAX - req.amount {
                        return Err(LedgerError::ArithmeticOverflow);
                    }
                    writing.lamports = writing.lamports - req.amount;
                    admin.lamports = admin.lamports + req.amount;
                    Ok(())
                },
            }
        },
    }
}

/// Sweeps the staging account's whole balance into the campaign account and
/// adds the same amount to the stored record's donation counter: requires
/// program ownership of both accounts, the donator's signature, and a valid
/// stored record. On failure nothing changes.
pub fn donate(
    program_id: &Pubkey,
    writing: &mut Account,
    staging: &mut Account,
    donator: &Account,
) -> (r: Result<(), LedgerError>)
    ensures
        final(writing).key@ == old(writing).key@,
        final(writing).owner@ == old(writing).owner@,
        final(writing).is_signer == old(writing).is_signer,
        final(writing).data@.len() == old(writing).data@.len(),
        final(staging).key@ == old(staging).key@,
        final(staging).owner@ == old(staging).owner@,
        final(staging).is_signer == old(staging).is_signer,
        final(staging).data@ == old(staging).data@,
        match r {
            Ok(()) => donate_outcome(program_id@, old(writing)@, old(staging)@, donator@)
                matches Ok(o) && final(writing).data@ == o.0 && final(writing).lamports == o.1
                && final(staging).lamports == 0 && (dec_campaign(old(writing).data@)
                matches Some(rec) && dec_campaign(final(writing).data@) == Some(
                rec.with_amount((rec.amount_donated + old(staging).lamports) as u64),
            )),
            Err(e) => donate_outcome(program_id@, old(writing)@, old(staging)@, donator@)
                == Err::<(Seq<u8>, u64), LedgerError>(e) && final(writing).data@ == old(
                writing,
            ).data@ && final(writing).lamports == old(writing).lamports && final(staging).lamports
                == old(staging).lamports,
        },
{
    if !writing.owner.key_eq(program_id) {
        return Err(LedgerError::NotProgramOwned);
    }
    if !staging.owner.key_eq(program_id) {
        return Err(LedgerError::NotProgramOwned);
    }
    if !donator.is_signer {
        return Err(LedgerError::MissingSignature);
    }
    let stored = decode_campaign(&writing.data);
    match stored {
        None => Err(LedgerError::MalformedRecord),
        Some(mut rec) => {
            let donation = staging.lamports;
            if rec.amount_donated > u64::MAX - donation {
                return Err(LedgerError::ArithmeticOverflow);
            }
            if writing.lamports > u64::MAX - donation {
                return Err(LedgerError::ArithmeticOverflow);
            }
            let ghost rec0 = rec@;
            rec.amount_donated = rec.amount_donated + donation;
            assert(rec@ =~= rec0.with_amount((rec0.amount_donated + donation) as u64));
            proof {
                lemma_campaign_codec_sound(old(writing).data@);
                lemma_enc_campaign_len(rec0);
                lemma_enc_campaign_len(rec@);
                lemma_campaign_codec_round_trip(rec@);
            }
            let enc = encode_campaign(&rec);
            write_prefix(&mut writing.data, &enc);
            assert(writing.data@ =~= enc_campaign(rec@));
            writing.lamports = writing.lamports + donation;
            staging.lamports = 0;
            Ok(())
        },
    }
}

} // verus!
