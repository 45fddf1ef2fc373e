//! The single entry point: reads a one-byte opcode off the instruction bytes
//! and routes the rest to the matching transition. Opcode 0 creates a
//! campaign, 1 withdraws, 2 donates; an empty payload or any other opcode is
//! rejected. No transition ever sees the opcode byte.

use vstd::prelude::*;
use crate::account::Account;
use crate::account::AccountView;
use crate::errors::LedgerError;
use crate::handlers::create_campaign;
use crate::handlers::create_outcome;
use crate::handlers::donate;
use crate::handlers::donate_outcome;
use crate::handlers::withdraw;
use crate::handlers::withdraw_outcome;
use crate::keys::Pubkey;

verus! {

/// The models of a sequence of accounts.
pub open spec fn views_of(s: Seq<Account>) -> Seq<AccountView> {
    s.map_values(|a: Account| a@)
}

/// What one invocation does, as a function of the pre-state: either the
/// models of all the accounts after the mutation, or the exact failure.
pub open spec fn process_outcome(
    program_id: Seq<u8>,
    accounts: Seq<AccountView>,
    instruction: Seq<u8>,
    rent_minimum: u64,
) -> Result<Seq<AccountView>, LedgerError> {
    if instruction.len() == 0 {
        Err(LedgerError::InvalidInstruction)
    } else {
        let payload = instruction.skip(1);
        if instruction[0] == 0 {
            if accounts.len() < 2 {
                Err(LedgerError::NotEnoughAccounts)
            } else {
                match create_outcome(program_id, accounts[0], accounts[1], payload, rent_minimum) {
                    Err(e) => Err(e),
                    Ok(d) => Ok(accounts.update(0, accounts[0].with_data(d))),
                }
            }
        } else if instruction[0] == 1 {
            if accounts.len() < 2 {
                Err(LedgerError::NotEnoughAccounts)
            } else {
                match withdraw_outcome(
                    program_id,
                    accounts[0],
                    accounts[1],
                    payload,
                    rent_minimum,
                ) {
                    Err(e) => Err(e),
                    Ok(b) => Ok(
                        accounts.update(0, accounts[0].with_lamports(b.0)).update(
                            1,
                            accounts[1].with_lamports(b.1),
                        ),
                    ),
                }
            }
        } else if instruction[0] == 2 {
            if accounts.len() < 3 {
                Err(LedgerError::NotEnoughAccounts)
            } else {
                match donate_outcome(program_id, accounts[0], accounts[1], accounts[2]) {
                    Err(e) => Err(e),
                    Ok(o) => Ok(
                        accounts.update(0, accounts[0].with_data(o.0).with_lamports(o.1)).update(
                            1,
                            accounts[1].with_lamports(0),
                        ),
                    ),
                }
            }
        } else {
            Err(LedgerError::InvalidInstruction)
        }
    }
}

/// Copies the bytes of `v` from `start` on into a fresh vector.
pub fn tail_from(v: &Vec<u8>, start: usize) -> (out: Vec<u8>)
    requires
        start <= v@.len(),
    ensures
        out@ == v@.skip(start as int),
{
    let mut out: Vec<u8> = Vec::new();
    let n = v.len();
    let mut i: usize = start;
    while i < n
        invariant
            start <= i <= n,
            n == v@.len(),
            out@ == v@.subrange(start as int, i as int),
        decreases n - i,
    {
        out.push(v[i]);
        assert(v@.subrange(start as int, i + 1) =~= v@.subrange(start as int, i as int).push(
            v@[i as int],
        ));
        i += 1;
    }
    assert(v@.subrange(start as int, n as int) =~= v@.skip(start as int));
    out
}

/// Demultiplexes one instruction and applies the chosen transition to the
/// supplied accounts, in place. On any failure every account is unchanged.
pub fn process_instruction(
    program_id: &Pubkey,
    accounts: &mut Vec<Account>,
    instruction_data: &Vec<u8>,
    rent_minimum: u64,
) -> (r: Result<(), LedgerError>)
    ensures
        final(accounts)@.len() == old(accounts)@.len(),
        match r {
            Ok(()) => process_outcome(
                program_id@,
                views_of(old(accounts)@),
                instruction_data@,
                rent_minimum,
            ) matches Ok(vs) && views_of(final(accounts)@) == vs,
            Err(e) => process_outcome(
                program_id@,
                views_of(old(accounts)@),
                instruction_data@,
                rent_minimum,
            ) == Err::<Seq<AccountView>, LedgerError>(e) && views_of(final(accounts)@) == views_of(
                old(accounts)@,
            ),
        },
{
    let ghost pre = views_of(old(accounts)@);
    if instruction_data.len() == 0 {
        assert(views_of(accounts@) =~= pre);
        return Err(LedgerError::InvalidInstruction);
    }
    let opcode = instruction_data[0];
    let payload = tail_from(instruction_data, 1);
    if opcode == 0 {
        if accounts.len() < 2 {
            assert(views_of(accounts@) =~= pre);
            return Err(LedgerError::NotEnoughAccounts);
        }
        let mut writing = accounts.remove(0);
        let creator = accounts.remove(0);
        let r = create_campaign(program_id, &mut writing, &creator, &payload, rent_minimum);
        accounts.insert(0, creator);
        accounts.insert(0, writing);
        proof {
            if r is Ok {
                let d = create_outcome(program_id@, pre[0], pre[1], payload@, rent_minimum)
                    .unwrap();
                assert(views_of(accounts@) =~= pre.update(0, pre[0].with_data(d)));
            } else {
                assert(views_of(accounts@) =~= pre);
            }
        }
        r
    } else if opcode == 1 {
        if accounts.len() < 2 {
            assert(views_of(accounts@) =~= pre);
            return Err(LedgerError::NotEnoughAccounts);
        }
        let mut writing = accounts.remove(0);
        let mut admin = accounts.remove(0);
        let r = withdraw(program_id, &mut writing, &mut admin, &payload, rent_minimum);
        accounts.insert(0, admin);
        accounts.insert(0, writing);
        proof {
            if r is Ok {
                let b = withdraw_outcome(program_id@, pre[0], pre[1], payload@, rent_minimum)
                    .unwrap();
                assert(views_of(accounts@) =~= pre.update(0, pre[0].with_lamports(b.0)).update(
                    1,
                    pre[1].with_lamports(b.1),
                ));
            } else {
                assert(views_of(accounts@) =~= pre);
            }
        }
        r
    } else if opcode == 2 {
        if accounts.len() < 3 {
            assert(views_of(accounts@) =~= pre);
            return Err(LedgerError::NotEnoughAccounts);
        }
        let mut writing = accounts.remove(0);
        let mut staging = accounts.remove(0);
        let donator = accounts.remove(0);
        let r = donate(program_id, &mut writing, &mut staging, &donator);
        accounts.insert(0, donator);
        accounts.insert(0, staging);
        accounts.insert(0, writing);
        proof {
            if r is Ok {
                let o = donate_outcome(program_id@, pre[0], pre[1], pre[2]).unwrap();
                assert(views_of(accounts@) =~= pre.update(
                    0,
                    pre[0].with_data(o.0).with_lamports(o.1),
                ).update(1, pre[1].with_lamports(0)));
            } else {
                assert(views_of(accounts@) =~= pre);
            }
        }
        r
    } else {
        assert(views_of(accounts@) =~= pre);
        Err(LedgerError::InvalidInstruction)
    }
}

} // verus!
