//! What holds over the whole life of a pool record.
//!
//! A history is the sequence of deposit and withdrawal requests that reach
//! one record, each with the answer of the transfer primitive. The record
//! moves as the operations say: a request that is refused, or whose transfer
//! fails, leaves it as it was; any other stores the record that the operation
//! handed out. The laws below are proved for every history.

use crate::address::Address;
use crate::authority::{is_program_signer, program_address};
use crate::deposit::deposit_outcome;
use crate::error::PoolError;
use crate::initialize::initialize_outcome;
use crate::state::{Account, Context, Deposit, InitializePool, Pending, Pool, Withdraw};
use crate::withdraw::withdraw_outcome;
use vstd::prelude::*;

verus! {

/// A request for a deposit or a withdrawal: its accounts and its amount.
/// The record that travels with the accounts is ignored in a history: the
/// request meets the record as the earlier requests left it.
pub enum Call {
    Deposit(Deposit, u64),
    Withdraw(Withdraw, u64),
}

/// A request together with the answer that the transfer primitive gives if
/// the request gets that far.
pub struct Event {
    pub call: Call,
    pub transferred: bool,
}

impl Event {
    /// The amount that the request names.
    pub open spec fn amount(self) -> nat {
        match self.call {
            Call::Deposit(_, amount) => amount as nat,
            Call::Withdraw(_, amount) => amount as nat,
        }
    }
}

/// The answer of the operation to `event` when it meets the record `pool`.
pub open spec fn decision(program: Address, pool: Account<Pool>, event: Event) -> Result<Pending, PoolError> {
    match event.call {
        Call::Deposit(accounts, amount) => deposit_outcome(
            Context { program_id: program, accounts: Deposit { pool, ..accounts } },
            amount,
        ),
        Call::Withdraw(accounts, amount) => withdraw_outcome(
            Context { program_id: program, accounts: Withdraw { pool, ..accounts } },
            amount,
            program_address(pool.key@, pool.data.nonce, program@),
        ),
    }
}

/// Whether `event` goes through: the operation lets it pass and the transfer
/// succeeds.
pub open spec fn accepted(program: Address, pool: Account<Pool>, event: Event) -> bool {
    event.transferred && decision(program, pool, event) is Ok
}

/// Whether `event` is a deposit that goes through.
pub open spec fn accepted_deposit(program: Address, pool: Account<Pool>, event: Event) -> bool {
    event.call is Deposit && accepted(program, pool, event)
}

/// Whether `event` is a withdrawal that goes through.
pub open spec fn accepted_withdrawal(program: Address, pool: Account<Pool>, event: Event) -> bool {
    event.call is Withdraw && accepted(program, pool, event)
}

/// The record after `event`.
pub open spec fn step(program: Address, pool: Account<Pool>, event: Event) -> Account<Pool> {
    match decision(program, pool, event) {
        Ok(pending) => Account { data: pending.settled(pool.data, event.transferred), ..pool },
        Err(_) => pool,
    }
}

/// The record after the history `events`, starting from `pool`.
pub open spec fn run(program: Address, pool: Account<Pool>, events: Seq<Event>) -> Account<Pool>
    decreases events.len(),
{
    if events.len() == 0 {
        pool
    } else {
        step(program, run(program, pool, events.drop_last()), events.last())
    }
}

/// The sum of the deposits that went through in `events`.
pub open spec fn deposited(program: Address, pool: Account<Pool>, events: Seq<Event>) -> nat
    decreases events.len(),
{
    if events.len() == 0 {
        0
    } else {
        let before = run(program, pool, events.drop_last());
        deposited(program, pool, events.drop_last()) + if accepted_deposit(program, before, events.last()) {
            events.last().amount()
        } else {
            0
        }
    }
}

/// The sum of the withdrawals that went through in `events`.
pub open spec fn withdrawn(program: Address, pool: Account<Pool>, events: Seq<Event>) -> nat
    decreases events.len(),
{
    if events.len() == 0 {
        0
    } else {
        let before = run(program, pool, events.drop_last());
        withdrawn(program, pool, events.drop_last()) + if accepted_withdrawal(program, before, events.last()) {
            events.last().amount()
        } else {
            0
        }
    }
}

/// The sum of what the record still held each time a deposit went through
/// and wrote its own amount over it.
pub open spec fn overwritten(program: Address, pool: Account<Pool>, events: Seq<Event>) -> nat
    decreases events.len(),
{
    if events.len() == 0 {
        0
    } else {
        let before = run(program, pool, events.drop_last());
        overwritten(program, pool, events.drop_last()) + if accepted_deposit(program, before, events.last()) {
            before.data.amount as nat
        } else {
            0
        }
    }
}

/// What the vault holds after `event`, if it held `balance` before and the
/// transfer primitive moves exactly what it is told to move.
pub open spec fn vault_step(program: Address, pool: Account<Pool>, balance: int, event: Event) -> int {
    match decision(program, pool, event) {
        Ok(pending) => if event.transferred {
            balance + (if pending.transfer.to == pool.data.vault {
                pending.transfer.amount as int
            } else {
                0
            }) - (if pending.transfer.from == pool.data.vault {
                pending.transfer.amount as int
            } else {
                0
            })
        } else {
            balance
        },
        Err(_) => balance,
    }
}

/// What the vault holds after the history `events`, if it held `balance` at
/// the start.
pub open spec fn vault_balance(program: Address, pool: Account<Pool>, balance: nat, events: Seq<Event>) -> int
    decreases events.len(),
{
    if events.len() == 0 {
        balance as int
    } else {
        vault_step(
            program,
            run(program, pool, events.drop_last()),
            vault_balance(program, pool, balance, events.drop_last()),
            events.last(),
        )
    }
}

/// Whether the transfer primitive kept its word in `events`: no transfer out
/// of the vault succeeded for more than the vault held at that moment.
pub open spec fn covered(program: Address, pool: Account<Pool>, balance: nat, events: Seq<Event>) -> bool
    decreases events.len(),
{
    if events.len() == 0 {
        true
    } else {
        let before = run(program, pool, events.drop_last());
        &&& covered(program, pool, balance, events.drop_last())
        &&& match decision(program, before, events.last()) {
            Ok(pending) => events.last().transferred && pending.transfer.from == before.data.vault
                ==> pending.transfer.amount <= vault_balance(program, pool, balance, events.drop_last()),
            Err(_) => true,
        }
    }
}

/// A request that is refused, or whose transfer fails, changes neither the
/// record nor the vault.
pub proof fn lemma_rejection_leaves_no_trace(program: Address, pool: Account<Pool>, balance: int, event: Event)
    requires
        !accepted(program, pool, event),
    ensures
        step(program, pool, event) == pool,
        vault_step(program, pool, balance, event) == balance,
{
}

/// A deposit of nothing is refused with `InvalidDepositAmount`, whatever else
/// is wrong with the request, and nothing moves.
pub proof fn lemma_empty_deposit_is_refused(
    program: Address,
    pool: Account<Pool>,
    balance: int,
    accounts: Deposit,
    transferred: bool,
)
    ensures
        ({
            let event = Event { call: Call::Deposit(accounts, 0), transferred };
            &&& decision(program, pool, event) matches Err(PoolError::InvalidDepositAmount)
            &&& step(program, pool, event) == pool
            &&& vault_step(program, pool, balance, event) == balance
        }),
{
}

/// A withdrawal of more than the record holds is refused and nothing moves;
/// on an initialized record the refusal is `InvalidWithdrawAmount`.
pub proof fn lemma_overdraft_is_refused(
    program: Address,
    pool: Account<Pool>,
    balance: int,
    accounts: Withdraw,
    amount: u64,
    transferred: bool,
)
    requires
        amount > pool.data.amount,
    ensures
        ({
            let event = Event { call: Call::Withdraw(accounts, amount), transferred };
            &&& decision(program, pool, event) is Err
            &&& (pool.data.initialized ==> decision(program, pool, event) matches Err(
                PoolError::InvalidWithdrawAmount,
            ))
            &&& step(program, pool, event) == pool
            &&& vault_step(program, pool, balance, event) == balance
        }),
{
}

/// A withdrawal asked for by anybody but the depositor on record is refused
/// and nothing moves; where the record is initialized and holds the amount,
/// the refusal is `InvalidWithdrawUser`.
pub proof fn lemma_stranger_is_refused(
    program: Address,
    pool: Account<Pool>,
    balance: int,
    accounts: Withdraw,
    amount: u64,
    transferred: bool,
)
    requires
        accounts.user_authority.key != pool.data.user,
    ensures
        ({
            let event = Event { call: Call::Withdraw(accounts, amount), transferred };
            &&& decision(program, pool, event) is Err
            &&& (pool.data.initialized && amount <= pool.data.amount ==> decision(program, pool, event)
                matches Err(PoolError::InvalidWithdrawUser))
            &&& step(program, pool, event) == pool
            &&& vault_step(program, pool, balance, event) == balance
        }),
{
}

/// A request that goes through changes the depositor and the amount at most:
/// the address of the record, its initialization, signer, mint, vault and
/// nonce stay for good.
pub proof fn lemma_step_keeps_binding(program: Address, pool: Account<Pool>, event: Event)
    ensures
        step(program, pool, event).key == pool.key,
        step(program, pool, event).data.initialized == pool.data.initialized,
        step(program, pool, event).data.program_signer == pool.data.program_signer,
        step(program, pool, event).data.mint == pool.data.mint,
        step(program, pool, event).data.vault == pool.data.vault,
        step(program, pool, event).data.nonce == pool.data.nonce,
        accepted(program, pool, event) ==> pool.data.initialized,
{
}

/// No history touches what initialization bound the record to, and a record
/// that was never initialized is never changed at all.
pub proof fn lemma_run_keeps_binding(program: Address, pool: Account<Pool>, events: Seq<Event>)
    ensures
        run(program, pool, events).key == pool.key,
        run(program, pool, events).data.initialized == pool.data.initialized,
        run(program, pool, events).data.program_signer == pool.data.program_signer,
        run(program, pool, events).data.mint == pool.data.mint,
        run(program, pool, events).data.vault == pool.data.vault,
        run(program, pool, events).data.nonce == pool.data.nonce,
        !pool.data.initialized ==> run(program, pool, events) == pool,
    decreases events.len(),
{
    if events.len() > 0 {
        lemma_run_keeps_binding(program, pool, events.drop_last());
        lemma_step_keeps_binding(program, run(program, pool, events.drop_last()), events.last());
    }
}

/// Whether the signer on record is the authority that the record's own
/// address and nonce derive under `program`. Initialization writes no other
/// record.
pub open spec fn holds_derived_signer(program: Address, pool: Account<Pool>) -> bool {
    is_program_signer(pool.data.program_signer, pool.key, pool.data.nonce, program)
}

/// No history puts another signer in the place of the derived one.
pub proof fn lemma_run_keeps_signer(program: Address, pool: Account<Pool>, events: Seq<Event>)
    requires
        holds_derived_signer(program, pool),
    ensures
        holds_derived_signer(program, run(program, pool, events)),
{
    lemma_run_keeps_binding(program, pool, events);
}

/// What is on record can be had back: from an initialized record with its
/// derived signer, the depositor who signs, names the vault of the record
/// and a token account of their own in the record's mint, and asks for no
/// more than the record holds, is never refused.
pub proof fn lemma_depositor_is_paid(program: Address, pool: Account<Pool>, accounts: Withdraw, amount: u64)
    requires
        pool.data.initialized,
        holds_derived_signer(program, pool),
        amount <= pool.data.amount,
        accounts.user_authority.key == pool.data.user,
        accounts.user_authority.is_signer,
        accounts.vault.key == pool.data.vault,
        accounts.user_mint_acc.data.owner == pool.data.user,
        accounts.user_mint_acc.data.mint == pool.data.mint,
    ensures
        ({
            let event = Event { call: Call::Withdraw(accounts, amount), transferred: true };
            &&& accepted_withdrawal(program, pool, event)
            &&& step(program, pool, event).data.amount == pool.data.amount - amount
        }),
{
}

/// Once initialized, initialized for good: after any history of an
/// initialized record, a request to initialize it again is still refused.
pub proof fn lemma_never_initialized_again(
    program: Address,
    pool: Account<Pool>,
    events: Seq<Event>,
    again: Context<InitializePool>,
    derived: Option<Seq<u8>>,
)
    requires
        pool.data.initialized,
        again.accounts.pool == run(program, pool, events),
    ensures
        initialize_outcome(again, derived) matches Err(PoolError::InvalidPool),
{
    lemma_run_keeps_binding(program, pool, events);
}

/// The books of a record always balance: what it holds, plus what was
/// withdrawn, plus what deposits wrote over, is what it held at the start
/// plus what was deposited.
pub proof fn lemma_amount_ledger(program: Address, pool: Account<Pool>, events: Seq<Event>)
    ensures
        run(program, pool, events).data.amount + withdrawn(program, pool, events) + overwritten(
            program,
            pool,
            events,
        ) == pool.data.amount + deposited(program, pool, events),
    decreases events.len(),
{
    if events.len() > 0 {
        lemma_amount_ledger(program, pool, events.drop_last());
    }
}

/// Whether every deposit that went through in `events` met a record that
/// held nothing, so that none wrote over an amount still on record.
pub open spec fn deposits_met_empty_record(program: Address, pool: Account<Pool>, events: Seq<Event>) -> bool
    decreases events.len(),
{
    if events.len() == 0 {
        true
    } else {
        let before = run(program, pool, events.drop_last());
        &&& deposits_met_empty_record(program, pool, events.drop_last())
        &&& accepted_deposit(program, before, events.last()) ==> before.data.amount == 0
    }
}

/// Nothing was written over exactly when every deposit that went through met
/// an empty record.
pub proof fn lemma_nothing_overwritten(program: Address, pool: Account<Pool>, events: Seq<Event>)
    ensures
        deposits_met_empty_record(program, pool, events) <==> overwritten(program, pool, events) == 0,
    decreases events.len(),
{
    if events.len() > 0 {
        lemma_nothing_overwritten(program, pool, events.drop_last());
    }
}

/// Amount conservation: after any history in which every deposit that went
/// through met an empty record, the record holds what it held at the start,
/// plus the deposits that went through, minus the withdrawals that went
/// through; and the withdrawals never add up to more than there was.
pub proof fn lemma_amount_conserved(program: Address, pool: Account<Pool>, events: Seq<Event>)
    requires
        deposits_met_empty_record(program, pool, events),
    ensures
        run(program, pool, events).data.amount == pool.data.amount + deposited(program, pool, events)
            - withdrawn(program, pool, events),
        withdrawn(program, pool, events) <= pool.data.amount + deposited(program, pool, events),
{
    lemma_amount_ledger(program, pool, events);
    lemma_nothing_overwritten(program, pool, events);
}

/// A deposit overwrites: after a history in which a deposit went through
/// while the record still held something, the record holds less than the
/// deposits minus the withdrawals, by exactly what was written over.
pub proof fn lemma_overwriting_loses_amount(program: Address, pool: Account<Pool>, events: Seq<Event>)
    requires
        !deposits_met_empty_record(program, pool, events),
    ensures
        overwritten(program, pool, events) > 0,
        run(program, pool, events).data.amount == pool.data.amount + deposited(program, pool, events)
            - withdrawn(program, pool, events) - overwritten(program, pool, events),
{
    lemma_amount_ledger(program, pool, events);
    lemma_nothing_overwritten(program, pool, events);
}

/// No withdrawal that goes through takes more than the record holds, so the
/// amount on record never passes below zero.
pub proof fn lemma_withdrawal_within_amount(program: Address, pool: Account<Pool>, event: Event)
    requires
        accepted_withdrawal(program, pool, event),
    ensures
        event.amount() <= pool.data.amount,
        step(program, pool, event).data.amount == pool.data.amount - event.amount(),
        step(program, pool, event).data.user == pool.data.user,
{
}

/// The record never promises more than the vault holds: if it did not at
/// the start, and the transfer primitive never moved out of the vault more
/// than was in it, then after any history the amount on record is at most
/// the balance of the vault.
pub proof fn lemma_amount_within_vault(program: Address, pool: Account<Pool>, balance: nat, events: Seq<Event>)
    requires
        pool.data.amount <= balance,
        covered(program, pool, balance, events),
    ensures
        0 <= run(program, pool, events).data.amount <= vault_balance(program, pool, balance, events),
    decreases events.len(),
{
    if events.len() > 0 {
        let earlier = events.drop_last();
        lemma_amount_within_vault(program, pool, balance, earlier);
        lemma_run_keeps_binding(program, pool, earlier);
    }
}

} // verus!
