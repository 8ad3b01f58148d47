//! The token ledger: initialization, reads, transfers, allowances, minting.
//!
//! Each operation takes the records it touches as mutable borrows; the host's
//! storage layer locates or creates those records by key and serializes
//! operations that share one. Cryptographic authentication of a caller
//! identity is likewise the host's duty: the identity arguments here are
//! assumed authenticated, and each debiting operation requires them to match
//! the debited record's owner. Every operation either applies all of its
//! mutations or, on a reported error, none of them.

use vstd::prelude::*;

use crate::identity::Identity;
use crate::ledger_model::spec_transfer_amounts;

verus! {

/// Errors of the zero-address-checked transfer and of minting.
#[derive(Clone, Copy, Debug, PartialEq, Eq, Structural)]
pub enum CustomError {
    ZeroAddress,
    InsufficientBalance,
    MathUnderflow,
    MathOverflow,
}

/// Errors of direct and delegated transfers.
#[derive(Clone, Copy, Debug, PartialEq, Eq, Structural)]
pub enum MyError {
    InsufficientFunds,
    AllowanceExceeded,
}

/// The token itself: metadata plus the running total supply.
#[derive(Debug)]
pub struct Token {
    pub name: String,
    pub symbol: String,
    pub total_supply: u128,
    pub decimals: u8,
}

/// A wide (128-bit) balance record, one per owner.
#[derive(Clone, Copy, Debug, PartialEq, Eq, Structural)]
pub struct Balance {
    pub owner: Identity,
    pub amount: u128,
}

/// A narrow (64-bit) balance record used by the checked transfer and mint.
#[derive(Clone, Copy, Debug, PartialEq, Eq, Structural)]
pub struct TokenAccountState {
    pub owner: Identity,
    pub balance: u64,
}

/// A spender's remaining permission to debit an owner's balance. The bump is
/// the storage layer's key-derivation disambiguator, opaque to the ledger.
#[derive(Clone, Copy, Debug, PartialEq, Eq, Structural)]
pub struct Allowance {
    pub owner: Identity,
    pub spender: Identity,
    pub amount: u128,
    pub bump: u8,
}

/// The supply counter mutated by minting.
#[derive(Clone, Copy, Debug, PartialEq, Eq, Structural)]
pub struct MintState {
    pub total_supply: u64,
}

/// Notification of a value movement. A mint reports the null identity as its
/// source, which is how consumers tell supply creation from a peer-to-peer
/// move.
#[derive(Clone, Copy, Debug, PartialEq, Eq, Structural)]
pub struct TransferEvent {
    pub from: Identity,
    pub to: Identity,
    pub amount: u64,
}

/// Notification of an allowance being set.
#[derive(Clone, Copy, Debug, PartialEq, Eq, Structural)]
pub struct ApprovalEvent {
    pub owner: Identity,
    pub spender: Identity,
    pub amount: u128,
}

/// Seeds the token record and credits the whole initial supply to the owner.
/// The two records arrive zero-initialized from the storage layer; this is
/// the one path that seeds supply without going through `mint`.
pub fn initialize(
    token: &mut Token,
    owner_balance: &mut Balance,
    owner: Identity,
    name: String,
    symbol: String,
    initial_supply: u128,
) -> (r: Result<(), MyError>)
    ensures
        final(token).name@ == name@,
        final(token).symbol@ == symbol@,
        final(token).total_supply == initial_supply,
        final(token).decimals == old(token).decimals,
        final(owner_balance).owner == owner,
        final(owner_balance).amount == initial_supply,
        r == Ok::<(), MyError>(()),
{
    token.name = name;
    token.symbol = symbol;
    token.total_supply = initial_supply;

    owner_balance.owner = owner;
    owner_balance.amount = initial_supply;

    Ok(())
}

/// Reads the token's name.
pub fn name(token: &Token) -> (r: &String)
    ensures
        r@ == token.name@,
{
    &token.name
}

/// Reads the token's symbol.
pub fn symbol(token: &Token) -> (r: &String)
    ensures
        r@ == token.symbol@,
{
    &token.symbol
}

/// Reads the token's decimal count.
pub fn decimals(token: &Token) -> (r: u8)
    ensures
        r == token.decimals,
{
    token.decimals
}

/// Reads the token's total supply.
pub fn total_supply(token: &Token) -> (r: u128)
    ensures
        r == token.total_supply,
{
    token.total_supply
}

/// Reads the amount held by a balance record.
pub fn balance_of(balance: &Balance) -> (r: u128)
    ensures
        r == balance.amount,
{
    balance.amount
}

/// Reads the remaining amount of an allowance record.
pub fn allowance(record: &Allowance) -> (r: u128)
    ensures
        r == record.amount,
{
    record.amount
}

/// Outcome of a direct transfer: an insufficient balance is reported and
/// changes nothing; otherwise the amount moves from sender to recipient.
pub open spec fn spec_transfer(sender: Balance, recipient: Balance, amount: u128) -> (
    Balance,
    Balance,
    Result<(), MyError>,
) {
    let moved = spec_transfer_amounts(sender.amount, recipient.amount, amount);
    if sender.amount < amount {
        (sender, recipient, Err(MyError::InsufficientFunds))
    } else {
        (
            Balance { owner: sender.owner, amount: moved.0 },
            Balance { owner: recipient.owner, amount: moved.1 },
            Ok(()),
        )
    }
}

/// Moves `amount` from the sender's balance to the recipient's, as one
/// atomic step. The caller is the authenticated signer owning the sender
/// record; the access-control layer establishes that before this runs, and
/// the recipient's headroom is the storage invariant that balances never
/// exceed the total supply.
pub fn transfer(
    sender_identity: Identity,
    sender: &mut Balance,
    recipient: &mut Balance,
    amount: u128,
) -> (r: Result<(), MyError>)
    requires
        sender_identity == old(sender).owner,
        amount <= old(sender).amount ==> old(recipient).amount + amount <= u128::MAX,
    ensures
        (*final(sender), *final(recipient), r) == spec_transfer(
            *old(sender),
            *old(recipient),
            amount,
        ),
        r == Ok::<(), MyError>(()) <==> amount <= old(sender).amount,
        // Conservation: the two balances' combined amount is unchanged.
        final(sender).amount + final(recipient).amount == old(sender).amount + old(
            recipient,
        ).amount,
        // No wraparound: a debit never raises, a credit never lowers.
        final(sender).amount <= old(sender).amount,
        final(recipient).amount >= old(recipient).amount,
        final(sender).owner == old(sender).owner,
        final(recipient).owner == old(recipient).owner,
{
    if sender.amount < amount {
        return Err(MyError::InsufficientFunds);
    }

    sender.amount = sender.amount - amount;
    recipient.amount = recipient.amount + amount;

    Ok(())
}

/// New allowance record after an accepted approval: owner, spender and
/// amount are overwritten — never added to — and the key-derivation bump
/// the storage layer stamped on the record is kept.
pub open spec fn spec_approve(
    record: Allowance,
    owner: Identity,
    spender: Identity,
    amount: u128,
) -> Allowance {
    Allowance { owner, spender, amount, bump: record.bump }
}

/// Outcome of an approval: a null owner or spender is rejected with the
/// record untouched; otherwise the record is overwritten and the event
/// names the approval.
pub open spec fn spec_approve_outcome(
    record: Allowance,
    owner: Identity,
    spender: Identity,
    amount: u128,
) -> (Allowance, Result<ApprovalEvent, CustomError>) {
    if owner == Identity::spec_null() || spender == Identity::spec_null() {
        (record, Err(CustomError::ZeroAddress))
    } else {
        (spec_approve(record, owner, spender, amount), Ok(ApprovalEvent { owner, spender, amount }))
    }
}

/// Sets — overwrites, never increments — the allowance of `spender` on
/// `owner`'s balance, rejecting the null identity on either side with the
/// record unchanged. The owner is the authenticated signer; the storage
/// layer hands in the record it keyed by the (owner, spender) pair, whose
/// derivation bump stays stamped as assigned. The returned event is the
/// approval notification for the host's sink.
pub fn approve(
    record: &mut Allowance,
    owner: Identity,
    spender: Identity,
    amount: u128,
) -> (r: Result<ApprovalEvent, CustomError>)
    ensures
        (*final(record), r) == spec_approve_outcome(*old(record), owner, spender, amount),
        r is Ok <==> owner != Identity::spec_null() && spender != Identity::spec_null(),
        r is Err ==> *final(record) == *old(record),
        r is Ok ==> final(record).amount == amount && final(record).bump == old(record).bump,
{
    if owner.is_null() {
        return Err(CustomError::ZeroAddress);
    }
    if spender.is_null() {
        return Err(CustomError::ZeroAddress);
    }

    record.owner = owner;
    record.spender = spender;
    record.amount = amount;

    Ok(ApprovalEvent { owner, spender, amount })
}

/// Re-approving a pair overwrites the earlier allowance outright: approving
/// `x` and then `y` leaves the record exactly as a single approval of `y`
/// would — the allowance stands at `y`, never at `x + y`. Stated for real
/// (non-null) identities, the only ones an approval accepts.
pub proof fn lemma_approve_overwrites(
    record: Allowance,
    owner: Identity,
    spender: Identity,
    x: u128,
    y: u128,
)
    requires
        owner != Identity::spec_null(),
        spender != Identity::spec_null(),
    ensures
        spec_approve_outcome(
            spec_approve_outcome(record, owner, spender, x).0,
            owner,
            spender,
            y,
        ).0 == spec_approve_outcome(record, owner, spender, y).0,
        spec_approve_outcome(
            spec_approve_outcome(record, owner, spender, x).0,
            owner,
            spender,
            y,
        ).0.amount == y,
{
}

/// Outcome of a delegated transfer: the allowance check, then the balance
/// check, each reported without any change; on success the amount moves and
/// the allowance shrinks by it, as one unit.
pub open spec fn spec_transfer_from(
    sender: Balance,
    recipient: Balance,
    record: Allowance,
    amount: u128,
) -> (Balance, Balance, Allowance, Result<(), MyError>) {
    let moved = spec_transfer_amounts(sender.amount, recipient.amount, amount);
    if record.amount < amount {
        (sender, recipient, record, Err(MyError::AllowanceExceeded))
    } else if sender.amount < amount {
        (sender, recipient, record, Err(MyError::InsufficientFunds))
    } else {
        (
            Balance { owner: sender.owner, amount: moved.0 },
            Balance { owner: recipient.owner, amount: moved.1 },
            Allowance {
                owner: record.owner,
                spender: record.spender,
                amount: (record.amount - amount) as u128,
                bump: record.bump,
            },
            Ok(()),
        )
    }
}

/// Moves `amount` from the owner's balance to the recipient's on behalf of
/// the spender, consuming that much allowance; the three mutations land
/// together or not at all. The spender is the authenticated signer, and the
/// storage layer hands in the allowance record keyed by the sender's owner
/// and that spender.
pub fn transfer_from(
    spender_identity: Identity,
    sender_balance: &mut Balance,
    recipient_balance: &mut Balance,
    record: &mut Allowance,
    amount: u128,
) -> (r: Result<(), MyError>)
    requires
        old(record).spender == spender_identity,
        old(record).owner == old(sender_balance).owner,
        amount <= old(record).amount && amount <= old(sender_balance).amount ==> old(
            recipient_balance,
        ).amount + amount <= u128::MAX,
    ensures
        (*final(sender_balance), *final(recipient_balance), *final(record), r)
            == spec_transfer_from(
            *old(sender_balance),
            *old(recipient_balance),
            *old(record),
            amount,
        ),
        r == Err::<(), MyError>(MyError::AllowanceExceeded) <==> old(record).amount < amount,
        r == Err::<(), MyError>(MyError::InsufficientFunds) <==> old(record).amount >= amount
            && old(sender_balance).amount < amount,
        r == Ok::<(), MyError>(()) <==> amount <= old(record).amount && amount <= old(
            sender_balance,
        ).amount,
        // Atomicity: a failed check leaves every record exactly as it was.
        r != Ok::<(), MyError>(()) ==> *final(sender_balance) == *old(sender_balance)
            && *final(recipient_balance) == *old(recipient_balance) && *final(record) == *old(
            record,
        ),
        // Conservation: the two balances' combined amount is unchanged.
        final(sender_balance).amount + final(recipient_balance).amount == old(
            sender_balance,
        ).amount + old(recipient_balance).amount,
        // No wraparound: debits never raise, credits never lower.
        final(sender_balance).amount <= old(sender_balance).amount,
        final(recipient_balance).amount >= old(recipient_balance).amount,
        final(record).amount <= old(record).amount,
{
    if record.amount < amount {
        return Err(MyError::AllowanceExceeded);
    }
    if sender_balance.amount < amount {
        return Err(MyError::InsufficientFunds);
    }

    sender_balance.amount = sender_balance.amount - amount;
    recipient_balance.amount = recipient_balance.amount + amount;
    record.amount = record.amount - amount;

    Ok(())
}

/// Outcome of a zero-address-checked transfer on the narrow records: either
/// identity being null, a short balance, or a recipient overflow is reported
/// with nothing changed; otherwise the amount moves and the event names the
/// two owners.
pub open spec fn spec_another_transfer(
    from_acc: TokenAccountState,
    to_acc: TokenAccountState,
    amount: u64,
) -> (TokenAccountState, TokenAccountState, Result<TransferEvent, CustomError>) {
    if from_acc.owner == Identity::spec_null() || to_acc.owner == Identity::spec_null() {
        (from_acc, to_acc, Err(CustomError::ZeroAddress))
    } else if from_acc.balance < amount {
        (from_acc, to_acc, Err(CustomError::InsufficientBalance))
    } else if to_acc.balance + amount > u64::MAX {
        (from_acc, to_acc, Err(CustomError::MathOverflow))
    } else {
        (
            TokenAccountState { owner: from_acc.owner, balance: (from_acc.balance - amount) as u64 },
            TokenAccountState { owner: to_acc.owner, balance: (to_acc.balance + amount) as u64 },
            Ok(TransferEvent { from: from_acc.owner, to: to_acc.owner, amount }),
        )
    }
}

/// Moves `amount` between the narrow balance records, rejecting the null
/// identity on either side and reporting — rather than wrapping on — a
/// recipient overflow. Debit and credit land together or not at all; the
/// returned event is the transfer notification for the host's sink.
pub fn another_transfer(
    from_acc: &mut TokenAccountState,
    to_acc: &mut TokenAccountState,
    amount: u64,
) -> (r: Result<TransferEvent, CustomError>)
    ensures
        (*final(from_acc), *final(to_acc), r) == spec_another_transfer(
            *old(from_acc),
            *old(to_acc),
            amount,
        ),
        r matches Ok(ev) ==> ev == (TransferEvent {
            from: old(from_acc).owner,
            to: old(to_acc).owner,
            amount,
        }),
        r is Ok <==> old(from_acc).owner != Identity::spec_null() && old(to_acc).owner
            != Identity::spec_null() && amount <= old(from_acc).balance && old(to_acc).balance
            + amount <= u64::MAX,
        // Atomicity: a failed check leaves both records exactly as they were.
        r is Err ==> *final(from_acc) == *old(from_acc) && *final(to_acc) == *old(to_acc),
        // Conservation: the two balances' combined amount is unchanged.
        final(from_acc).balance + final(to_acc).balance == old(from_acc).balance + old(
            to_acc,
        ).balance,
        // No wraparound: the debit never raises, the credit never lowers.
        final(from_acc).balance <= old(from_acc).balance,
        final(to_acc).balance >= old(to_acc).balance,
{
    if from_acc.owner.is_null() {
        return Err(CustomError::ZeroAddress);
    }
    if to_acc.owner.is_null() {
        return Err(CustomError::ZeroAddress);
    }
    if from_acc.balance < amount {
        return Err(CustomError::InsufficientBalance);
    }

    let debited = match from_acc.balance.checked_sub(amount) {
        Some(v) => v,
        None => {
            return Err(CustomError::MathUnderflow);
        },
    };
    let credited = match to_acc.balance.checked_add(amount) {
        Some(v) => v,
        None => {
            return Err(CustomError::MathOverflow);
        },
    };
    from_acc.balance = debited;
    to_acc.balance = credited;

    Ok(TransferEvent { from: from_acc.owner, to: to_acc.owner, amount })
}

/// Outcome of a mint: a null recipient identity or an overflow of either the
/// supply counter or the recipient's balance is reported with nothing
/// changed; otherwise both grow by the amount and the event reports the null
/// identity as source.
pub open spec fn spec_mint(mint_state: MintState, to_acc: TokenAccountState, amount: u64) -> (
    MintState,
    TokenAccountState,
    Result<TransferEvent, CustomError>,
) {
    if to_acc.owner == Identity::spec_null() {
        (mint_state, to_acc, Err(CustomError::ZeroAddress))
    } else if mint_state.total_supply + amount > u64::MAX || to_acc.balance + amount > u64::MAX {
        (mint_state, to_acc, Err(CustomError::MathOverflow))
    } else {
        (
            MintState { total_supply: (mint_state.total_supply + amount) as u64 },
            TokenAccountState { owner: to_acc.owner, balance: (to_acc.balance + amount) as u64 },
            Ok(TransferEvent { from: Identity::spec_null(), to: to_acc.owner, amount }),
        )
    }
}

/// Expands the supply by `amount` and credits it to the recipient, as one
/// atomic unit; this is the sole supply-expansion path after initialization.
/// The returned event carries the null identity as its synthetic source, so
/// consumers can tell a mint from a peer-to-peer transfer.
pub fn mint(
    mint_state: &mut MintState,
    to_acc: &mut TokenAccountState,
    amount: u64,
) -> (r: Result<TransferEvent, CustomError>)
    ensures
        (*final(mint_state), *final(to_acc), r) == spec_mint(
            *old(mint_state),
            *old(to_acc),
            amount,
        ),
        // Mint provenance: every mint notification names the null source.
        r matches Ok(ev) ==> ev == (TransferEvent {
            from: Identity::spec_null(),
            to: old(to_acc).owner,
            amount,
        }),
        r is Ok <==> old(to_acc).owner != Identity::spec_null() && old(mint_state).total_supply
            + amount <= u64::MAX && old(to_acc).balance + amount <= u64::MAX,
        // Atomicity: a failed check leaves both records exactly as they were.
        r is Err ==> *final(mint_state) == *old(mint_state) && *final(to_acc) == *old(to_acc),
        // No wraparound: supply and balance only grow, and by the same amount.
        final(mint_state).total_supply >= old(mint_state).total_supply,
        final(to_acc).balance >= old(to_acc).balance,
        final(mint_state).total_supply - old(mint_state).total_supply == final(to_acc).balance
            - old(to_acc).balance,
{
    if to_acc.owner.is_null() {
        return Err(CustomError::ZeroAddress);
    }

    let grown_supply = match mint_state.total_supply.checked_add(amount) {
        Some(v) => v,
        None => {
            return Err(CustomError::MathOverflow);
        },
    };
    let credited = match to_acc.balance.checked_add(amount) {
        Some(v) => v,
        None => {
            return Err(CustomError::MathOverflow);
        },
    };
    mint_state.total_supply = grown_supply;
    to_acc.balance = credited;

    Ok(TransferEvent { from: Identity::null(), to: to_acc.owner, amount })
}

/// Outcome of a zero-address-checked approval: a null owner or spender is
/// reported with nothing changed; otherwise the record is overwritten, the
/// fresh key-derivation bump is stamped, and the event names the approval.
pub open spec fn spec_another_approve(
    record: Allowance,
    owner: Identity,
    spender: Identity,
    amount: u128,
    bump: u8,
) -> (Allowance, Result<ApprovalEvent, CustomError>) {
    if owner == Identity::spec_null() || spender == Identity::spec_null() {
        (record, Err(CustomError::ZeroAddress))
    } else {
        (Allowance { owner, spender, amount, bump }, Ok(ApprovalEvent { owner, spender, amount }))
    }
}

/// Sets the allowance of `spender` on `owner`'s balance, rejecting the null
/// identity on either side, and stamps the record with the key-derivation
/// bump the storage layer assigned to the (owner, spender) pair. The
/// returned event is the approval notification for the host's sink.
pub fn another_approve(
    record: &mut Allowance,
    owner: Identity,
    spender: Identity,
    amount: u128,
    bump: u8,
) -> (r: Result<ApprovalEvent, CustomError>)
    ensures
        (*final(record), r) == spec_another_approve(*old(record), owner, spender, amount, bump),
        r is Ok <==> owner != Identity::spec_null() && spender != Identity::spec_null(),
        r is Err ==> *final(record) == *old(record),
        r is Ok ==> final(record).amount == amount,
{
    if owner.is_null() {
        return Err(CustomError::ZeroAddress);
    }
    if spender.is_null() {
        return Err(CustomError::ZeroAddress);
    }

    record.owner = owner;
    record.spender = spender;
    record.amount = amount;
    record.bump = bump;

    Ok(ApprovalEvent { owner, spender, amount })
}

} // verus!
