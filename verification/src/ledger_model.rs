//! A mathematical model of the balance ledger.
//!
//! The ledger operations each touch two balance records; this module views
//! the whole ledger as a sequence of amounts and describes one transfer —
//! direct or delegated — as a step on that sequence. The conservation law at
//! the bottom states the global property the operations are built to keep:
//! no run of transfer steps creates or destroys value.

use vstd::prelude::*;

verus! {

/// Amounts after moving `amount` from a sender to a recipient: both change
/// exactly when the sender holds enough and the recipient has headroom,
/// and neither changes otherwise.
pub open spec fn spec_transfer_amounts(sender: u128, recipient: u128, amount: u128) -> (
    u128,
    u128,
) {
    if amount <= sender && recipient + amount <= u128::MAX {
        (((sender - amount) as u128), ((recipient + amount) as u128))
    } else {
        (sender, recipient)
    }
}

/// The combined amount held by a sequence of balances.
pub open spec fn total_amount(balances: Seq<u128>) -> int
    decreases balances.len(),
{
    if balances.len() == 0 {
        0
    } else {
        total_amount(balances.drop_last()) + balances.last()
    }
}

/// One transfer step on the whole ledger: the balances at `from` and `to`
/// move by [`spec_transfer_amounts`], every other balance stays.
pub open spec fn move_amount(balances: Seq<u128>, from: int, to: int, amount: u128) -> Seq<u128>
    recommends
        0 <= from < balances.len(),
        0 <= to < balances.len(),
        from != to,
{
    let moved = spec_transfer_amounts(balances[from], balances[to], amount);
    balances.update(from, moved.0).update(to, moved.1)
}

/// Every step of the run names two distinct in-range balances.
pub open spec fn ops_well_formed(n: int, ops: Seq<(int, int, u128)>) -> bool {
    forall|k: int|
        0 <= k < ops.len() ==> {
            &&& 0 <= (#[trigger] ops[k]).0 < n
            &&& 0 <= ops[k].1 < n
            &&& ops[k].0 != ops[k].1
        }
}

/// Runs a sequence of transfer steps, first to last.
pub open spec fn apply_moves(balances: Seq<u128>, ops: Seq<(int, int, u128)>) -> Seq<u128>
    decreases ops.len(),
{
    if ops.len() == 0 {
        balances
    } else {
        apply_moves(
            move_amount(balances, ops[0].0, ops[0].1, ops[0].2),
            ops.subrange(1, ops.len() as int),
        )
    }
}

/// Overwriting one balance shifts the combined amount by exactly the
/// difference at that position.
proof fn lemma_total_amount_update(balances: Seq<u128>, i: int, v: u128)
    requires
        0 <= i < balances.len(),
    ensures
        total_amount(balances.update(i, v)) == total_amount(balances) - balances[i] + v,
    decreases balances.len(),
{
    let updated = balances.update(i, v);
    if i == balances.len() - 1 {
        assert(updated.drop_last() =~= balances.drop_last());
    } else {
        assert(updated.drop_last() =~= balances.drop_last().update(i, v));
        lemma_total_amount_update(balances.drop_last(), i, v);
    }
}

/// What one transfer step does position by position: the debited balance
/// never rises, the credited balance never falls — no field wraps — and
/// every balance other than the two named ones stays exactly as it was.
/// The two touched entries land on [`spec_transfer_amounts`], the same
/// outcome the operations' own contracts state.
pub proof fn lemma_move_amount_entries(balances: Seq<u128>, from: int, to: int, amount: u128)
    requires
        0 <= from < balances.len(),
        0 <= to < balances.len(),
        from != to,
    ensures
        move_amount(balances, from, to, amount)[from] == spec_transfer_amounts(
            balances[from],
            balances[to],
            amount,
        ).0,
        move_amount(balances, from, to, amount)[to] == spec_transfer_amounts(
            balances[from],
            balances[to],
            amount,
        ).1,
        move_amount(balances, from, to, amount)[from] <= balances[from],
        move_amount(balances, from, to, amount)[to] >= balances[to],
        forall|i: int|
            0 <= i < balances.len() && i != from && i != to ==> move_amount(
                balances,
                from,
                to,
                amount,
            )[i] == balances[i],
{
}

/// A single transfer step neither creates nor destroys value, and keeps the
/// number of balances.
pub proof fn lemma_move_amount_conserves(balances: Seq<u128>, from: int, to: int, amount: u128)
    requires
        0 <= from < balances.len(),
        0 <= to < balances.len(),
        from != to,
    ensures
        total_amount(move_amount(balances, from, to, amount)) == total_amount(balances),
        move_amount(balances, from, to, amount).len() == balances.len(),
{
    let moved = spec_transfer_amounts(balances[from], balances[to], amount);
    let debited = balances.update(from, moved.0);
    lemma_total_amount_update(balances, from, moved.0);
    lemma_total_amount_update(debited, to, moved.1);
}

/// Conservation: a run of transfer steps — direct or delegated, however long
/// and in whatever order, with no mint among them — leaves the combined
/// amount of all balances exactly as it began.
pub proof fn lemma_conservation(balances: Seq<u128>, ops: Seq<(int, int, u128)>)
    requires
        ops_well_formed(balances.len() as int, ops),
    ensures
        total_amount(apply_moves(balances, ops)) == total_amount(balances),
        apply_moves(balances, ops).len() == balances.len(),
    decreases ops.len(),
{
    if ops.len() > 0 {
        let stepped = move_amount(balances, ops[0].0, ops[0].1, ops[0].2);
        let rest = ops.subrange(1, ops.len() as int);
        lemma_move_amount_conserves(balances, ops[0].0, ops[0].1, ops[0].2);
        assert(ops_well_formed(stepped.len() as int, rest)) by {
            assert(forall|k: int| 0 <= k < rest.len() ==> rest[k] == ops[k + 1]);
        }
        lemma_conservation(stepped, rest);
    }
}

} // verus!
