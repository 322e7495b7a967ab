//! What holds of the accounting rules, whatever the pool and the request.

use crate::pool::{Operation, Pool};
use vstd::arithmetic::div_mod::{lemma_fundamental_div_mod, lemma_mod_bound};
use vstd::prelude::*;

verus! {

/// For a positive divisor, `x / d` is the one quotient `q` with
/// `q * d <= x < (q + 1) * d`.
pub proof fn lemma_floor_bounds(x: nat, d: nat)
    requires
        d > 0,
    ensures
        (x / d) * d <= x,
        x < (x / d + 1) * d,
{
    lemma_fundamental_div_mod(x as int, d as int);
    lemma_mod_bound(x as int, d as int);
    let q = (x as int) / (d as int);
    assert(q * d == d * q && (q + 1) * d == d * q + d) by (nonlinear_arith);
}

/// A deposit into a pool that holds assets and shares buys the largest number
/// of shares that its amount pays for in full.  So the price of a share never
/// falls by a deposit, and rises by less than what one more share would have
/// cost.
pub proof fn lemma_deposit_is_fair(pool: Pool, amount: nat)
    requires
        pool.shares > 0,
        pool.balance > 0,
    ensures
        pool.shares_for(amount) * pool.balance <= amount * pool.shares,
        amount * pool.shares < (pool.shares_for(amount) + 1) * pool.balance,
        pool.after_deposit(amount).price_at_least(pool),
        pool.after_deposit(amount).balance * pool.shares - pool.balance * pool.after_deposit(
            amount,
        ).shares < pool.balance,
{
    let m = pool.shares_for(amount);
    let b = pool.balance;
    let s = pool.shares;
    lemma_floor_bounds(amount * s, b);
    assert((m + 1) * b == m * b + b) by (nonlinear_arith);
    assert((b + amount) * s - b * (s + m) == amount * s - m * b) by (nonlinear_arith);
}

/// A withdrawal that the vault accepts releases the largest amount that the
/// shares handed back are worth in full, and never more than the pool holds.
/// So the price of a share never falls by a withdrawal, and rises by less
/// than one unit of the asset spread over the shares that were outstanding.
pub proof fn lemma_withdraw_is_fair(pool: Pool, shares: nat)
    requires
        pool.withdraw_rejection(shares) is None,
    ensures
        pool.amount_for(shares) * pool.shares <= shares * pool.balance,
        shares * pool.balance < (pool.amount_for(shares) + 1) * pool.shares,
        pool.amount_for(shares) <= pool.balance,
        pool.after_withdraw(shares).price_at_least(pool),
        pool.after_withdraw(shares).balance * pool.shares - pool.balance * pool.after_withdraw(
            shares,
        ).shares < pool.shares,
{
    let out = pool.amount_for(shares);
    let b = pool.balance;
    let s = pool.shares;
    lemma_floor_bounds(shares * b, s);
    assert(out <= b) by (nonlinear_arith)
        requires
            out * s <= shares * b,
            0 < shares <= s,
            0 <= b,
            0 <= out,
    ;
    assert((out + 1) * s == out * s + s) by (nonlinear_arith);
    assert((b - out) * s - b * (s - shares) == shares * b - out * s) by (nonlinear_arith);
}

/// One operation never lowers the price of a share, whether the vault accepts
/// it or not, as long as shares are outstanding when it is asked for.
pub proof fn lemma_operation_keeps_price(pool: Pool, op: Operation)
    requires
        pool.shares > 0,
    ensures
        pool.apply(op).price_at_least(pool),
{
    match op {
        Operation::Deposit { amount } => {
            if pool.deposit_rejection(amount) is None {
                if pool.balance > 0 {
                    lemma_deposit_is_fair(pool, amount);
                } else {
                    assert(amount * pool.shares >= 0) by (nonlinear_arith);
                    assert(pool.balance * (pool.shares + amount) == 0) by (nonlinear_arith)
                        requires
                            pool.balance == 0,
                    ;
                }
            }
        },
        Operation::Withdraw { shares } => {
            if pool.withdraw_rejection(shares) is None {
                lemma_withdraw_is_fair(pool, shares);
            }
        },
    }
}

/// The order of prices carries over a pool in between, provided that pool has
/// shares outstanding.
pub proof fn lemma_price_order_is_transitive(first: Pool, second: Pool, third: Pool)
    requires
        second.shares > 0,
        second.price_at_least(first),
        third.price_at_least(second),
    ensures
        third.price_at_least(first),
{
    let b0 = first.balance as int;
    let s0 = first.shares as int;
    let b1 = second.balance as int;
    let s1 = second.shares as int;
    let b2 = third.balance as int;
    let s2 = third.shares as int;
    assert((b2 * s0) * s1 >= (b0 * s2) * s1) by (nonlinear_arith)
        requires
            b1 * s0 >= b0 * s1,
            b2 * s1 >= b1 * s2,
            s0 >= 0,
            s2 >= 0,
    {
        assert((b2 * s1) * s0 >= (b1 * s2) * s0);
        assert((b1 * s0) * s2 >= (b0 * s1) * s2);
        assert((b2 * s1) * s0 == (b2 * s0) * s1);
        assert((b1 * s2) * s0 == (b1 * s0) * s2);
        assert((b0 * s1) * s2 == (b0 * s2) * s1);
    }
    assert(b2 * s0 >= b0 * s2) by (nonlinear_arith)
        requires
            (b2 * s0) * s1 >= (b0 * s2) * s1,
            s1 > 0,
    ;
}

/// Over any sequence of operations, accepted or rejected, the price of a
/// share never falls below what it was at the start, as long as shares are
/// outstanding before each operation.  No run of deposits and withdrawals
/// dilutes those who hold shares.
pub proof fn lemma_price_never_falls(pool: Pool, ops: Seq<Operation>)
    requires
        forall|k: int| 0 <= k < ops.len() ==> (#[trigger] pool.run(ops.take(k))).shares > 0,
    ensures
        pool.run(ops).price_at_least(pool),
    decreases ops.len(),
{
    if ops.len() == 0 {
    } else {
        let before = ops.drop_last();
        let last = (ops.len() - 1) as int;
        assert(before =~= ops.take(last));
        assert forall|k: int| 0 <= k < before.len() implies (#[trigger] pool.run(
            before.take(k),
        )).shares > 0 by {
            assert(before.take(k) =~= ops.take(k));
        }
        lemma_price_never_falls(pool, before);
        let middle = pool.run(before);
        assert(middle.shares > 0) by {
            assert(pool.run(ops.take(last)).shares > 0);
        }
        lemma_operation_keeps_price(middle, ops.last());
        if before.len() == 0 {
            assert(middle == pool);
        } else {
            lemma_price_order_is_transitive(pool, middle, pool.run(ops));
        }
    }
}

/// Depositing `amount` into a pool that holds assets and shares, and at once
/// handing back all the shares that were minted, never returns more than
/// `amount`.  It returns `amount` less at most one unit exactly where the
/// remainder that the deposit left to the pool, `amount * shares % balance`,
/// does not exceed the shares then outstanding.  The shares outstanding are
/// afterwards what they were, and the pool holds no less than before.
pub proof fn lemma_round_trip(pool: Pool, amount: nat)
    requires
        pool.shares > 0,
        pool.balance > 0,
        pool.deposit_rejection(amount) is None,
        pool.shares_for(amount) > 0,
    ensures
        pool.after_deposit(amount).withdraw_rejection(pool.shares_for(amount)) is None,
        pool.after_deposit(amount).amount_for(pool.shares_for(amount)) <= amount,
        amount - pool.after_deposit(amount).amount_for(pool.shares_for(amount)) <= 1 <==> (amount
            * pool.shares) % pool.balance <= pool.shares + pool.shares_for(amount),
        pool.after_deposit(amount).after_withdraw(pool.shares_for(amount)).shares == pool.shares,
        pool.after_deposit(amount).after_withdraw(pool.shares_for(amount)).balance >= pool.balance,
{
    let b = pool.balance as int;
    let s = pool.shares as int;
    let a = amount as int;
    let m = pool.shares_for(amount) as int;
    let r = ((amount * pool.shares) % pool.balance) as int;
    let d = s + m;
    let mid = pool.after_deposit(amount);
    let out = mid.amount_for(pool.shares_for(amount)) as int;
    let x = m * (b + a);
    lemma_fundamental_div_mod(a * s, b);
    lemma_mod_bound(a * s, b);
    assert(a * s == b * m + r);
    assert(x == a * d - r) by (nonlinear_arith)
        requires
            a * s == b * m + r,
            d == s + m,
            x == m * (b + a),
    ;
    lemma_floor_bounds((pool.shares_for(amount) * mid.balance) as nat, mid.shares);
    assert(out * d <= x && x < (out + 1) * d);
    assert(out <= a) by (nonlinear_arith)
        requires
            out * d <= x,
            x == a * d - r,
            r >= 0,
            d > 0,
    ;
    if r <= d {
        assert(out >= a - 1) by (nonlinear_arith)
            requires
                x < (out + 1) * d,
                x == a * d - r,
                r <= d,
                d > 0,
        ;
    } else {
        assert(out < a - 1) by (nonlinear_arith)
            requires
                out * d <= x,
                x == a * d - r,
                r > d,
                d > 0,
        ;
    }
}

/// The first deposit into a vault that holds nothing is priced one to one,
/// and handing the shares straight back returns the whole deposit.
pub proof fn lemma_round_trip_from_empty(amount: nat)
    requires
        0 < amount <= u64::MAX,
    ensures
        (Pool { balance: 0, shares: 0 }).shares_for(amount) == amount,
        (Pool { balance: 0, shares: 0 }).after_deposit(amount).withdraw_rejection(amount) is None,
        (Pool { balance: 0, shares: 0 }).after_deposit(amount).amount_for(amount) == amount,
        (Pool { balance: 0, shares: 0 }).after_deposit(amount).after_withdraw(amount) == (Pool {
            balance: 0,
            shares: 0,
        }),
{
    assert(amount * amount / amount == amount) by (nonlinear_arith)
        requires
            amount > 0,
    ;
}

} // verus!
