//! From dollars to the native token, at a rate of exchange.
//!
//! All amounts are whole numbers of their smallest units, and a rate is a
//! decimal number, so that a conversion is exact but for its last step, which
//! rounds down to a whole unit.

use vstd::prelude::*;

use crate::types::{AccountId, Balance, ONE_NEAR, USD};

verus! {

/// How many tokens a dollar buys: `digits / 10^decimals`.
#[derive(Clone, Copy, Debug, PartialEq, Eq)]
pub struct ExchangeRate {
    /// the rate without its decimal point
    pub digits: u128,
    /// the number of digits behind the decimal point
    pub decimals: u32,
}

/// The most decimals that a rate may carry: those of the token itself.
pub const MAX_RATE_DECIMALS: u32 = 24;

/// Ten to the power of `decimals`.
pub open spec fn scale(decimals: nat) -> nat
    decreases decimals,
{
    if decimals == 0 {
        1
    } else {
        10 * scale((decimals - 1) as nat)
    }
}

/// Whether the amount can be converted at the rate: the rate stays within
/// its decimals, and the balance that the amount is worth fits the machine.
pub open spec fn convertible(amount: USD, rate: ExchangeRate) -> bool {
    &&& rate.decimals <= MAX_RATE_DECIMALS
    &&& converted(amount, rate) <= u128::MAX
}

/// The balance that the amount is worth at the rate, rounded down to a whole
/// unit of the token.
pub open spec fn converted(amount: USD, rate: ExchangeRate) -> nat {
    ((amount * rate.digits) / scale(rate.decimals as nat) as int) as nat
}

/// A power of ten is positive and grows with its exponent.
pub proof fn lemma_scale_grows(low: nat, high: nat)
    requires
        low <= high,
    ensures
        0 < scale(low) <= scale(high),
    decreases high,
{
    if high == 0 {
    } else if low == high {
        lemma_scale_grows((low - 1) as nat, (high - 1) as nat);
    } else {
        lemma_scale_grows(low, (high - 1) as nat);
    }
}

/// Ten to the power of the most decimals is one whole token in its units.
pub proof fn lemma_scale_of_token()
    ensures
        scale(MAX_RATE_DECIMALS as nat) == ONE_NEAR,
{
    reveal_with_fuel(scale, 25);
}

/// A conversion rounds down: what it yields is worth no more than the
/// amount, and one unit more would be worth more than the amount.
pub proof fn lemma_conversion_rounds_down(amount: USD, rate: ExchangeRate)
    ensures
        converted(amount, rate) * scale(rate.decimals as nat) <= amount * rate.digits,
        amount * rate.digits < (converted(amount, rate) + 1) * scale(rate.decimals as nat),
{
    let product = amount * rate.digits;
    let unit = scale(rate.decimals as nat) as int;
    lemma_scale_grows(0, rate.decimals as nat);
    assert(product >= 0) by (nonlinear_arith)
        requires
            product == amount * rate.digits,
    ;
    vstd::arithmetic::div_mod::lemma_fundamental_div_mod(product, unit);
    vstd::arithmetic::div_mod::lemma_mod_bound(product, unit);
    vstd::arithmetic::div_mod::lemma_div_pos_is_pos(product, unit);
    let quotient = product / unit;
    assert(unit * quotient == quotient * unit) by (nonlinear_arith);
    assert((quotient + 1) * unit == quotient * unit + unit) by (nonlinear_arith);
}

/// A larger amount is never worth less at the same rate.
pub proof fn lemma_conversion_monotonic(smaller: USD, larger: USD, rate: ExchangeRate)
    requires
        smaller <= larger,
    ensures
        converted(smaller, rate) <= converted(larger, rate),
{
    let unit = scale(rate.decimals as nat) as int;
    lemma_scale_grows(0, rate.decimals as nat);
    assert(0 <= smaller * rate.digits <= larger * rate.digits) by (nonlinear_arith)
        requires
            0 <= smaller <= larger,
            0 <= rate.digits,
    ;
    vstd::arithmetic::div_mod::lemma_div_is_ordered(
        smaller * rate.digits,
        larger * rate.digits,
        unit,
    );
    vstd::arithmetic::div_mod::lemma_div_pos_is_pos(smaller * rate.digits, unit);
    vstd::arithmetic::div_mod::lemma_div_pos_is_pos(larger * rate.digits, unit);
}

/// Ten to the power of `decimals`, for the decimals that a rate may carry.
pub fn power_of_ten(decimals: u32) -> (power: u128)
    requires
        decimals <= MAX_RATE_DECIMALS,
    ensures
        power == scale(decimals as nat),
        0 < power <= ONE_NEAR,
{
    let mut power: u128 = 1;
    let mut i: u32 = 0;
    while i < decimals
        invariant
            i <= decimals <= MAX_RATE_DECIMALS,
            power == scale(i as nat),
        decreases decimals - i,
    {
        proof {
            lemma_scale_grows((i + 1) as nat, MAX_RATE_DECIMALS as nat);
            lemma_scale_of_token();
        }
        power = power * 10;
        i += 1;
    }
    proof {
        lemma_scale_grows(decimals as nat, MAX_RATE_DECIMALS as nat);
        lemma_scale_of_token();
    }
    power
}

/// The decimals up to which a product is cut down in one step.
pub const HALF_DECIMALS: u32 = 12;

/// Powers of ten multiply as their exponents add.
pub proof fn lemma_scale_adds(first: nat, second: nat)
    ensures
        scale(first + second) == scale(first) * scale(second),
    decreases second,
{
    if second == 0 {
        assert(scale(first) * 1 == scale(first)) by (nonlinear_arith);
    } else {
        let less = (second - 1) as nat;
        lemma_scale_adds(first, less);
        assert(scale(first + second) == 10 * scale(first + less));
        assert(scale(second) == 10 * scale(less));
        assert(10 * (scale(first) * scale(less)) == scale(first) * (10 * scale(less)))
            by (nonlinear_arith);
    }
}

/// Ten to the power of twelve.
pub proof fn lemma_scale_of_half()
    ensures
        scale(HALF_DECIMALS as nat) == 1_000_000_000_000,
{
    reveal_with_fuel(scale, 13);
}

/// A number that holds `whole` units and a rest holds, rounded down,
/// `whole` units more than its rest does.
pub proof fn lemma_whole_units(whole: int, rest: int, unit: int)
    requires
        0 < unit,
        0 <= rest,
    ensures
        (whole * unit + rest) / unit == whole + rest / unit,
{
    vstd::arithmetic::div_mod::lemma_fundamental_div_mod(rest, unit);
    vstd::arithmetic::div_mod::lemma_mod_bound(rest, unit);
    let quotient = whole + rest / unit;
    assert(whole * unit + rest == quotient * unit + rest % unit) by (nonlinear_arith)
        requires
            rest == unit * (rest / unit) + rest % unit,
            quotient == whole + rest / unit,
    ;
    vstd::arithmetic::div_mod::lemma_fundamental_div_mod_converse_div(
        whole * unit + rest,
        unit,
        quotient,
        rest % unit,
    );
}

/// The product of two numbers over a power of ten, rounded down: `a * b /
/// 10^decimals`. The product itself may be wider than the machine; the
/// result is given wherever it fits.
pub fn scaled_product(a: u128, b: u128, decimals: u32) -> (res: Option<u128>)
    requires
        decimals <= MAX_RATE_DECIMALS,
    ensures
        res == (if (a * b) / (scale(decimals as nat) as int) <= u128::MAX {
            Some(((a * b) / (scale(decimals as nat) as int)) as u128)
        } else {
            None
        }),
{
    let low_decimals: u32 = if decimals > HALF_DECIMALS {
        HALF_DECIMALS
    } else {
        decimals
    };
    // the unit, which the product is divided by, as a product of two smaller ones
    let unit = power_of_ten(decimals);
    let half = power_of_ten(low_decimals);
    let other = power_of_ten(decimals - low_decimals);
    proof {
        lemma_scale_adds(low_decimals as nat, (decimals - low_decimals) as nat);
        lemma_scale_of_half();
        lemma_scale_of_token();
        lemma_scale_grows(low_decimals as nat, HALF_DECIMALS as nat);
        lemma_scale_grows((decimals - low_decimals) as nat, HALF_DECIMALS as nat);
    }
    assert(unit == half * other);
    // a = q * unit + r and b = p * unit + t
    let q = a / unit;
    let r = a % unit;
    let p = b / unit;
    let t = b % unit;
    // r = r1 * half + r0
    let r1 = r / half;
    let r0 = r % half;
    proof {
        vstd::arithmetic::div_mod::lemma_fundamental_div_mod(a as int, unit as int);
        vstd::arithmetic::div_mod::lemma_fundamental_div_mod(b as int, unit as int);
        vstd::arithmetic::div_mod::lemma_fundamental_div_mod(r as int, half as int);
        assert(r1 < other) by (nonlinear_arith)
            requires
                r == half * r1 + r0,
                r < half * other,
                0 <= r0,
                0 < half,
        ;
        assert(r1 * t <= 1_000_000_000_000 * 1_000_000_000_000_000_000_000_000) by (nonlinear_arith)
            requires
                r1 <= 1_000_000_000_000,
                t <= 1_000_000_000_000_000_000_000_000,
        ;
        assert(r0 * t <= 1_000_000_000_000 * 1_000_000_000_000_000_000_000_000) by (nonlinear_arith)
            requires
                r0 <= 1_000_000_000_000,
                t <= 1_000_000_000_000_000_000_000_000,
        ;
        assert(r * p <= b) by (nonlinear_arith)
            requires
                b == unit * p + t,
                0 <= r < unit,
                0 <= t,
                0 <= p,
        ;
    }
    // what r * t holds of the half unit, then of the whole unit
    let inner = r1 * t + (r0 * t) / half;
    let rest = inner / other;
    proof {
        let rt = r as int * t as int;
        let rb = r as int * b as int;
        let ab = a as int * b as int;
        assert(rt == (r1 * t) * half + r0 * t) by (nonlinear_arith)
            requires
                rt == r * t,
                r == half * r1 + r0,
        ;
        assert(0 <= r0 * t) by (nonlinear_arith)
            requires
                0 <= r0,
                0 <= t,
        ;
        lemma_whole_units(r1 as int * t as int, r0 as int * t as int, half as int);
        assert(inner == rt / (half as int));
        assert(0 <= rt) by (nonlinear_arith)
            requires
                rt == r * t,
                0 <= r,
                0 <= t,
        ;
        vstd::arithmetic::div_mod::lemma_div_denominator(rt, half as int, other as int);
        assert(rest == rt / (unit as int));
        assert(rb == (r * p) * unit + rt) by (nonlinear_arith)
            requires
                rb == r * b,
                rt == r * t,
                b == unit * p + t,
        ;
        lemma_whole_units(r as int * p as int, rt, unit as int);
        assert(r * p + rest == rb / (unit as int));
        assert(rb <= unit * b) by (nonlinear_arith)
            requires
                rb == r * b,
                0 <= r < unit,
                0 <= b,
        ;
        assert(0 <= rb) by (nonlinear_arith)
            requires
                rb == r * b,
                0 <= r,
                0 <= b,
        ;
        vstd::arithmetic::div_mod::lemma_div_is_ordered(rb, unit as int * b as int, unit as int);
        vstd::arithmetic::div_mod::lemma_div_multiples_vanish(b as int, unit as int);
        assert(rb / (unit as int) <= b);
        assert(ab == (q * b) * unit + rb) by (nonlinear_arith)
            requires
                ab == a * b,
                rb == r * b,
                a == unit * q + r,
        ;
        lemma_whole_units(q as int * b as int, rb, unit as int);
        assert(ab / (unit as int) == q * b + (r * p + rest));
    }
    let low = r * p + rest;
    match q.checked_mul(b) {
        None => None,
        Some(high) => high.checked_add(low),
    }
}

/// Converts an amount of dollars to a balance of the token at the given
/// rate, rounding down. An amount that is not `convertible` yields nothing.
pub fn usd_to_balance(amount: USD, rate: &ExchangeRate) -> (balance: Option<Balance>)
    ensures
        balance == (if convertible(amount, *rate) {
            Some(converted(amount, *rate) as u128)
        } else {
            None
        }),
{
    if rate.decimals > MAX_RATE_DECIMALS {
        return None;
    }
    proof {
        lemma_scale_grows(0, rate.decimals as nat);
        assert(0 <= amount * rate.digits) by (nonlinear_arith)
            requires
                0 <= amount,
                0 <= rate.digits,
        ;
        vstd::arithmetic::div_mod::lemma_div_pos_is_pos(
            amount * rate.digits,
            scale(rate.decimals as nat) as int,
        );
    }
    scaled_product(amount, rate.digits, rate.decimals)
}

/// The balances that a list of payments comes to at a rate, each for the
/// same account and in the same order.
pub open spec fn converted_transfers(transfers: Seq<(AccountId, USD)>, rate: ExchangeRate) -> Seq<
    (Seq<char>, nat),
> {
    Seq::new(transfers.len(), |i: int| (transfers[i].0@, converted(transfers[i].1, rate)))
}

/// A list of payments in the token, each account reduced to its name.
pub open spec fn balances_view(payments: Seq<(AccountId, Balance)>) -> Seq<(Seq<char>, nat)> {
    Seq::new(payments.len(), |i: int| (payments[i].0@, payments[i].1 as nat))
}

/// Converts every payment of a list at one rate. The list comes out whole
/// or, where one of its amounts is not `convertible`, not at all.
pub fn convert_transfers(transfers: &Vec<(AccountId, USD)>, rate: &ExchangeRate) -> (payments:
    Option<Vec<(AccountId, Balance)>>)
    ensures
        match payments {
            Some(list) => {
                &&& forall|i: int|
                    0 <= i < transfers@.len() ==> convertible((#[trigger] transfers@[i]).1, *rate)
                &&& balances_view(list@) == converted_transfers(transfers@, *rate)
            },
            None => exists|i: int|
                0 <= i < transfers@.len() && !convertible((#[trigger] transfers@[i]).1, *rate),
        },
{
    let mut list: Vec<(AccountId, Balance)> = Vec::new();
    let mut i: usize = 0;
    while i < transfers.len()
        invariant
            i <= transfers@.len(),
            list@.len() == i,
            forall|j: int| 0 <= j < i ==> convertible((#[trigger] transfers@[j]).1, *rate),
            forall|j: int|
                0 <= j < i ==> (#[trigger] list@[j]).0@ == transfers@[j].0@ && list@[j].1
                    == converted(transfers@[j].1, *rate),
        decreases transfers@.len() - i,
    {
        match usd_to_balance(transfers[i].1, rate) {
            None => {
                return None;
            },
            Some(balance) => {
                list.push((transfers[i].0.clone(), balance));
            },
        }
        i += 1;
    }
    Some(list)
}

/// What is paid once the oracle has been asked: the balances that the list
/// comes to at the rate it answered, and nothing at all where it gave no
/// answer or where an amount of the list is not `convertible`.
pub open spec fn settlement(transfers: Seq<(AccountId, USD)>, rate: Option<ExchangeRate>) -> Seq<
    (Seq<char>, nat),
> {
    match rate {
        Some(rate) => {
            if forall|i: int|
                0 <= i < transfers.len() ==> convertible((#[trigger] transfers[i]).1, rate) {
                converted_transfers(transfers, rate)
            } else {
                Seq::empty()
            }
        },
        None => Seq::empty(),
    }
}

/// The payments to make for a list that fell due, given the answer of the
/// oracle, if it gave one. A list that cannot be paid as a whole is dropped.
pub fn settle(transfers: &Vec<(AccountId, USD)>, rate: Option<ExchangeRate>) -> (payments: Vec<
    (AccountId, Balance),
>)
    ensures
        balances_view(payments@) == settlement(transfers@, rate),
{
    let converted = match rate {
        Some(rate) => convert_transfers(transfers, &rate),
        None => None,
    };
    match converted {
        Some(payments) => payments,
        None => {
            let payments: Vec<(AccountId, Balance)> = Vec::new();
            payments
        },
    }
}

} // verus!
