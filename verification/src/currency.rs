//! Conversion between currency balances and vote weights.
//!
//! Votes are `u64` while balances are `u128`: balances are scaled down by a
//! factor that makes the whole issuance fit (about) into a `u64`.

use vstd::prelude::*;

verus! {

/// The factor by which balances are divided to give votes: the total issuance
/// over `u64::MAX`, and at least one.
pub open spec fn vote_factor(total_issuance: u128) -> u128 {
    let f = total_issuance / (u64::MAX as u128);
    if f >= 1 { f } else { 1 }
}

/// A balance as votes: the balance over the factor, truncated to its low 64 bits.
pub open spec fn votes_of(x: u128, total_issuance: u128) -> u64 {
    (x / vote_factor(total_issuance)) as u64
}

/// Votes as a balance: the votes times the factor.
pub open spec fn balance_of(x: u128, total_issuance: u128) -> int {
    x * vote_factor(total_issuance)
}

/// Converter for currencies to votes.
pub struct CurrencyToVoteHandler;

impl CurrencyToVoteHandler {
    /// The scaling factor for the given total issuance.
    pub fn factor(total_issuance: u128) -> (f: u128)
        ensures
            f == vote_factor(total_issuance),
            f >= 1,
            total_issuance >= u64::MAX ==> f * (u64::MAX as int) <= total_issuance < (f + 1) * (u64::MAX as int),
            total_issuance < u64::MAX ==> f == 1,
    {
        proof {
            lemma_vote_factor_is_floor(total_issuance);
        }
        let f = total_issuance / (u64::MAX as u128);
        if f >= 1 { f } else { 1 }
    }

    /// A balance as votes: the balance over the factor, truncated to its low 64 bits.
    pub fn convert_to_vote(x: u128, total_issuance: u128) -> (votes: u64)
        ensures
            votes == votes_of(x, total_issuance),
            x / vote_factor(total_issuance) <= u64::MAX ==> votes * vote_factor(total_issuance) <= x < (votes + 1)
                * vote_factor(total_issuance),
            x / vote_factor(total_issuance) <= u64::MAX ==> votes == x / vote_factor(total_issuance),
    {
        let f = Self::factor(total_issuance);
        proof {
            vstd::arithmetic::div_mod::lemma_fundamental_div_mod(x as int, f as int);
            vstd::arithmetic::div_mod::lemma_mod_bound(x as int, f as int);
            vstd::arithmetic::mul::lemma_mul_is_commutative(f as int, x as int / f as int);
            vstd::arithmetic::mul::lemma_mul_is_distributive_add_other_way(f as int, x as int / f as int, 1);
        }
        (x / f) as u64
    }

    /// Votes as a balance: the votes times the factor.
    pub fn convert_to_currency(x: u128, total_issuance: u128) -> (balance: u128)
        requires
            balance_of(x, total_issuance) <= u128::MAX,
        ensures
            balance == balance_of(x, total_issuance),
    {
        let f = Self::factor(total_issuance);
        x * f
    }
}

/// The factor is the whole number of times that `u64::MAX` goes into the total
/// issuance, and one where it does not go in at all: the largest factor that,
/// times `u64::MAX`, stays within the issuance.
pub proof fn lemma_vote_factor_is_floor(total_issuance: u128)
    ensures
        vote_factor(total_issuance) >= 1,
        total_issuance >= u64::MAX ==> vote_factor(total_issuance) * (u64::MAX as int) <= total_issuance < (
        vote_factor(total_issuance) + 1) * (u64::MAX as int),
        total_issuance < u64::MAX ==> vote_factor(total_issuance) == 1,
{
    let m = u64::MAX as int;
    let q = total_issuance as int / m;
    vstd::arithmetic::div_mod::lemma_fundamental_div_mod(total_issuance as int, m);
    vstd::arithmetic::div_mod::lemma_mod_bound(total_issuance as int, m);
    vstd::arithmetic::mul::lemma_mul_is_commutative(m, q);
    vstd::arithmetic::mul::lemma_mul_is_distributive_add_other_way(m, q, 1);
    if total_issuance >= u64::MAX {
        vstd::arithmetic::div_mod::lemma_div_is_ordered(m, total_issuance as int, m);
        vstd::arithmetic::div_mod::lemma_div_by_self(m);
    } else {
        vstd::arithmetic::div_mod::lemma_basic_div(total_issuance as int, m);
    }
}

/// Converting a balance to votes and back never creates currency, and loses
/// less than one factor's worth of it.
pub proof fn lemma_vote_round_trip(x: u128, total_issuance: u128)
    requires
        x / vote_factor(total_issuance) <= u64::MAX,
    ensures
        balance_of(votes_of(x, total_issuance) as u128, total_issuance) <= x,
        x - balance_of(votes_of(x, total_issuance) as u128, total_issuance) < vote_factor(total_issuance),
{
    let f = vote_factor(total_issuance) as int;
    assert(votes_of(x, total_issuance) as int == x as int / f);
    vstd::arithmetic::div_mod::lemma_fundamental_div_mod(x as int, f);
    vstd::arithmetic::div_mod::lemma_mod_bound(x as int, f);
    vstd::arithmetic::mul::lemma_mul_is_commutative(f, x as int / f);
}

/// Converting votes to a balance and back gives the same votes.
pub proof fn lemma_currency_round_trip(y: u128, total_issuance: u128)
    requires
        y <= u64::MAX,
        balance_of(y, total_issuance) <= u128::MAX,
    ensures
        votes_of(balance_of(y, total_issuance) as u128, total_issuance) == y as u64,
{
    let f = vote_factor(total_issuance) as int;
    vstd::arithmetic::div_mod::lemma_div_by_multiple(y as int, f);
    assert((balance_of(y, total_issuance) as u128) as int == y * f);
}

/// While the issuance fits in a `u64`, balances and votes are the same numbers.
pub proof fn lemma_small_issuance_is_identity(x: u128, total_issuance: u128)
    requires
        total_issuance < u64::MAX,
    ensures
        vote_factor(total_issuance) == 1,
        x <= u64::MAX ==> (x / vote_factor(total_issuance)) as u64 == x,
{
    assert(total_issuance / (u64::MAX as u128) == 0);
    assert(x / 1u128 == x);
}

} // verus!
