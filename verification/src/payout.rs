use vstd::prelude::*;

use crate::arith::sat_sub_nat;
use crate::beneficiaries::share_sum;
use crate::constants::TOTAL_BPS;
use crate::state::Beneficiary;

verus! {

/// The proportional part of `distributable` for `bps` basis points: computed
/// exactly, divided by 10,000 rounding down, and kept as a `u64`.
pub open spec fn share_amount(distributable: u64, bps: u16) -> u64 {
    ((distributable as int * bps as int) / 10_000) as u64
}

/// Running total, saturating at `u64::MAX`, of the proportional parts of the
/// first `k` beneficiaries.
pub open spec fn paid_before(distributable: u64, bs: Seq<Beneficiary>, k: int) -> int
    decreases k,
{
    if k <= 0 {
        0
    } else {
        let p = paid_before(distributable, bs, k - 1) + share_amount(distributable, bs[k - 1].share_bps);
        if p > u64::MAX { u64::MAX as int } else { p }
    }
}

/// What beneficiary `i` receives: its proportional part, except the last one,
/// who receives whatever the others left (the rounding dust included).
pub open spec fn payout_at(distributable: u64, bs: Seq<Beneficiary>, i: int) -> u64 {
    if i == bs.len() - 1 {
        sat_sub_nat(distributable as int, paid_before(distributable, bs, i)) as u64
    } else {
        share_amount(distributable, bs[i].share_bps)
    }
}

/// The amounts paid out, one per beneficiary, in the stored order.
pub open spec fn payouts(distributable: u64, bs: Seq<Beneficiary>) -> Seq<u64> {
    Seq::new(bs.len(), |i: int| payout_at(distributable, bs, i))
}

/// Sum of a sequence of amounts.
pub open spec fn total(amounts: Seq<u64>) -> int
    decreases amounts.len(),
{
    if amounts.len() == 0 {
        0
    } else {
        total(amounts.drop_last()) + amounts.last()
    }
}

/// Splits `distributable` among the beneficiaries in order: each receives its
/// share in basis points rounded down, and the last one absorbs the rest.
pub fn compute_payouts(distributable: u64, beneficiaries: &Vec<Beneficiary>) -> (amounts: Vec<u64>)
    ensures
        amounts@ == payouts(distributable, beneficiaries@),
{
    let num = beneficiaries.len();
    let mut amounts: Vec<u64> = Vec::with_capacity(num);
    let mut distributed: u64 = 0;
    let mut i: usize = 0;
    while i < num
        invariant
            num == beneficiaries.len(),
            i <= num,
            amounts@.len() == i,
            forall|k: int| 0 <= k < i ==> amounts@[k] == payout_at(distributable, beneficiaries@, k),
            i < num ==> distributed == paid_before(distributable, beneficiaries@, i as int),
        decreases num - i,
    {
        let bps = beneficiaries[i].share_bps;
        let amount: u64 = if i == num - 1 {
            distributable.saturating_sub(distributed)
        } else {
            assert((distributable as u128) * (bps as u128) <= u64::MAX as u128 * 0xffffu128)
                by (nonlinear_arith);
            ((distributable as u128) * (bps as u128) / 10_000u128) as u64
        };
        amounts.push(amount);
        distributed = distributed.saturating_add(amount);
        i = i + 1;
    }
    assert(amounts@ =~= payouts(distributable, beneficiaries@));
    amounts
}

proof fn lemma_floor_add(x: int, y: int)
    requires
        x >= 0,
        y >= 0,
    ensures
        x / 10_000 + y / 10_000 <= (x + y) / 10_000,
{
    assert(x / 10_000 + y / 10_000 <= (x + y) / 10_000) by (nonlinear_arith)
        requires
            x >= 0,
            y >= 0,
    ;
}

proof fn lemma_part_le_whole(d: int, s: int)
    requires
        d >= 0,
        0 <= s <= 10_000,
    ensures
        0 <= (d * s) / 10_000 <= d,
{
    assert(0 <= (d * s) / 10_000 <= d) by (nonlinear_arith)
        requires
            d >= 0,
            0 <= s <= 10_000,
    ;
}

proof fn lemma_share_sum_nonneg(bs: Seq<Beneficiary>)
    ensures
        share_sum(bs) >= 0,
    decreases bs.len(),
{
    if bs.len() > 0 {
        lemma_share_sum_nonneg(bs.drop_last());
    }
}

/// A prefix never holds more shares than the whole list.
proof fn lemma_prefix_share_le(bs: Seq<Beneficiary>, j: int)
    requires
        0 <= j <= bs.len(),
    ensures
        share_sum(bs.take(j)) <= share_sum(bs),
    decreases bs.len(),
{
    if j < bs.len() {
        assert(bs.take(j) =~= bs.drop_last().take(j));
        lemma_prefix_share_le(bs.drop_last(), j);
    } else {
        assert(bs.take(j) =~= bs);
    }
}

/// Up to the last beneficiary, the running total is the plain sum of the
/// rounded-down parts and never exceeds the proportional part of the prefix.
proof fn lemma_prefix_paid(d: u64, bs: Seq<Beneficiary>, k: int)
    requires
        1 <= bs.len(),
        share_sum(bs) == TOTAL_BPS,
        0 <= k <= bs.len() - 1,
    ensures
        0 <= share_sum(bs.take(k)) <= 10_000,
        0 <= paid_before(d, bs, k),
        paid_before(d, bs, k) <= (d as int * share_sum(bs.take(k))) / 10_000,
        paid_before(d, bs, k) == total(payouts(d, bs).take(k)),
    decreases k,
{
    let s = payouts(d, bs);
    lemma_prefix_share_le(bs, k);
    lemma_share_sum_nonneg(bs.take(k));
    if k == 0 {
        assert(s.take(0) =~= Seq::<u64>::empty());
        assert((d as int * 0) / 10_000 == 0) by (nonlinear_arith);
    } else {
        lemma_prefix_paid(d, bs, k - 1);
        let sk = share_sum(bs.take(k - 1));
        let b = bs[k - 1].share_bps as int;
        assert(bs.take(k).drop_last() =~= bs.take(k - 1));
        assert(share_sum(bs.take(k)) == sk + b);
        lemma_part_le_whole(d as int, b);
        assert(share_amount(d, bs[k - 1].share_bps) == (d as int * b) / 10_000);
        lemma_floor_add(d as int * sk, d as int * b);
        assert(d as int * sk + d as int * b == d as int * (sk + b)) by (nonlinear_arith);
        lemma_part_le_whole(d as int, sk + b);
        assert(s.take(k).drop_last() =~= s.take(k - 1));
        assert(s[k - 1] == payout_at(d, bs, k - 1));
    }
}

/// The payout conserves the distributable amount: when the shares sum to
/// 10,000 basis points, the amounts paid out add up to exactly
/// `distributable`; every beneficiary but the last receives its share rounded
/// down, and the last one receives at least its share rounded down.
pub proof fn lemma_payouts_conserve(distributable: u64, bs: Seq<Beneficiary>)
    requires
        1 <= bs.len(),
        share_sum(bs) == TOTAL_BPS,
    ensures
        payouts(distributable, bs).len() == bs.len(),
        total(payouts(distributable, bs)) == distributable,
        forall|i: int|
            0 <= i < bs.len() - 1 ==> #[trigger] payouts(distributable, bs)[i] == (distributable as int
                * bs[i].share_bps as int) / 10_000,
        payouts(distributable, bs)[bs.len() - 1] >= (distributable as int * bs[bs.len()
            - 1].share_bps as int) / 10_000,
{
    let d = distributable;
    let n = bs.len() as int;
    let s = payouts(d, bs);
    lemma_prefix_paid(d, bs, n - 1);
    let sk = share_sum(bs.take(n - 1));
    let b = bs[n - 1].share_bps as int;
    assert(bs.take(n) =~= bs);
    assert(bs.take(n).drop_last() =~= bs.take(n - 1));
    assert(sk + b == 10_000);
    lemma_part_le_whole(d as int, sk);
    assert(s.drop_last() =~= s.take(n - 1));
    assert forall|i: int| 0 <= i < n - 1 implies #[trigger] s[i] == (d as int * bs[i].share_bps as int)
        / 10_000 by {
        lemma_prefix_share_le(bs.take(i + 1), i + 1);
        assert(bs.take(i + 1).drop_last() =~= bs.take(i));
        lemma_prefix_share_le(bs.take(n - 1), i + 1);
        assert(bs.take(n - 1).take(i + 1) =~= bs.take(i + 1));
        lemma_share_sum_nonneg(bs.take(i));
        lemma_part_le_whole(d as int, bs[i].share_bps as int);
    }
    // The last amount is what the others left, which is at least its own part.
    lemma_floor_add(d as int * sk, d as int * b);
    assert(d as int * sk + d as int * b == d as int * 10_000) by (nonlinear_arith)
        requires
            sk + b == 10_000,
    ;
    assert((d as int * 10_000) / 10_000 == d) by (nonlinear_arith);
    assert(s[n - 1] == d - paid_before(d, bs, n - 1));
}

} // verus!
