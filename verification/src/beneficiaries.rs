use vstd::prelude::*;

use crate::address::Address;
use crate::constants::{MAX_BENEFICIARIES, TOTAL_BPS};
use crate::error::ErrorCode;
use crate::state::Beneficiary;

verus! {

/// Sum of the shares of `bs`, in basis points.
pub open spec fn share_sum(bs: Seq<Beneficiary>) -> int
    decreases bs.len(),
{
    if bs.len() == 0 {
        0
    } else {
        share_sum(bs.drop_last()) + bs.last().share_bps
    }
}

/// No address occurs twice.
pub open spec fn distinct_addresses(bs: Seq<Beneficiary>) -> bool {
    forall|i: int, j: int|
        0 <= i < j < bs.len() ==> #[trigger] bs[i].address != #[trigger] bs[j].address
}

/// No beneficiary is the switch itself (a payout to it would stay locked).
pub open spec fn excludes_address(bs: Seq<Beneficiary>, key: Address) -> bool {
    forall|i: int| 0 <= i < bs.len() ==> #[trigger] bs[i].address != key
}

/// A beneficiary list that a switch may hold.
pub open spec fn valid_beneficiaries(bs: Seq<Beneficiary>, switch_key: Address) -> bool {
    &&& 1 <= bs.len() <= MAX_BENEFICIARIES
    &&& share_sum(bs) == TOTAL_BPS
    &&& distinct_addresses(bs)
    &&& excludes_address(bs, switch_key)
}

/// Entry `i` is neither the switch nor repeated later in the list.
pub open spec fn entry_ok(bs: Seq<Beneficiary>, key: Address, i: int) -> bool {
    &&& bs[i].address != key
    &&& forall|j: int| i < j < bs.len() ==> #[trigger] bs[j].address != bs[i].address
}

/// The address scan from index `i` on, entry by entry: the first entry that is
/// the switch itself, or that recurs further on, decides the error.
pub open spec fn address_scan(bs: Seq<Beneficiary>, key: Address, i: nat) -> Result<(), ErrorCode>
    decreases bs.len() - i,
{
    if i >= bs.len() {
        Ok(())
    } else if bs[i as int].address == key {
        Err(ErrorCode::InvalidBeneficiaries)
    } else if !entry_ok(bs, key, i as int) {
        Err(ErrorCode::DuplicateBeneficiary)
    } else {
        address_scan(bs, key, i + 1)
    }
}

/// The outcome of checking a proposed beneficiary list, in the order the
/// checks are made: emptiness, count, share total, then addresses.
pub open spec fn beneficiaries_check(bs: Seq<Beneficiary>, switch_key: Address) -> Result<(), ErrorCode> {
    if bs.len() == 0 {
        Err(ErrorCode::EmptyBeneficiaries)
    } else if bs.len() > MAX_BENEFICIARIES {
        Err(ErrorCode::TooManyBeneficiaries)
    } else if share_sum(bs) != TOTAL_BPS {
        Err(ErrorCode::InvalidShares)
    } else {
        address_scan(bs, switch_key, 0)
    }
}

proof fn lemma_share_sum_bound(bs: Seq<Beneficiary>)
    ensures
        0 <= share_sum(bs) <= 65535 * bs.len(),
    decreases bs.len(),
{
    if bs.len() > 0 {
        lemma_share_sum_bound(bs.drop_last());
    }
}

/// Sums the shares of a list of at most `MAX_BENEFICIARIES` entries.
fn total_shares(beneficiaries: &Vec<Beneficiary>) -> (r: u32)
    requires
        beneficiaries.len() <= MAX_BENEFICIARIES,
    ensures
        r == share_sum(beneficiaries@),
{
    let mut total: u32 = 0;
    let mut i: usize = 0;
    while i < beneficiaries.len()
        invariant
            i <= beneficiaries.len() <= MAX_BENEFICIARIES,
            total == share_sum(beneficiaries@.take(i as int)),
        decreases beneficiaries.len() - i,
    {
        proof {
            lemma_share_sum_bound(beneficiaries@.take(i as int));
            assert(beneficiaries@.take(i as int + 1).drop_last() =~= beneficiaries@.take(i as int));
        }
        total = total + beneficiaries[i].share_bps as u32;
        i = i + 1;
    }
    assert(beneficiaries@.take(i as int) =~= beneficiaries@);
    total
}

/// Scanning from `s` gives the same result as scanning from `i` when every
/// entry in between is fine.
proof fn lemma_scan_skip(bs: Seq<Beneficiary>, key: Address, s: nat, i: nat)
    requires
        s <= i <= bs.len(),
        forall|k: int| s <= k < i ==> entry_ok(bs, key, k),
    ensures
        address_scan(bs, key, s) == address_scan(bs, key, i),
    decreases i - s,
{
    if s < i {
        assert(entry_ok(bs, key, s as int));
        lemma_scan_skip(bs, key, s + 1, i);
    }
}

/// The scan from `s` succeeds exactly when every entry from `s` on is fine.
proof fn lemma_scan_ok(bs: Seq<Beneficiary>, key: Address, s: nat)
    requires
        s <= bs.len(),
    ensures
        address_scan(bs, key, s) is Ok <==> (forall|k: int| s <= k < bs.len() ==> entry_ok(bs, key, k)),
    decreases bs.len() - s,
{
    if s < bs.len() {
        lemma_scan_ok(bs, key, s + 1);
        if address_scan(bs, key, s) is Ok {
            // The entry at `s` is fine, and so is every later one.
            assert forall|k: int| s <= k < bs.len() implies entry_ok(bs, key, k) by {
                assert(entry_ok(bs, key, s as int));
            }
        }
    }
}

/// The address scan only ever reports an address problem.
pub proof fn lemma_scan_errors(bs: Seq<Beneficiary>, key: Address, s: nat)
    ensures
        address_scan(bs, key, s) matches Err(e) ==> e == ErrorCode::InvalidBeneficiaries || e
            == ErrorCode::DuplicateBeneficiary,
    decreases bs.len() - s,
{
    if s < bs.len() {
        lemma_scan_errors(bs, key, s + 1);
    }
}

/// The address scan accepts exactly the lists that exclude the switch and repeat no address.
pub proof fn lemma_address_scan_sound(bs: Seq<Beneficiary>, key: Address)
    ensures
        address_scan(bs, key, 0) is Ok <==> (excludes_address(bs, key) && distinct_addresses(bs)),
{
    lemma_scan_ok(bs, key, 0);
    if address_scan(bs, key, 0) is Ok {
        assert forall|i: int, j: int| 0 <= i < j < bs.len() implies #[trigger] bs[i].address
            != #[trigger] bs[j].address by {
            assert(entry_ok(bs, key, i));
        }
        assert forall|i: int| 0 <= i < bs.len() implies #[trigger] bs[i].address != key by {
            assert(entry_ok(bs, key, i));
        }
    }
    if excludes_address(bs, key) && distinct_addresses(bs) {
        assert forall|k: int| 0 <= k < bs.len() implies entry_ok(bs, key, k) by {
            assert(bs[k].address != key);
            assert forall|j: int| k < j < bs.len() implies #[trigger] bs[j].address != bs[k].address by {
                assert(bs[k].address != bs[j].address);
            }
        }
    }
}

/// Checks a proposed beneficiary list against the switch's own address.
pub fn validate_beneficiaries(beneficiaries: &Vec<Beneficiary>, switch_key: &Address) -> (r: Result<(), ErrorCode>)
    ensures
        r == beneficiaries_check(beneficiaries@, *switch_key),
        r is Ok <==> valid_beneficiaries(beneficiaries@, *switch_key),
{
    proof {
        lemma_address_scan_sound(beneficiaries@, *switch_key);
    }
    let n = beneficiaries.len();
    if n == 0 {
        return Err(ErrorCode::EmptyBeneficiaries);
    }
    if n > MAX_BENEFICIARIES {
        return Err(ErrorCode::TooManyBeneficiaries);
    }
    let total = total_shares(beneficiaries);
    if total != TOTAL_BPS as u32 {
        return Err(ErrorCode::InvalidShares);
    }
    let ghost bs = beneficiaries@;
    let mut i: usize = 0;
    while i < n
        invariant
            n == bs.len(),
            bs == beneficiaries@,
            i <= n,
            1 <= n <= MAX_BENEFICIARIES,
            share_sum(bs) == TOTAL_BPS,
            forall|k: int| 0 <= k < i ==> entry_ok(bs, *switch_key, k),
        decreases n - i,
    {
        proof {
            lemma_scan_skip(bs, *switch_key, 0, i as nat);
        }
        if beneficiaries[i].address == *switch_key {
            return Err(ErrorCode::InvalidBeneficiaries);
        }
        let mut j: usize = i + 1;
        while j < n
            invariant
                n == bs.len(),
                bs == beneficiaries@,
                i < j <= n,
                1 <= n <= MAX_BENEFICIARIES,
                share_sum(bs) == TOTAL_BPS,
                bs[i as int].address != *switch_key,
                address_scan(bs, *switch_key, 0) == address_scan(bs, *switch_key, i as nat),
                forall|m: int| i < m < j ==> #[trigger] bs[m].address != bs[i as int].address,
            decreases n - j,
        {
            if beneficiaries[i].address == beneficiaries[j].address {
                proof {
                    assert(!entry_ok(bs, *switch_key, i as int));
                }
                return Err(ErrorCode::DuplicateBeneficiary);
            }
            j = j + 1;
        }
        assert(entry_ok(bs, *switch_key, i as int));
        i = i + 1;
    }
    proof {
        lemma_scan_skip(bs, *switch_key, 0, n as nat);
    }
    Ok(())
}

} // verus!
