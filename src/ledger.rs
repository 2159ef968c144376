//! The accumulator record: which asset a ledger slot tracks and how much of
//! it the next sale may take.
use crate::address::Address;
use vstd::prelude::*;

verus! {

/// Share of a deposit that becomes eligible for sale: one hundredth.
pub const QUOTA_DIVISOR: u64 = 100;

/// A ledger slot: the asset on record and its sale quota (`piece`).
#[derive(Clone, Copy, Debug)]
pub struct DCAData {
    pub token_address: Address,
    pub piece: u64,
}

impl View for DCAData {
    type V = (Seq<u8>, nat);

    open spec fn view(&self) -> (Seq<u8>, nat) {
        (self.token_address@, self.piece as nat)
    }
}

/// What a deposit contributes to the quota.
pub open spec fn contribution(amount: u64) -> nat {
    (amount / 100) as nat
}

/// The slot after a deposit of `amount` of `asset`: the quota grows where the
/// asset is the one on record, and restarts from the deposit otherwise.
pub open spec fn after_deposit(d: (Seq<u8>, nat), asset: Seq<u8>, amount: u64) -> (Seq<u8>, nat) {
    if d.0 == asset {
        (asset, d.1 + contribution(amount))
    } else {
        (asset, contribution(amount))
    }
}

/// The slot after deposits of `amounts` of `asset`, in order.
pub open spec fn after_deposits(d: (Seq<u8>, nat), asset: Seq<u8>, amounts: Seq<u64>) -> (Seq<u8>, nat)
    decreases amounts.len(),
{
    if amounts.len() == 0 {
        d
    } else {
        after_deposit(after_deposits(d, asset, amounts.drop_last()), asset, amounts.last())
    }
}

/// The sum of the contributions of `amounts`, each truncated on its own.
pub open spec fn sum_contributions(amounts: Seq<u64>) -> nat
    decreases amounts.len(),
{
    if amounts.len() == 0 {
        0
    } else {
        sum_contributions(amounts.drop_last()) + contribution(amounts.last())
    }
}

/// The quota that a sale of `asset` may take from slot `d`.
pub open spec fn quota_of(d: (Seq<u8>, nat), asset: Seq<u8>) -> nat {
    if d.0 == asset {
        d.1
    } else {
        0
    }
}

impl DCAData {
    /// A slot that no deposit has touched: all-zero address, no quota.
    pub fn new() -> (r: DCAData)
        ensures
            r@ == (Seq::new(32, |i: int| 0u8), 0nat),
    {
        let r = DCAData { token_address: Address::new([0u8; 32]), piece: 0 };
        assert(r.token_address@ =~= Seq::new(32, |i: int| 0u8));
        r
    }

    /// Records a deposit of `amount` of `asset`.
    pub fn record_deposit(&mut self, asset: &Address, amount: u64)
        requires
            old(self).token_address@ == asset@ ==> old(self).piece + amount / 100 <= u64::MAX,
        ensures
            final(self)@ == after_deposit(old(self)@, asset@, amount),
    {
        if self.token_address.same_as(asset) {
            self.piece = self.piece + amount / QUOTA_DIVISOR;
        } else {
            self.token_address = *asset;
            self.piece = amount / QUOTA_DIVISOR;
        }
    }

    /// Records deposits of `amounts` of `asset`, one after another.
    pub fn record_deposits(&mut self, asset: &Address, amounts: &Vec<u64>)
        requires
            old(self).token_address@ == asset@ ==> old(self).piece + sum_contributions(amounts@) <= u64::MAX,
            old(self).token_address@ != asset@ ==> sum_contributions(amounts@) <= u64::MAX,
        ensures
            final(self)@ == after_deposits(old(self)@, asset@, amounts@),
    {
        let ghost start = self@;
        let mut i: usize = 0;
        while i < amounts.len()
            invariant
                0 <= i <= amounts@.len(),
                start.0 == asset@ ==> start.1 + sum_contributions(amounts@) <= u64::MAX,
                start.0 != asset@ ==> sum_contributions(amounts@) <= u64::MAX,
                self@ == after_deposits(start, asset@, amounts@.take(i as int)),
            decreases amounts@.len() - i,
        {
            proof {
                let next = amounts@.take(i as int + 1);
                assert(next.drop_last() =~= amounts@.take(i as int));
                lemma_prefix_sum_bounded(amounts@, i as int + 1);
                lemma_deposits_accumulate(start, asset@, amounts@.take(i as int));
                lemma_deposits_accumulate(start, asset@, next);
            }
            self.record_deposit(asset, amounts[i]);
            i = i + 1;
        }
        assert(amounts@.take(amounts@.len() as int) =~= amounts@);
    }

    /// The quota on record for `asset`; zero where another asset is on record.
    pub fn read_quota(&self, asset: &Address) -> (r: u64)
        ensures
            r == quota_of(self@, asset@),
    {
        if self.token_address.same_as(asset) {
            self.piece
        } else {
            0
        }
    }
}

/// After deposits of one asset, the quota is the sum of the deposits'
/// hundredths, each truncated on its own: counted from the quota on record
/// where the asset was already on record, and from zero otherwise.
pub proof fn lemma_deposits_accumulate(d: (Seq<u8>, nat), asset: Seq<u8>, amounts: Seq<u64>)
    ensures
        amounts.len() > 0 ==> after_deposits(d, asset, amounts).0 == asset,
        d.0 == asset ==> after_deposits(d, asset, amounts).1 == d.1 + sum_contributions(amounts),
        d.0 != asset && amounts.len() > 0 ==> after_deposits(d, asset, amounts).1 == sum_contributions(amounts),
    decreases amounts.len(),
{
    if amounts.len() > 0 {
        lemma_deposits_accumulate(d, asset, amounts.drop_last());
        if amounts.len() == 1 {
            assert(sum_contributions(amounts.drop_last()) == 0);
            assert(after_deposits(d, asset, amounts.drop_last()) == d);
        }
    }
}

/// The contributions of a prefix sum to no more than those of the whole.
pub proof fn lemma_prefix_sum_bounded(amounts: Seq<u64>, n: int)
    requires
        0 <= n <= amounts.len(),
    ensures
        sum_contributions(amounts.take(n)) <= sum_contributions(amounts),
    decreases amounts.len(),
{
    if n < amounts.len() {
        lemma_prefix_sum_bounded(amounts.drop_last(), n);
        assert(amounts.drop_last().take(n) =~= amounts.take(n));
    } else {
        assert(amounts.take(n) =~= amounts);
    }
}

/// A deposit of less than one hundred units adds nothing to the quota.
pub proof fn lemma_small_deposit_adds_nothing(d: (Seq<u8>, nat), asset: Seq<u8>, amount: u64)
    requires
        amount < 100,
    ensures
        quota_of(after_deposit(d, asset, amount), asset) == quota_of(d, asset),
        d.0 != asset ==> quota_of(after_deposit(d, asset, amount), asset) == 0,
{
}

} // verus!
