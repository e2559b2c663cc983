//! Checking, at run time, that a state read back from storage is valid.
use vstd::prelude::*;
use crate::account::contract_and_token_id;
use crate::market::{account_views, near_account, seq_distinct, Market};
use crate::ordered_map::{keys_distinct, OrderedMap};
use crate::park::Contract;
use crate::sale::{sale_entry_ok, Sale};
use crate::stake::nft_views;

verus! {

/// Whether no account id occurs twice in `v`.
pub fn accounts_distinct(v: &Vec<String>) -> (r: bool)
    ensures
        r == seq_distinct(account_views(v@)),
{
    let ghost a = account_views(v@);
    let n = v.len();
    let mut i: usize = 0;
    while i < n
        invariant
            n == v@.len(),
            a == account_views(v@),
            i <= n,
            forall|p: int, q: int| 0 <= p < i && 0 <= q < i && p != q ==> a[p] != a[q],
        decreases n - i,
    {
        let mut j: usize = 0;
        while j < i
            invariant
                n == v@.len(),
                a == account_views(v@),
                i < n,
                j <= i,
                forall|q: int| 0 <= q < j ==> a[q] != a[i as int],
            decreases i - j,
        {
            if v[j] == v[i] {
                assert(a[j as int] == a[i as int]);
                return false;
            }
            j = j + 1;
        }
        i = i + 1;
    }
    true
}

impl<T: View> OrderedMap<T> {
    /// Whether no key occurs twice.
    pub fn keys_are_distinct(&self) -> (r: bool)
        ensures
            r == keys_distinct(self@),
    {
        let ghost s = self@;
        let n = self.len();
        let mut i: usize = 0;
        while i < n
            invariant
                n == s.len(),
                s == self@,
                i <= n,
                forall|p: int, q: int| 0 <= p < i && 0 <= q < i && p != q ==> (#[trigger] s[p]).0 != (#[trigger] s[q]).0,
            decreases n - i,
        {
            let (ki, _) = self.entry(i);
            let mut j: usize = 0;
            while j < i
                invariant
                    n == s.len(),
                    s == self@,
                    i < n,
                    j <= i,
                    ki@ == s[i as int].0,
                    forall|q: int| 0 <= q < j ==> (#[trigger] s[q]).0 != s[i as int].0,
                decreases i - j,
            {
                let (kj, _) = self.entry(j);
                if *kj == *ki {
                    return false;
                }
                j = j + 1;
            }
            i = i + 1;
        }
        true
    }
}

/// Whether a stored sale is consistent with the key it is stored under.
pub fn sale_is_consistent(key: &String, sale: &Sale) -> (r: bool)
    ensures
        r == sale_entry_ok((key@, sale@)),
{
    if !(*key == contract_and_token_id(&sale.nft_contract, &sale.token_id)) {
        return false;
    }
    match &sale.bid {
        None => true,
        Some(b) => {
            sale.ft_contract == near_account() && b.price > 0 && (sale.exp != 0 || b.price < sale.min_price) && (sale.exp
                == 0 || b.price >= sale.min_price)
        },
    }
}

impl Market {
    /// Whether the market is valid (`wf`).
    pub fn is_valid(&self) -> (r: bool)
        ensures
            r == self.wf(),
    {
        if !accounts_distinct(&self.nft_contracts) || !accounts_distinct(&self.ft_contracts) {
            return false;
        }
        if !self.sales.keys_are_distinct() {
            return false;
        }
        let n = self.sales.len();
        let mut i: usize = 0;
        while i < n
            invariant
                n == self.sales@.len(),
                i <= n,
                forall|j: int| 0 <= j < i ==> sale_entry_ok(#[trigger] self.sales@[j]),
            decreases n - i,
        {
            let (k, s) = self.sales.entry(i);
            if !sale_is_consistent(k, s) {
                assert(self.sales@[i as int] == (k@, s@));
                return false;
            }
            assert(self.sales@[i as int] == (k@, s@));
            i = i + 1;
        }
        true
    }
}

impl Contract {
    /// Whether the pool is valid (`wf`).
    pub fn is_valid(&self) -> (r: bool)
        ensures
            r == self.wf(),
    {
        if self.reward_rate > 1000 {
            return false;
        }
        if !self.stakes.keys_are_distinct() {
            return false;
        }
        let ghost a = nft_views(self.nfts@);
        let n = self.nfts.len();
        let mut i: usize = 0;
        while i < n
            invariant
                n == self.nfts@.len(),
                a == nft_views(self.nfts@),
                i <= n,
                forall|p: int, q: int| 0 <= p < i && 0 <= q < i && p != q ==> a[p] != a[q],
            decreases n - i,
        {
            let mut j: usize = 0;
            while j < i
                invariant
                    n == self.nfts@.len(),
                    a == nft_views(self.nfts@),
                    i < n,
                    j <= i,
                    forall|q: int| 0 <= q < j ==> a[q] != a[i as int],
                decreases i - j,
            {
                if self.nfts[j].contract_id == self.nfts[i].contract_id && self.nfts[j].role == self.nfts[i].role {
                    assert(a[j as int] == a[i as int]);
                    return false;
                }
                j = j + 1;
            }
            i = i + 1;
        }
        let ghost s = self.stakes@;
        let m = self.stakes.len();
        let mut i: usize = 0;
        while i < m
            invariant
                m == s.len(),
                s == self.stakes@,
                i <= m,
                forall|p: int, q: int|
                    0 <= p < i && 0 <= q < i && p != q && (#[trigger] s[p]).1.proposal is Some
                        && (#[trigger] s[q]).1.proposal is Some ==> s[p].1.proposal.unwrap().name
                        != s[q].1.proposal.unwrap().name,
            decreases m - i,
        {
            let (_, si) = self.stakes.entry(i);
            if let Some(pi) = &si.proposal {
                let mut j: usize = 0;
                while j < i
                    invariant
                        m == s.len(),
                        s == self.stakes@,
                        i < m,
                        j <= i,
                        s[i as int].1.proposal == Some(pi@),
                        forall|q: int|
                            0 <= q < j && (#[trigger] s[q]).1.proposal is Some ==> s[q].1.proposal.unwrap().name != pi@.name,
                    decreases i - j,
                {
                    let (_, sj) = self.stakes.entry(j);
                    if let Some(pj) = &sj.proposal {
                        if pj.name == pi.name {
                            assert(s[j as int].1.proposal.unwrap().name == s[i as int].1.proposal.unwrap().name);
                            return false;
                        }
                    }
                    j = j + 1;
                }
            }
            i = i + 1;
        }
        true
    }
}

} // verus!
