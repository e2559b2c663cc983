//! Reading the market's sales.
use vstd::prelude::*;
use crate::account::{first_segment, split_first};
use crate::market::Market;
use crate::ordered_map::lookup;
use crate::sale::{Sale, SaleView};

verus! {

/// The sales of a vector, by their views.
pub open spec fn sale_views(v: Seq<Sale>) -> Seq<SaleView> {
    v.map_values(|s: Sale| s@)
}

/// The sales stored in `s`, in order.
pub open spec fn sale_values(s: Seq<(Seq<char>, SaleView)>) -> Seq<SaleView> {
    s.map_values(|e: (Seq<char>, SaleView)| e.1)
}

/// The sales stored in `s`, in order, whose key names contract `c` before its
/// first delimiter.
pub open spec fn sales_of_contract(s: Seq<(Seq<char>, SaleView)>, c: Seq<char>) -> Seq<SaleView>
    decreases s.len(),
{
    if s.len() == 0 {
        Seq::empty()
    } else {
        let rest = sales_of_contract(s.drop_last(), c);
        if first_segment(s.last().0) == c {
            rest.push(s.last().1)
        } else {
            rest
        }
    }
}

impl Market {
    /// The number of sales.
    pub fn get_supply_sales(&self) -> (r: u64)
        ensures
            r == self.sales@.len(),
    {
        self.sales.len() as u64
    }

    /// All sales, in storage order.
    pub fn get_all_sales(&self) -> (r: Vec<Sale>)
        ensures
            sale_views(r@) == sale_values(self.sales@),
    {
        let mut r: Vec<Sale> = Vec::new();
        let n = self.sales.len();
        let mut i: usize = 0;
        while i < n
            invariant
                n == self.sales@.len(),
                i <= n,
                r@.len() == i,
                forall|j: int| 0 <= j < i ==> (#[trigger] r@[j])@ == self.sales@[j].1,
            decreases n - i,
        {
            let (_, s) = self.sales.entry(i);
            r.push(s.clone());
            i = i + 1;
        }
        assert(sale_views(r@) =~= sale_values(self.sales@));
        r
    }

    /// The sales of tokens of `nft_contract`, in storage order.
    pub fn get_sales_by_contract(&self, nft_contract: String) -> (r: Vec<Sale>)
        ensures
            sale_views(r@) == sales_of_contract(self.sales@, nft_contract@),
    {
        let mut r: Vec<Sale> = Vec::new();
        let n = self.sales.len();
        let mut i: usize = 0;
        while i < n
            invariant
                n == self.sales@.len(),
                i <= n,
                sale_views(r@) == sales_of_contract(self.sales@.take(i as int), nft_contract@),
            decreases n - i,
        {
            let (k, s) = self.sales.entry(i);
            let ghost before = r@;
            if split_first(k) == nft_contract {
                r.push(s.clone());
                assert(sale_views(r@) =~= sale_views(before).push(s@));
            }
            assert(self.sales@.take(i + 1).drop_last() =~= self.sales@.take(i as int));
            i = i + 1;
        }
        assert(self.sales@.take(n as int) =~= self.sales@);
        r
    }

    /// The sale stored under `contract_and_token`, if any.
    pub fn get_sale(&self, contract_and_token: String) -> (r: Option<Sale>)
        requires
            self.wf(),
        ensures
            match r {
                Some(s) => lookup(self.sales@, contract_and_token@) == Some(s@),
                None => lookup(self.sales@, contract_and_token@) == None::<SaleView>,
            },
    {
        match self.sales.get(&contract_and_token) {
            Some(s) => Some(s.clone()),
            None => None,
        }
    }
}

} // verus!
