//! The order ledger: an append-only, id-indexed collection of orders.

use vstd::prelude::*;

use crate::AccountId;
use crate::Balance;
use crate::pagination::paged;

verus! {

/// A buyer's reservation of part of a listing's balance.
///
/// The status is a small integer: 0 open, 1 pending verification,
/// 2 finalised, 3 cancelled, 4 disputed. This core only moves an order to
/// pending verification; the other transitions belong to out-of-scope
/// settlement collaborators that overwrite the record in the ledger.
#[derive(Debug)]
pub struct Order {
    /// Assigned as the ledger length at creation; never reused.
    pub id: u64,
    /// The account that placed the order, fixed at creation.
    pub buyer: AccountId,
    /// The listing's vendor, copied at creation.
    pub vendor: AccountId,
    /// The reserved portion of the listing's balance, fixed at creation.
    pub amount: Balance,
    /// Buyer-supplied payment evidence, replaceable while the order is
    /// open to updates.
    pub payment_verification: Option<String>,
    /// The lifecycle state, see above.
    pub status: u8,
}

impl Clone for Order {
    /// A deep copy: every field of the copy equals the source's.
    fn clone(&self) -> (res: Self)
        ensures
            res == *self,
    {
        let payment_verification = self.payment_verification.clone();
        assert(payment_verification == self.payment_verification);
        Order {
            id: self.id,
            buyer: self.buyer,
            vendor: self.vendor,
            amount: self.amount,
            payment_verification,
            status: self.status,
        }
    }
}

/// The append-only order ledger. Record `id` lives at position `id`; the
/// ledger's length is the next id to assign.
#[derive(Debug)]
pub struct Orders {
    /// The records, ordered by id.
    pub values: Vec<Order>,
}

impl View for Orders {
    type V = Seq<Order>;

    open spec fn view(&self) -> Seq<Order> {
        self.values@
    }
}

impl Orders {
    /// An empty ledger, the state at construction.
    pub fn new() -> (r: Orders)
        ensures
            r@ == Seq::<Order>::empty(),
    {
        Orders { values: Vec::new() }
    }

    /// Appends a record at the next id, which is the current length. The
    /// caller pre-checks that the length has not reached the id type's
    /// maximum; a full ledger is a capacity error signaled before this call.
    pub fn create(&mut self, value: &Order)
        requires
            old(self)@.len() < u64::MAX,
        ensures
            final(self)@ == old(self)@.push(*value),
    {
        self.values.push(value.clone());
    }

    /// Overwrites the record at `value.id`, which must already exist; the
    /// length does not change.
    pub fn update(&mut self, value: &Order)
        requires
            value.id < old(self)@.len(),
        ensures
            final(self)@ == old(self)@.update(value.id as int, *value),
    {
        let n: usize = self.values.len();
        assert(value.id < n);
        self.values.set(value.id as usize, value.clone());
    }

    /// The reverse-paginated range query: records of the page's window,
    /// newest first, and nothing when `page * size` overflows the id type
    /// or skips past the whole ledger.
    pub fn index(&self, page: u64, size: u8) -> (r: Vec<Order>)
        ensures
            r@ == paged(self@, page as int, size as int, u64::MAX as int),
    {
        let mut records: Vec<Order> = Vec::new();
        if self.values.len() == 0 {
            assert(records@ =~= paged(self@, page as int, size as int, u64::MAX as int));
            return records;
        }
        let skip: u64 = match page.checked_mul(size as u64) {
            Some(s) => s,
            None => {
                assert(records@ =~= paged(self@, page as int, size as int, u64::MAX as int));
                return records;
            },
        };
        if skip >= self.values.len() as u64 {
            assert(records@ =~= paged(self@, page as int, size as int, u64::MAX as int));
            return records;
        }
        let end: usize = self.values.len() - 1 - skip as usize;
        let start: usize = if end > size as usize {
            end - size as usize
        } else {
            0
        };
        let count: usize = end - start + 1;
        let mut k: usize = 0;
        while k < count
            invariant
                k <= count,
                start <= end < self.values@.len(),
                count == end - start + 1,
                records@.len() == k,
                forall|j: int| 0 <= j < k ==> records@[j] == self.values@[end - j],
            decreases count - k,
        {
            records.push(self.values[end - k].clone());
            k = k + 1;
        }
        assert(records@ =~= paged(self@, page as int, size as int, u64::MAX as int));
        records
    }
}

} // verus!
