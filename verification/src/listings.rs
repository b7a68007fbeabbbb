//! The listing ledger: an append-only, id-indexed collection of listings.

use vstd::prelude::*;

use crate::AccountId;
use crate::Balance;
use crate::pagination::paged;

verus! {

/// A vendor's sellable balance pool. `available_amount` holds currency the
/// vendor has deposited and neither reserved by an order nor withdrawn yet.
#[derive(Clone, Copy, Debug, PartialEq, Eq, Structural)]
pub struct Listing {
    /// Assigned as the ledger length at creation; never reused.
    pub id: u32,
    /// The owning vendor, fixed at creation.
    pub vendor: AccountId,
    /// The balance an order may reserve or the vendor may withdraw.
    pub available_amount: Balance,
}

/// The append-only listing ledger. Record `id` lives at position `id`;
/// the ledger's length is the next id to assign.
#[derive(Debug)]
pub struct Listings {
    /// The records, ordered by id.
    pub values: Vec<Listing>,
}

impl View for Listings {
    type V = Seq<Listing>;

    open spec fn view(&self) -> Seq<Listing> {
        self.values@
    }
}

impl Listings {
    /// An empty ledger, the state at construction.
    pub fn new() -> (r: Listings)
        ensures
            r@ == Seq::<Listing>::empty(),
    {
        Listings { values: Vec::new() }
    }

    /// Appends a record at the next id, which is the current length. The
    /// caller pre-checks that the length has not reached the id type's
    /// maximum; a full ledger is a capacity error signaled before this call.
    pub fn create(&mut self, value: &Listing)
        requires
            old(self)@.len() < u32::MAX,
        ensures
            final(self)@ == old(self)@.push(*value),
    {
        self.values.push(*value);
    }

    /// Overwrites the record at `value.id`, which must already exist; the
    /// length does not change.
    pub fn update(&mut self, value: &Listing)
        requires
            value.id < old(self)@.len(),
        ensures
            final(self)@ == old(self)@.update(value.id as int, *value),
    {
        self.values.set(value.id as usize, *value);
    }

    /// The reverse-paginated range query: records of the page's window,
    /// newest first, and nothing when `page * size` overflows the id type
    /// or skips past the whole ledger.
    pub fn index(&self, page: u32, size: u8) -> (r: Vec<Listing>)
        ensures
            r@ == paged(self@, page as int, size as int, u32::MAX as int),
    {
        let mut records: Vec<Listing> = Vec::new();
        if self.values.len() == 0 {
            assert(records@ =~= paged(self@, page as int, size as int, u32::MAX as int));
            return records;
        }
        let skip: u32 = match page.checked_mul(size as u32) {
            Some(s) => s,
            None => {
                assert(records@ =~= paged(self@, page as int, size as int, u32::MAX as int));
                return records;
            },
        };
        if skip as usize >= self.values.len() {
            assert(records@ =~= paged(self@, page as int, size as int, u32::MAX as int));
            return records;
        }
        let end: usize = self.values.len() - 1 - skip as usize;
        let start: usize = if end > size as usize {
            end - size as usize
        } else {
            0
        };
        let count: usize = end - start + 1;
        let mut k: usize = 0;
        while k < count
            invariant
                k <= count,
                start <= end < self.values@.len(),
                count == end - start + 1,
                records@.len() == k,
                forall|j: int| 0 <= j < k ==> records@[j] == self.values@[end - j],
            decreases count - k,
        {
            records.push(self.values[end - k]);
            k = k + 1;
        }
        assert(records@ =~= paged(self@, page as int, size as int, u32::MAX as int));
        records
    }
}

} // verus!
