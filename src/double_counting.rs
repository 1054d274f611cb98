use vstd::prelude::*;
use crate::errors::ErrorCode;
use crate::types::Address;

verus! {

/// The set of spatial cells already claimed by some project. Cells are only
/// ever added: a claimed cell stays claimed for the life of the registry.
pub struct DoubleCountingRegistry {
    registered_locations: Vec<u64>,
    authority: Address,
}

impl View for DoubleCountingRegistry {
    type V = Seq<u64>;

    /// The claimed cells, in the order they were claimed.
    closed spec fn view(&self) -> Seq<u64> {
        self.registered_locations@
    }
}

impl DoubleCountingRegistry {
    /// No cell is recorded twice.
    #[verifier::type_invariant]
    spec fn inv(&self) -> bool {
        self.registered_locations@.no_duplicates()
    }

    /// The authority that manages the index.
    pub closed spec fn manager(&self) -> Address {
        self.authority
    }

    /// The authority that manages the index.
    pub fn authority(&self) -> (r: Address)
        ensures
            r == self.manager(),
    {
        self.authority
    }

    /// An empty index managed by `authority`.
    pub fn new(authority: Address) -> (r: Self)
        ensures
            r@ == Seq::<u64>::empty(),
            r.manager() == authority,
    {
        DoubleCountingRegistry { registered_locations: Vec::new(), authority }
    }

    /// The claimed cells, in the order they were claimed; none occurs twice.
    pub fn locations(&self) -> (r: &Vec<u64>)
        ensures
            r@ == self@,
            r@.no_duplicates(),
    {
        proof {
            use_type_invariant(self);
        }
        &self.registered_locations
    }

    /// Whether `cell` has been claimed.
    pub fn is_claimed(&self, cell: u64) -> (r: bool)
        ensures
            r == self@.contains(cell),
    {
        let mut i: usize = 0;
        while i < self.registered_locations.len()
            invariant
                i <= self@.len(),
                self@ == self.registered_locations@,
                forall|j: int| 0 <= j < i ==> self@[j] != cell,
            decreases self@.len() - i,
        {
            if self.registered_locations[i] == cell {
                return true;
            }
            i += 1;
        }
        false
    }

    /// Claims `cell` if nobody holds it yet; checking and recording are one step.
    pub fn claim(&mut self, cell: u64) -> (r: Result<(), ErrorCode>)
        ensures
            old(self)@.contains(cell) ==> {
                &&& r == Err::<(), ErrorCode>(ErrorCode::LocationAlreadyClaimed)
                &&& *final(self) == *old(self)
            },
            !old(self)@.contains(cell) ==> {
                &&& r is Ok
                &&& final(self)@ == old(self)@.push(cell)
                &&& final(self).manager() == old(self).manager()
            },
    {
        proof {
            use_type_invariant(&*self);
        }
        if self.is_claimed(cell) {
            return Err(ErrorCode::LocationAlreadyClaimed);
        }
        let mut cells: Vec<u64> = Vec::new();
        std::mem::swap(&mut self.registered_locations, &mut cells);
        let ghost prev = cells@;
        cells.push(cell);
        proof {
            let s = cells@;
            assert forall|a: int, b: int| 0 <= a < b < s.len() implies s[a] != s[b] by {
                if b == s.len() - 1 {
                    assert(prev[a] == s[a]);
                }
            }
        }
        self.registered_locations = cells;
        Ok(())
    }
}

} // verus!
