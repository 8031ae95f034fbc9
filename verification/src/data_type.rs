use vstd::prelude::*;

verus! {

/// Seconds in one calendar day; a bucket's cell count must divide it evenly.
pub const DAY_SECONDS: usize = 86_400;

/// One calendar day's samples: four parallel arrays of one fixed length,
/// one cell per fixed-duration interval of the day. A cell whose call count
/// is zero has never been sampled.
#[derive(Debug)]
pub struct DayData {
    update_calls_data: Vec<u64>,
    canister_heap_memory_size_data: Vec<u64>,
    canister_memory_size_data: Vec<u64>,
    canister_cycles_data: Vec<u64>,
}

impl DayData {
    /// Per-cell count of update calls observed in the cell's interval.
    pub closed spec fn update_calls(&self) -> Seq<u64> {
        self.update_calls_data@
    }

    /// Per-cell heap memory size at the first sample of the interval.
    pub closed spec fn heap_memory_size(&self) -> Seq<u64> {
        self.canister_heap_memory_size_data@
    }

    /// Per-cell total memory size at the first sample of the interval.
    pub closed spec fn memory_size(&self) -> Seq<u64> {
        self.canister_memory_size_data@
    }

    /// Per-cell available cycles at the first sample of the interval.
    pub closed spec fn cycles(&self) -> Seq<u64> {
        self.canister_cycles_data@
    }

    /// Number of cells the day is divided into.
    pub open spec fn cell_count(&self) -> int {
        self.update_calls().len() as int
    }

    /// All four arrays share one length, which divides the day evenly.
    pub open spec fn well_formed(&self) -> bool {
        &&& self.heap_memory_size().len() == self.cell_count()
        &&& self.memory_size().len() == self.cell_count()
        &&& self.cycles().len() == self.cell_count()
        &&& 1 <= self.cell_count() <= DAY_SECONDS
        &&& DAY_SECONDS as int % self.cell_count() == 0
    }

    /// A fresh all-zero day of `cell_count` cells.
    pub fn new(cell_count: &usize) -> (r: Self)
        requires
            1 <= *cell_count <= DAY_SECONDS,
            DAY_SECONDS as int % *cell_count as int == 0,
        ensures
            r.well_formed(),
            r.cell_count() == *cell_count,
            r.update_calls() == Seq::new(*cell_count as nat, |i: int| 0u64),
            r.heap_memory_size() == Seq::new(*cell_count as nat, |i: int| 0u64),
            r.memory_size() == Seq::new(*cell_count as nat, |i: int| 0u64),
            r.cycles() == Seq::new(*cell_count as nat, |i: int| 0u64),
    {
        Self {
            update_calls_data: create_empty_vector(cell_count),
            canister_heap_memory_size_data: create_empty_vector(cell_count),
            canister_memory_size_data: create_empty_vector(cell_count),
            canister_cycles_data: create_empty_vector(cell_count),
        }
    }

    /// Assemble a day from its four arrays, as rebuilt after a restart
    /// boundary. The arrays must already share one valid length.
    pub fn init(
        update_calls_data: Vec<u64>,
        canister_heap_memory_size_data: Vec<u64>,
        canister_memory_size_data: Vec<u64>,
        canister_cycles_data: Vec<u64>,
    ) -> (r: Self)
        requires
            canister_heap_memory_size_data@.len() == update_calls_data@.len(),
            canister_memory_size_data@.len() == update_calls_data@.len(),
            canister_cycles_data@.len() == update_calls_data@.len(),
            1 <= update_calls_data@.len() <= DAY_SECONDS,
            DAY_SECONDS as int % update_calls_data@.len() as int == 0,
        ensures
            r.well_formed(),
            r.update_calls() == update_calls_data@,
            r.heap_memory_size() == canister_heap_memory_size_data@,
            r.memory_size() == canister_memory_size_data@,
            r.cycles() == canister_cycles_data@,
    {
        Self {
            update_calls_data,
            canister_heap_memory_size_data,
            canister_memory_size_data,
            canister_cycles_data,
        }
    }

    /// Overwrite one cell in all four arrays.
    pub fn store(
        &mut self,
        cell: &usize,
        update_calls: u64,
        canister_heap_memory_size: u64,
        canister_memory_size: u64,
        canister_cycles: u64,
    )
        requires
            old(self).well_formed(),
            *cell < old(self).cell_count(),
        ensures
            final(self).well_formed(),
            final(self).update_calls() == old(self).update_calls().update(
                *cell as int,
                update_calls,
            ),
            final(self).heap_memory_size() == old(self).heap_memory_size().update(
                *cell as int,
                canister_heap_memory_size,
            ),
            final(self).memory_size() == old(self).memory_size().update(
                *cell as int,
                canister_memory_size,
            ),
            final(self).cycles() == old(self).cycles().update(*cell as int, canister_cycles),
    {
        self.update_calls_data.set(*cell, update_calls);
        self.canister_heap_memory_size_data.set(*cell, canister_heap_memory_size);
        self.canister_memory_size_data.set(*cell, canister_memory_size);
        self.canister_cycles_data.set(*cell, canister_cycles);
    }

    /// Count one more update call in the cell's interval, leaving the three
    /// resource arrays untouched; the count sticks at its maximum rather
    /// than wrapping.
    pub fn increment_update_calls(&mut self, cell: &usize)
        requires
            old(self).well_formed(),
            *cell < old(self).cell_count(),
        ensures
            final(self).well_formed(),
            final(self).update_calls() == old(self).update_calls().update(
                *cell as int,
                bump(old(self).update_calls()[*cell as int]),
            ),
            final(self).heap_memory_size() == old(self).heap_memory_size(),
            final(self).memory_size() == old(self).memory_size(),
            final(self).cycles() == old(self).cycles(),
    {
        let current: u64 = self.update_calls_data[*cell];
        let incremented: u64 = if current == u64::MAX {
            current
        } else {
            current + 1
        };
        self.update_calls_data.set(*cell, incremented);
    }

    /// Borrow the update-call array.
    pub fn get_update_calls_data(&self) -> (r: &Vec<u64>)
        ensures
            r@ == self.update_calls(),
    {
        &self.update_calls_data
    }

    /// Borrow the heap-memory array.
    pub fn get_canister_heap_memory_size_data(&self) -> (r: &Vec<u64>)
        ensures
            r@ == self.heap_memory_size(),
    {
        &self.canister_heap_memory_size_data
    }

    /// Borrow the total-memory array.
    pub fn get_canister_memory_size_data(&self) -> (r: &Vec<u64>)
        ensures
            r@ == self.memory_size(),
    {
        &self.canister_memory_size_data
    }

    /// Borrow the cycles array.
    pub fn get_canister_cycles_data(&self) -> (r: &Vec<u64>)
        ensures
            r@ == self.cycles(),
    {
        &self.canister_cycles_data
    }
}

impl Clone for DayData {
    fn clone(&self) -> (r: Self)
        ensures
            r.update_calls() == self.update_calls(),
            r.heap_memory_size() == self.heap_memory_size(),
            r.memory_size() == self.memory_size(),
            r.cycles() == self.cycles(),
    {
        let r = DayData {
            update_calls_data: clone_u64_vec(&self.update_calls_data),
            canister_heap_memory_size_data: clone_u64_vec(&self.canister_heap_memory_size_data),
            canister_memory_size_data: clone_u64_vec(&self.canister_memory_size_data),
            canister_cycles_data: clone_u64_vec(&self.canister_cycles_data),
        };
        r
    }
}

/// A call count one higher than `count`, sticking at the maximum.
pub open spec fn bump(count: u64) -> u64 {
    if count == u64::MAX {
        count
    } else {
        (count + 1) as u64
    }
}

/// Copy a vector of counters.
fn clone_u64_vec(v: &Vec<u64>) -> (r: Vec<u64>)
    ensures
        r@ == v@,
{
    let r = v.clone();
    assert(r@ =~= v@);
    r
}

/// An all-zero vector of `cell_count` cells.
pub fn create_empty_vector(cell_count: &usize) -> (r: Vec<u64>)
    ensures
        r@ == Seq::new(*cell_count as nat, |i: int| 0u64),
{
    let mut v: Vec<u64> = Vec::with_capacity(*cell_count);
    let mut i: usize = 0;
    while i < *cell_count
        invariant
            i <= *cell_count,
            v@ == Seq::new(i as nat, |j: int| 0u64),
        decreases *cell_count - i,
    {
        v.push(0u64);
        i = i + 1;
        assert(v@ =~= Seq::new(i as nat, |j: int| 0u64));
    }
    v
}

} // verus!
