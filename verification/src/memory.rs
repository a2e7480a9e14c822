use vstd::prelude::*;

use crate::error::Error;
use crate::value::Value;

verus! {

/// The value that [`Memory::get`] must return at `address` in a memory whose
/// backed cells are `cells`: the stored value where the address is backed by
/// a cell, `AddressOutOfRange` otherwise.
pub open spec fn spec_get<V>(cells: Map<usize, V>, address: usize) -> Result<V, Error> {
    if cells.dom().contains(address) {
        Ok(cells[address])
    } else {
        Err(Error::AddressOutOfRange(address))
    }
}

/// The cells after a successful [`Memory::set`], or the error a failing one
/// must return: `AddressOutOfRange` where the address is not backed by a
/// cell, `ImmutableAddress` where the cell is read-only (`writable` is the
/// writability of the addressed cell).
pub open spec fn spec_set<V>(
    cells: Map<usize, V>,
    writable: bool,
    address: usize,
    value: V,
) -> Result<Map<usize, V>, Error> {
    if !cells.dom().contains(address) {
        Err(Error::AddressOutOfRange(address))
    } else if !writable {
        Err(Error::ImmutableAddress(address))
    } else {
        Ok(cells.insert(address, value))
    }
}

/// The three operand cells that [`Memory::instruction`] must fetch: the
/// values at `address`, `address + 1` and `address + 2` (wrapping), or the
/// error of the first of the three reads that fails.
pub open spec fn spec_instruction<V>(cells: Map<usize, V>, address: usize) -> Result<
    (V, V, V),
    Error,
> {
    match spec_get(cells, address) {
        Err(e) => Err(e),
        Ok(a) => match spec_get(cells, address.wrapping_add(1)) {
            Err(e) => Err(e),
            Ok(b) => match spec_get(cells, address.wrapping_add(2)) {
                Err(e) => Err(e),
                Ok(c) => Ok((a, b, c)),
            },
        },
    }
}

/// A readable and writable memory of cells holding values of `V`, addressed
/// by unsigned indices.
///
/// The model is the map [`Memory::cells`] from each backed address to the
/// value stored there, together with the predicate [`Memory::writable`]
/// marking the cells that may be overwritten. Out-of-range addresses fail
/// explicitly: nothing wraps or clamps silently.
pub trait Memory<V: Value>: Sized {
    /// The backed cells of this memory: its addresses and the values they
    /// hold.
    spec fn cells(&self) -> Map<usize, V>;

    /// Whether the cell at `address` may be overwritten; a memory exposing
    /// read-only regions returns `false` on them.
    spec fn writable(&self, address: usize) -> bool;

    /// Get the value at an address, or fail with `AddressOutOfRange` where
    /// the address has no backing cell.
    fn get(&self, address: usize) -> (r: Result<V, Error>)
        ensures
            r == spec_get(self.cells(), address),
    ;

    /// Set the value at an address, or fail with `AddressOutOfRange` where
    /// the address has no backing cell and `ImmutableAddress` where the cell
    /// is read-only. A failing set changes no cell.
    fn set(&mut self, address: usize, value: V) -> (r: Result<(), Error>)
        ensures
            match spec_set(old(self).cells(), old(self).writable(address), address, value) {
                Ok(cells) => r is Ok && final(self).cells() == cells,
                Err(e) => r == Err::<(), Error>(e) && final(self).cells() == old(self).cells(),
            },
            forall|a: usize| #[trigger] final(self).writable(a) == old(self).writable(a),
    ;

    /// Get the three consecutive cells starting at an address, representing
    /// one instruction's operands; the first failing read aborts the fetch.
    fn instruction(&self, address: usize) -> (r: Result<(V, V, V), Error>)
        ensures
            r == spec_instruction(self.cells(), address),
    {
        let a = match self.get(address) {
            Ok(v) => v,
            Err(e) => {
                return Err(e);
            },
        };
        let b = match self.get(address.wrapping_add(1)) {
            Ok(v) => v,
            Err(e) => {
                return Err(e);
            },
        };
        let c = match self.get(address.wrapping_add(2)) {
            Ok(v) => v,
            Err(e) => {
                return Err(e);
            },
        };
        Ok((a, b, c))
    }
}

/// The reference memory: a fixed-capacity linear array of cells with direct
/// index mapping and no wraparound. Indices at or above the capacity fail
/// with `AddressOutOfRange`; every backed cell is writable.
pub struct LinearMemory<V: Value>(pub Vec<V>);

impl<V: Value> LinearMemory<V> {
    /// A zero-initialized memory of `capacity` cells.
    pub fn new(capacity: usize) -> (r: LinearMemory<V>)
        ensures
            r.0@.len() == capacity,
            r.cells() == Map::new(|a: usize| a < capacity, |a: usize| V::from_int(0)),
    {
        let zero = V::zero();
        proof {
            zero.lemma_in_range();
        }
        let mut data: Vec<V> = Vec::new();
        let mut i: usize = 0;
        while i < capacity
            invariant
                i == data@.len(),
                i <= capacity,
                zero == V::from_int(0),
                forall|k: int| 0 <= k < i ==> data@[k] == zero,
            decreases capacity - i,
        {
            data.push(zero);
            i = i + 1;
        }
        let m = LinearMemory(data);
        proof {
            assert(m.cells() =~= Map::new(|a: usize| a < capacity, |a: usize| V::from_int(0)));
        }
        m
    }

    /// The number of cells of this memory; fixed at construction.
    pub fn capacity(&self) -> (r: usize)
        ensures
            r == self.0@.len(),
    {
        self.0.len()
    }
}

impl<V: Value> Memory<V> for LinearMemory<V> {
    /// An address is backed exactly when it lies below the capacity, and the
    /// cell there holds the element of the array at that index.
    open spec fn cells(&self) -> Map<usize, V> {
        Map::new(|a: usize| a < self.0@.len(), |a: usize| self.0@[a as int])
    }

    /// Every backed cell of the linear memory is writable.
    open spec fn writable(&self, address: usize) -> bool {
        true
    }

    fn get(&self, address: usize) -> (r: Result<V, Error>) {
        if address < self.0.len() {
            Ok(self.0[address])
        } else {
            Err(Error::AddressOutOfRange(address))
        }
    }

    fn set(&mut self, address: usize, value: V) -> (r: Result<(), Error>) {
        if address < self.0.len() {
            self.0.set(address, value);
            proof {
                assert(self.cells() =~= old(self).cells().insert(address, value));
            }
            Ok(())
        } else {
            Err(Error::AddressOutOfRange(address))
        }
    }
}

/// Round trip: a successful `set(address, value)` leaves `value` in the cell
/// at `address`, so a `get` at the same address returns exactly that value;
/// this holds for every backed address of any memory.
pub proof fn lemma_set_get_round_trip<V>(
    cells: Map<usize, V>,
    writable: bool,
    address: usize,
    value: V,
)
    requires
        spec_set(cells, writable, address, value) is Ok,
    ensures
        spec_get(spec_set(cells, writable, address, value)->Ok_0, address) == Ok::<V, Error>(
            value,
        ),
{
}

/// Bounds enforcement of the reference linear memory: at any address at or
/// above the capacity, `get` and `set` must fail with `AddressOutOfRange`
/// (and, by the `Memory` contract, a failing `set` changes no cell).
pub proof fn lemma_linear_memory_bounds<V: Value>(m: &LinearMemory<V>, address: usize, value: V)
    requires
        address >= m.0@.len(),
    ensures
        spec_get(m.cells(), address) == Err::<V, Error>(Error::AddressOutOfRange(address)),
        spec_set(m.cells(), m.writable(address), address, value) == Err::<Map<usize, V>, Error>(
            Error::AddressOutOfRange(address),
        ),
{
}

} // verus!
