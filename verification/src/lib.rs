//! A minimal virtual machine for the one-instruction language subleq
//! ("subtract and branch if not positive"), where a single flat address
//! space holds both code and data.
//!
//! The crate has three components: a capability trait for the caller-chosen
//! fixed-width signed value type ([`Value`], implemented here for `i64` and
//! `i8`), a memory abstraction ([`Memory`], with the reference
//! implementation [`LinearMemory`]) that decouples the execution engine from
//! the storage representation, and the engine itself ([`Subleq`]), which
//! owns a memory instance and a program counter and exposes a single-step
//! transition function.

mod error;
mod memory;
mod value;

pub use error::Error;
pub use memory::{
    LinearMemory, Memory, lemma_linear_memory_bounds, lemma_set_get_round_trip, spec_get,
    spec_instruction, spec_set,
};
pub use value::{Value, spec_to_address, wrap_int};

use vstd::prelude::*;

verus! {

/// The full transition of one [`Subleq::step`] on a memory with the given
/// cells and writability, starting at program counter `pc`: either the new
/// cells and the new program counter, or the first error of the cycle, which
/// leaves the machine unchanged.
///
/// The overflow policy is wrapping arithmetic, applied uniformly to the
/// subtraction and to the program-counter advance.
pub open spec fn spec_step<V: Value, M: Memory<V>>(m: M, pc: usize) -> Result<
    (Map<usize, V>, usize),
    Error,
> {
    match spec_instruction(m.cells(), pc) {
        Err(e) => Err(e),
        Ok((va, vb, vc)) => match (spec_to_address(va), spec_to_address(vb), spec_to_address(vc)) {
            (None, _, _) => Err(Error::AddressConversionFailed),
            (Some(_), None, _) => Err(Error::AddressConversionFailed),
            (Some(_), Some(_), None) => Err(Error::AddressConversionFailed),
            (Some(a), Some(b), Some(c)) => match spec_get(m.cells(), a) {
                Err(e) => Err(e),
                Ok(a_value) => match spec_get(m.cells(), b) {
                    Err(e) => Err(e),
                    Ok(b_value) => {
                        let result = wrap_int(
                            b_value.as_int() - a_value.as_int(),
                            V::spec_min(),
                            V::spec_max(),
                        );
                        if !m.writable(b) {
                            Err(Error::ImmutableAddress(b))
                        } else {
                            Ok(
                                (
                                    m.cells().insert(b, V::from_int(result)),
                                    if result <= 0 {
                                        c
                                    } else {
                                        pc.wrapping_add(3)
                                    },
                                ),
                            )
                        }
                    },
                },
            },
        },
    }
}

/// The three operand addresses A, B and C of the instruction at `pc`: the
/// three cells starting at `pc`, each interpreted as an address. Meaningful
/// where [`spec_step`] does not fail before converting them.
pub open spec fn operand_addresses<V: Value, M: Memory<V>>(m: M, pc: usize) -> (
    usize,
    usize,
    usize,
) {
    let (va, vb, vc) = spec_instruction(m.cells(), pc)->Ok_0;
    (spec_to_address(va)->0, spec_to_address(vb)->0, spec_to_address(vc)->0)
}

/// Correctness of one instruction: where a step succeeds with operands
/// (A, B, C), the new memory holds at B the old value at B minus the old
/// value at A (wrapping), every other cell is unchanged, and no cell appears
/// or disappears.
pub proof fn lemma_step_updates_only_operand_b<V: Value, M: Memory<V>>(m: M, pc: usize)
    requires
        spec_step(m, pc) is Ok,
    ensures
        ({
            let (a, b, c) = operand_addresses(m, pc);
            let cells = (spec_step(m, pc)->Ok_0).0;
            &&& cells[b].as_int() == wrap_int(
                m.cells()[b].as_int() - m.cells()[a].as_int(),
                V::spec_min(),
                V::spec_max(),
            )
            &&& cells.dom() == m.cells().dom()
            &&& forall|x: usize|
                m.cells().dom().contains(x) && x != b ==> cells[x] == m.cells()[x]
        }),
{
    let (a, b, c) = operand_addresses(m, pc);
    let cells = (spec_step(m, pc)->Ok_0).0;
    m.cells()[a].lemma_in_range();
    m.cells()[b].lemma_in_range();
    V::lemma_from_int(
        wrap_int(m.cells()[b].as_int() - m.cells()[a].as_int(), V::spec_min(), V::spec_max()),
    );
    assert(cells.dom() =~= m.cells().dom());
}

/// Branch decision: where a step succeeds with operands (A, B, C), the
/// program counter afterwards equals C if the subtraction result is at most
/// zero, and the old program counter plus three (wrapping) otherwise.
pub proof fn lemma_step_branch_decision<V: Value, M: Memory<V>>(m: M, pc: usize)
    requires
        spec_step(m, pc) is Ok,
    ensures
        ({
            let (a, b, c) = operand_addresses(m, pc);
            let result = wrap_int(
                m.cells()[b].as_int() - m.cells()[a].as_int(),
                V::spec_min(),
                V::spec_max(),
            );
            (spec_step(m, pc)->Ok_0).1 == (if result <= 0 {
                c
            } else {
                pc.wrapping_add(3)
            })
        }),
{
}

/// Idempotent failure: the outcome of a step depends only on the memory's
/// cells, their writability and the program counter. A failed [`Subleq::step`]
/// leaves all three unchanged (its contract), so calling it again without
/// mutating the memory in between reproduces the same error.
pub proof fn lemma_step_failure_idempotent<V: Value, M: Memory<V>>(m0: M, m1: M, pc: usize, e: Error)
    requires
        spec_step(m0, pc) == Err::<(Map<usize, V>, usize), Error>(e),
        m1.cells() == m0.cells(),
        forall|a: usize| #[trigger] m1.writable(a) == m0.writable(a),
    ensures
        spec_step(m1, pc) == Err::<(Map<usize, V>, usize), Error>(e),
{
}

/// Interpret a subleq program stored inside a [`Memory`].
///
/// Subleq is an instruction set with a single instruction of three operands
/// A, B and C, all read from the three cells starting at the program
/// counter. The machine subtracts the value at address A from the value at
/// address B and stores the result at address B. If the result is less than
/// or equal to zero it jumps to address C, otherwise it falls through to the
/// next instruction.
pub struct Subleq<V: Value, M: Memory<V>> {
    /// The memory that the subleq program is stored in.
    pub mem: M,
    /// The address of the first operand of the instruction which is going to
    /// be executed next.
    pub curr_instruction: usize,
    /// Marks the value type the memory is addressed with.
    pub marker: core::marker::PhantomData<V>,
}

impl<V: Value, M: Memory<V>> Subleq<V, M> {
    /// Construct an engine that owns `memory` and starts execution at the
    /// first address.
    pub fn new(memory: M) -> (r: Subleq<V, M>)
        ensures
            r.mem == memory,
            r.curr_instruction == 0,
    {
        Subleq { mem: memory, curr_instruction: 0, marker: core::marker::PhantomData }
    }

    /// Execute the current instruction: fetch the three operand addresses at
    /// the program counter, subtract the value at the first from the value
    /// at the second (wrapping), store the result at the second, then branch
    /// to the third where the result is at most zero and advance by three
    /// cells otherwise.
    ///
    /// The first error of the cycle is returned and leaves the machine
    /// exactly as it was: a failed step may be retried and reproduces the
    /// same error.
    pub fn step(&mut self) -> (r: Result<(), Error>)
        ensures
            match spec_step(old(self).mem, old(self).curr_instruction) {
                Ok((cells, pc)) => {
                    &&& r is Ok
                    &&& final(self).mem.cells() == cells
                    &&& final(self).curr_instruction == pc
                },
                Err(e) => {
                    &&& r == Err::<(), Error>(e)
                    &&& final(self).mem.cells() == old(self).mem.cells()
                    &&& final(self).curr_instruction == old(self).curr_instruction
                },
            },
            forall|a: usize| #[trigger] final(self).mem.writable(a) == old(self).mem.writable(a),
    {
        let (va, vb, vc) = match self.mem.instruction(self.curr_instruction) {
            Ok(operands) => operands,
            Err(e) => {
                return Err(e);
            },
        };
        let a = match va.to_address() {
            Some(x) => x,
            None => {
                return Err(Error::AddressConversionFailed);
            },
        };
        let b = match vb.to_address() {
            Some(x) => x,
            None => {
                return Err(Error::AddressConversionFailed);
            },
        };
        let c = match vc.to_address() {
            Some(x) => x,
            None => {
                return Err(Error::AddressConversionFailed);
            },
        };
        let a_value = match self.mem.get(a) {
            Ok(x) => x,
            Err(e) => {
                return Err(e);
            },
        };
        let b_value = match self.mem.get(b) {
            Ok(x) => x,
            Err(e) => {
                return Err(e);
            },
        };
        let result = b_value.wrapping_sub(a_value);
        proof {
            a_value.lemma_in_range();
            b_value.lemma_in_range();
            V::lemma_from_int(
                wrap_int(b_value.as_int() - a_value.as_int(), V::spec_min(), V::spec_max()),
            );
        }
        match self.mem.set(b, result) {
            Ok(u) => u,
            Err(e) => {
                return Err(e);
            },
        };
        if !result.is_positive() {
            self.curr_instruction = c;
        } else {
            self.curr_instruction = self.curr_instruction.wrapping_add(3);
        }
        Ok(())
    }
}

} // verus!
