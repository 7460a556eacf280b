//! The capability every instruction state machine provides to the executor.

use vstd::prelude::*;
use crate::engine::cpu::{Cpu, CpuModel};

verus! {

/// What one bus cycle of an instruction reported.
#[derive(Clone, Copy, Debug, PartialEq, Eq, Structural)]
pub enum Step {
    /// The instruction needs more cycles.
    Busy,
    /// The instruction completed on this cycle.
    Done,
    /// The cycle would have performed an illegal bus access; execution
    /// cannot continue.
    Fault,
}

/// An instruction state machine. One call to `decode` is one bus cycle.
///
/// The contract is uniform: as long as every bus access the machine still
/// has to perform is legal (`ok`), each cycle brings `remaining` down by
/// one while preserving the final state the instruction will produce
/// (`outcome`), and the last cycle delivers exactly that state. A machine
/// never claims completion on a path that would have trapped.
pub trait OpCode: Sized {
    /// The internal step counter is in range.
    spec fn inv(&self) -> bool;

    /// Every bus access still to be performed is mapped (and, for writes,
    /// writable), and no fetch can run the program counter past the end of
    /// the address space.
    spec fn ok(&self, m: CpuModel) -> bool;

    /// How many more `decode` calls the instruction takes, given the
    /// current machine state.
    spec fn remaining(&self, m: CpuModel) -> nat;

    /// The state of the machine when this instruction completes.
    spec fn outcome(&self, m: CpuModel) -> CpuModel;

    /// A fresh machine, ready for its first cycle.
    fn new() -> (r: Self)
        ensures
            r.inv(),
    ;

    /// Advances the instruction by one bus cycle.
    fn decode(&mut self, cpu: &mut Cpu) -> (r: Step)
        requires
            old(self).inv(),
            old(cpu).wf(),
        ensures
            final(self).inv(),
            final(cpu).wf(),
            (old(self).ok(old(cpu).model()) ==> match r {
                Step::Busy => final(self).ok(final(cpu).model()) && final(self).outcome(
                    final(cpu).model(),
                ) == old(self).outcome(old(cpu).model()) && final(self).remaining(
                    final(cpu).model(),
                ) + 1 == old(self).remaining(old(cpu).model()),
                Step::Done => final(cpu).model() == old(self).outcome(old(cpu).model()) && old(
                    self,
                ).remaining(old(cpu).model()) == 1,
                Step::Fault => false,
            }),
            (!old(self).ok(old(cpu).model()) ==> r != Step::Done),
    ;
}

} // verus!
