use vstd::prelude::*;
use crate::bus::Interconnect;
use crate::cpu::{Cpu, StepError};

verus! {

/// A processor together with the bus it runs on.
pub struct VM {
    cpu: Cpu,
    inter: Interconnect,
}

impl VM {
    pub closed spec fn cpu_spec(&self) -> Cpu {
        self.cpu
    }

    pub closed spec fn bus_spec(&self) -> Interconnect {
        self.inter
    }

    pub open spec fn wf(&self) -> bool {
        self.bus_spec().wf()
    }

    /// A processor in its post-boot state on the given bus.
    pub fn new(interconnect: Interconnect) -> (r: VM)
        requires
            interconnect.wf(),
        ensures
            r.wf(),
            r.cpu_spec() == Cpu::initial(),
            r.bus_spec() == interconnect,
    {
        VM { inter: interconnect, cpu: Cpu::new() }
    }

    /// One step of the processor on the bus.
    pub fn step(&mut self) -> (r: Result<u16, StepError>)
        requires
            old(self).wf(),
        ensures
            final(self).wf(),
            (final(self).cpu_spec(), final(self).bus_spec()@, r) == old(self).cpu_spec().step_spec(
                old(self).bus_spec()@,
            ),
    {
        self.cpu.step(&mut self.inter)
    }

    /// Hands back the processor and the bus.
    pub fn get_children(self) -> (r: (Cpu, Interconnect))
        ensures
            r.0 == self.cpu_spec(),
            r.1 == self.bus_spec(),
    {
        (self.cpu, self.inter)
    }
}

} // verus!
