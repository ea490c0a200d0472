//! Top-level wiring: the console is a CPU that owns the whole bus, and a
//! builder assembles it.

use vstd::prelude::*;
use crate::cpu::CPU;

verus! {

/// A fully wired console.
pub struct NES {
    pub cpu: CPU,
}

/// Step-by-step assembly of a console.
pub struct NESBuilder {
    pub cpu: Option<CPU>,
}

impl NESBuilder {
    pub fn new() -> (b: NESBuilder)
        ensures
            b.cpu is None,
    {
        let cpu = None;
        NESBuilder { cpu }
    }

    pub fn cpu(self, cpu: CPU) -> (b: NESBuilder)
        ensures
            b.cpu == Some(cpu),
    {
        NESBuilder { cpu: Some(cpu) }
    }

    /// Finishes the build; the CPU must have been supplied.
    pub fn finalize(self) -> (n: NES)
        requires
            self.cpu is Some,
        ensures
            Some(n.cpu) == self.cpu,
    {
        match self.cpu {
            Some(cpu) => NES { cpu },
            None => unreached(),
        }
    }
}

} // verus!
