use vstd::prelude::*;

use crate::dmg::Dmg;
use crate::fault::Fault;
use crate::mem_map::{Addr, map_addr};
use crate::opcode::{Instruction, decode};

verus! {

/// Steps the console on behalf of an interactive front end, decoding each instruction it is
/// about to run.
#[derive(Debug)]
pub struct Debugger {
    pub dmg: Dmg,
    /// The last instruction inspected before a step.
    pub last: Option<Instruction>,
}

impl Debugger {
    pub fn new(dmg: Dmg) -> (r: Debugger)
        ensures
            r.dmg == dmg,
            r.last is None,
    {
        Debugger { dmg, last: None }
    }

    /// Runs `count` steps; stops at the first fault. Before each step the opcode at the
    /// program counter is decoded, when the counter is in ROM.
    pub fn step(&mut self, count: usize) -> (r: Result<(), Fault>)
        requires
            old(self).dmg.wf(),
        ensures
            final(self).dmg.wf(),
    {
        let mut i: usize = 0;
        while i < count
            invariant
                self.dmg.wf(),
                i <= count,
            decreases count - i,
        {
            let pc = self.dmg.cpu().current_pc();
            if let Addr::Rom(_) = map_addr(pc) {
                match self.dmg.interconnect().read_byte(pc) {
                    Ok(b) => {
                        self.last = Some(Instruction::new(decode(b, 0, 0)));
                    },
                    Err(_) => {},
                }
            }
            match self.dmg.step() {
                Ok(_) => {},
                Err(e) => {
                    return Err(e);
                },
            }
            i = i + 1;
        }
        Ok(())
    }
}

} // verus!
