use vstd::prelude::*;

pub mod flags;
pub mod registry;
pub mod instructions;

use crate::memory::{Memory, next_addr};
use self::instructions::{Instructions, execute_spec};
use self::instructions::decoder::{PREFIX_BYTE, decode, lemma_decode_total};
use self::instructions::jumps::branch_taken;
use self::registry::{CPURegistry, wrap16};

verus! {

/// A step that cannot be carried out.
#[derive(Clone, Copy, Debug, PartialEq, Eq, Structural)]
pub enum CpuFault {
    /// The opcode at the program counter is one the processor does not define.
    IllegalOpcode(u8),
}

/// Whether the byte at the program counter is the prefix byte.
pub open spec fn fetch_prefixed(r: CPURegistry, m: Memory) -> bool {
    m.byte_at(r.pc) == PREFIX_BYTE
}

/// The opcode a step decodes: the byte at the program counter, or the byte
/// after it when that one is the prefix byte.
pub open spec fn fetch_opcode(r: CPURegistry, m: Memory) -> u8 {
    if fetch_prefixed(r, m) {
        m.byte_at(next_addr(r.pc))
    } else {
        m.byte_at(r.pc)
    }
}

/// The instruction a step carries out.
pub open spec fn fetched(r: CPURegistry, m: Memory) -> Instructions {
    decode(fetch_opcode(r, m), fetch_prefixed(r, m))
}

/// The register file as the instruction sees it: the program counter moved
/// past a prefix byte.
pub open spec fn fetch_regs(r: CPURegistry, m: Memory) -> CPURegistry {
    if fetch_prefixed(r, m) {
        CPURegistry { pc: next_addr(r.pc), ..r }
    } else {
        r
    }
}

/// Register file and backing store after one step that does not fault: the
/// fetched instruction is carried out; unless it wrote the program counter,
/// the counter then moves past the opcode and its immediate bytes.
pub open spec fn step_spec(r: CPURegistry, m: Memory) -> (CPURegistry, Seq<u8>) {
    let ins = fetched(r, m);
    let r1 = fetch_regs(r, m);
    let done = execute_spec(r1, m, ins);
    if branch_taken(r1, ins) {
        done
    } else {
        (CPURegistry { pc: wrap16(r1.pc + 1 + ins.imm_len()), ..done.0 }, done.1)
    }
}

/// The processor: register file, address space and the most recently
/// executed instruction.
pub struct CPU {
    pub registry: CPURegistry,
    pub memory: Memory,
    pub last_instruction: Instructions,
}

impl CPU {
    pub open spec fn wf(&self) -> bool {
        self.memory.wf()
    }

    /// The part of the state that instructions change: the register file and
    /// the backing store of the address space.
    pub open spec fn machine(&self) -> (CPURegistry, Seq<u8>) {
        (self.registry, self.memory.memory@)
    }

    /// Everything outside `machine` is as in `other`, and the backing store
    /// has the same size.
    pub open spec fn same_frame(&self, other: &CPU) -> bool {
        &&& self.memory.bootrom@ == other.memory.bootrom@
        &&& self.memory.in_bootrom == other.memory.in_bootrom
        &&& self.memory.memory@.len() == other.memory.memory@.len()
        &&& self.last_instruction == other.last_instruction
    }

    /// Only the register file differs from `other`.
    pub open spec fn only_registers_changed(&self, other: &CPU) -> bool {
        &&& self.memory == other.memory
        &&& self.last_instruction == other.last_instruction
    }

    /// One fetch-decode-execute cycle: read the opcode (the byte after a prefix
    /// byte, from the second table), decode it and carry it out; unless it took
    /// a branch, move the program counter past the prefix, the opcode and the
    /// immediate bytes. An undefined opcode is reported and leaves the
    /// processor as it was.
    pub fn step(&mut self) -> (r: Result<(), CpuFault>)
        requires
            old(self).wf(),
        ensures
            final(self).wf(),
            fetched(old(self).registry, old(self).memory) is ILLEGAL ==> {
                &&& r == Err::<(), CpuFault>(
                    CpuFault::IllegalOpcode(fetch_opcode(old(self).registry, old(self).memory)),
                )
                &&& *final(self) == *old(self)
            },
            !(fetched(old(self).registry, old(self).memory) is ILLEGAL) ==> {
                &&& r == Ok::<(), CpuFault>(())
                &&& final(self).machine() == step_spec(old(self).registry, old(self).memory)
                &&& final(self).last_instruction == fetched(old(self).registry, old(self).memory)
                &&& final(self).memory.bootrom@ == old(self).memory.bootrom@
                &&& final(self).memory.in_bootrom == old(self).memory.in_bootrom
            },
    {
        let mut opcode = self.memory.read_byte(self.registry.pc);
        let prefixed = opcode == PREFIX_BYTE;
        if prefixed {
            opcode = self.memory.read_byte(self.registry.pc.wrapping_add(1));
        }
        let instruction = Instructions::read_byte(opcode, prefixed).unwrap();
        proof {
            lemma_decode_total(opcode, prefixed);
        }
        if let Instructions::ILLEGAL(byte) = instruction {
            return Err(CpuFault::IllegalOpcode(byte));
        }
        if prefixed {
            self.registry.pc = self.registry.pc.wrapping_add(1);
        }
        let previous_pc = self.registry.pc;
        let taken = self.takes_branch(&instruction);
        self.execution(&instruction);
        if !taken {
            self.registry.pc = previous_pc.wrapping_add(1 + instruction.immediate_len());
        }
        self.last_instruction = instruction;
        Ok(())
    }

    /// Zeroed registers and memory, no boot image mapped, NOP as the last
    /// instruction.
    pub fn new() -> (r: CPU)
        ensures
            r.wf(),
            r.registry == CPURegistry::zeroed(),
            !r.memory.in_bootrom,
            forall|i: int| 0 <= i < r.memory.memory@.len() ==> r.memory.memory@[i] == 0,
            r.last_instruction == Instructions::NOP(),
    {
        CPU { registry: CPURegistry::new(), memory: Memory::new(), last_instruction: Instructions::NOP() }
    }
}

} // verus!
