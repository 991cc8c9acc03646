//! The execution loop: fetch, decode, resolve, execute, until a halt
//! condition.
//!
//! The loop reads the byte at the program counter, decodes it against the
//! opcode table, advances past the opcode byte, and hands the instruction to
//! the CPU, which consumes any further operand bytes. It stops when decode
//! meets an unsupported opcode (fatal), when the break flag becomes set (a
//! controlled halt), when the program counter runs past the end of the
//! loaded program (fatal: a runaway program), or when the step budget runs
//! out. On a fatal condition the loop reports the cause rather than
//! continuing with undefined state.

use vstd::prelude::*;

use crate::arith::add16;
use crate::arith::wadd16;
use crate::bus::ADDRESS_SPACE;
use crate::bus::Bus;
use crate::cpu::lemma_decoded_step_never_faults;
use crate::cpu::power_up;
use crate::cpu::step_spec;
use crate::cpu::CPU;
use crate::errors::EmuError;
use crate::errors::RomFormatError;
use crate::instruction::decode_table;
use crate::instruction::lemma_decode_err_shape;
use crate::instruction::Instruction;
use crate::rom::verify_spec;
use crate::rom::ROM;

verus! {

/// Why the execution loop stopped.
#[derive(Clone, Copy, Debug, PartialEq, Eq, Structural)]
pub enum Halt {
    /// The break flag became set: a controlled halt.
    Break,
    /// The program counter ran past the end of the loaded program: a
    /// runaway program.
    EndOfProgram,
    /// The step budget was exhausted before any halt condition arose.
    StepLimit,
}


/// Memory after a program image is copied to the bottom of the address
/// space.
pub open spec fn loaded_mem(m: Seq<u8>, prg: Seq<u8>) -> Seq<u8> {
    Seq::new(
        m.len(),
        |i: int|
            if i < prg.len() {
                prg[i]
            } else {
                m[i]
            },
    )
}

/// One transition of the execution loop on a machine configuration
/// (registers, memory): the program counter still lies inside the loaded
/// program, the byte there decodes, and one step of the decoded instruction
/// (from the state advanced past the opcode byte) succeeds and yields the
/// next configuration.
pub open spec fn loop_step(prg_len: int, s1: (CPU, Seq<u8>), s2: (CPU, Seq<u8>)) -> bool {
    s1.0.pc < prg_len && match decode_table(s1.1[s1.0.pc as int]) {
        Ok(i) => {
            let c1 = CPU { pc: wadd16(s1.0.pc, 1), ..s1.0 };
            let (c2, m2, r) = step_spec(c1, s1.1, i);
            r is Ok && s2 == (c2, m2)
        },
        Err(_) => false,
    }
}

/// Configuration `s2` is reached from `s1` by exactly `n` loop transitions.
pub open spec fn runs_to(prg_len: int, s1: (CPU, Seq<u8>), s2: (CPU, Seq<u8>), n: nat) -> bool
    decreases n,
{
    if n == 0 {
        s1 == s2
    } else {
        exists|mid: (CPU, Seq<u8>)|
            runs_to(prg_len, s1, mid, (n - 1) as nat) && loop_step(prg_len, mid, s2)
    }
}

/// A run extends by one further transition.
pub proof fn lemma_runs_to_extend(
    prg_len: int,
    s1: (CPU, Seq<u8>),
    mid: (CPU, Seq<u8>),
    s2: (CPU, Seq<u8>),
    n: nat,
)
    requires
        runs_to(prg_len, s1, mid, n),
        loop_step(prg_len, mid, s2),
    ensures
        runs_to(prg_len, s1, s2, n + 1),
{
    assert(runs_to(prg_len, s1, mid, ((n + 1) - 1) as nat) && loop_step(prg_len, mid, s2));
}

/// A cartridge the loop will actually load and run: the feature check
/// passes and the program image fits the 64 KiB address space (a machine
/// limit of this core, checked before loading).
pub open spec fn runnable(rom: ROM) -> bool {
    verify_spec(rom) is Ok && rom.prg_rom@.len() <= ADDRESS_SPACE
}

/// One emulated machine: a CPU and the memory bus it exclusively owns.
pub struct Nes {
    pub cpu: CPU,
    pub bus: Bus,
}

impl Nes {
    /// Well-formedness: the bus covers the whole address space.
    pub open spec fn wf(&self) -> bool {
        self.bus.wf()
    }

    /// A machine with a power-up CPU and zeroed memory.
    pub fn new() -> (n: Nes)
        ensures
            n.wf(),
            n.cpu == power_up(),
            forall|i: int| 0 <= i < ADDRESS_SPACE ==> n.bus@[i] == 0u8,
    {
        Nes { cpu: CPU::new(), bus: Bus::new() }
    }

    /// Copy a program image to the bottom of the address space, leaving the
    /// rest of memory and the CPU untouched.
    pub fn load_program(&mut self, prg: &Vec<u8>)
        requires
            old(self).wf(),
            prg@.len() <= ADDRESS_SPACE,
        ensures
            final(self).wf(),
            final(self).cpu == old(self).cpu,
            forall|i: int| 0 <= i < prg@.len() ==> final(self).bus@[i] == prg@[i],
            forall|i: int|
                prg@.len() <= i < ADDRESS_SPACE ==> final(self).bus@[i] == old(self).bus@[i],
            final(self).bus@ == loaded_mem(old(self).bus@, prg@),
    {
        let mut i: usize = 0;
        let len: usize = prg.len();
        while i < len
            invariant
                self.wf(),
                i <= len,
                len == prg@.len(),
                len <= ADDRESS_SPACE,
                self.cpu == old(self).cpu,
                forall|k: int| 0 <= k < i ==> self.bus@[k] == prg@[k],
                forall|k: int| i <= k < ADDRESS_SPACE ==> self.bus@[k] == old(self).bus@[k],
            decreases len - i,
        {
            self.bus.write(i as u16, prg[i]);
            i += 1;
        }
        proof {
            assert(self.bus@ =~= loaded_mem(old(self).bus@, prg@));
        }
    }

    /// Verify `rom`, load its program image at address zero, and run the
    /// fetch-decode-resolve-execute loop until a halt condition or the step
    /// budget is reached.
    ///
    /// A rejected container, or a program image too large for the address
    /// space, is reported before anything is loaded or run, with the
    /// machine unchanged. Otherwise the final machine state is exactly what
    /// some number of loop transitions, at most the step budget, produces
    /// from the freshly loaded image; a step-budget halt took exactly the
    /// budget. A break-flag halt left the break flag set and took at least
    /// one transition; an end-of-program halt left the program counter past
    /// the loaded image; an unsupported-opcode fault names the byte the run
    /// actually reached, which the opcode table truly rejects, and no other
    /// fault can arise.
    pub fn execute(&mut self, rom: &ROM, max_steps: u64) -> (r: Result<Halt, EmuError>)
        requires
            old(self).wf(),
        ensures
            final(self).wf(),
            verify_spec(*rom) matches Err(e) ==> r == Err::<Halt, EmuError>(EmuError::RomFormat(e))
                && *final(self) == *old(self),
            verify_spec(*rom) is Ok && rom.prg_rom@.len() > ADDRESS_SPACE ==> r == Err::<
                Halt,
                EmuError,
            >(EmuError::RomFormat(RomFormatError::OversizedProgram)) && *final(self) == *old(
                self,
            ),
            runnable(*rom) ==> !(r matches Err(EmuError::RomFormat(_))),
            r == Ok::<Halt, EmuError>(Halt::Break) ==> final(self).cpu.p.brk && exists|n: nat|
                1 <= n <= max_steps && #[trigger] runs_to(
                    rom.prg_rom@.len() as int,
                    (old(self).cpu, loaded_mem(old(self).bus@, rom.prg_rom@)),
                    (final(self).cpu, final(self).bus@),
                    n,
                ),
            r == Ok::<Halt, EmuError>(Halt::EndOfProgram) ==> final(self).cpu.pc as int
                >= rom.prg_rom@.len(),
            r matches Err(EmuError::UnsupportedOpcode(b)) ==> (final(self).cpu.pc as int)
                < rom.prg_rom@.len() && b == final(self).bus@[final(self).cpu.pc as int]
                && decode_table(b) == Err::<Instruction, EmuError>(
                EmuError::UnsupportedOpcode(b),
            ),
            runnable(*rom) ==> !(r matches Err(EmuError::UnsupportedAddressingMode)),
            runnable(*rom) ==> exists|n: nat|
                n <= max_steps && #[trigger] runs_to(
                    rom.prg_rom@.len() as int,
                    (old(self).cpu, loaded_mem(old(self).bus@, rom.prg_rom@)),
                    (final(self).cpu, final(self).bus@),
                    n,
                ),
            runnable(*rom) && r == Ok::<Halt, EmuError>(Halt::StepLimit) ==> runs_to(
                rom.prg_rom@.len() as int,
                (old(self).cpu, loaded_mem(old(self).bus@, rom.prg_rom@)),
                (final(self).cpu, final(self).bus@),
                max_steps as nat,
            ),
    {
        match rom.verify() {
            Err(e) => {
                return Err(EmuError::RomFormat(e));
            },
            Ok(()) => {},
        }
        if rom.prg_rom.len() > ADDRESS_SPACE {
            return Err(EmuError::RomFormat(RomFormatError::OversizedProgram));
        }
        self.load_program(&rom.prg_rom);
        let ghost start: (CPU, Seq<u8>) = (self.cpu, self.bus@);
        let prg_len: usize = rom.prg_rom.len();
        let mut steps: u64 = 0;
        loop
            invariant
                self.wf(),
                steps <= max_steps,
                prg_len == rom.prg_rom@.len(),
                prg_len <= ADDRESS_SPACE,
                verify_spec(*rom) is Ok,
                start == (old(self).cpu, loaded_mem(old(self).bus@, rom.prg_rom@)),
                runs_to(prg_len as int, start, (self.cpu, self.bus@), steps as nat),
            decreases max_steps - steps,
        {
            let ghost before: (CPU, Seq<u8>) = (self.cpu, self.bus@);
            if steps >= max_steps {
                proof {
                    assert(steps == max_steps);
                }
                return Ok(Halt::StepLimit);
            }
            if self.cpu.pc as usize >= prg_len {
                return Ok(Halt::EndOfProgram);
            }
            let byte = self.bus.read(self.cpu.pc);
            let instruction = match Instruction::new(byte) {
                Err(e) => {
                    proof {
                        lemma_decode_err_shape(byte);
                    }
                    return Err(e);
                },
                Ok(instruction) => instruction,
            };
            self.cpu.pc = add16(self.cpu.pc, 1);
            let ghost old_cpu = self.cpu;
            let ghost old_mem = self.bus@;
            match self.cpu.step(instruction, &mut self.bus) {
                Err(e) => {
                    proof {
                        lemma_decoded_step_never_faults(byte, old_cpu, old_mem);
                        assert(false);
                    }
                    return Err(e);
                },
                Ok(()) => {},
            }
            proof {
                assert(loop_step(prg_len as int, before, (self.cpu, self.bus@)));
                lemma_runs_to_extend(
                    prg_len as int,
                    start,
                    before,
                    (self.cpu, self.bus@),
                    steps as nat,
                );
            }
            if self.cpu.p.brk {
                return Ok(Halt::Break);
            }
            steps = steps + 1;
        }
    }

}

} // verus!
