//! The CPU execution engine: register file, status flags, addressing-mode
//! resolution and instruction semantics.
//!
//! Every instruction is a single atomic transition from one full CPU state
//! (registers, flags, memory) to the next. The spec functions in this module
//! are the mathematical semantics of the 6502 instruction set; the executable
//! engine is proved to realise them exactly, including the documented
//! hardware quirks (zero-page wraparound, the indirect-pointer page-boundary
//! bug, signed branch offsets down to -128) and the flag discipline: zero and
//! sign always reflect the result register, carry and overflow change only
//! under arithmetic, shift and rotate instructions, and pure transfers such
//! as TXS touch no flag at all.
//!
//! All address arithmetic is modulo 65536: the program counter and the
//! address bus are 16 bits wide, so there is no address past 0xFFFF, and
//! indexed or indirect addressing that would run over the top of the
//! address space wraps around to its bottom, as the hardware's does.

use vstd::prelude::*;

use crate::arith::add16;
use crate::arith::add8;
use crate::arith::sub16;
use crate::arith::sub8;
use crate::arith::wadd16;
use crate::arith::wadd8;
use crate::arith::wsub16;
use crate::arith::wsub8;
use crate::bus::Bus;
use crate::errors::EmuError;
use crate::instruction::AddressMode;
use crate::instruction::Instruction;
use crate::instruction::Opcode;

verus! {

/// The seven status flags of the 6502.
#[derive(Clone, Copy, Debug, PartialEq, Eq, Structural)]
#[verifier::ext_equal]
pub struct StatusRegister {
    pub carry: bool,
    pub zero: bool,
    pub int_disabled: bool,
    pub dec_mode: bool,
    pub brk: bool,
    pub overflow: bool,
    pub sign: bool,
}

/// The register file: program counter, stack pointer, status register,
/// accumulator and the two index registers.
#[derive(Clone, Copy, Debug, PartialEq, Eq, Structural)]
#[verifier::ext_equal]
pub struct CPU {
    /// Program counter.
    pub pc: u16,
    /// Stack pointer: an index into the stack page 0x0100-0x01FF, growing
    /// downward (push decrements, pull increments).
    pub s: u8,
    /// Status register.
    pub p: StatusRegister,
    /// Accumulator.
    pub a: u8,
    /// X index register.
    pub x: u8,
    /// Y index register.
    pub y: u8,
}

/// A resolved operand: what an addressing mode hands the execution engine.
#[derive(Clone, Copy, Debug, PartialEq, Eq, Structural)]
pub enum Operand {
    /// No operand: the instruction is implicit.
    Implied,
    /// The instruction acts on the accumulator itself.
    Acc,
    /// A literal byte: an immediate value or a relative branch offset.
    Imm(u8),
    /// The effective address the instruction acts on.
    Addr(u16),
}

/// The power-up register state: stack pointer 0xFD, everything else zeroed
/// and every flag clear. Whether interrupt-disable should instead power up
/// set, as some hardware references have it, is an open question; this core
/// deliberately powers up with it clear, and a caller that wants the other
/// convention can set the flag before the first step.
pub open spec fn power_up() -> CPU {
    CPU {
        pc: 0,
        s: 0xFD,
        p: StatusRegister {
            carry: false,
            zero: false,
            int_disabled: false,
            dec_mode: false,
            brk: false,
            overflow: false,
            sign: false,
        },
        a: 0,
        x: 0,
        y: 0,
    }
}

/// The byte of memory `m` at address `a`.
pub open spec fn mem8(m: Seq<u8>, a: u16) -> u8 {
    m[a as int]
}

/// The 16-bit value formed from a low and a high byte, little-endian.
pub open spec fn word(lo: u8, hi: u8) -> u16 {
    (lo + hi * 256) as u16
}

/// The address holding the high byte of an indirect pointer's target: the
/// increment never carries out of the page, so a pointer whose low byte is
/// 0xFF reads its high byte from the start of the same page (the classic
/// hardware bug).
pub open spec fn same_page_next(ptr: u16) -> u16 {
    if ptr % 256 == 255 {
        (ptr - 255) as u16
    } else {
        (ptr + 1) as u16
    }
}

/// The two-byte little-endian operand at the program counter.
pub open spec fn abs_operand(c: CPU, m: Seq<u8>) -> u16 {
    word(mem8(m, c.pc), mem8(m, wadd16(c.pc, 1)))
}

/// The 16-bit word read from zero-page address `zp`, the high byte wrapping
/// within the zero page.
pub open spec fn zp_word(m: Seq<u8>, zp: u8) -> u16 {
    word(mem8(m, zp as u16), mem8(m, wadd8(zp, 1) as u16))
}

/// The jump target read through an Indirect-mode pointer, page bug included.
pub open spec fn indirect_target(m: Seq<u8>, ptr: u16) -> u16 {
    word(mem8(m, ptr), mem8(m, same_page_next(ptr)))
}

/// What resolving an addressing mode yields: the advanced program counter
/// and the operand. Resolution never writes memory.
pub open spec fn resolve_spec(mode: AddressMode, c: CPU, m: Seq<u8>) -> (u16, Operand) {
    match mode {
        AddressMode::Implicit => (c.pc, Operand::Implied),
        AddressMode::Accumulator => (c.pc, Operand::Acc),
        AddressMode::Immediate => (wadd16(c.pc, 1), Operand::Imm(mem8(m, c.pc))),
        AddressMode::Relative => (wadd16(c.pc, 1), Operand::Imm(mem8(m, c.pc))),
        AddressMode::ZeroPage => (wadd16(c.pc, 1), Operand::Addr(mem8(m, c.pc) as u16)),
        AddressMode::ZeroPageX => (
            wadd16(c.pc, 1),
            Operand::Addr(wadd8(mem8(m, c.pc), c.x) as u16),
        ),
        AddressMode::ZeroPageY => (
            wadd16(c.pc, 1),
            Operand::Addr(wadd8(mem8(m, c.pc), c.y) as u16),
        ),
        AddressMode::Absolute => (wadd16(c.pc, 2), Operand::Addr(abs_operand(c, m))),
        AddressMode::AbsoluteX => (
            wadd16(c.pc, 2),
            Operand::Addr(wadd16(abs_operand(c, m), c.x as u16)),
        ),
        AddressMode::AbsoluteY => (
            wadd16(c.pc, 2),
            Operand::Addr(wadd16(abs_operand(c, m), c.y as u16)),
        ),
        AddressMode::Indirect => (
            wadd16(c.pc, 2),
            Operand::Addr(indirect_target(m, abs_operand(c, m))),
        ),
        AddressMode::IndexedIndirect => (
            wadd16(c.pc, 1),
            Operand::Addr(zp_word(m, wadd8(mem8(m, c.pc), c.x))),
        ),
        AddressMode::IndirectIndexed => (
            wadd16(c.pc, 1),
            Operand::Addr(wadd16(zp_word(m, mem8(m, c.pc)), c.y as u16)),
        ),
    }
}

/// Status flags with zero and sign set to reflect the result byte `v`.
pub open spec fn spec_nz(p: StatusRegister, v: u8) -> StatusRegister {
    StatusRegister { zero: v == 0, sign: v & 0x80 != 0, ..p }
}

/// The status register packed into one byte, bit 5 always set and the break
/// flag carried in bit 4.
pub open spec fn status_to_byte(p: StatusRegister) -> u8 {
    ((if p.carry {
        0x01int
    } else {
        0int
    }) + (if p.zero {
        0x02int
    } else {
        0int
    }) + (if p.int_disabled {
        0x04int
    } else {
        0int
    }) + (if p.dec_mode {
        0x08int
    } else {
        0int
    }) + (if p.brk {
        0x10int
    } else {
        0int
    }) + 0x20int + (if p.overflow {
        0x40int
    } else {
        0int
    }) + (if p.sign {
        0x80int
    } else {
        0int
    })) as u8
}

/// The status register unpacked from one byte; bit 5 is ignored.
pub open spec fn byte_to_status(b: u8) -> StatusRegister {
    StatusRegister {
        carry: b & 0x01 != 0,
        zero: b & 0x02 != 0,
        int_disabled: b & 0x04 != 0,
        dec_mode: b & 0x08 != 0,
        brk: b & 0x10 != 0,
        overflow: b & 0x40 != 0,
        sign: b & 0x80 != 0,
    }
}

/// The branch target: the offset byte read as a signed two's-complement
/// value in -128..=127 and added to the program counter, which has already
/// advanced past the full branch instruction.
pub open spec fn branch_target(pc: u16, offset: u8) -> u16 {
    if offset < 0x80 {
        wadd16(pc, offset as u16)
    } else {
        wsub16(pc, (256 - offset) as u16)
    }
}

/// Which flag condition each branch mnemonic tests.
pub open spec fn branch_cond(op: Opcode, p: StatusRegister) -> bool {
    match op {
        Opcode::BCS => p.carry,
        Opcode::BCC => !p.carry,
        Opcode::BEQ => p.zero,
        Opcode::BNE => !p.zero,
        Opcode::BMI => p.sign,
        Opcode::BPL => !p.sign,
        Opcode::BVS => p.overflow,
        Opcode::BVC => !p.overflow,
        _ => false,
    }
}

/// Add-with-carry: the 8-bit sum of accumulator, operand and carry-in.
/// Carry is the carry out of bit 7; overflow is set exactly when the two
/// addends share a sign that the result does not.
pub open spec fn adc_spec(c: CPU, v: u8) -> CPU {
    let sum = c.a + v + (if c.p.carry {
        1int
    } else {
        0int
    });
    let r = (sum % 256) as u8;
    CPU {
        a: r,
        p: StatusRegister {
            carry: sum > 255,
            overflow: (c.a ^ r) & (v ^ r) & 0x80 != 0,
            zero: r == 0,
            sign: r & 0x80 != 0,
            ..c.p
        },
        ..c
    }
}

/// Compare: flags from the wrapping difference `reg - v`; carry means
/// `reg >= v`.
pub open spec fn compare_spec(p: StatusRegister, reg: u8, v: u8) -> StatusRegister {
    let t = wsub8(reg, v);
    StatusRegister { carry: reg >= v, zero: t == 0, sign: t & 0x80 != 0, ..p }
}

/// The value-consuming instructions: logic, arithmetic, comparisons, bit
/// test and loads. The program counter, stack pointer and memory are
/// untouched.
pub open spec fn val_op_spec(op: Opcode, c: CPU, v: u8) -> CPU {
    match op {
        Opcode::AND => {
            let r = c.a & v;
            CPU { a: r, p: spec_nz(c.p, r), ..c }
        },
        Opcode::ORA => {
            let r = c.a | v;
            CPU { a: r, p: spec_nz(c.p, r), ..c }
        },
        Opcode::EOR => {
            let r = c.a ^ v;
            CPU { a: r, p: spec_nz(c.p, r), ..c }
        },
        Opcode::ADC => adc_spec(c, v),
        Opcode::SBC => adc_spec(c, v ^ 0xFF),
        Opcode::CMP => CPU { p: compare_spec(c.p, c.a, v), ..c },
        Opcode::CPX => CPU { p: compare_spec(c.p, c.x, v), ..c },
        Opcode::CPY => CPU { p: compare_spec(c.p, c.y, v), ..c },
        Opcode::BIT => CPU {
            p: StatusRegister {
                zero: c.a & v == 0,
                overflow: v & 0x40 != 0,
                sign: v & 0x80 != 0,
                ..c.p
            },
            ..c
        },
        Opcode::LDA => CPU { a: v, p: spec_nz(c.p, v), ..c },
        Opcode::LDX => CPU { x: v, p: spec_nz(c.p, v), ..c },
        Opcode::LDY => CPU { y: v, p: spec_nz(c.p, v), ..c },
        _ => c,
    }
}

/// The read-modify-write instructions: shifts, rotates, increment and
/// decrement of a byte. Yields the rewritten byte and the new flags.
pub open spec fn rmw_spec(op: Opcode, p: StatusRegister, v: u8) -> (u8, StatusRegister) {
    match op {
        Opcode::ASL => {
            let r = v << 1;
            (r, StatusRegister { carry: v & 0x80 != 0, zero: r == 0, sign: r & 0x80 != 0, ..p })
        },
        Opcode::LSR => {
            let r = v >> 1;
            (r, StatusRegister { carry: v & 0x01 != 0, zero: r == 0, sign: r & 0x80 != 0, ..p })
        },
        Opcode::ROL => {
            let r = (v << 1) | (if p.carry {
                1u8
            } else {
                0u8
            });
            (r, StatusRegister { carry: v & 0x80 != 0, zero: r == 0, sign: r & 0x80 != 0, ..p })
        },
        Opcode::ROR => {
            let r = (v >> 1) | (if p.carry {
                0x80u8
            } else {
                0u8
            });
            (r, StatusRegister { carry: v & 0x01 != 0, zero: r == 0, sign: r & 0x80 != 0, ..p })
        },
        Opcode::INC => {
            let r = wadd8(v, 1);
            (r, spec_nz(p, r))
        },
        Opcode::DEC => {
            let r = wsub8(v, 1);
            (r, spec_nz(p, r))
        },
        _ => (v, p),
    }
}

/// The implicit register and flag instructions: index increments and
/// decrements (8-bit wraparound, never trapping), transfers (TXS alone
/// updates no flags), flag set/clear, BRK (sets the break flag) and NOP.
pub open spec fn implied_spec(op: Opcode, c: CPU) -> CPU {
    match op {
        Opcode::INX => {
            let r = wadd8(c.x, 1);
            CPU { x: r, p: spec_nz(c.p, r), ..c }
        },
        Opcode::INY => {
            let r = wadd8(c.y, 1);
            CPU { y: r, p: spec_nz(c.p, r), ..c }
        },
        Opcode::DEX => {
            let r = wsub8(c.x, 1);
            CPU { x: r, p: spec_nz(c.p, r), ..c }
        },
        Opcode::DEY => {
            let r = wsub8(c.y, 1);
            CPU { y: r, p: spec_nz(c.p, r), ..c }
        },
        Opcode::TAX => CPU { x: c.a, p: spec_nz(c.p, c.a), ..c },
        Opcode::TAY => CPU { y: c.a, p: spec_nz(c.p, c.a), ..c },
        Opcode::TXA => CPU { a: c.x, p: spec_nz(c.p, c.x), ..c },
        Opcode::TYA => CPU { a: c.y, p: spec_nz(c.p, c.y), ..c },
        Opcode::TSX => CPU { x: c.s, p: spec_nz(c.p, c.s), ..c },
        Opcode::TXS => CPU { s: c.x, ..c },
        Opcode::CLC => CPU { p: StatusRegister { carry: false, ..c.p }, ..c },
        Opcode::CLD => CPU { p: StatusRegister { dec_mode: false, ..c.p }, ..c },
        Opcode::CLI => CPU { p: StatusRegister { int_disabled: false, ..c.p }, ..c },
        Opcode::CLV => CPU { p: StatusRegister { overflow: false, ..c.p }, ..c },
        Opcode::SEC => CPU { p: StatusRegister { carry: true, ..c.p }, ..c },
        Opcode::SED => CPU { p: StatusRegister { dec_mode: true, ..c.p }, ..c },
        Opcode::SEI => CPU { p: StatusRegister { int_disabled: true, ..c.p }, ..c },
        Opcode::BRK => CPU { p: StatusRegister { brk: true, ..c.p }, ..c },
        Opcode::NOP => c,
        _ => c,
    }
}

/// The stack slot a stack pointer value names, inside page 0x0100-0x01FF.
pub open spec fn stack_addr(s: u8) -> u16 {
    (0x100 + s) as u16
}

/// Push: write `v` to the current stack slot, then decrement the pointer.
pub open spec fn push_spec(c: CPU, m: Seq<u8>, v: u8) -> (CPU, Seq<u8>) {
    (CPU { s: wsub8(c.s, 1), ..c }, m.update(stack_addr(c.s) as int, v))
}

/// Pull: increment the pointer, then read the stack slot it names.
pub open spec fn pull_spec(c: CPU, m: Seq<u8>) -> (CPU, u8) {
    let s2 = wadd8(c.s, 1);
    (CPU { s: s2, ..c }, m[stack_addr(s2) as int])
}

/// The failure outcome for an operand an instruction cannot use.
pub open spec fn exec_fail(c: CPU, m: Seq<u8>) -> (CPU, Seq<u8>, Result<(), EmuError>) {
    (c, m, Err(EmuError::UnsupportedAddressingMode))
}

/// A store of `v` through an effective address.
pub open spec fn store_spec(c: CPU, m: Seq<u8>, operand: Operand, v: u8) -> (
    CPU,
    Seq<u8>,
    Result<(), EmuError>,
) {
    match operand {
        Operand::Addr(a) => (c, m.update(a as int, v), Ok(())),
        _ => exec_fail(c, m),
    }
}

/// The execution semantics: one instruction applied to a resolved operand,
/// as a transition from CPU state and memory to CPU state, memory and
/// outcome. An operand kind the instruction cannot use yields the
/// unsupported-addressing-mode fault and leaves all state unchanged.
#[verifier::opaque]
pub open spec fn exec_spec(op: Opcode, operand: Operand, c: CPU, m: Seq<u8>) -> (
    CPU,
    Seq<u8>,
    Result<(), EmuError>,
) {
    match op {
        Opcode::AND | Opcode::ORA | Opcode::EOR | Opcode::ADC | Opcode::SBC | Opcode::CMP
            | Opcode::CPX | Opcode::CPY | Opcode::BIT | Opcode::LDA | Opcode::LDX
            | Opcode::LDY => match operand {
            Operand::Imm(v) => (val_op_spec(op, c, v), m, Ok(())),
            Operand::Addr(a) => (val_op_spec(op, c, mem8(m, a)), m, Ok(())),
            _ => exec_fail(c, m),
        },
        Opcode::ASL | Opcode::LSR | Opcode::ROL | Opcode::ROR => match operand {
            Operand::Acc => {
                let (r, p2) = rmw_spec(op, c.p, c.a);
                (CPU { a: r, p: p2, ..c }, m, Ok(()))
            },
            Operand::Addr(a) => {
                let (r, p2) = rmw_spec(op, c.p, mem8(m, a));
                (CPU { p: p2, ..c }, m.update(a as int, r), Ok(()))
            },
            _ => exec_fail(c, m),
        },
        Opcode::INC | Opcode::DEC => match operand {
            Operand::Addr(a) => {
                let (r, p2) = rmw_spec(op, c.p, mem8(m, a));
                (CPU { p: p2, ..c }, m.update(a as int, r), Ok(()))
            },
            _ => exec_fail(c, m),
        },
        Opcode::STA => store_spec(c, m, operand, c.a),
        Opcode::STX => store_spec(c, m, operand, c.x),
        Opcode::STY => store_spec(c, m, operand, c.y),
        Opcode::BCC | Opcode::BCS | Opcode::BEQ | Opcode::BNE | Opcode::BMI | Opcode::BPL
            | Opcode::BVC | Opcode::BVS => match operand {
            Operand::Imm(off) => (
                if branch_cond(op, c.p) {
                    CPU { pc: branch_target(c.pc, off), ..c }
                } else {
                    c
                },
                m,
                Ok(()),
            ),
            _ => exec_fail(c, m),
        },
        Opcode::JMP => match operand {
            Operand::Addr(t) => (CPU { pc: t, ..c }, m, Ok(())),
            _ => exec_fail(c, m),
        },
        Opcode::JSR => match operand {
            Operand::Addr(t) => {
                let ret = wsub16(c.pc, 1);
                let (c1, m1) = push_spec(c, m, (ret / 256) as u8);
                let (c2, m2) = push_spec(c1, m1, (ret % 256) as u8);
                (CPU { pc: t, ..c2 }, m2, Ok(()))
            },
            _ => exec_fail(c, m),
        },
        Opcode::RTS => {
            let (c1, lo) = pull_spec(c, m);
            let (c2, hi) = pull_spec(c1, m);
            (CPU { pc: wadd16(word(lo, hi), 1), ..c2 }, m, Ok(()))
        },
        Opcode::RTI => {
            let (c1, st) = pull_spec(c, m);
            let (c2, lo) = pull_spec(c1, m);
            let (c3, hi) = pull_spec(c2, m);
            (CPU { pc: word(lo, hi), p: byte_to_status(st), ..c3 }, m, Ok(()))
        },
        Opcode::PHA => {
            let (c2, m2) = push_spec(c, m, c.a);
            (c2, m2, Ok(()))
        },
        Opcode::PHP => {
            let (c2, m2) = push_spec(c, m, status_to_byte(c.p));
            (c2, m2, Ok(()))
        },
        Opcode::PLA => {
            let (c2, v) = pull_spec(c, m);
            (CPU { a: v, p: spec_nz(c2.p, v), ..c2 }, m, Ok(()))
        },
        Opcode::PLP => {
            let (c2, v) = pull_spec(c, m);
            (CPU { p: byte_to_status(v), ..c2 }, m, Ok(()))
        },
        _ => (implied_spec(op, c), m, Ok(())),
    }
}

/// One full instruction step after the opcode byte has been fetched: resolve
/// the addressing mode (advancing the program counter past the operand
/// bytes), then execute.
pub open spec fn step_spec(c: CPU, m: Seq<u8>, i: Instruction) -> (
    CPU,
    Seq<u8>,
    Result<(), EmuError>,
) {
    let (pc2, operand) = resolve_spec(i.address_mode, c, m);
    exec_spec(i.opcode, operand, CPU { pc: pc2, ..c }, m)
}

impl CPU {
    /// A CPU in the power-up state.
    pub fn new() -> (c: CPU)
        ensures
            c == power_up(),
    {
        CPU {
            pc: 0,
            s: 0xFD,
            p: StatusRegister {
                carry: false,
                zero: false,
                int_disabled: false,
                dec_mode: false,
                brk: false,
                overflow: false,
                sign: false,
            },
            a: 0,
            x: 0,
            y: 0,
        }
    }

    /// Set the zero and sign flags to reflect a result byte.
    fn set_zero_and_sign(&mut self, register: u8)
        ensures
            *final(self) == (CPU { p: spec_nz(old(self).p, register), ..*old(self) }),
    {
        self.p.zero = register == 0;
        self.p.sign = register & 0x80 != 0;
    }

    /// Change the program counter by the signed offset when `condition`
    /// holds.
    fn branch(&mut self, condition: bool, offset: u8)
        ensures
            condition ==> *final(self) == (CPU {
                pc: branch_target(old(self).pc, offset),
                ..*old(self)
            }),
            !condition ==> *final(self) == *old(self),
    {
        if condition {
            if offset < 0x80 {
                self.pc = add16(self.pc, offset as u16);
            } else {
                self.pc = sub16(self.pc, 0x100 - offset as u16);
            }
        }
    }

    /// Add-with-carry of `v` into the accumulator.
    fn do_adc(&mut self, v: u8)
        ensures
            *final(self) == adc_spec(*old(self), v),
    {
        let carry_in: u16 = if self.p.carry {
            1
        } else {
            0
        };
        let sum: u16 = self.a as u16 + v as u16 + carry_in;
        let r: u8 = (sum % 256) as u8;
        self.p = StatusRegister {
            carry: sum > 255,
            overflow: (self.a ^ r) & (v ^ r) & 0x80 != 0,
            zero: r == 0,
            sign: r & 0x80 != 0,
            ..self.p
        };
        self.a = r;
    }

    /// Compare a register against `v`.
    fn do_compare(&mut self, reg: u8, v: u8)
        ensures
            *final(self) == (CPU { p: compare_spec(old(self).p, reg, v), ..*old(self) }),
    {
        let t = sub8(reg, v);
        self.p = StatusRegister { carry: reg >= v, zero: t == 0, sign: t & 0x80 != 0, ..self.p };
    }

    /// Execute one value-consuming instruction on the value `v`.
    fn val_op(&mut self, op: Opcode, v: u8)
        ensures
            *final(self) == val_op_spec(op, *old(self), v),
    {
        match op {
            Opcode::AND => {
                let r = self.a & v;
                self.a = r;
                self.set_zero_and_sign(r);
            },
            Opcode::ORA => {
                let r = self.a | v;
                self.a = r;
                self.set_zero_and_sign(r);
            },
            Opcode::EOR => {
                let r = self.a ^ v;
                self.a = r;
                self.set_zero_and_sign(r);
            },
            Opcode::ADC => {
                self.do_adc(v);
            },
            Opcode::SBC => {
                self.do_adc(v ^ 0xFF);
            },
            Opcode::CMP => {
                let reg = self.a;
                self.do_compare(reg, v);
            },
            Opcode::CPX => {
                let reg = self.x;
                self.do_compare(reg, v);
            },
            Opcode::CPY => {
                let reg = self.y;
                self.do_compare(reg, v);
            },
            Opcode::BIT => {
                self.p = StatusRegister {
                    zero: self.a & v == 0,
                    overflow: v & 0x40 != 0,
                    sign: v & 0x80 != 0,
                    ..self.p
                };
            },
            Opcode::LDA => {
                self.a = v;
                self.set_zero_and_sign(v);
            },
            Opcode::LDX => {
                self.x = v;
                self.set_zero_and_sign(v);
            },
            Opcode::LDY => {
                self.y = v;
                self.set_zero_and_sign(v);
            },
            _ => {},
        }
    }

    /// Rewrite one byte under a shift, rotate, increment or decrement,
    /// updating the flags; returns the rewritten byte.
    fn rmw_value(&mut self, op: Opcode, v: u8) -> (r: u8)
        ensures
            ({
                let (rv, p2) = rmw_spec(op, old(self).p, v);
                r == rv && *final(self) == (CPU { p: p2, ..*old(self) })
            }),
    {
        match op {
            Opcode::ASL => {
                let r = v << 1u8;
                self.p = StatusRegister {
                    carry: v & 0x80 != 0,
                    zero: r == 0,
                    sign: r & 0x80 != 0,
                    ..self.p
                };
                r
            },
            Opcode::LSR => {
                let r = v >> 1u8;
                self.p = StatusRegister {
                    carry: v & 0x01 != 0,
                    zero: r == 0,
                    sign: r & 0x80 != 0,
                    ..self.p
                };
                r
            },
            Opcode::ROL => {
                let r = (v << 1u8) | (if self.p.carry {
                    1u8
                } else {
                    0u8
                });
                self.p = StatusRegister {
                    carry: v & 0x80 != 0,
                    zero: r == 0,
                    sign: r & 0x80 != 0,
                    ..self.p
                };
                r
            },
            Opcode::ROR => {
                let r = (v >> 1u8) | (if self.p.carry {
                    0x80u8
                } else {
                    0u8
                });
                self.p = StatusRegister {
                    carry: v & 0x01 != 0,
                    zero: r == 0,
                    sign: r & 0x80 != 0,
                    ..self.p
                };
                r
            },
            Opcode::INC => {
                let r = add8(v, 1);
                self.set_zero_and_sign(r);
                r
            },
            Opcode::DEC => {
                let r = sub8(v, 1);
                self.set_zero_and_sign(r);
                r
            },
            _ => {
                proof {
                    assert(*self =~= (CPU { p: self.p, ..*self }));
                }
                v
            },
        }
    }

    /// Execute one implicit register or flag instruction.
    fn implied_op(&mut self, op: Opcode)
        ensures
            *final(self) == implied_spec(op, *old(self)),
    {
        match op {
            Opcode::INX => {
                let r = add8(self.x, 1);
                self.x = r;
                self.set_zero_and_sign(r);
            },
            Opcode::INY => {
                let r = add8(self.y, 1);
                self.y = r;
                self.set_zero_and_sign(r);
            },
            Opcode::DEX => {
                let r = sub8(self.x, 1);
                self.x = r;
                self.set_zero_and_sign(r);
            },
            Opcode::DEY => {
                let r = sub8(self.y, 1);
                self.y = r;
                self.set_zero_and_sign(r);
            },
            Opcode::TAX => {
                self.x = self.a;
                let r = self.x;
                self.set_zero_and_sign(r);
            },
            Opcode::TAY => {
                self.y = self.a;
                let r = self.y;
                self.set_zero_and_sign(r);
            },
            Opcode::TXA => {
                self.a = self.x;
                let r = self.a;
                self.set_zero_and_sign(r);
            },
            Opcode::TYA => {
                self.a = self.y;
                let r = self.a;
                self.set_zero_and_sign(r);
            },
            Opcode::TSX => {
                self.x = self.s;
                let r = self.x;
                self.set_zero_and_sign(r);
            },
            Opcode::TXS => {
                self.s = self.x;
            },
            Opcode::CLC => {
                self.p.carry = false;
            },
            Opcode::CLD => {
                self.p.dec_mode = false;
            },
            Opcode::CLI => {
                self.p.int_disabled = false;
            },
            Opcode::CLV => {
                self.p.overflow = false;
            },
            Opcode::SEC => {
                self.p.carry = true;
            },
            Opcode::SED => {
                self.p.dec_mode = true;
            },
            Opcode::SEI => {
                self.p.int_disabled = true;
            },
            Opcode::BRK => {
                self.p.brk = true;
            },
            _ => {},
        }
    }

    /// Push `v` onto the stack: write it to the current stack slot, then
    /// decrement the stack pointer.
    fn push(&mut self, v: u8, bus: &mut Bus)
        requires
            old(bus).wf(),
        ensures
            final(bus).wf(),
            ({
                let (c2, m2) = push_spec(*old(self), old(bus)@, v);
                *final(self) == c2 && final(bus)@ == m2
            }),
    {
        let addr: u16 = 0x100 + self.s as u16;
        bus.write(addr, v);
        self.s = sub8(self.s, 1);
    }

    /// Pull a byte from the stack: increment the stack pointer, then read
    /// the slot it names.
    fn pull(&mut self, bus: &Bus) -> (v: u8)
        requires
            bus.wf(),
        ensures
            ({
                let (c2, vv) = pull_spec(*old(self), bus@);
                *final(self) == c2 && v == vv
            }),
    {
        self.s = add8(self.s, 1);
        bus.read(0x100 + self.s as u16)
    }

    /// The status register packed into one byte.
    fn status_byte(&self) -> (b: u8)
        ensures
            b == status_to_byte(self.p),
    {
        (if self.p.carry {
            0x01u8
        } else {
            0u8
        }) + (if self.p.zero {
            0x02u8
        } else {
            0u8
        }) + (if self.p.int_disabled {
            0x04u8
        } else {
            0u8
        }) + (if self.p.dec_mode {
            0x08u8
        } else {
            0u8
        }) + (if self.p.brk {
            0x10u8
        } else {
            0u8
        }) + 0x20u8 + (if self.p.overflow {
            0x40u8
        } else {
            0u8
        }) + (if self.p.sign {
            0x80u8
        } else {
            0u8
        })
    }

    /// Load the status register from a packed byte.
    fn set_status_byte(&mut self, b: u8)
        ensures
            *final(self) == (CPU { p: byte_to_status(b), ..*old(self) }),
    {
        self.p = StatusRegister {
            carry: b & 0x01 != 0,
            zero: b & 0x02 != 0,
            int_disabled: b & 0x04 != 0,
            dec_mode: b & 0x08 != 0,
            brk: b & 0x10 != 0,
            overflow: b & 0x40 != 0,
            sign: b & 0x80 != 0,
        };
    }

    /// The branch condition the mnemonic `op` tests.
    fn branch_flag(&self, op: Opcode) -> (b: bool)
        ensures
            b == branch_cond(op, self.p),
    {
        match op {
            Opcode::BCS => self.p.carry,
            Opcode::BCC => !self.p.carry,
            Opcode::BEQ => self.p.zero,
            Opcode::BNE => !self.p.zero,
            Opcode::BMI => self.p.sign,
            Opcode::BPL => !self.p.sign,
            Opcode::BVS => self.p.overflow,
            Opcode::BVC => !self.p.overflow,
            _ => false,
        }
    }

    /// Fetch the two-byte little-endian operand at the program counter and
    /// advance past it.
    fn fetch_abs(&mut self, bus: &Bus) -> (w: u16)
        requires
            bus.wf(),
        ensures
            w == abs_operand(*old(self), bus@),
            *final(self) == (CPU { pc: wadd16(old(self).pc, 2), ..*old(self) }),
    {
        let lo = bus.read(self.pc);
        let hi = bus.read(add16(self.pc, 1));
        self.pc = add16(self.pc, 2);
        lo as u16 + (hi as u16) * 256
    }

    /// Resolve an addressing mode: consume the operand bytes after the
    /// opcode (advancing the program counter past them) and produce the
    /// operand, reproducing the documented quirks: zero-page indexing wraps
    /// within the zero page, and an Indirect pointer whose low byte is 0xFF
    /// fetches the high target byte from the start of its own page.
    pub fn resolve(&mut self, mode: AddressMode, bus: &Bus) -> (o: Operand)
        requires
            bus.wf(),
        ensures
            ({
                let (pc2, oo) = resolve_spec(mode, *old(self), bus@);
                *final(self) == (CPU { pc: pc2, ..*old(self) }) && o == oo
            }),
    {
        match mode {
            AddressMode::Implicit => {
                proof {
                    assert(*self =~= (CPU { pc: self.pc, ..*self }));
                }
                Operand::Implied
            },
            AddressMode::Accumulator => {
                proof {
                    assert(*self =~= (CPU { pc: self.pc, ..*self }));
                }
                Operand::Acc
            },
            AddressMode::Immediate | AddressMode::Relative => {
                let v = bus.read(self.pc);
                self.pc = add16(self.pc, 1);
                Operand::Imm(v)
            },
            AddressMode::ZeroPage => {
                let zp = bus.read(self.pc);
                self.pc = add16(self.pc, 1);
                Operand::Addr(zp as u16)
            },
            AddressMode::ZeroPageX => {
                let zp = bus.read(self.pc);
                self.pc = add16(self.pc, 1);
                Operand::Addr(add8(zp, self.x) as u16)
            },
            AddressMode::ZeroPageY => {
                let zp = bus.read(self.pc);
                self.pc = add16(self.pc, 1);
                Operand::Addr(add8(zp, self.y) as u16)
            },
            AddressMode::Absolute => {
                let w = self.fetch_abs(bus);
                Operand::Addr(w)
            },
            AddressMode::AbsoluteX => {
                let w = self.fetch_abs(bus);
                Operand::Addr(add16(w, self.x as u16))
            },
            AddressMode::AbsoluteY => {
                let w = self.fetch_abs(bus);
                Operand::Addr(add16(w, self.y as u16))
            },
            AddressMode::Indirect => {
                let ptr = self.fetch_abs(bus);
                let lo = bus.read(ptr);
                let hi_addr: u16 = if ptr % 256 == 255 {
                    ptr - 255
                } else {
                    ptr + 1
                };
                let hi = bus.read(hi_addr);
                Operand::Addr(lo as u16 + (hi as u16) * 256)
            },
            AddressMode::IndexedIndirect => {
                let zp = bus.read(self.pc);
                self.pc = add16(self.pc, 1);
                let p = add8(zp, self.x);
                let lo = bus.read(p as u16);
                let hi = bus.read(add8(p, 1) as u16);
                Operand::Addr(lo as u16 + (hi as u16) * 256)
            },
            AddressMode::IndirectIndexed => {
                let zp = bus.read(self.pc);
                self.pc = add16(self.pc, 1);
                let lo = bus.read(zp as u16);
                let hi = bus.read(add8(zp, 1) as u16);
                let base = lo as u16 + (hi as u16) * 256;
                Operand::Addr(add16(base, self.y as u16))
            },
        }
    }

    /// Execute one instruction on its resolved operand, mutating registers,
    /// flags and possibly the bus, exactly as [`exec_spec`] states.
    fn exec_op(&mut self, op: Opcode, operand: Operand, bus: &mut Bus) -> (r: Result<
        (),
        EmuError,
    >)
        requires
            old(bus).wf(),
        ensures
            final(bus).wf(),
            ({
                let (c2, m2, r2) = exec_spec(op, operand, *old(self), old(bus)@);
                *final(self) == c2 && final(bus)@ == m2 && r == r2
            }),
    {
        proof {
            reveal(exec_spec);
        }
        match op {
            Opcode::AND | Opcode::ORA | Opcode::EOR | Opcode::ADC | Opcode::SBC | Opcode::CMP
                | Opcode::CPX | Opcode::CPY | Opcode::BIT | Opcode::LDA | Opcode::LDX
                | Opcode::LDY => match operand {
                Operand::Imm(v) => {
                    self.val_op(op, v);
                    Ok(())
                },
                Operand::Addr(a) => {
                    let v = bus.read(a);
                    self.val_op(op, v);
                    Ok(())
                },
                _ => Err(EmuError::UnsupportedAddressingMode),
            },
            Opcode::ASL | Opcode::LSR | Opcode::ROL | Opcode::ROR => match operand {
                Operand::Acc => {
                    let v = self.a;
                    let r = self.rmw_value(op, v);
                    self.a = r;
                    Ok(())
                },
                Operand::Addr(a) => {
                    let v = bus.read(a);
                    let r = self.rmw_value(op, v);
                    bus.write(a, r);
                    Ok(())
                },
                _ => Err(EmuError::UnsupportedAddressingMode),
            },
            Opcode::INC | Opcode::DEC => match operand {
                Operand::Addr(a) => {
                    let v = bus.read(a);
                    let r = self.rmw_value(op, v);
                    bus.write(a, r);
                    Ok(())
                },
                _ => Err(EmuError::UnsupportedAddressingMode),
            },
            Opcode::STA => match operand {
                Operand::Addr(a) => {
                    bus.write(a, self.a);
                    Ok(())
                },
                _ => Err(EmuError::UnsupportedAddressingMode),
            },
            Opcode::STX => match operand {
                Operand::Addr(a) => {
                    bus.write(a, self.x);
                    Ok(())
                },
                _ => Err(EmuError::UnsupportedAddressingMode),
            },
            Opcode::STY => match operand {
                Operand::Addr(a) => {
                    bus.write(a, self.y);
                    Ok(())
                },
                _ => Err(EmuError::UnsupportedAddressingMode),
            },
            Opcode::BCC | Opcode::BCS | Opcode::BEQ | Opcode::BNE | Opcode::BMI | Opcode::BPL
                | Opcode::BVC | Opcode::BVS => match operand {
                Operand::Imm(off) => {
                    let condition = self.branch_flag(op);
                    self.branch(condition, off);
                    Ok(())
                },
                _ => Err(EmuError::UnsupportedAddressingMode),
            },
            Opcode::JMP => match operand {
                Operand::Addr(t) => {
                    self.pc = t;
                    Ok(())
                },
                _ => Err(EmuError::UnsupportedAddressingMode),
            },
            Opcode::JSR => match operand {
                Operand::Addr(t) => {
                    let ret = sub16(self.pc, 1);
                    self.push((ret / 256) as u8, bus);
                    self.push((ret % 256) as u8, bus);
                    self.pc = t;
                    Ok(())
                },
                _ => Err(EmuError::UnsupportedAddressingMode),
            },
            Opcode::RTS => {
                let lo = self.pull(bus);
                let hi = self.pull(bus);
                self.pc = add16(lo as u16 + (hi as u16) * 256, 1);
                Ok(())
            },
            Opcode::RTI => {
                let st = self.pull(bus);
                let lo = self.pull(bus);
                let hi = self.pull(bus);
                self.set_status_byte(st);
                self.pc = lo as u16 + (hi as u16) * 256;
                Ok(())
            },
            Opcode::PHA => {
                let v = self.a;
                self.push(v, bus);
                Ok(())
            },
            Opcode::PHP => {
                let v = self.status_byte();
                self.push(v, bus);
                Ok(())
            },
            Opcode::PLA => {
                let v = self.pull(bus);
                self.a = v;
                self.set_zero_and_sign(v);
                Ok(())
            },
            Opcode::PLP => {
                let v = self.pull(bus);
                self.set_status_byte(v);
                Ok(())
            },
            _ => {
                self.implied_op(op);
                Ok(())
            },
        }
    }

    /// Execute one decoded instruction: resolve its addressing mode against
    /// the bus (consuming operand bytes and advancing the program counter),
    /// then perform the operation, exactly as [`step_spec`] states.
    pub fn step(&mut self, instruction: Instruction, bus: &mut Bus) -> (r: Result<(), EmuError>)
        requires
            old(bus).wf(),
        ensures
            final(bus).wf(),
            ({
                let (c2, m2, r2) = step_spec(*old(self), old(bus)@, instruction);
                *final(self) == c2 && final(bus)@ == m2 && r == r2
            }),
    {
        let operand = self.resolve(instruction.address_mode, bus);
        self.exec_op(instruction.opcode, operand, bus)
    }
}

/// What executing PHA yields: exactly a push of the accumulator.
#[verifier::spinoff_prover]
pub proof fn lemma_pha_is_push(c: CPU, m: Seq<u8>)
    ensures
        exec_spec(Opcode::PHA, Operand::Implied, c, m) == (
            CPU { s: wsub8(c.s, 1), ..c },
            m.update(stack_addr(c.s) as int, c.a),
            Ok::<(), EmuError>(()),
        ),
{
    reveal(exec_spec);
}

/// What executing PLA yields: exactly a pull into the accumulator, with the
/// zero and sign flags reflecting the pulled byte.
#[verifier::spinoff_prover]
pub proof fn lemma_pla_is_pull(c: CPU, m: Seq<u8>)
    ensures
        ({
            let s2 = wadd8(c.s, 1);
            let v = m[stack_addr(s2) as int];
            exec_spec(Opcode::PLA, Operand::Implied, c, m) == (
                CPU { a: v, s: s2, p: spec_nz(c.p, v), ..c },
                m,
                Ok::<(), EmuError>(()),
            )
        }),
{
    reveal(exec_spec);
}

/// Stack round trip: pushing the accumulator and then pulling it restores
/// the original accumulator value and leaves the stack pointer unchanged
/// from its pre-push value, from any starting state.
#[verifier::spinoff_prover]
pub proof fn lemma_stack_round_trip(c: CPU, m: Seq<u8>)
    requires
        m.len() == 0x10000,
    ensures
        ({
            let (c1, m1, r1) = exec_spec(Opcode::PHA, Operand::Implied, c, m);
            let (c2, m2, r2) = exec_spec(Opcode::PLA, Operand::Implied, c1, m1);
            r1 == Ok::<(), EmuError>(()) && r2 == Ok::<(), EmuError>(()) && c2.a == c.a && c2.s
                == c.s
        }),
{
    lemma_pha_is_push(c, m);
    let c1 = CPU { s: wsub8(c.s, 1), ..c };
    let m1 = m.update(stack_addr(c.s) as int, c.a);
    lemma_pla_is_pull(c1, m1);
    assert(wadd8(wsub8(c.s, 1), 1) == c.s);
    assert(m1[stack_addr(c.s) as int] == c.a);
}

/// The shape of an operand, for relating addressing modes to the operand
/// kinds the instructions accept.
#[derive(Clone, Copy, Debug, PartialEq, Eq, Structural)]
pub enum OperandKind {
    KindImplied,
    KindAcc,
    KindImm,
    KindAddr,
}

/// The shape of a resolved operand.
pub open spec fn kind_of(o: Operand) -> OperandKind {
    match o {
        Operand::Implied => OperandKind::KindImplied,
        Operand::Acc => OperandKind::KindAcc,
        Operand::Imm(_) => OperandKind::KindImm,
        Operand::Addr(_) => OperandKind::KindAddr,
    }
}

/// The operand shape each addressing mode resolves to.
pub open spec fn mode_kind(mode: AddressMode) -> OperandKind {
    match mode {
        AddressMode::Implicit => OperandKind::KindImplied,
        AddressMode::Accumulator => OperandKind::KindAcc,
        AddressMode::Immediate => OperandKind::KindImm,
        AddressMode::Relative => OperandKind::KindImm,
        _ => OperandKind::KindAddr,
    }
}

/// The operand shapes each mnemonic executes without a fault.
pub open spec fn accepts(op: Opcode, k: OperandKind) -> bool {
    match op {
        Opcode::AND | Opcode::ORA | Opcode::EOR | Opcode::ADC | Opcode::SBC | Opcode::CMP
            | Opcode::CPX | Opcode::CPY | Opcode::BIT | Opcode::LDA | Opcode::LDX
            | Opcode::LDY => k == OperandKind::KindImm || k == OperandKind::KindAddr,
        Opcode::ASL | Opcode::LSR | Opcode::ROL | Opcode::ROR => k == OperandKind::KindAcc || k
            == OperandKind::KindAddr,
        Opcode::INC | Opcode::DEC | Opcode::STA | Opcode::STX | Opcode::STY | Opcode::JMP
            | Opcode::JSR => k == OperandKind::KindAddr,
        Opcode::BCC | Opcode::BCS | Opcode::BEQ | Opcode::BNE | Opcode::BMI | Opcode::BPL
            | Opcode::BVC | Opcode::BVS => k == OperandKind::KindImm,
        _ => true,
    }
}

/// Resolution yields exactly the operand shape its mode announces.
pub proof fn lemma_resolve_kind(mode: AddressMode, c: CPU, m: Seq<u8>)
    ensures
        kind_of(resolve_spec(mode, c, m).1) == mode_kind(mode),
{
}

/// Execution succeeds exactly on the operand shapes the mnemonic accepts.
#[verifier::spinoff_prover]
#[verifier::rlimit(50)]
pub proof fn lemma_exec_ok(op: Opcode, o: Operand, c: CPU, m: Seq<u8>)
    ensures
        exec_spec(op, o, c, m).2 is Ok <==> accepts(op, kind_of(o)),
{
    reveal(exec_spec);
}

/// Every pair the opcode table produces is compatible: the mnemonic accepts
/// the operand shape of its addressing mode.
#[verifier::spinoff_prover]
#[verifier::rlimit(50)]
pub proof fn lemma_decode_compatible(b: u8)
    ensures
        crate::instruction::decode_table(b) matches Ok(i) ==> accepts(
            i.opcode,
            mode_kind(i.address_mode),
        ),
{
}

/// The unsupported-addressing-mode fault is only a safety valve: a step of
/// any instruction the opcode table produces never raises it.
pub proof fn lemma_decoded_step_never_faults(b: u8, c: CPU, m: Seq<u8>)
    requires
        crate::instruction::decode_table(b) matches Ok(i),
    ensures
        crate::instruction::decode_table(b) matches Ok(i) ==> step_spec(c, m, i).2 is Ok,
{
    let i = crate::instruction::decode_table(b)->Ok_0;
    let (pc2, operand) = resolve_spec(i.address_mode, c, m);
    lemma_resolve_kind(i.address_mode, c, m);
    lemma_decode_compatible(b);
    lemma_exec_ok(i.opcode, operand, CPU { pc: pc2, ..c }, m);
}

} // verus!
