//! The register file and the executor.
//!
//! What each instruction does is defined once, as a function on register
//! values and on the memory as a sequence of bytes (`Cpu::stepped`);
//! `Cpu::do_instruction` is proved to do exactly that.

use vstd::prelude::*;
use crate::bits::{add16, add8, bit_of, displacement, high_byte, low_byte, make_word, split_word, word};
use crate::cpu_status::CPUStatus;
use crate::instruction::{decode_window, Opcode};
use crate::mmu::{Mmu, MAX_MMU_RAM};

verus! {

/// The registers of the processor: the primary set, the shadow set that only
/// an exchange instruction reaches, the 16-bit registers, the interrupt and
/// refresh registers and the interrupt-enable latch.
#[derive(Copy, Clone, Debug, PartialEq, Eq, Structural)]
pub struct Cpu {
    pub reg_a: u8,
    pub reg_f: CPUStatus,
    pub reg_b: u8,
    pub reg_c: u8,
    pub reg_d: u8,
    pub reg_e: u8,
    pub reg_h: u8,
    pub reg_l: u8,
    pub reg_a_prime: u8,
    pub reg_f_prime: CPUStatus,
    pub reg_b_prime: u8,
    pub reg_c_prime: u8,
    pub reg_d_prime: u8,
    pub reg_e_prime: u8,
    pub reg_h_prime: u8,
    pub reg_l_prime: u8,
    pub reg_pc: u16,
    pub reg_sp: u16,
    pub reg_ix: u16,
    pub reg_iy: u16,
    pub reg_i: u8,
    pub reg_r: u8,
    pub interrupt_enable: bool,
}

/// Flags after a logical operation with the given result: sign and zero
/// follow the result, half-carry is as given, the others are cleared.
pub open spec fn logic_flags(f: CPUStatus, result: u8, half_carry: bool) -> CPUStatus {
    CPUStatus {
        sign: result >= 128,
        zero: result == 0,
        half_carry,
        overflow: false,
        add_sub: false,
        carry: false,
        ..f
    }
}

/// Flags after comparing `minuend` with `subtrahend`: sign and zero follow
/// the difference, half-carry is bit 5 of the difference, carry tells that
/// the minuend is the smaller one.
pub open spec fn compare_flags(f: CPUStatus, minuend: u8, subtrahend: u8) -> CPUStatus {
    let difference = add8(minuend, -subtrahend);
    CPUStatus {
        sign: difference >= 128,
        zero: difference == 0,
        half_carry: bit_of(difference, 5),
        overflow: false,
        add_sub: true,
        carry: minuend < subtrahend,
        ..f
    }
}

/// Flags after incrementing `before`: overflow when it was the largest
/// positive value, half-carry is bit 4 of the new value, carry is kept.
pub open spec fn inc_flags(f: CPUStatus, before: u8) -> CPUStatus {
    let after = add8(before, 1);
    CPUStatus {
        overflow: before == 0x7F,
        sign: after >= 128,
        zero: after == 0,
        half_carry: bit_of(after, 4),
        add_sub: false,
        ..f
    }
}

/// Flags after decrementing `before`: overflow when it was the smallest
/// negative value, half-carry is bit 5 of the new value, carry is kept.
pub open spec fn dec_flags(f: CPUStatus, before: u8) -> CPUStatus {
    let after = add8(before, -1);
    CPUStatus {
        overflow: before == 0x80,
        sign: after >= 128,
        zero: after == 0,
        half_carry: bit_of(after, 5),
        add_sub: true,
        ..f
    }
}

/// Flags after rotating `before` to the right: carry is the bit that left at
/// the low end, half-carry and add/subtract are cleared, the others stay.
pub open spec fn rotate_flags(f: CPUStatus, before: u8) -> CPUStatus {
    CPUStatus { carry: bit_of(before, 0), half_carry: false, add_sub: false, ..f }
}

/// `byte` rotated right by one bit: bit 0 comes back in as bit 7.
pub open spec fn rotated_right(byte: u8) -> u8 {
    (byte / 2 + 128 * (byte % 2)) as u8
}

/// Byte `k` of a four-byte window, byte 0 being the most significant.
pub open spec fn window_byte(instr: u32, k: int) -> u8 {
    if k == 0 {
        (instr / 0x1000000) as u8
    } else if k == 1 {
        ((instr / 0x10000) % 0x100) as u8
    } else if k == 2 {
        ((instr / 0x100) % 0x100) as u8
    } else {
        (instr % 0x100) as u8
    }
}

/// The two operand bytes of the instruction at the start of a window, the
/// low byte first: bytes 1 and 2, or bytes 2 and 3 where a prefix byte comes
/// first and the opcode byte second.
pub open spec fn operand_bytes(instr: u32, prefixed: bool) -> (u8, u8) {
    if prefixed {
        (window_byte(instr, 2), window_byte(instr, 3))
    } else {
        (window_byte(instr, 1), window_byte(instr, 2))
    }
}

/// Whether the executor carries out `op`. The other opcodes stop the run:
/// `Invalid`, and those that the decoder knows but the executor does not.
pub open spec fn is_implemented(op: Opcode) -> bool {
    !(op == Opcode::Invalid || op == Opcode::AddHlBc || op == Opcode::DecC || op == Opcode::LdBB
        || op == Opcode::LdCC || op == Opcode::LdSpNN)
}

impl Cpu {
    /// The registers after power-on: all zero, interrupts enabled.
    pub open spec fn reset() -> Cpu {
        Cpu {
            reg_a: 0,
            reg_f: CPUStatus::cleared(),
            reg_b: 0,
            reg_c: 0,
            reg_d: 0,
            reg_e: 0,
            reg_h: 0,
            reg_l: 0,
            reg_a_prime: 0,
            reg_f_prime: CPUStatus::cleared(),
            reg_b_prime: 0,
            reg_c_prime: 0,
            reg_d_prime: 0,
            reg_e_prime: 0,
            reg_h_prime: 0,
            reg_l_prime: 0,
            reg_pc: 0,
            reg_sp: 0,
            reg_ix: 0,
            reg_iy: 0,
            reg_i: 0,
            reg_r: 0,
            interrupt_enable: true,
        }
    }

    /// Pushing a byte: the stack pointer goes down by one, wrapping from 0
    /// to 0xFFFF, and the byte is stored where it then points.
    pub open spec fn pushed(self, mem: Seq<u8>, val: u8) -> (Cpu, Seq<u8>) {
        let sp = add16(self.reg_sp, -1);
        (Cpu { reg_sp: sp, ..self }, mem.update(sp as int, val))
    }

    /// Popping a byte: the byte under the stack pointer is read, then the
    /// stack pointer goes up by one, wrapping from 0xFFFF to 0.
    pub open spec fn popped(self, mem: Seq<u8>) -> (Cpu, u8) {
        (Cpu { reg_sp: add16(self.reg_sp, 1), ..self }, mem[self.reg_sp as int])
    }

    /// A call: the program counter is stored below the stack pointer, its
    /// upper byte at the higher address, and execution goes on at `addr`.
    pub open spec fn called(self, mem: Seq<u8>, addr: u16) -> (Cpu, Seq<u8>) {
        (
            Cpu { reg_pc: addr, reg_sp: add16(self.reg_sp, -2), ..self },
            mem.update(add16(self.reg_sp, -1) as int, high_byte(self.reg_pc)).update(
                add16(self.reg_sp, -2) as int,
                low_byte(self.reg_pc),
            ),
        )
    }

    /// A return: the program counter is read back from the two bytes at the
    /// stack pointer, the lower byte first, and the stack pointer goes up
    /// by two.
    pub open spec fn returned(self, mem: Seq<u8>) -> Cpu {
        Cpu {
            reg_pc: word(mem[add16(self.reg_sp, 1) as int], mem[self.reg_sp as int]),
            reg_sp: add16(self.reg_sp, 2),
            ..self
        }
    }

    /// What an arithmetic or logical instruction does: the accumulator, or
    /// the register it names, and the flags change. Other opcodes change
    /// nothing here.
    pub open spec fn computed(self, op: Opcode, mem: Seq<u8>, lo: u8) -> Cpu {
        match op {
            Opcode::AndAN => {
                let a = self.reg_a & lo;
                Cpu { reg_a: a, reg_f: logic_flags(self.reg_f, a, true), ..self }
            },
            Opcode::OrAC => {
                let a = self.reg_a | self.reg_c;
                Cpu { reg_a: a, reg_f: logic_flags(self.reg_f, a, false), ..self }
            },
            Opcode::XorAIndHl => {
                let a = self.reg_a ^ mem[word(self.reg_h, self.reg_l) as int];
                Cpu { reg_a: a, reg_f: logic_flags(self.reg_f, a, false), ..self }
            },
            Opcode::CpC => Cpu { reg_f: compare_flags(self.reg_f, self.reg_a, self.reg_c), ..self },
            Opcode::DecA => Cpu {
                reg_a: add8(self.reg_a, -1),
                reg_f: dec_flags(self.reg_f, self.reg_a),
                ..self
            },
            Opcode::IncL => Cpu {
                reg_l: add8(self.reg_l, 1),
                reg_f: inc_flags(self.reg_f, self.reg_l),
                ..self
            },
            Opcode::Rrca => Cpu {
                reg_a: rotated_right(self.reg_a),
                reg_f: rotate_flags(self.reg_f, self.reg_a),
                ..self
            },
            _ => self,
        }
    }

    /// What a load instruction does: one register, a register pair or one
    /// memory cell takes a new value; the flags stay. `nn` is the 16-bit
    /// operand. Other opcodes change nothing here.
    pub open spec fn loaded(self, op: Opcode, mem: Seq<u8>, lo: u8, hi: u8) -> (Cpu, Seq<u8>) {
        let nn = word(hi, lo);
        match op {
            Opcode::LdAC => (Cpu { reg_a: self.reg_c, ..self }, mem),
            Opcode::LdAN => (Cpu { reg_a: lo, ..self }, mem),
            Opcode::LdAIndNN => (Cpu { reg_a: mem[nn as int], ..self }, mem),
            Opcode::LdBA => (Cpu { reg_b: self.reg_a, ..self }, mem),
            Opcode::LdBE => (Cpu { reg_b: self.reg_e, ..self }, mem),
            Opcode::LdCA => (Cpu { reg_c: self.reg_a, ..self }, mem),
            Opcode::LdIndNNA => (self, mem.update(nn as int, self.reg_a)),
            Opcode::LdHlNN => (Cpu { reg_h: hi, reg_l: lo, ..self }, mem),
            _ => (self, mem),
        }
    }

    /// What a jump, call or return does. A conditional form tests one flag
    /// and changes nothing where the test fails; a relative jump counts from
    /// the program counter in `self`, which points behind the instruction.
    /// Other opcodes change nothing here.
    pub open spec fn branched(self, op: Opcode, mem: Seq<u8>, lo: u8, hi: u8) -> (Cpu, Seq<u8>) {
        let nn = word(hi, lo);
        let near = Cpu { reg_pc: add16(self.reg_pc, displacement(lo)), ..self };
        match op {
            Opcode::CallIfCarry => if self.reg_f.carry {
                self.called(mem, nn)
            } else {
                (self, mem)
            },
            Opcode::Call => self.called(mem, nn),
            Opcode::Ret => (self.returned(mem), mem),
            Opcode::Jp => (Cpu { reg_pc: nn, ..self }, mem),
            Opcode::JrIfNc => if !self.reg_f.carry {
                (near, mem)
            } else {
                (self, mem)
            },
            Opcode::JrIfNz => if !self.reg_f.zero {
                (near, mem)
            } else {
                (self, mem)
            },
            Opcode::JrIfZ => if self.reg_f.zero {
                (near, mem)
            } else {
                (self, mem)
            },
            _ => (self, mem),
        }
    }

    /// What `op` does to the registers and the memory, given the two
    /// operand bytes of the instruction. The program counter in `self`
    /// already points behind the instruction. The third component tells
    /// whether the run goes on: it stops, with nothing changed, at `Invalid`
    /// and at the opcodes that the decoder knows but the executor does not.
    pub open spec fn executed(self, op: Opcode, mem: Seq<u8>, lo: u8, hi: u8) -> (
        Cpu,
        Seq<u8>,
        bool,
    ) {
        match op {
            Opcode::AndAN
            | Opcode::OrAC
            | Opcode::XorAIndHl
            | Opcode::CpC
            | Opcode::DecA
            | Opcode::IncL
            | Opcode::Rrca => (self.computed(op, mem, lo), mem, true),
            Opcode::LdAC
            | Opcode::LdAN
            | Opcode::LdAIndNN
            | Opcode::LdBA
            | Opcode::LdBE
            | Opcode::LdCA
            | Opcode::LdIndNNA
            | Opcode::LdHlNN => (self.loaded(op, mem, lo, hi).0, self.loaded(op, mem, lo, hi).1, true),
            Opcode::CallIfCarry
            | Opcode::Call
            | Opcode::Ret
            | Opcode::Jp
            | Opcode::JrIfNc
            | Opcode::JrIfNz
            | Opcode::JrIfZ => (
                self.branched(op, mem, lo, hi).0,
                self.branched(op, mem, lo, hi).1,
                true,
            ),
            Opcode::Di => (Cpu { interrupt_enable: false, ..self }, mem, true),
            Opcode::ExAfAfPrime => (
                Cpu {
                    reg_a: self.reg_a_prime,
                    reg_f: self.reg_f_prime,
                    reg_a_prime: self.reg_a,
                    reg_f_prime: self.reg_f,
                    ..self
                },
                mem,
                true,
            ),
            Opcode::Nop => (self, mem, true),
            Opcode::Invalid
            | Opcode::AddHlBc
            | Opcode::DecC
            | Opcode::LdBB
            | Opcode::LdCC
            | Opcode::LdSpNN => (self, mem, false),
        }
    }

    /// One instruction, from its four-byte window: the window is decoded,
    /// the program counter moves behind the instruction, and the opcode is
    /// executed with the operand bytes of the window.
    pub open spec fn stepped(self, mem: Seq<u8>, instr: u32) -> (Cpu, Seq<u8>, bool) {
        let (op, len, prefixed) = decode_window(instr);
        let (lo, hi) = operand_bytes(instr, prefixed);
        Cpu { reg_pc: add16(self.reg_pc, len as int), ..self }.executed(op, mem, lo, hi)
    }
}

/// Shifts and masks on a window, read as division and remainder.
proof fn lemma_window(instr: u32)
    by (bit_vector)
    ensures
        instr >> 16 == instr / 0x10000,
        instr >> 16 <= 0xFFFF,
        (instr & 0x00FF0000) >> 16 == (instr / 0x10000) % 0x100,
        (instr & 0x0000FF00) >> 8 == (instr / 0x100) % 0x100,
        instr & 0x000000FF == instr % 0x100,
{
}

/// Bit tests on a byte, read as arithmetic.
proof fn lemma_byte_tests(v: u8)
    by (bit_vector)
    ensures
        (v & 0x80 > 0) == (v >= 128),
        (v & 0x20 > 0) == ((v / 32) % 2 == 1),
        (v & 0x10 > 0) == ((v / 16) % 2 == 1),
        (v & 0x01 > 0) == ((v / 1) % 2 == 1),
        (v >> 1) | ((v & 0x01) << 7) == v / 2 + 128 * (v % 2),
{
}

/// Decodes the instruction at the start of a window.
fn decode_at(instr: u32) -> (r: (Opcode, usize, bool))
    ensures
        r == decode_window(instr),
        1 <= r.1 <= 3,
{
    proof {
        lemma_window(instr);
    }
    Opcode::from_halfword((instr >> 16) as u16)
}

/// Takes the operand bytes out of a window.
fn operands(instr: u32, prefixed: bool) -> (r: (u8, u8))
    ensures
        r == operand_bytes(instr, prefixed),
{
    proof {
        lemma_window(instr);
    }
    if prefixed {
        (((instr & 0x0000FF00) >> 8) as u8, (instr & 0x000000FF) as u8)
    } else {
        (((instr & 0x00FF0000) >> 16) as u8, ((instr & 0x0000FF00) >> 8) as u8)
    }
}

/// The flag policy of AND, OR and XOR.
fn flags_after_logic(f: CPUStatus, result: u8, half_carry: bool) -> (out: CPUStatus)
    ensures
        out == logic_flags(f, result, half_carry),
{
    proof {
        lemma_byte_tests(result);
    }
    let mut out = f;
    out.set_sign(result & 0x80 > 0);
    out.set_zero(result == 0);
    out.set_half_carry(half_carry);
    out.set_overflow(false);
    out.set_add_sub(false);
    out.set_carry(false);
    out
}

/// The flag policy of a compare, which subtracts without storing.
fn flags_after_compare(f: CPUStatus, minuend: u8, subtrahend: u8) -> (out: CPUStatus)
    ensures
        out == compare_flags(f, minuend, subtrahend),
{
    let result: u8 = minuend.wrapping_sub(subtrahend);
    proof {
        lemma_byte_tests(result);
    }
    let mut out = f;
    out.set_sign(result & 0x80 > 0);
    out.set_zero(result == 0);
    out.set_half_carry(result & 0x20 > 0);
    out.set_overflow(false);
    out.set_add_sub(true);
    out.set_carry(minuend < subtrahend);
    out
}

/// The flag policy of a decrement.
fn flags_after_dec(f: CPUStatus, before: u8) -> (out: CPUStatus)
    ensures
        out == dec_flags(f, before),
{
    let after: u8 = before.wrapping_sub(1);
    proof {
        lemma_byte_tests(after);
    }
    let mut out = f;
    out.set_overflow(before == 0x80);
    out.set_sign(after & 0x80 > 0);
    out.set_zero(after == 0);
    out.set_half_carry(after & 0x20 > 0);
    out.set_add_sub(true);
    out
}

/// The flag policy of an increment.
fn flags_after_inc(f: CPUStatus, before: u8) -> (out: CPUStatus)
    ensures
        out == inc_flags(f, before),
{
    let after: u8 = before.wrapping_add(1);
    proof {
        lemma_byte_tests(after);
    }
    let mut out = f;
    out.set_overflow(before == 0x7F);
    out.set_sign(after & 0x80 > 0);
    out.set_zero(after == 0);
    out.set_half_carry(after & 0x10 > 0);
    out.set_add_sub(false);
    out
}

/// The flag policy of a rotation of the accumulator.
fn flags_after_rotate(f: CPUStatus, outgoing: bool) -> (out: CPUStatus)
    ensures
        out == (CPUStatus { carry: outgoing, half_carry: false, add_sub: false, ..f }),
{
    let mut out = f;
    out.set_carry(outgoing);
    out.set_half_carry(false);
    out.set_add_sub(false);
    out
}

impl Cpu {
    /// The processor after power-on.
    pub fn new() -> (cpu: Cpu)
        ensures
            cpu == Cpu::reset(),
    {
        Cpu {
            reg_a: 0u8,
            reg_f: CPUStatus::from(0),
            reg_b: 0u8,
            reg_c: 0u8,
            reg_d: 0u8,
            reg_e: 0u8,
            reg_h: 0u8,
            reg_l: 0u8,
            reg_a_prime: 0u8,
            reg_f_prime: CPUStatus::from(0),
            reg_b_prime: 0u8,
            reg_c_prime: 0u8,
            reg_d_prime: 0u8,
            reg_e_prime: 0u8,
            reg_h_prime: 0u8,
            reg_l_prime: 0u8,
            reg_pc: 0u16,
            reg_sp: 0u16,
            reg_ix: 0u16,
            reg_iy: 0u16,
            reg_i: 0u8,
            reg_r: 0u8,
            interrupt_enable: true,
        }
    }

    /// Sets the program counter.
    pub fn set_pc(&mut self, val: u16)
        ensures
            *final(self) == (Cpu { reg_pc: val, ..*old(self) }),
    {
        self.reg_pc = val;
    }

    /// The program counter.
    pub fn reg_pc(&self) -> (pc: u16)
        ensures
            pc == self.reg_pc,
    {
        self.reg_pc
    }

    /// Pushes `val` on the stack.
    pub fn push_stack(&mut self, mmu: &mut Mmu, val: u8)
        ensures
            *final(self) == old(self).pushed(old(mmu)@, val).0,
            final(mmu)@ == old(self).pushed(old(mmu)@, val).1,
    {
        self.reg_sp = self.reg_sp.wrapping_sub(1);
        mmu.write_mem(self.reg_sp, val);
    }

    /// Pops the byte on top of the stack.
    pub fn pop_stack(&mut self, mmu: &Mmu) -> (val: u8)
        ensures
            *final(self) == old(self).popped(mmu@).0,
            val == old(self).popped(mmu@).1,
    {
        let val: u8 = mmu.read_mem(self.reg_sp);
        self.reg_sp = self.reg_sp.wrapping_add(1);
        val
    }

    /// Calls the subroutine at `addr`.
    pub fn call(&mut self, mmu: &mut Mmu, addr: u16)
        ensures
            *final(self) == old(self).called(old(mmu)@, addr).0,
            final(mmu)@ == old(self).called(old(mmu)@, addr).1,
    {
        let (hi, lo) = split_word(self.reg_pc);
        self.push_stack(mmu, hi);
        self.push_stack(mmu, lo);
        self.reg_pc = addr;
    }

    /// Returns from a subroutine. The memory is left as it was.
    pub fn ret(&mut self, mmu: &mut Mmu)
        ensures
            *final(self) == old(self).returned(old(mmu)@),
            final(mmu)@ == old(mmu)@,
    {
        let lo: u8 = self.pop_stack(mmu);
        let hi: u8 = self.pop_stack(mmu);
        self.reg_pc = make_word(hi, lo);
    }

    /// Moves the program counter behind an instruction of `len` bytes, so
    /// that operands are taken relative to the next instruction.
    fn advance(&mut self, len: usize)
        requires
            len <= 3,
        ensures
            *final(self) == (Cpu { reg_pc: add16(old(self).reg_pc, len as int), ..*old(self) }),
    {
        self.reg_pc = self.reg_pc.wrapping_add(len as u16);
    }

    /// Sets the flags after a logical operation that left `result`.
    fn set_logic_flags(&mut self, result: u8, half_carry: bool)
        ensures
            *final(self) == (Cpu {
                reg_f: logic_flags(old(self).reg_f, result, half_carry),
                ..*old(self)
            }),
    {
        self.reg_f = flags_after_logic(self.reg_f, result, half_carry);
    }

    /// Adds a signed offset to the program counter.
    fn jump_relative(&mut self, offset: u8)
        ensures
            *final(self) == (Cpu {
                reg_pc: add16(old(self).reg_pc, displacement(offset)),
                ..*old(self)
            }),
    {
        // The offset is a signed byte: extend its sign to 16 bits.
        let extended: u16 = if offset < 0x80 {
            offset as u16
        } else {
            0xFF00 + offset as u16
        };
        self.reg_pc = self.reg_pc.wrapping_add(extended);
    }

    /// CP: compares the accumulator with `operand`.
    fn compare(&mut self, operand: u8)
        ensures
            *final(self) == (Cpu {
                reg_f: compare_flags(old(self).reg_f, old(self).reg_a, operand),
                ..*old(self)
            }),
    {
        self.reg_f = flags_after_compare(self.reg_f, self.reg_a, operand);
    }

    /// DEC A.
    fn decrement_a(&mut self)
        ensures
            *final(self) == (Cpu {
                reg_a: add8(old(self).reg_a, -1),
                reg_f: dec_flags(old(self).reg_f, old(self).reg_a),
                ..*old(self)
            }),
    {
        self.reg_f = flags_after_dec(self.reg_f, self.reg_a);
        self.reg_a = self.reg_a.wrapping_sub(1);
    }

    /// INC L.
    fn increment_l(&mut self)
        ensures
            *final(self) == (Cpu {
                reg_l: add8(old(self).reg_l, 1),
                reg_f: inc_flags(old(self).reg_f, old(self).reg_l),
                ..*old(self)
            }),
    {
        self.reg_f = flags_after_inc(self.reg_f, self.reg_l);
        self.reg_l = self.reg_l.wrapping_add(1);
    }

    /// RRCA.
    fn rotate_a_right(&mut self)
        ensures
            *final(self) == (Cpu {
                reg_a: rotated_right(old(self).reg_a),
                reg_f: rotate_flags(old(self).reg_f, old(self).reg_a),
                ..*old(self)
            }),
    {
        let low_bit: u8 = self.reg_a & 0x01;
        proof {
            lemma_byte_tests(self.reg_a);
        }
        self.reg_f = flags_after_rotate(self.reg_f, low_bit > 0);
        self.reg_a = (self.reg_a >> 1) | (low_bit << 7);
    }

    /// EX AF,AF': both halves of the pair change places at once.
    fn exchange_af(&mut self)
        ensures
            *final(self) == (Cpu {
                reg_a: old(self).reg_a_prime,
                reg_f: old(self).reg_f_prime,
                reg_a_prime: old(self).reg_a,
                reg_f_prime: old(self).reg_f,
                ..*old(self)
            }),
    {
        let a_prime: u8 = self.reg_a_prime;
        let f_prime = self.reg_f_prime;
        self.reg_a_prime = self.reg_a;
        self.reg_f_prime = self.reg_f;
        self.reg_a = a_prime;
        self.reg_f = f_prime;
    }

    /// The arithmetic and logical instructions.
    fn compute(&mut self, op: Opcode, mmu: &Mmu, lo: u8)
        ensures
            *final(self) == old(self).computed(op, mmu@, lo),
    {
        match op {
            Opcode::AndAN => {
                self.reg_a = self.reg_a & lo;
                self.set_logic_flags(self.reg_a, true);
            },
            Opcode::OrAC => {
                self.reg_a = self.reg_a | self.reg_c;
                self.set_logic_flags(self.reg_a, false);
            },
            Opcode::XorAIndHl => {
                self.reg_a = self.reg_a ^ mmu.read_mem(make_word(self.reg_h, self.reg_l));
                self.set_logic_flags(self.reg_a, false);
            },
            Opcode::CpC => {
                self.compare(self.reg_c);
            },
            Opcode::DecA => {
                self.decrement_a();
            },
            Opcode::IncL => {
                self.increment_l();
            },
            Opcode::Rrca => {
                self.rotate_a_right();
            },
            _ => {},
        }
    }

    /// The load instructions.
    fn load(&mut self, op: Opcode, mmu: &mut Mmu, lo: u8, hi: u8)
        ensures
            *final(self) == old(self).loaded(op, old(mmu)@, lo, hi).0,
            final(mmu)@ == old(self).loaded(op, old(mmu)@, lo, hi).1,
    {
        match op {
            Opcode::LdAC => {
                self.reg_a = self.reg_c;
            },
            Opcode::LdAN => {
                self.reg_a = lo;
            },
            Opcode::LdAIndNN => {
                self.reg_a = mmu.read_mem(make_word(hi, lo));
            },
            Opcode::LdBA => {
                self.reg_b = self.reg_a;
            },
            Opcode::LdBE => {
                self.reg_b = self.reg_e;
            },
            Opcode::LdCA => {
                self.reg_c = self.reg_a;
            },
            Opcode::LdIndNNA => {
                mmu.write_mem(make_word(hi, lo), self.reg_a);
            },
            Opcode::LdHlNN => {
                self.reg_h = hi;
                self.reg_l = lo;
            },
            _ => {},
        }
    }

    /// Jumps, calls and returns.
    fn branch(&mut self, op: Opcode, mmu: &mut Mmu, lo: u8, hi: u8)
        ensures
            *final(self) == old(self).branched(op, old(mmu)@, lo, hi).0,
            final(mmu)@ == old(self).branched(op, old(mmu)@, lo, hi).1,
    {
        match op {
            Opcode::CallIfCarry => {
                if self.reg_f.carry() {
                    self.call(mmu, make_word(hi, lo));
                }
            },
            Opcode::Call => {
                self.call(mmu, make_word(hi, lo));
            },
            Opcode::Ret => {
                self.ret(mmu);
            },
            Opcode::Jp => {
                self.reg_pc = make_word(hi, lo);
            },
            Opcode::JrIfNc => {
                if !self.reg_f.carry() {
                    self.jump_relative(lo);
                }
            },
            Opcode::JrIfNz => {
                if !self.reg_f.zero() {
                    self.jump_relative(lo);
                }
            },
            Opcode::JrIfZ => {
                if self.reg_f.zero() {
                    self.jump_relative(lo);
                }
            },
            _ => {},
        }
    }

    /// Carries out `op` with the operand bytes `lo` and `hi`; the program
    /// counter already points behind the instruction.
    fn execute(&mut self, op: Opcode, mmu: &mut Mmu, lo: u8, hi: u8) -> (running: bool)
        ensures
            *final(self) == old(self).executed(op, old(mmu)@, lo, hi).0,
            final(mmu)@ == old(self).executed(op, old(mmu)@, lo, hi).1,
            running == old(self).executed(op, old(mmu)@, lo, hi).2,
            running == is_implemented(op),
    {
        match op {
            Opcode::AndAN
            | Opcode::OrAC
            | Opcode::XorAIndHl
            | Opcode::CpC
            | Opcode::DecA
            | Opcode::IncL
            | Opcode::Rrca => {
                self.compute(op, mmu, lo);
            },
            Opcode::LdAC
            | Opcode::LdAN
            | Opcode::LdAIndNN
            | Opcode::LdBA
            | Opcode::LdBE
            | Opcode::LdCA
            | Opcode::LdIndNNA
            | Opcode::LdHlNN => {
                self.load(op, mmu, lo, hi);
            },
            Opcode::CallIfCarry
            | Opcode::Call
            | Opcode::Ret
            | Opcode::Jp
            | Opcode::JrIfNc
            | Opcode::JrIfNz
            | Opcode::JrIfZ => {
                self.branch(op, mmu, lo, hi);
            },
            Opcode::Di => {
                self.interrupt_enable = false;
            },
            Opcode::ExAfAfPrime => {
                self.exchange_af();
            },
            Opcode::Nop => {},
            Opcode::Invalid
            | Opcode::AddHlBc
            | Opcode::DecC
            | Opcode::LdBB
            | Opcode::LdCC
            | Opcode::LdSpNN => {
                return false;
            },
        }
        true
    }

    /// Executes the instruction at the start of `instr`, the four bytes at
    /// the program counter with the first of them in the most significant
    /// place. Returns whether the run goes on: it stops at an opcode that is
    /// invalid or not carried out, with the program counter already moved
    /// behind it and nothing else changed.
    pub fn do_instruction(&mut self, instr: u32, mmu: &mut Mmu) -> (running: bool)
        ensures
            *final(self) == old(self).stepped(old(mmu)@, instr).0,
            final(mmu)@ == old(self).stepped(old(mmu)@, instr).1,
            running == old(self).stepped(old(mmu)@, instr).2,
            running == is_implemented(decode_window(instr).0),
    {
        let (op, delta_ip, is_prefixed) = decode_at(instr);
        self.advance(delta_ip);
        let (imm_lo, imm_hi) = operands(instr, is_prefixed);
        self.execute(op, mmu, imm_lo, imm_hi)
    }
}

/// A byte that is pushed is the byte that the next pop returns, and the pop
/// puts the stack pointer back where it was, whatever the byte and wherever
/// the stack pointer stood: from 0 the push wraps it to 0xFFFF, and the pop
/// wraps it back.
pub proof fn lemma_push_then_pop(cpu: Cpu, mem: Seq<u8>, val: u8)
    requires
        mem.len() == MAX_MMU_RAM,
    ensures
        ({
            let (pushed, stored) = cpu.pushed(mem, val);
            let (popped, top) = pushed.popped(stored);
            &&& top == val
            &&& popped.reg_sp == cpu.reg_sp
            &&& popped == cpu
            &&& cpu.reg_sp == 0 ==> pushed.reg_sp == 0xFFFF
        }),
{
}

/// A call followed by a return brings the program counter back to where it
/// was before the call and leaves the stack pointer where it was, for every
/// target, program counter and stack pointer.
pub proof fn lemma_call_then_ret(cpu: Cpu, mem: Seq<u8>, addr: u16)
    requires
        mem.len() == MAX_MMU_RAM,
    ensures
        ({
            let (called, stored) = cpu.called(mem, addr);
            let back = called.returned(stored);
            &&& called.reg_pc == addr
            &&& back.reg_pc == cpu.reg_pc
            &&& back.reg_sp == cpu.reg_sp
            &&& back == cpu
        }),
{
}

/// An instruction reads no operand byte from behind its own end: one of
/// length 1 does the same whatever the two operand bytes are, and one of
/// length 2 the same whatever the second of them is. The length that the
/// decoder reports is thus all that the executor consumes.
pub proof fn lemma_operands_within_length(
    cpu: Cpu,
    op: Opcode,
    mem: Seq<u8>,
    lo: u8,
    hi: u8,
    other_lo: u8,
    other_hi: u8,
)
    ensures
        op.length() == 1 ==> cpu.executed(op, mem, lo, hi) == cpu.executed(
            op,
            mem,
            other_lo,
            other_hi,
        ),
        op.length() == 2 ==> cpu.executed(op, mem, lo, hi) == cpu.executed(op, mem, lo, other_hi),
{
}

/// Exchanging the accumulator and flags with the shadow pair twice puts
/// every register back.
pub proof fn lemma_exchange_twice(cpu: Cpu, mem: Seq<u8>, lo: u8, hi: u8)
    ensures
        ({
            let once = cpu.executed(Opcode::ExAfAfPrime, mem, lo, hi);
            let twice = once.0.executed(Opcode::ExAfAfPrime, once.1, lo, hi);
            twice == (cpu, mem, true)
        }),
{
}

} // verus!
