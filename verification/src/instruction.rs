//! Decoded instructions and what they do to the registers and the data
//! memory.

use std::rc::Rc;
use vstd::prelude::*;
use crate::cpu::{class_of16, class_of8, Cpu, CpuState, Register16, Register8};
use crate::error::EngineError;
use crate::memory::{word_value, Memory};
use crate::register::{Name16, Name8, RegisterClass};

verus! {

/// What an operation reads or writes.
#[derive(Debug, PartialEq, Eq)]
pub enum Operand {
    /// An 8-bit register slot.
    Reg(Register8),
    /// A 16-bit register slot: a pair or a true 16-bit register.
    Reg16(Register16),
    /// The byte of data memory whose address the inner operand gives.
    Mem(Rc<Operand>),
    /// One byte that follows the opcode.
    Immediate8,
    /// Two bytes that follow the opcode.
    Immediate16,
}

/// What an instruction does.
#[derive(Debug, PartialEq, Eq)]
pub enum Operation {
    /// Nothing.
    Nop,
    /// Copies the second operand into the first.
    Ld(Operand, Operand),
    /// Reserved for addition; it has no meaning yet.
    Add(Operand, Operand),
}

/// How many bytes after the opcode belong to an instruction.
#[derive(Debug, Clone, Copy, PartialEq, Eq, Structural)]
pub enum InstKind {
    /// None.
    NoOperand,
    /// One byte.
    N,
    /// Two bytes.
    NN,
    /// One byte, a signed offset.
    Displacement,
}

/// One decoded instruction.
#[derive(Debug, PartialEq, Eq)]
pub struct Instruction {
    /// How many trailing bytes the engine reads before it applies `op`.
    pub kind: InstKind,
    /// What the instruction does.
    pub op: Operation,
}

impl Clone for Operand {
    fn clone(&self) -> (r: Self)
        ensures
            r == *self,
        decreases *self,
    {
        match self {
            Operand::Reg(which) => Operand::Reg(*which),
            Operand::Reg16(which) => Operand::Reg16(*which),
            Operand::Mem(inner) => {
                let copy: Operand = (&**inner).clone();
                Operand::Mem(Rc::new(copy))
            },
            Operand::Immediate8 => Operand::Immediate8,
            Operand::Immediate16 => Operand::Immediate16,
        }
    }
}

impl Clone for Operation {
    fn clone(&self) -> (r: Self)
        ensures
            r == *self,
    {
        match self {
            Operation::Nop => Operation::Nop,
            Operation::Ld(dst, src) => Operation::Ld(dst.clone(), src.clone()),
            Operation::Add(lhs, rhs) => Operation::Add(lhs.clone(), rhs.clone()),
        }
    }
}

impl Clone for Instruction {
    fn clone(&self) -> (r: Self)
        ensures
            r == *self,
    {
        Instruction { kind: self.kind, op: self.op.clone() }
    }
}

/// The no-op instruction.
pub open spec fn spec_nop() -> Instruction {
    Instruction { kind: InstKind::NoOperand, op: Operation::Nop }
}

/// The no-op instruction.
#[verifier::when_used_as_spec(spec_nop)]
pub fn nop() -> (inst: Instruction)
    ensures
        inst == spec_nop(),
{
    Instruction { kind: InstKind::NoOperand, op: Operation::Nop }
}

/// The instruction that loads the byte after the opcode into `dst`.
pub open spec fn spec_ld8(dst: Operand) -> Instruction {
    Instruction { kind: InstKind::N, op: Operation::Ld(dst, Operand::Immediate8) }
}

/// The instruction that loads the byte after the opcode into `dst`.
#[verifier::when_used_as_spec(spec_ld8)]
pub fn ld8(dst: Operand) -> (inst: Instruction)
    ensures
        inst == spec_ld8(dst),
{
    Instruction { kind: InstKind::N, op: Operation::Ld(dst, Operand::Immediate8) }
}

/// The instruction that loads the two bytes after the opcode into `dst`.
pub open spec fn spec_ld16(dst: Operand) -> Instruction {
    Instruction { kind: InstKind::NN, op: Operation::Ld(dst, Operand::Immediate16) }
}

/// The instruction that loads the two bytes after the opcode into `dst`.
#[verifier::when_used_as_spec(spec_ld16)]
pub fn ld16(dst: Operand) -> (inst: Instruction)
    ensures
        inst == spec_ld16(dst),
{
    Instruction { kind: InstKind::NN, op: Operation::Ld(dst, Operand::Immediate16) }
}

/// The instruction that adds `rhs` to `lhs`.
pub open spec fn spec_add16(lhs: Operand, rhs: Operand) -> Instruction {
    Instruction { kind: InstKind::NoOperand, op: Operation::Add(lhs, rhs) }
}

/// The instruction that adds `rhs` to `lhs`.
#[verifier::when_used_as_spec(spec_add16)]
pub fn add16(lhs: Operand, rhs: Operand) -> (inst: Instruction)
    ensures
        inst == spec_add16(lhs, rhs),
{
    Instruction { kind: InstKind::NoOperand, op: Operation::Add(lhs, rhs) }
}

/// The instruction that stores register `A` in data memory at the address
/// that `addr` gives.
pub open spec fn spec_ld_a2m(addr: Operand) -> Instruction {
    Instruction {
        kind: InstKind::NoOperand,
        op: Operation::Ld(Operand::Mem(Rc::new(addr)), Operand::Reg(Register8::A)),
    }
}

/// The instruction that stores register `A` in data memory at the address
/// that `addr` gives.
#[verifier::when_used_as_spec(spec_ld_a2m)]
pub fn ld_a2m(addr: Operand) -> (inst: Instruction)
    ensures
        inst == spec_ld_a2m(addr),
{
    Instruction {
        kind: InstKind::NoOperand,
        op: Operation::Ld(Operand::Mem(Rc::new(addr)), Operand::Reg(Register8::A)),
    }
}

/// The instruction that stores `src` in data memory at the address in the
/// two bytes after the opcode.
pub open spec fn spec_ld_r2mi(src: Operand) -> Instruction {
    Instruction {
        kind: InstKind::NN,
        op: Operation::Ld(Operand::Mem(Rc::new(Operand::Immediate16)), src),
    }
}

/// The instruction that stores `src` in data memory at the address in the
/// two bytes after the opcode.
#[verifier::when_used_as_spec(spec_ld_r2mi)]
pub fn ld_r2mi(src: Operand) -> (inst: Instruction)
    ensures
        inst == spec_ld_r2mi(src),
{
    Instruction {
        kind: InstKind::NN,
        op: Operation::Ld(Operand::Mem(Rc::new(Operand::Immediate16)), src),
    }
}

/// How many bytes after the opcode an instruction of kind `kind` takes.
pub open spec fn trailing_bytes(kind: InstKind) -> nat {
    match kind {
        InstKind::NoOperand => 0,
        InstKind::N => 1,
        InstKind::NN => 2,
        InstKind::Displacement => 1,
    }
}

/// The 16-bit immediate that the first two bytes of `v` encode: the low
/// byte comes first.
pub open spec fn immediate16(v: Seq<u8>) -> u16 {
    ((v[1] as u16) << 8) | (v[0] as u16)
}

/// A displacement byte read as a signed offset.
pub open spec fn displacement(d: u8) -> int {
    if d < 128 {
        d as int
    } else {
        d - 256
    }
}

/// The address `d` bytes away from `base`, where `d` is read as a signed
/// offset. An address outside the 16-bit range is no address.
pub open spec fn displaced(base: u16, d: u8) -> Result<u16, EngineError> {
    let target = base + displacement(d);
    if 0 <= target <= u16::MAX {
        Ok(target as u16)
    } else {
        Err(EngineError::OutOfBounds)
    }
}

/// The register that the slot `which` selects where one 8-bit register is
/// asked for.
pub open spec fn single_of(which: Register8) -> Result<Name8, EngineError> {
    match class_of8(which) {
        RegisterClass::Single(n) => Ok(n),
        _ => Err(EngineError::RegisterNotFound),
    }
}

/// The 16-bit value under a class, where it has one.
pub open spec fn wide_value(s: CpuState, class: RegisterClass) -> Result<u16, EngineError> {
    match class {
        RegisterClass::Single(_) => Err(EngineError::RegisterNotFound),
        RegisterClass::Double(n) => Ok(s.read16(n)),
        RegisterClass::Pair(p) => Ok(s.read_pair(p)),
    }
}

/// The state after `v` was written under a class that holds 16 bits.
pub open spec fn wide_written(s: CpuState, class: RegisterClass, v: u16) -> Result<
    CpuState,
    EngineError,
> {
    match class {
        RegisterClass::Single(_) => Err(EngineError::RegisterNotFound),
        RegisterClass::Double(n) => Ok(s.write16(n, v)),
        RegisterClass::Pair(p) => Ok(s.write_pair(p, v)),
    }
}

/// The address in data memory that the operand `through` gives.
///
/// A pair or a 16-bit register gives its value. `IX` and `IY` give their
/// value moved by the signed offset in the first trailing byte. An
/// `Immediate16` gives the two trailing bytes, high byte first. An 8-bit
/// slot gives an address only where it selects a pair. Nothing else gives
/// an address.
pub open spec fn effective_address(s: CpuState, through: Operand, args: Seq<u8>) -> Result<
    u16,
    EngineError,
> {
    match through {
        Operand::Reg(which) => wide_value(s, class_of8(which)),
        Operand::Reg16(Register16::IX) => if args.len() < 1 {
            Err(EngineError::UnsupportedOperandForm)
        } else {
            displaced(s.ix, args[0])
        },
        Operand::Reg16(Register16::IY) => if args.len() < 1 {
            Err(EngineError::UnsupportedOperandForm)
        } else {
            displaced(s.iy, args[0])
        },
        Operand::Reg16(which) => wide_value(s, class_of16(which)),
        Operand::Immediate16 => if args.len() < 2 {
            Err(EngineError::UnsupportedOperandForm)
        } else {
            Ok(word_value(args[0], args[1]))
        },
        Operand::Mem(_) => Err(EngineError::UnsupportedOperandForm),
        Operand::Immediate8 => Err(EngineError::UnsupportedOperandForm),
    }
}

/// The registers after the 16-bit immediate in `args` was loaded into
/// the 16-bit slot `to`; or why nothing is loaded.
pub open spec fn loaded_immediate16(to: Register16, s: CpuState, args: Seq<u8>) -> Result<
    CpuState,
    EngineError,
> {
    if args.len() < 2 {
        Err(EngineError::UnsupportedOperandForm)
    } else {
        wide_written(s, class_of16(to), immediate16(args))
    }
}

/// What a load of `src` into `dst` makes of the registers `s` and the data
/// memory `dm`, given the trailing bytes `args`; or why it does nothing.
///
/// Five forms have a meaning: register from register, register from
/// `Immediate8`, 16-bit slot from `Immediate16`, register from memory and
/// memory from register. A form that reads more trailing bytes than `args`
/// holds has none.
pub open spec fn loaded_operands(
    dst: Operand,
    src: Operand,
    s: CpuState,
    dm: Seq<u8>,
    args: Seq<u8>,
) -> Result<(CpuState, Seq<u8>), EngineError> {
    match (dst, src) {
        (Operand::Reg(to), Operand::Reg(from)) => match (single_of(to), single_of(from)) {
            (Ok(t), Ok(f)) => Ok((s.write8(t, s.read8(f)), dm)),
            _ => Err(EngineError::RegisterNotFound),
        },
        (Operand::Reg(to), Operand::Immediate8) => if args.len() < 1 {
            Err(EngineError::UnsupportedOperandForm)
        } else {
            match single_of(to) {
                Ok(t) => Ok((s.write8(t, args[0]), dm)),
                Err(e) => Err(e),
            }
        },
        (Operand::Reg16(to), Operand::Immediate16) => match loaded_immediate16(to, s, args) {
            Ok(t) => Ok((t, dm)),
            Err(e) => Err(e),
        },
        (Operand::Reg(to), Operand::Mem(through)) => match effective_address(s, *through, args) {
            Err(e) => Err(e),
            Ok(addr) => match single_of(to) {
                Err(e) => Err(e),
                Ok(t) => if addr < dm.len() {
                    Ok((s.write8(t, dm[addr as int]), dm))
                } else {
                    Err(EngineError::OutOfBounds)
                },
            },
        },
        (Operand::Mem(through), Operand::Reg(from)) => match effective_address(s, *through, args) {
            Err(e) => Err(e),
            Ok(addr) => match single_of(from) {
                Err(e) => Err(e),
                Ok(f) => if addr < dm.len() {
                    Ok((s, dm.update(addr as int, s.read8(f))))
                } else {
                    Err(EngineError::OutOfBounds)
                },
            },
        },
        _ => Err(EngineError::UnsupportedOperandForm),
    }
}

/// What the operation `op` makes of the registers `s` and the data memory
/// `dm`, given the trailing bytes `args`; or why it does nothing.
pub open spec fn executed(op: Operation, s: CpuState, dm: Seq<u8>, args: Seq<u8>) -> Result<
    (CpuState, Seq<u8>),
    EngineError,
> {
    match op {
        Operation::Nop => Ok((s, dm)),
        Operation::Ld(dst, src) => loaded_operands(dst, src, s, dm, args),
        Operation::Add(_, _) => Err(EngineError::UnsupportedOperandForm),
    }
}

/// The 16-bit immediate in the first two bytes of `v`, low byte first.
pub fn read16(v: &Vec<u8>) -> (value: u16)
    requires
        v@.len() >= 2,
    ensures
        value == immediate16(v@),
{
    ((v[1] as u16) << 8) | (v[0] as u16)
}

/// Resolves a slot where one 8-bit register is asked for.
fn single(cpu: &Cpu, which: Register8) -> (r: Result<Name8, EngineError>)
    ensures
        r == single_of(which),
{
    match cpu.reg8(which) {
        RegisterClass::Single(n) => Ok(n),
        _ => Err(EngineError::RegisterNotFound),
    }
}

/// Reads the 16-bit value under a class.
fn wide(cpu: &Cpu, class: RegisterClass) -> (r: Result<u16, EngineError>)
    ensures
        r == wide_value(cpu@, class),
{
    match class {
        RegisterClass::Single(_) => Err(EngineError::RegisterNotFound),
        RegisterClass::Double(n) => Ok(cpu.get_register_value(&n)),
        RegisterClass::Pair(p) => Ok(cpu.get_register_value(&p)),
    }
}

/// Moves `base` by the signed offset `d`.
fn displace(base: u16, d: u8) -> (r: Result<u16, EngineError>)
    ensures
        r == displaced(base, d),
{
    if d < 128 {
        if d as u16 <= u16::MAX - base {
            Ok(base + d as u16)
        } else {
            Err(EngineError::OutOfBounds)
        }
    } else {
        let back: u16 = 256 - d as u16;
        if back <= base {
            Ok(base - back)
        } else {
            Err(EngineError::OutOfBounds)
        }
    }
}

/// Resolves the address operand of a memory access.
fn address(cpu: &Cpu, through: &Operand, args: &Vec<u8>) -> (r: Result<u16, EngineError>)
    ensures
        r == effective_address(cpu@, *through, args@),
{
    match through {
        Operand::Reg(which) => wide(cpu, cpu.reg8(*which)),
        Operand::Reg16(which) => match which {
            Register16::IX | Register16::IY => {
                if args.len() < 1 {
                    return Err(EngineError::UnsupportedOperandForm);
                }
                let base: u16 = match which {
                    Register16::IX => cpu.get_register_value(&Name16::IX),
                    _ => cpu.get_register_value(&Name16::IY),
                };
                displace(base, args[0])
            },
            _ => wide(cpu, cpu.reg16(*which)),
        },
        Operand::Immediate16 => {
            if args.len() < 2 {
                return Err(EngineError::UnsupportedOperandForm);
            }
            Ok(((args[0] as u16) << 8) | (args[1] as u16))
        },
        Operand::Mem(_) => Err(EngineError::UnsupportedOperandForm),
        Operand::Immediate8 => Err(EngineError::UnsupportedOperandForm),
    }
}

impl Instruction {
    /// Applies the instruction to the registers and the data memory. `args`
    /// holds the bytes that followed the opcode. Where the instruction has
    /// no meaning or reaches outside the memory, nothing changes.
    pub fn exec(&self, cpu: &mut Cpu, dm: &mut Memory, args: Vec<u8>) -> (r: Result<
        (),
        EngineError,
    >)
        ensures
            match executed(self.op, old(cpu)@, old(dm)@, args@) {
                Ok((s, bytes)) => r is Ok && final(cpu)@ == s && final(dm)@ == bytes,
                Err(e) => r == Err::<(), EngineError>(e) && final(cpu)@ == old(cpu)@
                    && final(dm)@ == old(dm)@,
            },
    {
        match &self.op {
            Operation::Nop => Ok(()),
            Operation::Ld(dst, src) => {
                match (dst, src) {
                    (Operand::Reg(dst_reg), Operand::Reg(src_reg)) => {
                        let to: Name8 = match single(cpu, *dst_reg) {
                            Ok(n) => n,
                            Err(e) => { return Err(e); },
                        };
                        let from: Name8 = match single(cpu, *src_reg) {
                            Ok(n) => n,
                            Err(e) => { return Err(e); },
                        };
                        let val: u8 = cpu.get_register_value(&from);
                        cpu.set_register_value(to, val);
                        Ok(())
                    },
                    (Operand::Reg(dst_reg), Operand::Immediate8) => {
                        if args.len() < 1 {
                            return Err(EngineError::UnsupportedOperandForm);
                        }
                        let val: u8 = args[0];
                        match single(cpu, *dst_reg) {
                            Ok(to) => {
                                cpu.set_register_value(to, val);
                                Ok(())
                            },
                            Err(e) => Err(e),
                        }
                    },
                    (Operand::Reg(dst_reg), Operand::Mem(through)) => {
                        let addr: u16 = match address(cpu, &**through, &args) {
                            Ok(a) => a,
                            Err(e) => { return Err(e); },
                        };
                        let to: Name8 = match single(cpu, *dst_reg) {
                            Ok(n) => n,
                            Err(e) => { return Err(e); },
                        };
                        cpu.load(dm, addr, RegisterClass::Single(to))
                    },
                    (Operand::Mem(through), Operand::Reg(src_reg)) => {
                        let addr: u16 = match address(cpu, &**through, &args) {
                            Ok(a) => a,
                            Err(e) => { return Err(e); },
                        };
                        let from: Name8 = match single(cpu, *src_reg) {
                            Ok(n) => n,
                            Err(e) => { return Err(e); },
                        };
                        cpu.store(dm, RegisterClass::Single(from), addr)
                    },
                    (Operand::Reg16(_), Operand::Immediate16) => self.load(cpu, args),
                    _ => Err(EngineError::UnsupportedOperandForm),
                }
            },
            Operation::Add(_, _) => Err(EngineError::UnsupportedOperandForm),
        }
    }

    /// Loads the 16-bit immediate in `args` into the 16-bit slot that the
    /// instruction names.
    fn load(&self, cpu: &mut Cpu, args: Vec<u8>) -> (r: Result<(), EngineError>)
        requires
            self.op matches Operation::Ld(Operand::Reg16(_), Operand::Immediate16),
        ensures
            self.op matches Operation::Ld(Operand::Reg16(to), _) && match loaded_immediate16(
                to,
                old(cpu)@,
                args@,
            ) {
                Ok(s) => r is Ok && final(cpu)@ == s,
                Err(e) => r == Err::<(), EngineError>(e) && final(cpu)@ == old(cpu)@,
            },
    {
        let which: Register16 = match &self.op {
            Operation::Ld(Operand::Reg16(which), _) => *which,
            _ => { return Err(EngineError::UnsupportedOperandForm); },
        };
        if args.len() < 2 {
            return Err(EngineError::UnsupportedOperandForm);
        }
        let val: u16 = read16(&args);
        match cpu.reg16(which) {
            RegisterClass::Double(dst) => {
                cpu.set_register_value(dst, val);
                Ok(())
            },
            RegisterClass::Pair(dst) => {
                cpu.set_register_value(dst, val);
                Ok(())
            },
            RegisterClass::Single(_) => Err(EngineError::RegisterNotFound),
        }
    }
}

/// In ordinary arithmetic a 16-bit immediate is `v[0] + 256 * v[1]`.
pub proof fn lemma_immediate16_arith(v: Seq<u8>)
    ensures
        immediate16(v) == v[0] + 256 * v[1],
{
    let low = v[0];
    let high = v[1];
    assert((((high as u16) << 8) | (low as u16)) == low + 256 * high) by (bit_vector);
}

/// The two byte orders differ: two bytes of the instruction stream read as
/// an immediate give the value that the same two bytes give in memory when
/// they are swapped.
pub proof fn lemma_immediate_is_word_swapped(first: u8, second: u8)
    ensures
        immediate16(seq![first, second]) == word_value(second, first),
{
}

/// No instruction moves the program counter.
pub proof fn lemma_executed_keeps_pc(op: Operation, s: CpuState, dm: Seq<u8>, args: Seq<u8>)
    ensures
        executed(op, s, dm, args) matches Ok((t, _)) ==> t.pc == s.pc,
{
}

/// No instruction changes the size of the data memory.
pub proof fn lemma_executed_keeps_size(op: Operation, s: CpuState, dm: Seq<u8>, args: Seq<u8>)
    ensures
        executed(op, s, dm, args) matches Ok((_, bytes)) ==> bytes.len() == dm.len(),
{
}

} // verus!
