//! The register file: the registers of the processor, reached by name, and
//! the selectors that opcodes use for them.

use vstd::prelude::*;
use crate::error::EngineError;
use crate::memory::{read_word, write_word, Memory};
use crate::ops::{Addressable, ByteContainer};
use crate::register::{
    lemma_pair_join_split, pair_high, pair_low, pair_value, Name16, Name8, Register,
    RegisterClass, RegisterPair,
};

verus! {

/// The values of all registers at one moment: what a register file is, seen
/// from outside.
pub struct CpuState {
    pub a: u8,
    pub b: u8,
    pub c: u8,
    pub d: u8,
    pub e: u8,
    pub f: u8,
    pub h: u8,
    pub l: u8,
    pub pc: u16,
    pub sp: u16,
    pub ix: u16,
    pub iy: u16,
    pub r: u8,
    pub i: u8,
}

impl CpuState {
    /// The value of the 8-bit register `n`.
    pub open spec fn read8(self, n: Name8) -> u8 {
        match n {
            Name8::A => self.a,
            Name8::B => self.b,
            Name8::C => self.c,
            Name8::D => self.d,
            Name8::E => self.e,
            Name8::F => self.f,
            Name8::H => self.h,
            Name8::L => self.l,
            Name8::I => self.i,
            Name8::R => self.r,
        }
    }

    /// The state in which the 8-bit register `n` holds `v` and every other
    /// register holds what it held.
    pub open spec fn write8(self, n: Name8, v: u8) -> CpuState {
        match n {
            Name8::A => CpuState { a: v, ..self },
            Name8::B => CpuState { b: v, ..self },
            Name8::C => CpuState { c: v, ..self },
            Name8::D => CpuState { d: v, ..self },
            Name8::E => CpuState { e: v, ..self },
            Name8::F => CpuState { f: v, ..self },
            Name8::H => CpuState { h: v, ..self },
            Name8::L => CpuState { l: v, ..self },
            Name8::I => CpuState { i: v, ..self },
            Name8::R => CpuState { r: v, ..self },
        }
    }

    /// The value of the 16-bit register `n`.
    pub open spec fn read16(self, n: Name16) -> u16 {
        match n {
            Name16::PC => self.pc,
            Name16::SP => self.sp,
            Name16::IX => self.ix,
            Name16::IY => self.iy,
        }
    }

    /// The state in which the 16-bit register `n` holds `v` and every other
    /// register holds what it held.
    pub open spec fn write16(self, n: Name16, v: u16) -> CpuState {
        match n {
            Name16::PC => CpuState { pc: v, ..self },
            Name16::SP => CpuState { sp: v, ..self },
            Name16::IX => CpuState { ix: v, ..self },
            Name16::IY => CpuState { iy: v, ..self },
        }
    }

    /// The 16-bit value seen through the pair `p`.
    pub open spec fn read_pair(self, p: RegisterPair) -> u16 {
        pair_value(self.read8(p.high), self.read8(p.low))
    }

    /// The state after `v` was written through the pair `p`: first its
    /// `high` register takes its part, then its `low` register.
    pub open spec fn write_pair(self, p: RegisterPair, v: u16) -> CpuState {
        self.write8(p.high, pair_high(v)).write8(p.low, pair_low(v))
    }
}

/// The register file. It alone owns the registers; everything else reaches
/// them by name.
#[derive(Debug, Clone, Copy)]
pub struct Cpu {
    pub a: Register<u8>,
    pub b: Register<u8>,
    pub c: Register<u8>,
    pub d: Register<u8>,
    pub e: Register<u8>,
    pub f: Register<u8>,
    pub h: Register<u8>,
    pub l: Register<u8>,
    pub pc: Register<u16>,
    pub sp: Register<u16>,
    pub ix: Register<u16>,
    pub iy: Register<u16>,
    pub r: Register<u8>,
    pub i: Register<u8>,
}

impl View for Cpu {
    type V = CpuState;

    open spec fn view(&self) -> CpuState {
        CpuState {
            a: self.a@,
            b: self.b@,
            c: self.c@,
            d: self.d@,
            e: self.e@,
            f: self.f@,
            h: self.h@,
            l: self.l@,
            pc: self.pc@,
            sp: self.sp@,
            ix: self.ix@,
            iy: self.iy@,
            r: self.r@,
            i: self.i@,
        }
    }
}

/// The 8-bit operand slots of an opcode. Seven of them select a register;
/// `HL` selects the pair of `H` and `L`.
#[derive(Debug, Clone, Copy, PartialEq, Eq, Structural)]
pub enum Register8 {
    B,
    C,
    D,
    E,
    H,
    L,
    HL,
    A,
}

/// The 16-bit operand slots of an opcode: four pairs and three true 16-bit
/// registers.
#[derive(Debug, Clone, Copy, PartialEq, Eq, Structural)]
pub enum Register16 {
    BC,
    DE,
    HL,
    SP,
    AF,
    IX,
    IY,
}

/// What the 8-bit selector `which` resolves to.
pub open spec fn class_of8(which: Register8) -> RegisterClass {
    match which {
        Register8::B => RegisterClass::Single(Name8::B),
        Register8::C => RegisterClass::Single(Name8::C),
        Register8::D => RegisterClass::Single(Name8::D),
        Register8::E => RegisterClass::Single(Name8::E),
        Register8::H => RegisterClass::Single(Name8::H),
        Register8::L => RegisterClass::Single(Name8::L),
        Register8::HL => RegisterClass::Pair(RegisterPair { high: Name8::H, low: Name8::L }),
        Register8::A => RegisterClass::Single(Name8::A),
    }
}

/// What the 16-bit selector `which` resolves to.
pub open spec fn class_of16(which: Register16) -> RegisterClass {
    match which {
        Register16::BC => RegisterClass::Pair(RegisterPair { high: Name8::B, low: Name8::C }),
        Register16::DE => RegisterClass::Pair(RegisterPair { high: Name8::D, low: Name8::E }),
        Register16::HL => RegisterClass::Pair(RegisterPair { high: Name8::H, low: Name8::L }),
        Register16::SP => RegisterClass::Double(Name16::SP),
        Register16::AF => RegisterClass::Pair(RegisterPair { high: Name8::A, low: Name8::F }),
        Register16::IX => RegisterClass::Double(Name16::IX),
        Register16::IY => RegisterClass::Double(Name16::IY),
    }
}

/// A name under which a value can be read from a register file and written
/// to it.
pub trait RegisterHandle {
    /// The width of what the name stands for.
    type W;

    /// The value under the name in the state `s`.
    spec fn read_in(&self, s: CpuState) -> Self::W;

    /// The state `s` after `v` was written under the name.
    spec fn write_in(&self, s: CpuState, v: Self::W) -> CpuState;

    fn get(&self, cpu: &Cpu) -> (v: Self::W)
        ensures
            v == self.read_in(cpu@),
    ;

    fn set(&self, cpu: &mut Cpu, v: Self::W)
        ensures
            final(cpu)@ == self.write_in(old(cpu)@, v),
    ;
}

impl RegisterHandle for Name8 {
    type W = u8;

    open spec fn read_in(&self, s: CpuState) -> u8 {
        s.read8(*self)
    }

    open spec fn write_in(&self, s: CpuState, v: u8) -> CpuState {
        s.write8(*self, v)
    }

    fn get(&self, cpu: &Cpu) -> (v: u8) {
        match self {
            Name8::A => cpu.a.get(),
            Name8::B => cpu.b.get(),
            Name8::C => cpu.c.get(),
            Name8::D => cpu.d.get(),
            Name8::E => cpu.e.get(),
            Name8::F => cpu.f.get(),
            Name8::H => cpu.h.get(),
            Name8::L => cpu.l.get(),
            Name8::I => cpu.i.get(),
            Name8::R => cpu.r.get(),
        }
    }

    fn set(&self, cpu: &mut Cpu, v: u8) {
        match self {
            Name8::A => cpu.a.set(v),
            Name8::B => cpu.b.set(v),
            Name8::C => cpu.c.set(v),
            Name8::D => cpu.d.set(v),
            Name8::E => cpu.e.set(v),
            Name8::F => cpu.f.set(v),
            Name8::H => cpu.h.set(v),
            Name8::L => cpu.l.set(v),
            Name8::I => cpu.i.set(v),
            Name8::R => cpu.r.set(v),
        }
    }
}

impl RegisterHandle for Name16 {
    type W = u16;

    open spec fn read_in(&self, s: CpuState) -> u16 {
        s.read16(*self)
    }

    open spec fn write_in(&self, s: CpuState, v: u16) -> CpuState {
        s.write16(*self, v)
    }

    fn get(&self, cpu: &Cpu) -> (v: u16) {
        match self {
            Name16::PC => cpu.pc.get(),
            Name16::SP => cpu.sp.get(),
            Name16::IX => cpu.ix.get(),
            Name16::IY => cpu.iy.get(),
        }
    }

    fn set(&self, cpu: &mut Cpu, v: u16) {
        match self {
            Name16::PC => cpu.pc.set(v),
            Name16::SP => cpu.sp.set(v),
            Name16::IX => cpu.ix.set(v),
            Name16::IY => cpu.iy.set(v),
        }
    }
}

impl RegisterHandle for RegisterPair {
    type W = u16;

    open spec fn read_in(&self, s: CpuState) -> u16 {
        s.read_pair(*self)
    }

    open spec fn write_in(&self, s: CpuState, v: u16) -> CpuState {
        s.write_pair(*self, v)
    }

    fn get(&self, cpu: &Cpu) -> (v: u16) {
        let high: u8 = self.high.get(cpu);
        let low: u8 = self.low.get(cpu);
        (high as u16) | ((low as u16) << 8)
    }

    fn set(&self, cpu: &mut Cpu, v: u16) {
        assert(v & 0xff <= 0xff) by (bit_vector);
        assert((v >> 8) & 0xff <= 0xff) by (bit_vector);
        let hb: u8 = (v & 0xff) as u8;
        let lb: u8 = ((v >> 8) & 0xff) as u8;
        self.high.set(cpu, hb);
        self.low.set(cpu, lb);
    }
}

/// The state after a value of the width of `dst` was read from `bytes` at
/// `src` into `dst`, or why nothing was read: a byte for one 8-bit register,
/// two bytes for a 16-bit register or a pair.
pub open spec fn loaded(s: CpuState, bytes: Seq<u8>, src: u16, dst: RegisterClass) -> Result<
    CpuState,
    EngineError,
> {
    match dst {
        RegisterClass::Single(n) => if src < bytes.len() {
            Ok(s.write8(n, bytes[src as int]))
        } else {
            Err(EngineError::OutOfBounds)
        },
        RegisterClass::Double(n) => if src + 1 < bytes.len() {
            Ok(s.write16(n, read_word(bytes, src as int)))
        } else {
            Err(EngineError::OutOfBounds)
        },
        RegisterClass::Pair(p) => if src + 1 < bytes.len() {
            Ok(s.write_pair(p, read_word(bytes, src as int)))
        } else {
            Err(EngineError::OutOfBounds)
        },
    }
}

/// The bytes after the value of `src` was written to `bytes` at `dst`, or
/// why nothing was written: a byte for one 8-bit register, two bytes for a
/// 16-bit register or a pair.
pub open spec fn stored(s: CpuState, bytes: Seq<u8>, src: RegisterClass, dst: u16) -> Result<
    Seq<u8>,
    EngineError,
> {
    match src {
        RegisterClass::Single(n) => if dst < bytes.len() {
            Ok(bytes.update(dst as int, s.read8(n)))
        } else {
            Err(EngineError::OutOfBounds)
        },
        RegisterClass::Double(n) => if dst + 1 < bytes.len() {
            Ok(write_word(bytes, dst as int, s.read16(n)))
        } else {
            Err(EngineError::OutOfBounds)
        },
        RegisterClass::Pair(p) => if dst + 1 < bytes.len() {
            Ok(write_word(bytes, dst as int, s.read_pair(p)))
        } else {
            Err(EngineError::OutOfBounds)
        },
    }
}

impl Cpu {
    /// A register file in which every register holds zero.
    pub fn new() -> (cpu: Self)
        ensures
            cpu@ == (CpuState {
                a: 0,
                b: 0,
                c: 0,
                d: 0,
                e: 0,
                f: 0,
                h: 0,
                l: 0,
                pc: 0,
                sp: 0,
                ix: 0,
                iy: 0,
                r: 0,
                i: 0,
            }),
    {
        Cpu {
            a: Register::default(),
            b: Register::default(),
            c: Register::default(),
            d: Register::default(),
            e: Register::default(),
            f: Register::default(),
            h: Register::default(),
            l: Register::default(),
            pc: Register::default(),
            sp: Register::default(),
            ix: Register::default(),
            iy: Register::default(),
            r: Register::default(),
            i: Register::default(),
        }
    }

    /// Resolves an 8-bit selector.
    pub fn reg8(&self, which: Register8) -> (class: RegisterClass)
        ensures
            class == class_of8(which),
    {
        match which {
            Register8::B => RegisterClass::Single(Name8::B),
            Register8::C => RegisterClass::Single(Name8::C),
            Register8::D => RegisterClass::Single(Name8::D),
            Register8::E => RegisterClass::Single(Name8::E),
            Register8::H => RegisterClass::Single(Name8::H),
            Register8::L => RegisterClass::Single(Name8::L),
            Register8::HL => {
                let pair = RegisterPair::new(Name8::H, Name8::L);
                RegisterClass::Pair(pair)
            },
            Register8::A => RegisterClass::Single(Name8::A),
        }
    }

    /// Resolves a 16-bit selector.
    pub fn reg16(&self, which: Register16) -> (class: RegisterClass)
        ensures
            class == class_of16(which),
    {
        match which {
            Register16::BC => {
                let pair = RegisterPair::new(Name8::B, Name8::C);
                RegisterClass::Pair(pair)
            },
            Register16::DE => {
                let pair = RegisterPair::new(Name8::D, Name8::E);
                RegisterClass::Pair(pair)
            },
            Register16::HL => {
                let pair = RegisterPair::new(Name8::H, Name8::L);
                RegisterClass::Pair(pair)
            },
            Register16::SP => RegisterClass::Double(Name16::SP),
            Register16::AF => {
                let pair = RegisterPair::new(Name8::A, Name8::F);
                RegisterClass::Pair(pair)
            },
            Register16::IX => RegisterClass::Double(Name16::IX),
            Register16::IY => RegisterClass::Double(Name16::IY),
        }
    }

    /// Reads what lies under the name `reg`.
    pub fn get_register_value<B: RegisterHandle>(&self, reg: &B) -> (v: B::W)
        ensures
            v == reg.read_in(self@),
    {
        reg.get(self)
    }

    /// Writes `v` under the name `reg`.
    pub fn set_register_value<B: RegisterHandle>(&mut self, reg: B, v: B::W)
        ensures
            final(self)@ == reg.write_in(old(self)@, v),
    {
        reg.set(self, v)
    }

    /// Points the program counter at `counter`.
    pub fn set_pc(&mut self, counter: u16)
        ensures
            final(self)@ == old(self)@.write16(Name16::PC, counter),
    {
        self.pc.set(counter);
    }

    /// Moves the program counter `bytes` bytes forward. It never wraps: a
    /// step past the last 16-bit address is refused and the counter stays.
    pub fn increment_pc(&mut self, bytes: usize) -> (r: Result<(), EngineError>)
        ensures
            old(self)@.pc + bytes <= u16::MAX ==> r is Ok && final(self)@ == old(self)@.write16(
                Name16::PC,
                (old(self)@.pc + bytes) as u16,
            ),
            old(self)@.pc + bytes > u16::MAX ==> r == Err::<(), EngineError>(
                EngineError::OutOfBounds,
            ) && final(self)@ == old(self)@,
    {
        let cur: u16 = self.pc.get();
        if bytes > (u16::MAX - cur) as usize {
            return Err(EngineError::OutOfBounds);
        }
        self.pc.set(cur + (bytes as u16));
        Ok(())
    }

    /// Reads from `memory` at `src` into `dst`, in the width of `dst`. A
    /// read that reaches outside the memory is refused and no register
    /// changes.
    pub fn load(&mut self, memory: &Memory, src: u16, dst: RegisterClass) -> (r: Result<
        (),
        EngineError,
    >)
        ensures
            match loaded(old(self)@, memory@, src, dst) {
                Ok(s) => r is Ok && final(self)@ == s,
                Err(e) => r == Err::<(), EngineError>(e) && final(self)@ == old(self)@,
            },
    {
        match dst {
            RegisterClass::Single(reg) => {
                let got: Result<u8, EngineError> = memory.get(src);
                match got {
                    Ok(value) => {
                        self.set_register_value(reg, value);
                        Ok(())
                    },
                    Err(e) => Err(e),
                }
            },
            RegisterClass::Double(reg) => {
                let got: Result<u16, EngineError> = memory.get(src);
                match got {
                    Ok(value) => {
                        self.set_register_value(reg, value);
                        Ok(())
                    },
                    Err(e) => Err(e),
                }
            },
            RegisterClass::Pair(reg) => {
                let got: Result<u16, EngineError> = memory.get(src);
                match got {
                    Ok(value) => {
                        self.set_register_value(reg, value);
                        Ok(())
                    },
                    Err(e) => Err(e),
                }
            },
        }
    }

    /// Writes the value of `src` to `memory` at `dst`, in the width of
    /// `src`. A write that reaches outside the memory is refused and no
    /// byte changes.
    pub fn store(&self, memory: &mut Memory, src: RegisterClass, dst: u16) -> (r: Result<
        (),
        EngineError,
    >)
        ensures
            match stored(self@, old(memory)@, src, dst) {
                Ok(bytes) => r is Ok && final(memory)@ == bytes,
                Err(e) => r == Err::<(), EngineError>(e) && final(memory)@ == old(memory)@,
            },
    {
        match src {
            RegisterClass::Single(reg) => {
                let value: u8 = self.get_register_value(&reg);
                memory.set(dst, value)
            },
            RegisterClass::Double(reg) => {
                let value: u16 = self.get_register_value(&reg);
                memory.set(dst, value)
            },
            RegisterClass::Pair(reg) => {
                let value: u16 = self.get_register_value(&reg);
                memory.set(dst, value)
            },
        }
    }
}

/// Writing `h` to the `high` register of a pair and `l` to its `low`
/// register shows in the pair as `h | (l << 8)`, whatever the file held
/// before. The two halves must be two registers.
pub proof fn lemma_pair_shows_halves(s: CpuState, p: RegisterPair, h: u8, l: u8)
    requires
        p.high != p.low,
    ensures
        s.write8(p.high, h).write8(p.low, l).read_pair(p) == (h as u16) | ((l as u16) << 8),
{
}

/// Writing `v` to a pair shows in its halves: the `high` register holds
/// `v & 0xff` and the `low` register `(v >> 8) & 0xff`, and the pair reads
/// as `v`. The two halves must be two registers.
pub proof fn lemma_halves_show_pair(s: CpuState, p: RegisterPair, v: u16)
    requires
        p.high != p.low,
    ensures
        s.write_pair(p, v).read8(p.high) == v & 0xff,
        s.write_pair(p, v).read8(p.low) == (v >> 8) & 0xff,
        s.write_pair(p, v).read_pair(p) == v,
{
    lemma_pair_join_split(v);
    assert(((v & 0xff) as u8) == v & 0xff) by (bit_vector);
    assert((((v >> 8) & 0xff) as u8) == (v >> 8) & 0xff) by (bit_vector);
}

} // verus!
