//! The machine: the decode table and the cycle of fetch, decode, execute
//! and writeback.

use std::collections::HashMap;
use vstd::prelude::*;
use crate::cpu::{Cpu, CpuState, Register16, Register8};
use crate::error::{DecodeError, EngineError};
use crate::instruction::{
    add16, executed, ld16, ld8, ld_a2m, ld_r2mi, lemma_executed_keeps_size, nop, trailing_bytes,
    InstKind, Instruction, Operand,
};
use crate::memory::Memory;
use crate::register::Name16;

verus! {

broadcast use vstd::std_specs::hash::group_hash_axioms;

/// The four phases of the instruction cycle.
#[derive(Debug, Clone, Copy, PartialEq, Eq, Structural)]
pub enum State {
    Fetch,
    Decode,
    Exec,
    Writeback,
}

/// The phase that follows `state`. The cycle has no other way through it.
pub open spec fn next_state(state: State) -> State {
    match state {
        State::Fetch => State::Decode,
        State::Decode => State::Exec,
        State::Exec => State::Writeback,
        State::Writeback => State::Fetch,
    }
}

/// Bits 7 and 6 of an opcode.
pub open spec fn field_x(b: u8) -> u8 {
    (b >> 6) & 0x03
}

/// Bits 5 to 3 of an opcode.
pub open spec fn field_y(b: u8) -> u8 {
    (b >> 3) & 0x07
}

/// Bits 2 to 0 of an opcode.
pub open spec fn field_z(b: u8) -> u8 {
    b & 0x07
}

/// The opcode whose three fields are `x`, `y` and `z`.
pub open spec fn opcode_of(x: u8, y: u8, z: u8) -> u8 {
    (x << 6) | (y << 3) | z
}

/// The three fields of an opcode are small, and they make up the opcode.
pub proof fn lemma_fields(b: u8)
    ensures
        field_x(b) < 4,
        field_y(b) < 8,
        field_z(b) < 8,
        opcode_of(field_x(b), field_y(b), field_z(b)) == b,
        b == 64 * field_x(b) + 8 * field_y(b) + field_z(b),
{
    assert((b >> 6) & 0x03 < 4) by (bit_vector);
    assert((b >> 3) & 0x07 < 8) by (bit_vector);
    assert(b & 0x07 < 8) by (bit_vector);
    assert(((((b >> 6) & 0x03) << 6) | (((b >> 3) & 0x07) << 3) | (b & 0x07)) == b)
        by (bit_vector);
    assert(b == 64 * ((b >> 6) & 0x03) + 8 * ((b >> 3) & 0x07) + (b & 0x07)) by (bit_vector);
}

/// Three small fields are the fields of the opcode they make up.
pub proof fn lemma_opcode_of(x: u8, y: u8, z: u8)
    requires
        x < 4,
        y < 8,
        z < 8,
    ensures
        field_x(opcode_of(x, y, z)) == x,
        field_y(opcode_of(x, y, z)) == y,
        field_z(opcode_of(x, y, z)) == z,
        opcode_of(x, y, z) == 64 * x + 8 * y + z,
{
    assert(x < 4 && y < 8 && z < 8 ==> ((((x << 6) | (y << 3) | z) >> 6) & 0x03) == x)
        by (bit_vector);
    assert(x < 4 && y < 8 && z < 8 ==> ((((x << 6) | (y << 3) | z) >> 3) & 0x07) == y)
        by (bit_vector);
    assert(x < 4 && y < 8 && z < 8 ==> (((x << 6) | (y << 3) | z) & 0x07) == z) by (bit_vector);
    assert(x < 4 && y < 8 && z < 8 ==> ((x << 6) | (y << 3) | z) == 64 * x + 8 * y + z)
        by (bit_vector);
}

/// Splits an opcode into its three fields `x`, `y` and `z`.
pub fn fields(b: u8) -> (f: (u8, u8, u8))
    ensures
        f == (field_x(b), field_y(b), field_z(b)),
{
    let x: u8 = (b >> 6) & 0x03;
    let y: u8 = (b >> 3) & 0x07;
    let z: u8 = b & 0x07;
    (x, y, z)
}

/// What a decode table holds under the fields `x`, `y` and `z`. A table is
/// keyed by opcode; fields that no opcode has find nothing.
pub open spec fn looked_up(table: Map<u8, Instruction>, x: u8, y: u8, z: u8) -> Option<
    Instruction,
> {
    if x < 4 && y < 8 && z < 8 && table.contains_key(opcode_of(x, y, z)) {
        Some(table[opcode_of(x, y, z)])
    } else {
        None
    }
}

/// The instruction that the standard table holds under the fields `x`, `y`
/// and `z`, if it holds one.
pub open spec fn standard_entry(x: u8, y: u8, z: u8) -> Option<Instruction> {
    if x != 0 {
        None
    } else if z == 0 {
        if y == 0 {
            Some(nop())
        } else {
            None
        }
    } else if z == 1 {
        if y == 0 {
            Some(ld16(Operand::Reg16(Register16::BC)))
        } else if y == 2 {
            Some(ld16(Operand::Reg16(Register16::DE)))
        } else if y == 4 {
            Some(ld16(Operand::Reg16(Register16::HL)))
        } else if y == 6 {
            Some(ld16(Operand::Reg16(Register16::SP)))
        } else if y == 1 {
            Some(add16(Operand::Reg16(Register16::HL), Operand::Reg16(Register16::BC)))
        } else if y == 3 {
            Some(add16(Operand::Reg16(Register16::HL), Operand::Reg16(Register16::DE)))
        } else if y == 5 {
            Some(add16(Operand::Reg16(Register16::HL), Operand::Reg16(Register16::HL)))
        } else if y == 7 {
            Some(add16(Operand::Reg16(Register16::HL), Operand::Reg16(Register16::SP)))
        } else {
            None
        }
    } else if z == 2 {
        if y == 0 {
            Some(ld_a2m(Operand::Reg16(Register16::BC)))
        } else if y == 2 {
            Some(ld_a2m(Operand::Reg16(Register16::DE)))
        } else if y == 4 {
            Some(ld_r2mi(Operand::Reg16(Register16::HL)))
        } else if y == 6 {
            Some(ld_r2mi(Operand::Reg(Register8::A)))
        } else {
            None
        }
    } else if z == 6 {
        if y == 0 {
            Some(ld8(Operand::Reg(Register8::B)))
        } else if y == 1 {
            Some(ld8(Operand::Reg(Register8::C)))
        } else if y == 2 {
            Some(ld8(Operand::Reg(Register8::D)))
        } else if y == 3 {
            Some(ld8(Operand::Reg(Register8::E)))
        } else if y == 4 {
            Some(ld8(Operand::Reg(Register8::H)))
        } else if y == 5 {
            Some(ld8(Operand::Reg(Register8::L)))
        } else if y == 6 {
            Some(ld8(Operand::Reg(Register8::HL)))
        } else if y == 7 {
            Some(ld8(Operand::Reg(Register8::A)))
        } else {
            None
        }
    } else {
        None
    }
}

/// The standard decode table: under each opcode what `standard_entry` gives
/// for its fields.
pub open spec fn standard_table() -> Map<u8, Instruction> {
    Map::new(
        |b: u8| standard_entry(field_x(b), field_y(b), field_z(b)) is Some,
        |b: u8| standard_entry(field_x(b), field_y(b), field_z(b))->0,
    )
}

/// Looking the standard table up by fields gives `standard_entry`.
pub proof fn lemma_standard_lookup(x: u8, y: u8, z: u8)
    ensures
        looked_up(standard_table(), x, y, z) == if x < 4 && y < 8 && z < 8 {
            standard_entry(x, y, z)
        } else {
            None
        },
{
    if x < 4 && y < 8 && z < 8 {
        lemma_opcode_of(x, y, z);
    }
}

/// A machine at one moment, seen from outside.
pub struct MachineState {
    /// The registers.
    pub cpu: CpuState,
    /// The bytes of instruction memory.
    pub im: Seq<u8>,
    /// The bytes of data memory.
    pub dm: Seq<u8>,
    /// The phase that the next tick runs.
    pub state: State,
    /// The opcode that the last fetch left pending; empty before any fetch.
    pub op: Seq<u8>,
    /// The instruction that the last decode made current.
    pub inst: Instruction,
    /// The decode table, keyed by opcode.
    pub table: Map<u8, Instruction>,
    /// Whether the last decode found no entry for its opcode.
    pub missed: bool,
}

/// What reading `n` bytes of instruction memory at the program counter
/// gives: the registers with the counter moved past the bytes, and the
/// bytes. The bytes must lie inside the memory and the counter must stay a
/// 16-bit address; otherwise nothing is read and nothing moves.
pub open spec fn fetched(cpu: CpuState, im: Seq<u8>, n: nat) -> Result<
    (CpuState, Seq<u8>),
    EngineError,
> {
    if cpu.pc + n <= im.len() && cpu.pc + n <= u16::MAX {
        Ok(
            (
                cpu.write16(Name16::PC, (cpu.pc + n) as u16),
                im.subrange(cpu.pc as int, cpu.pc + n),
            ),
        )
    } else {
        Err(EngineError::OutOfBounds)
    }
}

/// The fetch phase: one byte at the program counter becomes the pending
/// opcode and the counter moves past it.
pub open spec fn fetch_step(s: MachineState) -> (MachineState, Result<(), EngineError>) {
    match fetched(s.cpu, s.im, 1) {
        Ok((cpu, bytes)) => (MachineState { cpu: cpu, op: bytes, ..s }, Ok(())),
        Err(e) => (s, Err(e)),
    }
}

/// The decode phase: the table entry for the pending opcode becomes the
/// current instruction; where the table has none, the no-op does, and the
/// miss is noted. Without a pending opcode the phase fails and changes
/// nothing.
pub open spec fn decode_step(s: MachineState) -> (MachineState, Result<(), EngineError>) {
    if s.op.len() < 1 {
        (s, Err(EngineError::Decode(DecodeError::EmptyOpcode)))
    } else {
        let b = s.op[0];
        match looked_up(s.table, field_x(b), field_y(b), field_z(b)) {
            Some(inst) => (MachineState { inst: inst, missed: false, ..s }, Ok(())),
            None => (MachineState { inst: nop(), missed: true, ..s }, Ok(())),
        }
    }
}

/// What reading the trailing bytes of an instruction of kind `kind` gives.
/// An instruction without trailing bytes reads nothing, wherever the
/// program counter points.
pub open spec fn fetched_operands(cpu: CpuState, im: Seq<u8>, kind: InstKind) -> Result<
    (CpuState, Seq<u8>),
    EngineError,
> {
    if trailing_bytes(kind) == 0 {
        Ok((cpu, Seq::<u8>::empty()))
    } else {
        fetched(cpu, im, trailing_bytes(kind))
    }
}

/// The execute phase: the trailing bytes that the current instruction
/// takes are read at the program counter, then the instruction is applied.
/// Where the bytes cannot be read nothing changes. Where the instruction
/// fails the counter has moved past its bytes and nothing else changed.
pub open spec fn exec_step(s: MachineState) -> (MachineState, Result<(), EngineError>) {
    match fetched_operands(s.cpu, s.im, s.inst.kind) {
        Err(e) => (s, Err(e)),
        Ok((cpu, args)) => match executed(s.inst.op, cpu, s.dm, args) {
            Ok((after, dm)) => (MachineState { cpu: after, dm: dm, ..s }, Ok(())),
            Err(e) => (MachineState { cpu: cpu, ..s }, Err(e)),
        },
    }
}

/// The writeback phase changes nothing.
pub open spec fn writeback_step(s: MachineState) -> (MachineState, Result<(), EngineError>) {
    (s, Ok(()))
}

/// The phase that `s.state` names, by itself.
pub open spec fn phase_step(s: MachineState) -> (MachineState, Result<(), EngineError>) {
    match s.state {
        State::Fetch => fetch_step(s),
        State::Decode => decode_step(s),
        State::Exec => exec_step(s),
        State::Writeback => writeback_step(s),
    }
}

/// One tick: the phase that `s.state` names runs, and where it succeeds
/// the machine moves on to the next phase. Where it fails the machine
/// stays in the phase.
pub open spec fn tick_step(s: MachineState) -> (MachineState, Result<(), EngineError>) {
    let (t, r) = phase_step(s);
    if r is Ok {
        (MachineState { state: next_state(s.state), ..t }, r)
    } else {
        (t, r)
    }
}

/// The machine after `n` ticks.
pub open spec fn ticks(s: MachineState, n: nat) -> MachineState
    decreases n,
{
    if n == 0 {
        s
    } else {
        tick_step(ticks(s, (n - 1) as nat)).0
    }
}

/// Whether each of the first `n` ticks succeeds.
pub open spec fn ticks_ok(s: MachineState, n: nat) -> bool
    decreases n,
{
    n == 0 || (ticks_ok(s, (n - 1) as nat) && tick_step(ticks(s, (n - 1) as nat)).1 is Ok)
}

/// Whether the predicate `halt` may answer `b` when it is shown a machine
/// in the state `s`.
pub open spec fn answers<F: Fn(&Machine) -> bool>(halt: F, s: MachineState, b: bool) -> bool {
    exists|m: Machine| m@ == s && #[trigger] call_ensures(halt, (&m,), b)
}

/// The instruction cycle engine. It owns the registers and both memories
/// and is the only one to change them while it runs.
pub struct Machine {
    cpu: Cpu,
    im: Memory,
    dm: Memory,
    state: State,
    op: Vec<u8>,
    inst: Instruction,
    table: HashMap<u8, Instruction>,
    missed: bool,
}

impl View for Machine {
    type V = MachineState;

    closed spec fn view(&self) -> MachineState {
        MachineState {
            cpu: self.cpu@,
            im: self.im@,
            dm: self.dm@,
            state: self.state,
            op: self.op@,
            inst: self.inst,
            table: self.table@,
            missed: self.missed,
        }
    }
}

impl Machine {
    /// Builds the standard decode table.
    pub fn init_table() -> (table: HashMap<u8, Instruction>)
        ensures
            table@ == standard_table(),
    {
        let mut table: HashMap<u8, Instruction> = HashMap::new();
        table.insert(0b00_000_000, nop());
        table.insert(0b00_000_001, ld16(Operand::Reg16(Register16::BC)));
        table.insert(0b00_010_001, ld16(Operand::Reg16(Register16::DE)));
        table.insert(0b00_100_001, ld16(Operand::Reg16(Register16::HL)));
        table.insert(0b00_110_001, ld16(Operand::Reg16(Register16::SP)));
        table.insert(
            0b00_001_001,
            add16(Operand::Reg16(Register16::HL), Operand::Reg16(Register16::BC)),
        );
        table.insert(
            0b00_011_001,
            add16(Operand::Reg16(Register16::HL), Operand::Reg16(Register16::DE)),
        );
        table.insert(
            0b00_101_001,
            add16(Operand::Reg16(Register16::HL), Operand::Reg16(Register16::HL)),
        );
        table.insert(
            0b00_111_001,
            add16(Operand::Reg16(Register16::HL), Operand::Reg16(Register16::SP)),
        );
        table.insert(0b00_000_010, ld_a2m(Operand::Reg16(Register16::BC)));
        table.insert(0b00_010_010, ld_a2m(Operand::Reg16(Register16::DE)));
        table.insert(0b00_100_010, ld_r2mi(Operand::Reg16(Register16::HL)));
        table.insert(0b00_110_010, ld_r2mi(Operand::Reg(Register8::A)));
        table.insert(0b00_000_110, ld8(Operand::Reg(Register8::B)));
        table.insert(0b00_001_110, ld8(Operand::Reg(Register8::C)));
        table.insert(0b00_010_110, ld8(Operand::Reg(Register8::D)));
        table.insert(0b00_011_110, ld8(Operand::Reg(Register8::E)));
        table.insert(0b00_100_110, ld8(Operand::Reg(Register8::H)));
        table.insert(0b00_101_110, ld8(Operand::Reg(Register8::L)));
        table.insert(0b00_110_110, ld8(Operand::Reg(Register8::HL)));
        table.insert(0b00_111_110, ld8(Operand::Reg(Register8::A)));
        proof {
            assert forall|b: u8| #[trigger]
                table@.dom().contains(b) == standard_table().dom().contains(b) by {
                lemma_fields(b);
            }
            assert forall|b: u8| #[trigger] table@.dom().contains(b) implies table@[b]
                == standard_table()[b] by {
                lemma_fields(b);
            }
            assert(table@ =~= standard_table());
        }
        table
    }

    /// A machine about to fetch its first opcode at the program counter of
    /// `cpu`, with nothing pending and the no-op as current instruction.
    pub fn new(cpu: Cpu, im: Memory, dm: Memory, table: HashMap<u8, Instruction>) -> (m: Self)
        ensures
            m@ == (MachineState {
                cpu: cpu@,
                im: im@,
                dm: dm@,
                state: State::Fetch,
                op: Seq::<u8>::empty(),
                inst: nop(),
                table: table@,
                missed: false,
            }),
    {
        Machine {
            cpu: cpu,
            im: im,
            dm: dm,
            state: State::Fetch,
            op: Vec::new(),
            inst: nop(),
            table: table,
            missed: false,
        }
    }

    /// Advances the machine by one phase.
    pub fn tick(&mut self) -> (r: Result<(), EngineError>)
        ensures
            (final(self)@, r) == tick_step(old(self)@),
            final(self)@.cpu.pc >= old(self)@.cpu.pc,
    {
        let done: Result<(), EngineError> = match self.state {
            State::Fetch => self.fetch(),
            State::Decode => self.decode(),
            State::Exec => self.exec(),
            State::Writeback => self.writeback(),
        };
        match done {
            Ok(()) => {
                self.next();
                Ok(())
            },
            Err(e) => Err(e),
        }
    }

    /// Reads `bytes` bytes of instruction memory at the program counter and
    /// moves the counter past them.
    fn load(&mut self, bytes: usize) -> (r: Result<Vec<u8>, EngineError>)
        ensures
            match fetched(old(self)@.cpu, old(self)@.im, bytes as nat) {
                Ok((cpu, block)) => r is Ok && r->Ok_0@ == block && final(self)@ == (MachineState {
                    cpu: cpu,
                    ..old(self)@
                }),
                Err(e) => r is Err && r->Err_0 == e && final(self)@ == old(self)@,
            },
    {
        let ip: u16 = self.cpu.get_register_value(&Name16::PC);
        if bytes > (u16::MAX - ip) as usize {
            return Err(EngineError::OutOfBounds);
        }
        let res: Vec<u8> = match self.im.load(ip, bytes) {
            Ok(block) => block,
            Err(e) => { return Err(e); },
        };
        match self.cpu.increment_pc(bytes) {
            Ok(()) => Ok(res),
            Err(e) => Err(e),
        }
    }

    fn load_one(&mut self) -> (r: Result<Vec<u8>, EngineError>)
        ensures
            match fetched(old(self)@.cpu, old(self)@.im, 1) {
                Ok((cpu, block)) => r is Ok && r->Ok_0@ == block && final(self)@ == (MachineState {
                    cpu: cpu,
                    ..old(self)@
                }),
                Err(e) => r is Err && r->Err_0 == e && final(self)@ == old(self)@,
            },
    {
        self.load(1)
    }

    fn load_two(&mut self) -> (r: Result<Vec<u8>, EngineError>)
        ensures
            match fetched(old(self)@.cpu, old(self)@.im, 2) {
                Ok((cpu, block)) => r is Ok && r->Ok_0@ == block && final(self)@ == (MachineState {
                    cpu: cpu,
                    ..old(self)@
                }),
                Err(e) => r is Err && r->Err_0 == e && final(self)@ == old(self)@,
            },
    {
        self.load(2)
    }

    /// Moves the machine on to the next phase without running the current
    /// one.
    pub fn next(&mut self)
        ensures
            final(self)@ == (MachineState { state: next_state(old(self)@.state), ..old(self)@ }),
    {
        self.state = match self.state {
            State::Fetch => State::Decode,
            State::Decode => State::Exec,
            State::Exec => State::Writeback,
            State::Writeback => State::Fetch,
        }
    }

    /// Runs the fetch phase.
    pub fn fetch(&mut self) -> (r: Result<(), EngineError>)
        ensures
            (final(self)@, r) == fetch_step(old(self)@),
    {
        match self.load_one() {
            Ok(op) => {
                self.op = op;
                Ok(())
            },
            Err(e) => Err(e),
        }
    }

    /// Runs the decode phase.
    pub fn decode(&mut self) -> (r: Result<(), EngineError>)
        ensures
            (final(self)@, r) == decode_step(old(self)@),
    {
        if self.op.len() < 1 {
            return Err(EngineError::Decode(DecodeError::EmptyOpcode));
        }
        let (x, y, z) = fields(self.op[0]);
        let found: Option<Instruction> = match self.lookup(x, y, z) {
            Some(i) => Some(i.clone()),
            None => None,
        };
        match found {
            Some(i) => {
                self.inst = i;
                self.missed = false;
            },
            None => {
                self.inst = nop();
                self.missed = true;
            },
        }
        Ok(())
    }

    /// What the table holds under the fields `x`, `y` and `z`.
    fn lookup(&self, x: u8, y: u8, z: u8) -> (r: Option<&Instruction>)
        ensures
            match r {
                Some(i) => looked_up(self@.table, x, y, z) == Some(*i),
                None => looked_up(self@.table, x, y, z) is None,
            },
    {
        if x < 4 && y < 8 && z < 8 {
            let key: u8 = (x << 6) | (y << 3) | z;
            self.table.get(&key)
        } else {
            None
        }
    }

    /// Runs the execute phase.
    pub fn exec(&mut self) -> (r: Result<(), EngineError>)
        ensures
            (final(self)@, r) == exec_step(old(self)@),
    {
        let loaded: Result<Vec<u8>, EngineError> = match self.inst.kind {
            InstKind::NoOperand => Ok(Vec::new()),
            InstKind::N => self.load_one(),
            InstKind::NN => self.load_two(),
            InstKind::Displacement => self.load_one(),
        };
        let args: Vec<u8> = match loaded {
            Ok(args) => args,
            Err(e) => { return Err(e); },
        };
        match self.inst.exec(&mut self.cpu, &mut self.dm, args) {
            Ok(()) => Ok(()),
            Err(e) => Err(e),
        }
    }

    /// Runs the writeback phase, which has nothing to do.
    pub fn writeback(&mut self) -> (r: Result<(), EngineError>)
        ensures
            (final(self)@, r) == writeback_step(old(self)@),
    {
        Ok(())
    }

    /// Ticks until `halt`, asked after each tick, says that the machine has
    /// come to a stop, or until `max_ticks` ticks are done, and gives the
    /// number of ticks done. A tick that fails ends the run with its error.
    pub fn run<F: Fn(&Machine) -> bool>(&mut self, halt: F, max_ticks: u64) -> (r: Result<
        u64,
        EngineError,
    >)
        requires
            forall|m: Machine| call_requires(halt, (&m,)),
        ensures
            match r {
                Ok(n) => {
                    &&& n <= max_ticks
                    &&& max_ticks > 0 ==> n > 0
                    &&& ticks_ok(old(self)@, n as nat)
                    &&& final(self)@ == ticks(old(self)@, n as nat)
                    &&& forall|k: nat|
                        0 < k < n ==> answers(halt, #[trigger] ticks(old(self)@, k), false)
                    &&& n < max_ticks ==> answers(halt, final(self)@, true)
                },
                Err(e) => exists|n: nat|
                    {
                        &&& n < max_ticks
                        &&& ticks_ok(old(self)@, n)
                        &&& #[trigger] tick_step(ticks(old(self)@, n)) == (
                            final(self)@,
                            Err::<(), EngineError>(e),
                        )
                        &&& forall|k: nat|
                            0 < k <= n ==> answers(halt, #[trigger] ticks(old(self)@, k), false)
                    },
            },
    {
        let mut n: u64 = 0;
        while n < max_ticks
            invariant
                n <= max_ticks,
                forall|m: Machine| call_requires(halt, (&m,)),
                ticks_ok(old(self)@, n as nat),
                self@ == ticks(old(self)@, n as nat),
                forall|k: nat| 0 < k <= n ==> answers(halt, #[trigger] ticks(old(self)@, k), false),
            decreases max_ticks - n,
        {
            match self.tick() {
                Ok(()) => {},
                Err(e) => {
                    assert(tick_step(ticks(old(self)@, n as nat)) == (
                        self@,
                        Err::<(), EngineError>(e),
                    ));
                    return Err(e);
                },
            }
            n = n + 1;
            let stop: bool = halt(&*self);
            assert(answers(halt, ticks(old(self)@, n as nat), stop)) by {
                assert(call_ensures(halt, (&*self,), stop));
            }
            if stop {
                return Ok(n);
            }
        }
        Ok(n)
    }

    /// The registers.
    pub fn cpu(&self) -> (cpu: &Cpu)
        ensures
            cpu@ == self@.cpu,
    {
        &self.cpu
    }

    /// The instruction memory.
    pub fn im(&self) -> (im: &Memory)
        ensures
            im@ == self@.im,
    {
        &self.im
    }

    /// The data memory.
    pub fn dm(&self) -> (dm: &Memory)
        ensures
            dm@ == self@.dm,
    {
        &self.dm
    }

    /// The phase that the next tick runs.
    pub fn state(&self) -> (state: State)
        ensures
            state == self@.state,
    {
        self.state
    }

    /// The opcode that the last fetch left pending.
    pub fn opcode(&self) -> (op: Option<u8>)
        ensures
            op == if self@.op.len() < 1 {
                None
            } else {
                Some(self@.op[0])
            },
    {
        if self.op.len() < 1 {
            None
        } else {
            Some(self.op[0])
        }
    }

    /// The instruction that the last decode made current.
    pub fn instruction(&self) -> (inst: &Instruction)
        ensures
            *inst == self@.inst,
    {
        &self.inst
    }

    /// Whether the last decode found no table entry for its opcode and put
    /// the no-op in its place.
    pub fn decode_missed(&self) -> (missed: bool)
        ensures
            missed == self@.missed,
    {
        self.missed
    }
}

/// A tick changes neither the program nor the decode table, and it leaves
/// the data memory its size.
pub proof fn lemma_tick_keeps_program(s: MachineState)
    ensures
        tick_step(s).0.im == s.im,
        tick_step(s).0.table == s.table,
        tick_step(s).0.dm.len() == s.dm.len(),
{
    if s.state == State::Exec {
        match fetched_operands(s.cpu, s.im, s.inst.kind) {
            Ok((cpu, args)) => {
                lemma_executed_keeps_size(s.inst.op, cpu, s.dm, args);
            },
            Err(_) => {},
        }
    }
}

/// A tick never lowers the program counter.
pub proof fn lemma_tick_keeps_pc_from_falling(s: MachineState)
    ensures
        tick_step(s).0.cpu.pc >= s.cpu.pc,
{
}

/// No run of ticks lowers the program counter.
pub proof fn lemma_ticks_keep_pc_from_falling(s: MachineState, n: nat)
    ensures
        ticks(s, n).cpu.pc >= s.cpu.pc,
    decreases n,
{
    if n > 0 {
        lemma_ticks_keep_pc_from_falling(s, (n - 1) as nat);
        lemma_tick_keeps_pc_from_falling(ticks(s, (n - 1) as nat));
    }
}

/// A tick that succeeds moves the program counter by the number of bytes
/// that its phase reads from instruction memory: one in the fetch phase,
/// the trailing bytes of the current instruction in the execute phase, none
/// in the other two.
pub proof fn lemma_tick_moves_pc_by_bytes_read(s: MachineState)
    requires
        tick_step(s).1 is Ok,
    ensures
        tick_step(s).0.cpu.pc == s.cpu.pc + match s.state {
            State::Fetch => 1,
            State::Decode => 0,
            State::Exec => trailing_bytes(s.inst.kind),
            State::Writeback => 0,
        },
{
}

/// An instruction that goes through its four phases without failure moves
/// the program counter by exactly the bytes read for it, the opcode and its
/// trailing bytes, and leaves the machine ready to fetch again.
pub proof fn lemma_retired_instruction_moves_pc(s: MachineState)
    requires
        s.state == State::Fetch,
        ticks_ok(s, 4),
    ensures
        ticks(s, 4).state == State::Fetch,
        ticks(s, 4).cpu.pc == s.cpu.pc + 1 + trailing_bytes(ticks(s, 2).inst.kind),
{
    reveal_with_fuel(ticks, 5);
    reveal_with_fuel(ticks_ok, 5);
}

/// Decoding never fails once an opcode is pending: whatever the byte, the
/// table entry under it becomes the current instruction, or the no-op where
/// the table has none, and nothing else changes.
pub proof fn lemma_decode_total(s: MachineState)
    requires
        s.op.len() >= 1,
    ensures
        decode_step(s).1 is Ok,
        decode_step(s).0 == (MachineState {
            inst: if s.table.contains_key(s.op[0]) {
                s.table[s.op[0]]
            } else {
                nop()
            },
            missed: !s.table.contains_key(s.op[0]),
            ..s
        }),
{
    lemma_fields(s.op[0]);
}

/// An opcode without a table entry goes through its four phases as a
/// no-op: no tick fails, the program counter moves past the opcode, the
/// miss is noted, and no other register and no byte of memory changes.
pub proof fn lemma_missing_entry_is_no_op(s: MachineState)
    requires
        s.state == State::Fetch,
        s.cpu.pc < s.im.len(),
        s.cpu.pc < u16::MAX,
        !s.table.contains_key(s.im[s.cpu.pc as int]),
    ensures
        ticks_ok(s, 4),
        ticks(s, 4) == (MachineState {
            cpu: s.cpu.write16(Name16::PC, (s.cpu.pc + 1) as u16),
            op: s.im.subrange(s.cpu.pc as int, s.cpu.pc + 1),
            inst: nop(),
            missed: true,
            ..s
        }),
{
    reveal_with_fuel(ticks, 5);
    reveal_with_fuel(ticks_ok, 5);
    let s1 = ticks(s, 1);
    assert(s1.op[0] == s.im[s.cpu.pc as int]);
    lemma_decode_total(s1);
}

} // verus!
