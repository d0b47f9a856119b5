use std::rc::Rc;
use vm::cpu::{Cpu, Register16, Register8};
use vm::error::EngineError;
use vm::instruction::{
    add16, ld16, ld8, ld_a2m, ld_r2mi, nop, read16, InstKind, Instruction, Operand, Operation,
};
use vm::memory::Memory;
use vm::ops::{Addressable, ByteContainer};
use vm::register::{Name16, Name8, RegisterPair};

fn ld(dst: Operand, src: Operand, kind: InstKind) -> Instruction {
    Instruction { kind, op: Operation::Ld(dst, src) }
}

fn mem(through: Operand) -> Operand {
    Operand::Mem(Rc::new(through))
}

fn byte_at(m: &Memory, addr: u16) -> u8 {
    let b: Result<u8, EngineError> = m.get(addr);
    b.unwrap()
}

#[test]
fn builders_make_the_documented_instructions() {
    assert_eq!(nop(), Instruction { kind: InstKind::NoOperand, op: Operation::Nop });
    assert_eq!(
        ld8(Operand::Reg(Register8::B)),
        Instruction {
            kind: InstKind::N,
            op: Operation::Ld(Operand::Reg(Register8::B), Operand::Immediate8),
        }
    );
    assert_eq!(
        ld16(Operand::Reg16(Register16::SP)),
        Instruction {
            kind: InstKind::NN,
            op: Operation::Ld(Operand::Reg16(Register16::SP), Operand::Immediate16),
        }
    );
    assert_eq!(
        add16(Operand::Reg16(Register16::HL), Operand::Reg16(Register16::DE)),
        Instruction {
            kind: InstKind::NoOperand,
            op: Operation::Add(Operand::Reg16(Register16::HL), Operand::Reg16(Register16::DE)),
        }
    );
    assert_eq!(
        ld_a2m(Operand::Reg16(Register16::BC)),
        Instruction {
            kind: InstKind::NoOperand,
            op: Operation::Ld(mem(Operand::Reg16(Register16::BC)), Operand::Reg(Register8::A)),
        }
    );
    assert_eq!(
        ld_r2mi(Operand::Reg(Register8::A)),
        Instruction {
            kind: InstKind::NN,
            op: Operation::Ld(mem(Operand::Immediate16), Operand::Reg(Register8::A)),
        }
    );
}

#[test]
fn clone_is_equal_and_deep() {
    let inst = ld(
        Operand::Reg(Register8::A),
        mem(mem(Operand::Reg16(Register16::IX))),
        InstKind::Displacement,
    );
    let copy = inst.clone();
    assert_eq!(copy, inst);
    assert_eq!(inst.op.clone(), inst.op);
    assert_eq!(Operand::Immediate16.clone(), Operand::Immediate16);
    assert_ne!(nop(), ld8(Operand::Reg(Register8::A)));
}

#[test]
fn read16_takes_the_low_byte_first() {
    assert_eq!(read16(&vec![0x07, 0xc5]), 0xc507);
    assert_eq!(read16(&vec![0xc5, 0x07]), 0x07c5);
    assert_eq!(read16(&vec![0xff, 0x00, 0x55]), 0x00ff);
    assert_eq!(read16(&vec![0x00, 0xff]), 0xff00);
}

#[test]
fn nop_changes_nothing() {
    let mut cpu = Cpu::new();
    cpu.set_register_value(Name8::A, 7);
    cpu.set_pc(0x100);
    let mut dm = Memory::with_capacity(4);
    assert_eq!(dm.store(0, &[1, 2, 3, 4]), Ok(()));
    assert_eq!(nop().exec(&mut cpu, &mut dm, vec![]), Ok(()));
    assert_eq!(nop().exec(&mut cpu, &mut dm, vec![9, 9]), Ok(()));
    assert_eq!(cpu.a.get(), 7);
    assert_eq!(cpu.pc.get(), 0x100);
    assert_eq!(dm.load(0, 4), Ok(vec![1, 2, 3, 4]));
}

#[test]
fn add_has_no_meaning() {
    let mut cpu = Cpu::new();
    cpu.set_register_value(RegisterPair::new(Name8::H, Name8::L), 0x1234);
    let mut dm = Memory::with_capacity(4);
    let inst = add16(Operand::Reg16(Register16::HL), Operand::Reg16(Register16::BC));
    assert_eq!(inst.exec(&mut cpu, &mut dm, vec![]), Err(EngineError::UnsupportedOperandForm));
    assert_eq!(cpu.get_register_value(&RegisterPair::new(Name8::H, Name8::L)), 0x1234);
}

#[test]
fn register_from_register() {
    let mut cpu = Cpu::new();
    let mut dm = Memory::with_capacity(4);
    cpu.set_register_value(Name8::C, 0x5a);
    let inst = ld(Operand::Reg(Register8::B), Operand::Reg(Register8::C), InstKind::NoOperand);
    assert_eq!(inst.exec(&mut cpu, &mut dm, vec![]), Ok(()));
    assert_eq!(cpu.b.get(), 0x5a);
    assert_eq!(cpu.c.get(), 0x5a);
    let same = ld(Operand::Reg(Register8::B), Operand::Reg(Register8::B), InstKind::NoOperand);
    assert_eq!(same.exec(&mut cpu, &mut dm, vec![]), Ok(()));
    assert_eq!(cpu.b.get(), 0x5a);
}

#[test]
fn register_from_register_wants_two_registers() {
    let mut cpu = Cpu::new();
    let mut dm = Memory::with_capacity(4);
    cpu.set_register_value(Name8::B, 1);
    let to_slot = ld(Operand::Reg(Register8::HL), Operand::Reg(Register8::B), InstKind::NoOperand);
    assert_eq!(to_slot.exec(&mut cpu, &mut dm, vec![]), Err(EngineError::RegisterNotFound));
    let from_slot =
        ld(Operand::Reg(Register8::B), Operand::Reg(Register8::HL), InstKind::NoOperand);
    assert_eq!(from_slot.exec(&mut cpu, &mut dm, vec![]), Err(EngineError::RegisterNotFound));
    assert_eq!(cpu.b.get(), 1);
    assert_eq!(cpu.h.get(), 0);
    assert_eq!(cpu.l.get(), 0);
}

#[test]
fn register_from_immediate8() {
    let mut cpu = Cpu::new();
    let mut dm = Memory::with_capacity(4);
    assert_eq!(ld8(Operand::Reg(Register8::D)).exec(&mut cpu, &mut dm, vec![0xab]), Ok(()));
    assert_eq!(cpu.d.get(), 0xab);
    assert_eq!(ld8(Operand::Reg(Register8::A)).exec(&mut cpu, &mut dm, vec![0xff, 0x01]), Ok(()));
    assert_eq!(cpu.a.get(), 0xff);
}

#[test]
fn immediate8_into_the_pair_slot_finds_no_register() {
    let mut cpu = Cpu::new();
    let mut dm = Memory::with_capacity(4);
    let inst = ld8(Operand::Reg(Register8::HL));
    assert_eq!(inst.exec(&mut cpu, &mut dm, vec![0x11]), Err(EngineError::RegisterNotFound));
    assert_eq!(cpu.h.get(), 0);
    assert_eq!(cpu.l.get(), 0);
    assert_eq!(dm.load(0, 4), Ok(vec![0, 0, 0, 0]));
}

#[test]
fn missing_trailing_bytes_make_the_form_unsupported() {
    let mut cpu = Cpu::new();
    let mut dm = Memory::with_capacity(4);
    assert_eq!(
        ld8(Operand::Reg(Register8::B)).exec(&mut cpu, &mut dm, vec![]),
        Err(EngineError::UnsupportedOperandForm)
    );
    assert_eq!(
        ld8(Operand::Reg(Register8::HL)).exec(&mut cpu, &mut dm, vec![]),
        Err(EngineError::UnsupportedOperandForm)
    );
    assert_eq!(
        ld16(Operand::Reg16(Register16::BC)).exec(&mut cpu, &mut dm, vec![1]),
        Err(EngineError::UnsupportedOperandForm)
    );
    assert_eq!(
        ld_r2mi(Operand::Reg(Register8::A)).exec(&mut cpu, &mut dm, vec![0]),
        Err(EngineError::UnsupportedOperandForm)
    );
    let displaced = ld(
        Operand::Reg(Register8::A),
        mem(Operand::Reg16(Register16::IX)),
        InstKind::Displacement,
    );
    assert_eq!(
        displaced.exec(&mut cpu, &mut dm, vec![]),
        Err(EngineError::UnsupportedOperandForm)
    );
    assert_eq!(cpu.b.get(), 0);
    assert_eq!(cpu.c.get(), 0);
}

#[test]
fn immediate16_is_low_byte_first() {
    let mut cpu = Cpu::new();
    let mut dm = Memory::with_capacity(4);
    let inst = ld16(Operand::Reg16(Register16::SP));
    assert_eq!(inst.exec(&mut cpu, &mut dm, vec![0x07, 0xc5]), Ok(()));
    assert_eq!(cpu.sp.get(), 0xc507);
    assert_eq!(dm.set(0, 0xc507u16), Ok(()));
    assert_eq!(byte_at(&dm, 0), 0xc5);
    assert_eq!(byte_at(&dm, 1), 0x07);
}

#[test]
fn immediate16_into_each_16_bit_slot() {
    let mut cpu = Cpu::new();
    let mut dm = Memory::with_capacity(4);
    assert_eq!(
        ld16(Operand::Reg16(Register16::BC)).exec(&mut cpu, &mut dm, vec![0x07, 0xc5]),
        Ok(())
    );
    assert_eq!(cpu.get_register_value(&RegisterPair::new(Name8::B, Name8::C)), 0xc507);
    assert_eq!(cpu.b.get(), 0x07);
    assert_eq!(cpu.c.get(), 0xc5);
    assert_eq!(
        ld16(Operand::Reg16(Register16::DE)).exec(&mut cpu, &mut dm, vec![0x34, 0x12]),
        Ok(())
    );
    assert_eq!(cpu.d.get(), 0x34);
    assert_eq!(cpu.e.get(), 0x12);
    assert_eq!(
        ld16(Operand::Reg16(Register16::HL)).exec(&mut cpu, &mut dm, vec![0x01, 0x02]),
        Ok(())
    );
    assert_eq!(cpu.h.get(), 0x01);
    assert_eq!(cpu.l.get(), 0x02);
    assert_eq!(
        ld16(Operand::Reg16(Register16::AF)).exec(&mut cpu, &mut dm, vec![0xaa, 0xbb]),
        Ok(())
    );
    assert_eq!(cpu.a.get(), 0xaa);
    assert_eq!(cpu.f.get(), 0xbb);
    assert_eq!(
        ld16(Operand::Reg16(Register16::IX)).exec(&mut cpu, &mut dm, vec![0x10, 0x20]),
        Ok(())
    );
    assert_eq!(cpu.ix.get(), 0x2010);
    assert_eq!(
        ld16(Operand::Reg16(Register16::IY)).exec(&mut cpu, &mut dm, vec![0x30, 0x40, 0x50]),
        Ok(())
    );
    assert_eq!(cpu.iy.get(), 0x4030);
    assert_eq!(cpu.pc.get(), 0);
}

#[test]
fn register_from_memory_through_a_pair() {
    let mut cpu = Cpu::new();
    let mut dm = Memory::with_capacity(0x200);
    assert_eq!(dm.set(0x0123, 0x77u8), Ok(()));
    cpu.set_register_value(RegisterPair::new(Name8::H, Name8::L), 0x0123);
    let through_pair =
        ld(Operand::Reg(Register8::A), mem(Operand::Reg16(Register16::HL)), InstKind::NoOperand);
    assert_eq!(through_pair.exec(&mut cpu, &mut dm, vec![]), Ok(()));
    assert_eq!(cpu.a.get(), 0x77);
    let through_slot =
        ld(Operand::Reg(Register8::B), mem(Operand::Reg(Register8::HL)), InstKind::NoOperand);
    assert_eq!(through_slot.exec(&mut cpu, &mut dm, vec![]), Ok(()));
    assert_eq!(cpu.b.get(), 0x77);
}

#[test]
fn register_from_memory_through_sp() {
    let mut cpu = Cpu::new();
    let mut dm = Memory::with_capacity(0x200);
    assert_eq!(dm.set(0x0040, 0x99u8), Ok(()));
    cpu.set_register_value(Name16::SP, 0x0040);
    let inst =
        ld(Operand::Reg(Register8::E), mem(Operand::Reg16(Register16::SP)), InstKind::NoOperand);
    assert_eq!(inst.exec(&mut cpu, &mut dm, vec![0x05]), Ok(()));
    assert_eq!(cpu.e.get(), 0x99);
}

#[test]
fn index_registers_take_a_signed_displacement() {
    let mut cpu = Cpu::new();
    let mut dm = Memory::with_capacity(0x200);
    assert_eq!(dm.store(0x00fe, &[0xa0, 0xa1, 0xa2, 0xa3, 0xa4]), Ok(()));
    cpu.set_register_value(Name16::IX, 0x0100);
    cpu.set_register_value(Name16::IY, 0x0100);
    let ix =
        ld(Operand::Reg(Register8::A), mem(Operand::Reg16(Register16::IX)), InstKind::Displacement);
    let iy =
        ld(Operand::Reg(Register8::B), mem(Operand::Reg16(Register16::IY)), InstKind::Displacement);
    assert_eq!(ix.exec(&mut cpu, &mut dm, vec![0x00]), Ok(()));
    assert_eq!(cpu.a.get(), 0xa2);
    assert_eq!(ix.exec(&mut cpu, &mut dm, vec![0x02]), Ok(()));
    assert_eq!(cpu.a.get(), 0xa4);
    assert_eq!(ix.exec(&mut cpu, &mut dm, vec![0xff]), Ok(()));
    assert_eq!(cpu.a.get(), 0xa1);
    assert_eq!(iy.exec(&mut cpu, &mut dm, vec![0xfe]), Ok(()));
    assert_eq!(cpu.b.get(), 0xa0);
    assert_eq!(iy.exec(&mut cpu, &mut dm, vec![0x01]), Ok(()));
    assert_eq!(cpu.b.get(), 0xa3);
}

#[test]
fn displacement_reaches_128_back_and_127_forward() {
    let mut cpu = Cpu::new();
    let mut dm = Memory::with_capacity(0x200);
    assert_eq!(dm.set(0x0080, 0x11u8), Ok(()));
    assert_eq!(dm.set(0x017f, 0x22u8), Ok(()));
    cpu.set_register_value(Name16::IX, 0x0100);
    let ix =
        ld(Operand::Reg(Register8::A), mem(Operand::Reg16(Register16::IX)), InstKind::Displacement);
    assert_eq!(ix.exec(&mut cpu, &mut dm, vec![0x80]), Ok(()));
    assert_eq!(cpu.a.get(), 0x11);
    assert_eq!(ix.exec(&mut cpu, &mut dm, vec![0x7f]), Ok(()));
    assert_eq!(cpu.a.get(), 0x22);
}

#[test]
fn displaced_address_outside_16_bits_is_out_of_bounds() {
    let mut cpu = Cpu::new();
    let mut dm = Memory::new();
    cpu.set_register_value(Name8::A, 0x33);
    let load =
        ld(Operand::Reg(Register8::A), mem(Operand::Reg16(Register16::IX)), InstKind::Displacement);
    let store =
        ld(mem(Operand::Reg16(Register16::IY)), Operand::Reg(Register8::A), InstKind::Displacement);
    cpu.set_register_value(Name16::IX, 0x0000);
    assert_eq!(load.exec(&mut cpu, &mut dm, vec![0xff]), Err(EngineError::OutOfBounds));
    cpu.set_register_value(Name16::IX, 0x007f);
    assert_eq!(load.exec(&mut cpu, &mut dm, vec![0x80]), Err(EngineError::OutOfBounds));
    cpu.set_register_value(Name16::IX, 0x0080);
    assert_eq!(load.exec(&mut cpu, &mut dm, vec![0x80]), Ok(()));
    assert_eq!(cpu.a.get(), 0);
    cpu.set_register_value(Name8::A, 0x33);
    cpu.set_register_value(Name16::IY, 0xffff);
    assert_eq!(store.exec(&mut cpu, &mut dm, vec![0x01]), Err(EngineError::OutOfBounds));
    assert_eq!(store.exec(&mut cpu, &mut dm, vec![0x00]), Ok(()));
    assert_eq!(byte_at(&dm, 0xffff), 0x33);
    cpu.set_register_value(Name16::IY, 0xff81);
    assert_eq!(store.exec(&mut cpu, &mut dm, vec![0x7f]), Err(EngineError::OutOfBounds));
    assert_eq!(store.exec(&mut cpu, &mut dm, vec![0x7e]), Ok(()));
    assert_eq!(cpu.a.get(), 0x33);
}

#[test]
fn immediate_address_is_high_byte_first() {
    let mut cpu = Cpu::new();
    let mut dm = Memory::with_capacity(0x4000);
    assert_eq!(dm.set(0x0123, 0x5au8), Ok(()));
    assert_eq!(dm.set(0x2301, 0xa5u8), Ok(()));
    let load = ld(Operand::Reg(Register8::C), mem(Operand::Immediate16), InstKind::NN);
    assert_eq!(load.exec(&mut cpu, &mut dm, vec![0x01, 0x23]), Ok(()));
    assert_eq!(cpu.c.get(), 0x5a);
    cpu.set_register_value(Name8::A, 0xee);
    let store = ld_r2mi(Operand::Reg(Register8::A));
    assert_eq!(store.exec(&mut cpu, &mut dm, vec![0x02, 0x10]), Ok(()));
    assert_eq!(byte_at(&dm, 0x0210), 0xee);
    assert_eq!(byte_at(&dm, 0x1002), 0);
}

#[test]
fn memory_from_register() {
    let mut cpu = Cpu::new();
    let mut dm = Memory::with_capacity(0x200);
    cpu.set_register_value(Name8::A, 0x42);
    cpu.set_register_value(RegisterPair::new(Name8::B, Name8::C), 0x0010);
    cpu.set_register_value(RegisterPair::new(Name8::D, Name8::E), 0x0020);
    cpu.set_register_value(RegisterPair::new(Name8::H, Name8::L), 0x0030);
    cpu.set_register_value(Name16::SP, 0x0040);
    assert_eq!(ld_a2m(Operand::Reg16(Register16::BC)).exec(&mut cpu, &mut dm, vec![]), Ok(()));
    assert_eq!(ld_a2m(Operand::Reg16(Register16::DE)).exec(&mut cpu, &mut dm, vec![]), Ok(()));
    assert_eq!(ld_a2m(Operand::Reg16(Register16::SP)).exec(&mut cpu, &mut dm, vec![]), Ok(()));
    assert_eq!(ld_a2m(Operand::Reg(Register8::HL)).exec(&mut cpu, &mut dm, vec![]), Ok(()));
    assert_eq!(byte_at(&dm, 0x0010), 0x42);
    assert_eq!(byte_at(&dm, 0x0020), 0x42);
    assert_eq!(byte_at(&dm, 0x0030), 0x42);
    assert_eq!(byte_at(&dm, 0x0040), 0x42);
    assert_eq!(byte_at(&dm, 0x0011), 0);
    let from_l =
        ld(mem(Operand::Reg16(Register16::HL)), Operand::Reg(Register8::L), InstKind::NoOperand);
    assert_eq!(from_l.exec(&mut cpu, &mut dm, vec![]), Ok(()));
    assert_eq!(byte_at(&dm, 0x0030), 0x00);
    assert_eq!(cpu.a.get(), 0x42);
}

#[test]
fn memory_access_outside_data_memory_is_out_of_bounds() {
    let mut cpu = Cpu::new();
    let mut dm = Memory::with_capacity(0x10);
    cpu.set_register_value(Name8::A, 0x42);
    cpu.set_register_value(Name8::D, 0x24);
    cpu.set_register_value(RegisterPair::new(Name8::B, Name8::C), 0x0010);
    assert_eq!(
        ld_a2m(Operand::Reg16(Register16::BC)).exec(&mut cpu, &mut dm, vec![]),
        Err(EngineError::OutOfBounds)
    );
    let load =
        ld(Operand::Reg(Register8::D), mem(Operand::Reg16(Register16::BC)), InstKind::NoOperand);
    assert_eq!(load.exec(&mut cpu, &mut dm, vec![]), Err(EngineError::OutOfBounds));
    assert_eq!(cpu.d.get(), 0x24);
    assert_eq!(dm.load(0, 0x10), Ok(vec![0; 0x10]));
    cpu.set_register_value(RegisterPair::new(Name8::B, Name8::C), 0x000f);
    assert_eq!(ld_a2m(Operand::Reg16(Register16::BC)).exec(&mut cpu, &mut dm, vec![]), Ok(()));
    assert_eq!(byte_at(&dm, 0x000f), 0x42);
}

#[test]
fn an_8_bit_register_gives_no_address() {
    let mut cpu = Cpu::new();
    let mut dm = Memory::with_capacity(0x10);
    let store = ld_a2m(Operand::Reg(Register8::B));
    assert_eq!(store.exec(&mut cpu, &mut dm, vec![]), Err(EngineError::RegisterNotFound));
    let load =
        ld(Operand::Reg(Register8::A), mem(Operand::Reg(Register8::C)), InstKind::NoOperand);
    assert_eq!(load.exec(&mut cpu, &mut dm, vec![]), Err(EngineError::RegisterNotFound));
}

#[test]
fn memory_access_wants_one_8_bit_register() {
    let mut cpu = Cpu::new();
    let mut dm = Memory::with_capacity(0x10);
    let load =
        ld(Operand::Reg(Register8::HL), mem(Operand::Reg16(Register16::BC)), InstKind::NoOperand);
    assert_eq!(load.exec(&mut cpu, &mut dm, vec![]), Err(EngineError::RegisterNotFound));
    let store =
        ld(mem(Operand::Reg16(Register16::BC)), Operand::Reg(Register8::HL), InstKind::NoOperand);
    assert_eq!(store.exec(&mut cpu, &mut dm, vec![]), Err(EngineError::RegisterNotFound));
    assert_eq!(dm.load(0, 0x10), Ok(vec![0; 0x10]));
}

#[test]
fn other_address_operands_are_unsupported() {
    let mut cpu = Cpu::new();
    let mut dm = Memory::with_capacity(0x10);
    let nested = ld(
        Operand::Reg(Register8::A),
        mem(mem(Operand::Reg16(Register16::HL))),
        InstKind::NoOperand,
    );
    assert_eq!(nested.exec(&mut cpu, &mut dm, vec![]), Err(EngineError::UnsupportedOperandForm));
    let byte = ld(mem(Operand::Immediate8), Operand::Reg(Register8::A), InstKind::N);
    assert_eq!(byte.exec(&mut cpu, &mut dm, vec![1]), Err(EngineError::UnsupportedOperandForm));
    let both = ld(Operand::Reg(Register8::HL), mem(Operand::Immediate8), InstKind::N);
    assert_eq!(both.exec(&mut cpu, &mut dm, vec![1]), Err(EngineError::UnsupportedOperandForm));
}

#[test]
fn other_operand_pairs_are_unsupported() {
    let cases = vec![
        ld(Operand::Reg(Register8::A), Operand::Immediate16, InstKind::NN),
        ld(Operand::Reg(Register8::A), Operand::Reg16(Register16::BC), InstKind::NoOperand),
        ld(Operand::Reg16(Register16::BC), Operand::Immediate8, InstKind::N),
        ld(Operand::Reg16(Register16::BC), Operand::Reg16(Register16::DE), InstKind::NoOperand),
        ld(Operand::Reg16(Register16::BC), Operand::Reg(Register8::A), InstKind::NoOperand),
        ld(Operand::Reg16(Register16::HL), mem(Operand::Immediate16), InstKind::NN),
        ld_r2mi(Operand::Reg16(Register16::HL)),
        ld(mem(Operand::Immediate16), Operand::Immediate8, InstKind::NN),
        ld(mem(Operand::Immediate16), mem(Operand::Immediate16), InstKind::NN),
        ld(Operand::Immediate8, Operand::Reg(Register8::A), InstKind::N),
        ld(Operand::Immediate16, Operand::Immediate16, InstKind::NN),
    ];
    for inst in cases {
        let mut cpu = Cpu::new();
        let mut dm = Memory::with_capacity(0x10);
        assert_eq!(
            inst.exec(&mut cpu, &mut dm, vec![0x01, 0x02]),
            Err(EngineError::UnsupportedOperandForm)
        );
        assert_eq!(cpu.get_register_value(&RegisterPair::new(Name8::B, Name8::C)), 0);
        assert_eq!(dm.load(0, 0x10), Ok(vec![0; 0x10]));
    }
}
