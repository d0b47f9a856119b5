use vm::cpu::{Cpu, RegisterHandle};
use vm::ops::ByteContainer;
use vm::register::{Name16, Name8, Register, RegisterClass, RegisterPair};

#[test]
fn test_register() {
    let mut r: Register<u8> = Register::default();
    assert_eq!(r.get(), 0);
    r.set(42);
    assert_eq!(r.get(), 42);

    let mut r16: Register<u16> = Register::new(1989);
    assert_eq!(r16.get(), 1989);
    r16.set(65535);
    assert_eq!(r16.get(), 65535);
}

#[test]
fn test_register_pair() {
    let mut cpu = Cpu::new();
    cpu.b = Register::new(197);
    cpu.c = Register::new(7);
    let rp = RegisterPair::new(Name8::B, Name8::C);
    assert_eq!(rp.get(&cpu), 1989);
    rp.set(&mut cpu, 15623);
    assert_eq!(rp.get(&cpu), 15623);

    assert_eq!(cpu.b.get(), 0x07);
    assert_eq!(cpu.c.get(), 0x3d);
}

#[test]
fn register_copy_is_independent() {
    let mut r: Register<u8> = Register::new(5);
    let kept = r;
    r.set(9);
    assert_eq!(kept.get(), 5);
    assert_eq!(r.clone().get(), 9);
}

#[test]
fn pair_keeps_its_names() {
    let rp = RegisterPair::new(Name8::A, Name8::F);
    assert_eq!(rp.high, Name8::A);
    assert_eq!(rp.low, Name8::F);
    assert_eq!(RegisterClass::Pair(rp), RegisterClass::Pair(RegisterPair::new(Name8::A, Name8::F)));
    assert_ne!(RegisterClass::Single(Name8::A), RegisterClass::Double(Name16::SP));
}

#[test]
fn pair_sees_writes_to_its_halves() {
    let mut cpu = Cpu::new();
    let rp = RegisterPair::new(Name8::H, Name8::L);
    Name8::H.set(&mut cpu, 0x34);
    Name8::L.set(&mut cpu, 0x12);
    assert_eq!(rp.get(&cpu), 0x1234);
    assert_eq!(rp.get(&cpu), 0x34 | (0x12 << 8));
}

#[test]
fn halves_see_writes_to_their_pair() {
    let mut cpu = Cpu::new();
    let rp = RegisterPair::new(Name8::D, Name8::E);
    rp.set(&mut cpu, 0xbeef);
    assert_eq!(Name8::D.get(&cpu), 0xef);
    assert_eq!(Name8::E.get(&cpu), 0xbe);
    assert_eq!(Name8::B.get(&cpu), 0);
    assert_eq!(rp.get(&cpu), 0xbeef);
}

#[test]
fn pair_of_one_register_takes_the_last_write() {
    let mut cpu = Cpu::new();
    let rp = RegisterPair::new(Name8::B, Name8::B);
    rp.set(&mut cpu, 0x1234);
    assert_eq!(cpu.b.get(), 0x12);
    assert_eq!(rp.get(&cpu), 0x1212);
}

#[test]
fn pair_extremes() {
    let mut cpu = Cpu::new();
    let rp = RegisterPair::new(Name8::I, Name8::R);
    rp.set(&mut cpu, 0xffff);
    assert_eq!(cpu.i.get(), 0xff);
    assert_eq!(cpu.r.get(), 0xff);
    rp.set(&mut cpu, 0x00ff);
    assert_eq!(cpu.i.get(), 0xff);
    assert_eq!(cpu.r.get(), 0x00);
    rp.set(&mut cpu, 0xff00);
    assert_eq!(cpu.i.get(), 0x00);
    assert_eq!(cpu.r.get(), 0xff);
    assert_eq!(rp.get(&cpu), 0xff00);
}
