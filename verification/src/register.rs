//! Registers, the names under which a register file holds them, and pairs
//! of 8-bit registers seen as one 16-bit unit.

use vstd::prelude::*;
use crate::ops::ByteContainer;

verus! {

/// One register: a cell that holds an unsigned value of width `T`.
#[derive(Debug)]
pub struct Register<T> {
    value: T,
}

impl<T: Copy> Clone for Register<T> {
    fn clone(&self) -> (r: Self)
        ensures
            r == *self,
    {
        Register { value: self.value }
    }
}

impl<T: Copy> Copy for Register<T> {}

impl<T> View for Register<T> {
    type V = T;

    closed spec fn view(&self) -> T {
        self.value
    }
}

impl<T> Register<T> {
    /// A register that holds `v`.
    pub fn new(v: T) -> (r: Self)
        ensures
            r@ == v,
    {
        Register { value: v }
    }
}

impl<T: Default> Default for Register<T> {
    /// A register that holds the default value of its width.
    fn default() -> (r: Self)
        ensures
            call_ensures(T::default, (), r@),
    {
        Register { value: T::default() }
    }
}

impl ByteContainer for Register<u8> {
    type W = u8;

    open spec fn value(&self) -> u8 {
        self@
    }

    fn get(&self) -> (v: u8) {
        self.value
    }

    fn set(&mut self, v: u8) {
        self.value = v;
    }
}

impl ByteContainer for Register<u16> {
    type W = u16;

    open spec fn value(&self) -> u16 {
        self@
    }

    fn get(&self) -> (v: u16) {
        self.value
    }

    fn set(&mut self, v: u16) {
        self.value = v;
    }
}

/// The name of an 8-bit register of the file. A name stays valid for the
/// life of the file and is the only way to reach the register from outside.
#[derive(Debug, Clone, Copy, PartialEq, Eq, Structural)]
pub enum Name8 {
    A,
    B,
    C,
    D,
    E,
    F,
    H,
    L,
    I,
    R,
}

/// The name of a true 16-bit register of the file.
#[derive(Debug, Clone, Copy, PartialEq, Eq, Structural)]
pub enum Name16 {
    PC,
    SP,
    IX,
    IY,
}

/// Two 8-bit registers read and written as one 16-bit unit. The pair owns
/// nothing: it names its halves, and every access goes through the file, so
/// a write to either half shows in the pair and a write to the pair shows in
/// both halves.
#[derive(Debug, Clone, Copy, PartialEq, Eq, Structural)]
pub struct RegisterPair {
    /// The register that holds the low byte of the pair's value.
    pub high: Name8,
    /// The register that holds the high byte of the pair's value.
    pub low: Name8,
}

impl RegisterPair {
    /// The pair of the registers `high` and `low`.
    pub fn new(high: Name8, low: Name8) -> (p: Self)
        ensures
            p.high == high,
            p.low == low,
    {
        RegisterPair { high, low }
    }
}

/// What a register selector resolves to.
#[derive(Debug, Clone, Copy, PartialEq, Eq, Structural)]
pub enum RegisterClass {
    /// One 8-bit register.
    Single(Name8),
    /// One true 16-bit register.
    Double(Name16),
    /// Two 8-bit registers taken together.
    Pair(RegisterPair),
}

/// The 16-bit value of a pair whose `high` register holds `high` and whose
/// `low` register holds `low`: `high` fills the low byte and `low` the high
/// byte.
pub open spec fn pair_value(high: u8, low: u8) -> u16 {
    (high as u16) | ((low as u16) << 8)
}

/// What a pair's `high` register holds once `v` was written to the pair.
pub open spec fn pair_high(v: u16) -> u8 {
    (v & 0xff) as u8
}

/// What a pair's `low` register holds once `v` was written to the pair.
pub open spec fn pair_low(v: u16) -> u8 {
    ((v >> 8) & 0xff) as u8
}

/// Splitting a 16-bit value into the halves of a pair and putting them
/// together again gives the value back.
pub proof fn lemma_pair_join_split(v: u16)
    ensures
        pair_value(pair_high(v), pair_low(v)) == v,
{
    assert((((v & 0xff) as u8) as u16) | ((((v >> 8) & 0xff) as u8) as u16) << 8 == v)
        by (bit_vector);
}

/// In ordinary arithmetic the pair's value is `high + 256 * low`.
pub proof fn lemma_pair_value_arith(high: u8, low: u8)
    ensures
        pair_value(high, low) == high + 256 * low,
{
    assert(((high as u16) | ((low as u16) << 8)) == high + 256 * low) by (bit_vector);
}

} // verus!
