//! A block of bytes of fixed size, read and written by byte, by 16-bit
//! word and by block.

use vstd::prelude::*;
use vstd::string::StringExecFns;
use crate::error::EngineError;
use crate::ops::Addressable;

verus! {

/// How many bytes a memory holds unless it is made with another size.
pub const MEMORY_SIZE: usize = 131072;

/// A block of bytes of fixed size. Its view is the sequence of its bytes,
/// and its size is the length of that sequence.
pub struct Memory {
    data: Vec<u8>,
}

impl View for Memory {
    type V = Seq<u8>;

    closed spec fn view(&self) -> Seq<u8> {
        self.data@
    }
}

/// How many bytes `Memory::preview` shows at most.
pub const PREVIEW_BYTES: usize = 10;

/// The character that stands for the decimal digit `d`.
pub open spec fn digit_char(d: int) -> char {
    if d == 0 {
        '0'
    } else if d == 1 {
        '1'
    } else if d == 2 {
        '2'
    } else if d == 3 {
        '3'
    } else if d == 4 {
        '4'
    } else if d == 5 {
        '5'
    } else if d == 6 {
        '6'
    } else if d == 7 {
        '7'
    } else if d == 8 {
        '8'
    } else {
        '9'
    }
}

/// `n` written in decimal, without leading zeros.
pub open spec fn decimal(n: nat) -> Seq<char>
    decreases n,
{
    if n < 10 {
        seq![digit_char(n as int)]
    } else {
        decimal(n / 10).push(digit_char((n % 10) as int))
    }
}

/// The first `count` bytes of `bytes` written in decimal and separated by
/// a comma and a space.
pub open spec fn listed(bytes: Seq<u8>, count: nat) -> Seq<char>
    decreases count,
{
    if count == 0 {
        Seq::<char>::empty()
    } else if count == 1 {
        decimal(bytes[0] as nat)
    } else {
        listed(bytes, (count - 1) as nat) + seq![',', ' '] + decimal(bytes[count - 1] as nat)
    }
}

/// How a memory with the bytes `bytes` is shown: the word `Memory`, and in
/// round and square brackets its first bytes, `PREVIEW_BYTES` at most.
pub open spec fn preview_text(bytes: Seq<u8>) -> Seq<char> {
    let shown = if bytes.len() < PREVIEW_BYTES {
        bytes.len()
    } else {
        PREVIEW_BYTES as nat
    };
    seq!['M', 'e', 'm', 'o', 'r', 'y', '(', '['] + listed(bytes, shown) + seq![']', ')']
}

/// The 16-bit value that two consecutive bytes of memory stand for: the
/// byte at the lower address is the high byte.
pub open spec fn word_value(first: u8, second: u8) -> u16 {
    ((first as u16) << 8) | (second as u16)
}

/// The byte that a 16-bit value leaves at the lower address.
pub open spec fn word_first(v: u16) -> u8 {
    (v >> 8) as u8
}

/// The byte that a 16-bit value leaves at the higher address.
pub open spec fn word_second(v: u16) -> u8 {
    (v & 0xff) as u8
}

/// The 16-bit value that `bytes` holds at `addr`.
pub open spec fn read_word(bytes: Seq<u8>, addr: int) -> u16 {
    word_value(bytes[addr], bytes[addr + 1])
}

/// `bytes` after the 16-bit value `v` was written at `addr`.
pub open spec fn write_word(bytes: Seq<u8>, addr: int, v: u16) -> Seq<u8> {
    bytes.update(addr, word_first(v)).update(addr + 1, word_second(v))
}

/// `bytes` after `block` was written over it from `addr` on.
pub open spec fn write_block(bytes: Seq<u8>, addr: int, block: Seq<u8>) -> Seq<u8> {
    Seq::new(
        bytes.len(),
        |i: int| if addr <= i < addr + block.len() { block[i - addr] } else { bytes[i] },
    )
}

/// The two bytes of a 16-bit value, put together again, give the value.
pub proof fn lemma_word_join_split(v: u16)
    ensures
        word_value(word_first(v), word_second(v)) == v,
{
    assert(((((v >> 8) as u8) as u16) << 8) | (((v & 0xff) as u8) as u16) == v) by (bit_vector);
}

/// In ordinary arithmetic the value of two bytes is `256 * first + second`.
pub proof fn lemma_word_value_arith(first: u8, second: u8)
    ensures
        word_value(first, second) == 256 * first + second,
{
    assert((((first as u16) << 8) | (second as u16)) == 256 * first + second) by (bit_vector);
}

/// A byte written at an address inside the memory is the byte read there.
pub proof fn lemma_byte_round_trip(bytes: Seq<u8>, addr: int, v: u8)
    requires
        0 <= addr < bytes.len(),
    ensures
        bytes.update(addr, v)[addr] == v,
        bytes.update(addr, v).len() == bytes.len(),
{
}

/// A 16-bit value written at an address where it fits is the value read
/// there, and its high byte lies at the lower address.
pub proof fn lemma_word_round_trip(bytes: Seq<u8>, addr: int, v: u16)
    requires
        0 <= addr,
        addr + 1 < bytes.len(),
    ensures
        read_word(write_word(bytes, addr, v), addr) == v,
        write_word(bytes, addr, v).len() == bytes.len(),
        write_word(bytes, addr, v)[addr] == v >> 8,
        write_word(bytes, addr, v)[addr + 1] == v & 0xff,
{
    lemma_word_join_split(v);
    assert(((v >> 8) as u8) == v >> 8) by (bit_vector);
    assert(((v & 0xff) as u8) == v & 0xff) by (bit_vector);
}

/// No 16-bit value fits at the last address of a memory.
pub proof fn lemma_word_at_last_address(m: Memory, addr: u16)
    requires
        addr + 1 == m@.len(),
    ensures
        !Addressable::<u16>::holds(&m, addr),
{
}

/// The text of one decimal digit.
fn digit_text(d: u8) -> (text: &'static str)
    requires
        d < 10,
    ensures
        text@ == seq![digit_char(d as int)],
{
    proof {
        reveal_strlit("0");
        reveal_strlit("1");
        reveal_strlit("2");
        reveal_strlit("3");
        reveal_strlit("4");
        reveal_strlit("5");
        reveal_strlit("6");
        reveal_strlit("7");
        reveal_strlit("8");
        reveal_strlit("9");
    }
    let text: &'static str = match d {
        0 => "0",
        1 => "1",
        2 => "2",
        3 => "3",
        4 => "4",
        5 => "5",
        6 => "6",
        7 => "7",
        8 => "8",
        _ => "9",
    };
    assert(text@ =~= seq![digit_char(d as int)]);
    text
}

/// Writes `v` in decimal at the end of `out`.
fn push_decimal(out: &mut String, v: u8)
    ensures
        final(out)@ == old(out)@ + decimal(v as nat),
{
    if v >= 100 {
        out.append(digit_text(v / 100));
    }
    if v >= 10 {
        out.append(digit_text((v / 10) % 10));
    }
    out.append(digit_text(v % 10));
    proof {
        reveal_with_fuel(decimal, 3);
        assert(out@ =~= old(out)@ + decimal(v as nat));
    }
}

impl Memory {
    /// A memory of `MEMORY_SIZE` bytes, all zero.
    pub fn new() -> (m: Self)
        ensures
            m@.len() == MEMORY_SIZE,
            forall|i: int| 0 <= i < m@.len() ==> m@[i] == 0,
    {
        Memory { data: vec![0u8; MEMORY_SIZE] }
    }

    /// A memory of `capacity` bytes, all zero.
    pub fn with_capacity(capacity: usize) -> (m: Self)
        ensures
            m@.len() == capacity,
            forall|i: int| 0 <= i < m@.len() ==> m@[i] == 0,
    {
        Memory { data: vec![0u8; capacity] }
    }

    /// The memory as a line of text for a reader: its first bytes in
    /// decimal, `PREVIEW_BYTES` at most.
    pub fn preview(&self) -> (text: String)
        ensures
            text@ == preview_text(self@),
    {
        let shown: usize = if self.data.len() < PREVIEW_BYTES {
            self.data.len()
        } else {
            PREVIEW_BYTES
        };
        let mut out: String = String::new();
        out.append("Memory([");
        let mut i: usize = 0;
        while i < shown
            invariant
                i <= shown,
                shown <= self.data@.len(),
                out@ == "Memory(["@ + listed(self.data@, i as nat),
            decreases shown - i,
        {
            if i > 0 {
                out.append(", ");
            }
            push_decimal(&mut out, self.data[i]);
            proof {
                reveal_strlit(", ");
                assert(", "@ =~= seq![',', ' ']);
            }
            i = i + 1;
        }
        out.append("])");
        proof {
            reveal_strlit("Memory([");
            reveal_strlit("])");
            assert("Memory(["@ =~= seq!['M', 'e', 'm', 'o', 'r', 'y', '(', '[']);
            assert("])"@ =~= seq![']', ')']);
        }
        out
    }

    /// The number of bytes held.
    pub fn capacity(&self) -> (n: usize)
        ensures
            n == self@.len(),
    {
        self.data.len()
    }

    /// Writes `bytes` over the memory from `addr` on. A block that does not
    /// fit is refused and nothing is written.
    pub fn store(&mut self, addr: u16, bytes: &[u8]) -> (r: Result<(), EngineError>)
        ensures
            addr + bytes@.len() <= old(self)@.len() ==> r is Ok && final(self)@ == write_block(
                old(self)@,
                addr as int,
                bytes@,
            ),
            addr + bytes@.len() > old(self)@.len() ==> r == Err::<(), EngineError>(
                EngineError::OutOfBounds,
            ) && final(self)@ == old(self)@,
    {
        let base: usize = addr as usize;
        let n: usize = bytes.len();
        if base > self.data.len() || n > self.data.len() - base {
            return Err(EngineError::OutOfBounds);
        }
        let mut i: usize = 0;
        while i < n
            invariant
                i <= n,
                n == bytes@.len(),
                base == addr,
                base + n <= self.data.len(),
                self.data@.len() == old(self)@.len(),
                forall|j: int|
                    0 <= j < self.data@.len() ==> self.data@[j] == if base <= j < base + i {
                        bytes@[j - base]
                    } else {
                        old(self)@[j]
                    },
            decreases n - i,
        {
            self.data[base + i] = bytes[i];
            i = i + 1;
        }
        assert(self.data@ =~= write_block(old(self)@, addr as int, bytes@));
        Ok(())
    }

    /// Reads `count` bytes from `addr` on. A block that does not lie wholly
    /// inside the memory is refused.
    pub fn load(&self, addr: u16, count: usize) -> (r: Result<Vec<u8>, EngineError>)
        ensures
            addr + count <= self@.len() ==> r is Ok && r->Ok_0@ == self@.subrange(
                addr as int,
                addr + count,
            ),
            addr + count > self@.len() ==> r is Err && r->Err_0 == EngineError::OutOfBounds,
    {
        let base: usize = addr as usize;
        if base > self.data.len() || count > self.data.len() - base {
            return Err(EngineError::OutOfBounds);
        }
        let mut out: Vec<u8> = Vec::new();
        let mut i: usize = 0;
        while i < count
            invariant
                i <= count,
                base == addr,
                base + count <= self.data.len(),
                out@.len() == i,
                forall|j: int| 0 <= j < i ==> out@[j] == self.data@[base + j],
            decreases count - i,
        {
            out.push(self.data[base + i]);
            i = i + 1;
        }
        assert(out@ =~= self@.subrange(addr as int, addr + count));
        Ok(out)
    }
}

impl Addressable<u8> for Memory {
    open spec fn holds(&self, addr: u16) -> bool {
        addr < self@.len()
    }

    open spec fn at(&self, addr: u16) -> u8 {
        self@[addr as int]
    }

    fn get(&self, addr: u16) -> (r: Result<u8, EngineError>) {
        let a: usize = addr as usize;
        if a < self.data.len() {
            Ok(self.data[a])
        } else {
            Err(EngineError::OutOfBounds)
        }
    }

    fn set(&mut self, addr: u16, v: u8) -> (r: Result<(), EngineError>)
        ensures
            Addressable::<u8>::holds(old(self), addr) ==> final(self)@ == old(self)@.update(
                addr as int,
                v,
            ),
            final(self)@.len() == old(self)@.len(),
    {
        let a: usize = addr as usize;
        if a < self.data.len() {
            self.data[a] = v;
            Ok(())
        } else {
            Err(EngineError::OutOfBounds)
        }
    }
}

impl Addressable<u16> for Memory {
    open spec fn holds(&self, addr: u16) -> bool {
        addr + 1 < self@.len()
    }

    open spec fn at(&self, addr: u16) -> u16 {
        read_word(self@, addr as int)
    }

    fn get(&self, addr: u16) -> (r: Result<u16, EngineError>) {
        let a: usize = addr as usize;
        if a < self.data.len() && 1 < self.data.len() - a {
            let first: u8 = self.data[a];
            let second: u8 = self.data[a + 1];
            Ok(((first as u16) << 8) | (second as u16))
        } else {
            Err(EngineError::OutOfBounds)
        }
    }

    fn set(&mut self, addr: u16, v: u16) -> (r: Result<(), EngineError>)
        ensures
            Addressable::<u16>::holds(old(self), addr) ==> final(self)@ == write_word(
                old(self)@,
                addr as int,
                v,
            ),
            final(self)@.len() == old(self)@.len(),
    {
        let a: usize = addr as usize;
        if a < self.data.len() && 1 < self.data.len() - a {
            assert(v >> 8 <= 0xff) by (bit_vector);
            assert(v & 0xff <= 0xff) by (bit_vector);
            self.data[a] = (v >> 8) as u8;
            self.data[a + 1] = (v & 0xff) as u8;
            proof {
                lemma_word_round_trip(old(self)@, addr as int, v);
            }
            Ok(())
        } else {
            Err(EngineError::OutOfBounds)
        }
    }
}

} // verus!
