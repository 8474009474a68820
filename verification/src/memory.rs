//! The byte-addressable memory behind the processor, and the arithmetic on
//! addresses that the addressing modes share.

use vstd::prelude::*;

verus! {

/// A memory that serves the addresses below its size and refuses the rest.
/// Addresses are 16 bits wide, so bytes from offset 0x10000 on can never be
/// reached.
pub struct Memory {
    bytes: Vec<u8>,
}

/// The byte at `address`, where the memory serves it.
pub open spec fn peek(memory: Seq<u8>, address: u16) -> Option<u8> {
    if address < memory.len() {
        Some(memory[address as int])
    } else {
        None
    }
}

/// Whether the memory serves `address`.
pub open spec fn serves(memory: Seq<u8>, address: u16) -> bool {
    address < memory.len()
}

/// The memory after `value` was written at `address`.
pub open spec fn poke(memory: Seq<u8>, address: u16, value: u8) -> Seq<u8> {
    memory.update(address as int, value)
}

/// The 16-bit value with `low` as its low byte and `high` as its high byte.
pub open spec fn word(low: u8, high: u8) -> u16 {
    (high * 256 + low) as u16
}

/// The low byte of a 16-bit value.
pub open spec fn low_byte(value: u16) -> u8 {
    (value % 256) as u8
}

/// The high byte of a 16-bit value.
pub open spec fn high_byte(value: u16) -> u8 {
    (value / 256) as u8
}

/// `address + by` in the 16-bit address space, wrapping past 0xFFFF.
pub open spec fn advanced(address: u16, by: u8) -> u16 {
    if address + by > 0xFFFF {
        (address + by - 0x1_0000) as u16
    } else {
        (address + by) as u16
    }
}

/// `base + index` within page 0: the sum is cut to 8 bits and never
/// reaches page 1.
pub open spec fn zero_page_sum(base: u8, index: u8) -> u8 {
    if base + index > 0xFF {
        (base + index - 0x100) as u8
    } else {
        (base + index) as u8
    }
}

/// `offset` read as a signed 8-bit number.
pub open spec fn signed(offset: u8) -> int {
    if offset >= 0x80 {
        offset - 0x100
    } else {
        offset as int
    }
}

/// `address` moved by the signed `offset`, wrapping in the 16-bit address
/// space.
pub open spec fn displaced(address: u16, offset: u8) -> u16 {
    let target = address + signed(offset);
    if target > 0xFFFF {
        (target - 0x1_0000) as u16
    } else if target < 0 {
        (target + 0x1_0000) as u16
    } else {
        target as u16
    }
}

/// `address - 1` in the 16-bit address space, wrapping below 0.
pub open spec fn retreated(address: u16) -> u16 {
    if address == 0 {
        0xFFFF
    } else {
        (address - 1) as u16
    }
}

/// The address that follows `address` within the same 256-byte page: after
/// the last byte of a page comes the first byte of that page.
pub open spec fn next_in_page(address: u16) -> u16 {
    if address % 256 == 255 {
        (address - 255) as u16
    } else {
        (address + 1) as u16
    }
}

/// The little-endian word whose low byte is at `low_at` and whose high byte
/// is at `high_at`, where the memory serves both.
pub open spec fn peek_word(memory: Seq<u8>, low_at: u16, high_at: u16) -> Option<u16> {
    match (peek(memory, low_at), peek(memory, high_at)) {
        (Some(low), Some(high)) => Some(word(low, high)),
        _ => None,
    }
}

/// Builds a 16-bit value from its two bytes.
pub fn make_word(low: u8, high: u8) -> (value: u16)
    ensures
        value == word(low, high),
{
    high as u16 * 256 + low as u16
}

/// Splits a 16-bit value into its low and high byte.
pub fn split_word(value: u16) -> (bytes: (u8, u8))
    ensures
        bytes.0 == low_byte(value),
        bytes.1 == high_byte(value),
        word(bytes.0, bytes.1) == value,
{
    ((value % 256) as u8, (value / 256) as u8)
}

/// Moves an address forward by `by`, wrapping past 0xFFFF.
pub fn advance(address: u16, by: u8) -> (next: u16)
    ensures
        next == advanced(address, by),
{
    address.wrapping_add(by as u16)
}

/// Adds an index to a zero-page address, staying in page 0.
pub fn zero_page_add(base: u8, index: u8) -> (sum: u8)
    ensures
        sum == zero_page_sum(base, index),
{
    base.wrapping_add(index)
}

/// Moves an address by a signed 8-bit offset, wrapping.
pub fn displace(address: u16, offset: u8) -> (target: u16)
    ensures
        target == displaced(address, offset),
{
    if offset < 0x80 {
        address.wrapping_add(offset as u16)
    } else {
        address.wrapping_sub(0x100 - offset as u16)
    }
}

/// Moves an address back by one, wrapping below 0.
pub fn retreat(address: u16) -> (previous: u16)
    ensures
        previous == retreated(address),
{
    address.wrapping_sub(1)
}

/// Steps to the next address of the same page.
pub fn step_in_page(address: u16) -> (next: u16)
    ensures
        next == next_in_page(address),
{
    if address % 256 == 255 {
        address - 255
    } else {
        address + 1
    }
}

/// An 8-bit value widened to an address in page 0.
pub fn zero_page_address(offset: u8) -> (address: u16)
    ensures
        address == offset,
{
    offset as u16
}

impl View for Memory {
    type V = Seq<u8>;

    closed spec fn view(&self) -> Seq<u8> {
        self.bytes@
    }
}

impl Memory {
    /// A memory that holds `image` from address 0 on and serves exactly the
    /// addresses that `image` covers.
    pub fn from_image(image: Vec<u8>) -> (memory: Memory)
        ensures
            memory@ == image@,
    {
        Memory { bytes: image }
    }

    /// The number of bytes held.
    pub fn size(&self) -> (size: usize)
        ensures
            size == self@.len(),
    {
        self.bytes.len()
    }

    /// Reads the byte at `address`; `None` where the memory does not serve
    /// it.
    pub fn read_byte(&self, address: u16) -> (byte: Option<u8>)
        ensures
            byte == peek(self@, address),
    {
        if (address as usize) < self.bytes.len() {
            Some(self.bytes[address as usize])
        } else {
            None
        }
    }

    /// Writes `value` at `address` and says whether the memory served the
    /// address. A refused write changes nothing.
    pub fn write_byte(&mut self, address: u16, value: u8) -> (served: bool)
        ensures
            served == serves(old(self)@, address),
            served ==> final(self)@ == poke(old(self)@, address, value),
            !served ==> final(self)@ == old(self)@,
    {
        if (address as usize) < self.bytes.len() {
            self.bytes.set(address as usize, value);
            true
        } else {
            false
        }
    }

    /// Reads a little-endian word from two addresses; `None` where either is
    /// not served.
    pub fn read_word(&self, low_at: u16, high_at: u16) -> (value: Option<u16>)
        ensures
            value == peek_word(self@, low_at, high_at),
    {
        match (self.read_byte(low_at), self.read_byte(high_at)) {
            (Some(low), Some(high)) => Some(make_word(low, high)),
            _ => None,
        }
    }
}

} // verus!
