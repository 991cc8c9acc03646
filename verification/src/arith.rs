//! Wrapping 8-bit and 16-bit arithmetic, the only kind the 6502 performs.
//!
//! Register and address arithmetic on the 6502 is always modular: incrementing
//! 0xFF yields 0x00 and the program counter wraps at the top of the 64 KiB
//! address space. The spec functions state the results as plain modular
//! integers; the executable functions are proved to match them.

use vstd::prelude::*;

verus! {

/// Modular 8-bit sum, as the 6502's index and stack arithmetic computes it.
pub open spec fn wadd8(x: u8, y: u8) -> u8 {
    ((x + y) % 256) as u8
}

/// Modular 8-bit difference.
pub open spec fn wsub8(x: u8, y: u8) -> u8 {
    (((x - y) + 256) % 256) as u8
}

/// Modular 16-bit sum, as program-counter and address arithmetic computes it.
pub open spec fn wadd16(x: u16, y: u16) -> u16 {
    ((x + y) % 0x10000) as u16
}

/// Modular 16-bit difference.
pub open spec fn wsub16(x: u16, y: u16) -> u16 {
    (((x - y) + 0x10000) % 0x10000) as u16
}

pub fn add8(x: u8, y: u8) -> (r: u8)
    ensures
        r == wadd8(x, y),
{
    let wide: u16 = x as u16 + y as u16;
    (wide % 256) as u8
}

pub fn sub8(x: u8, y: u8) -> (r: u8)
    ensures
        r == wsub8(x, y),
{
    if x >= y {
        x - y
    } else {
        let wide: u16 = x as u16 + 256 - y as u16;
        wide as u8
    }
}

pub fn add16(x: u16, y: u16) -> (r: u16)
    ensures
        r == wadd16(x, y),
{
    let wide: u32 = x as u32 + y as u32;
    (wide % 0x10000) as u16
}

pub fn sub16(x: u16, y: u16) -> (r: u16)
    ensures
        r == wsub16(x, y),
{
    if x >= y {
        x - y
    } else {
        let wide: u32 = x as u32 + 0x10000 - y as u32;
        wide as u16
    }
}

} // verus!
