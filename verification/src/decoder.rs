use vstd::prelude::*;
use crate::instructions::Chip8;
use crate::instructions::Op;

verus! {

/// What a 16-bit instruction word decodes to. The opcode family is the top
/// nibble; the `0x0`, `0x8`, `0xE` and `0xF` families are refined by a
/// secondary byte or nibble. Operands are extracted by fixed bit masks.
pub open spec fn spec_decode(op: u16) -> Op {
    let x = ((op & 0x0F00) >> 8) as u8;
    let y = ((op & 0x00F0) >> 4) as u8;
    let byte = (op & 0x00FF) as u8;
    let addr = op & 0x0FFF;
    let nibble = op & 0x000F;
    if op & 0xF000 == 0x0000 {
        if op == 0x00E0 {
            Op::Cls
        } else if op == 0x00EE {
            Op::Ret
        } else {
            Op::SysAddr(addr)
        }
    } else if op & 0xF000 == 0x1000 {
        Op::JpAddr(addr)
    } else if op & 0xF000 == 0x2000 {
        Op::CallAddr(addr)
    } else if op & 0xF000 == 0x3000 {
        Op::SeVxByte(x, byte)
    } else if op & 0xF000 == 0x4000 {
        Op::SneVxByte(x, byte)
    } else if op & 0xF000 == 0x5000 {
        Op::SeVxVy(x, y)
    } else if op & 0xF000 == 0x6000 {
        Op::LdVxByte(x, byte)
    } else if op & 0xF000 == 0x7000 {
        Op::AddVxByte(x, byte)
    } else if op & 0xF000 == 0x8000 {
        if nibble == 0x0 {
            Op::LdVxVy(x, y)
        } else if nibble == 0x1 {
            Op::OrVxVy(x, y)
        } else if nibble == 0x2 {
            Op::AndVxVy(x, y)
        } else if nibble == 0x3 {
            Op::XorVxVy(x, y)
        } else if nibble == 0x4 {
            Op::AddVxVy(x, y)
        } else if nibble == 0x5 {
            Op::SubVxVy(x, y)
        } else if nibble == 0x6 {
            Op::ShrVxVy(x, y)
        } else if nibble == 0x7 {
            Op::SubnVxVy(x, y)
        } else if nibble == 0xE {
            Op::ShlVxVy(x, y)
        } else {
            Op::Unknown(op)
        }
    } else if op & 0xF000 == 0x9000 {
        Op::SneVxVy(x, y)
    } else if op & 0xF000 == 0xA000 {
        Op::LdIAddr(addr)
    } else if op & 0xF000 == 0xB000 {
        Op::JpV0Addr(addr)
    } else if op & 0xF000 == 0xC000 {
        Op::RndVxByte(x, byte)
    } else if op & 0xF000 == 0xD000 {
        Op::DrwVxVyNibble(x, y, nibble)
    } else if op & 0xF000 == 0xE000 {
        if byte == 0x9E {
            Op::SkpVx(x)
        } else if byte == 0xA1 {
            Op::SknpVx(x)
        } else {
            Op::Unknown(op)
        }
    } else {
        if byte == 0x07 {
            Op::LdVxDt(x)
        } else if byte == 0x0A {
            Op::LdVxK(x)
        } else if byte == 0x15 {
            Op::LdDtVx(x)
        } else if byte == 0x18 {
            Op::LdStVx(x)
        } else if byte == 0x1E {
            Op::AddIVx(x)
        } else if byte == 0x29 {
            Op::LdFVx(x)
        } else if byte == 0x33 {
            Op::LdBVx(x)
        } else if byte == 0x55 {
            Op::LdIVx(x)
        } else if byte == 0x65 {
            Op::LdVxI(x)
        } else {
            Op::Unknown(op)
        }
    }
}

/// Classify a 16-bit instruction word and extract its operands.
/// Decoding is a total, pure function of the word.
pub fn decode_op(op: u16) -> (r: Op)
    ensures
        r == spec_decode(op),
{
    let x = ((op & 0x0F00) >> 8) as u8;
    let y = ((op & 0x00F0) >> 4) as u8;
    let byte = (op & 0x00FF) as u8;
    let addr = op & 0x0FFF;
    let nibble = op & 0x000F;
    if op & 0xF000 == 0x0000 {
        if op == 0x00E0 {
            Op::Cls
        } else if op == 0x00EE {
            Op::Ret
        } else {
            Op::SysAddr(addr)
        }
    } else if op & 0xF000 == 0x1000 {
        Op::JpAddr(addr)
    } else if op & 0xF000 == 0x2000 {
        Op::CallAddr(addr)
    } else if op & 0xF000 == 0x3000 {
        Op::SeVxByte(x, byte)
    } else if op & 0xF000 == 0x4000 {
        Op::SneVxByte(x, byte)
    } else if op & 0xF000 == 0x5000 {
        Op::SeVxVy(x, y)
    } else if op & 0xF000 == 0x6000 {
        Op::LdVxByte(x, byte)
    } else if op & 0xF000 == 0x7000 {
        Op::AddVxByte(x, byte)
    } else if op & 0xF000 == 0x8000 {
        if nibble == 0x0 {
            Op::LdVxVy(x, y)
        } else if nibble == 0x1 {
            Op::OrVxVy(x, y)
        } else if nibble == 0x2 {
            Op::AndVxVy(x, y)
        } else if nibble == 0x3 {
            Op::XorVxVy(x, y)
        } else if nibble == 0x4 {
            Op::AddVxVy(x, y)
        } else if nibble == 0x5 {
            Op::SubVxVy(x, y)
        } else if nibble == 0x6 {
            Op::ShrVxVy(x, y)
        } else if nibble == 0x7 {
            Op::SubnVxVy(x, y)
        } else if nibble == 0xE {
            Op::ShlVxVy(x, y)
        } else {
            Op::Unknown(op)
        }
    } else if op & 0xF000 == 0x9000 {
        Op::SneVxVy(x, y)
    } else if op & 0xF000 == 0xA000 {
        Op::LdIAddr(addr)
    } else if op & 0xF000 == 0xB000 {
        Op::JpV0Addr(addr)
    } else if op & 0xF000 == 0xC000 {
        Op::RndVxByte(x, byte)
    } else if op & 0xF000 == 0xD000 {
        Op::DrwVxVyNibble(x, y, nibble)
    } else if op & 0xF000 == 0xE000 {
        if byte == 0x9E {
            Op::SkpVx(x)
        } else if byte == 0xA1 {
            Op::SknpVx(x)
        } else {
            Op::Unknown(op)
        }
    } else {
        if byte == 0x07 {
            Op::LdVxDt(x)
        } else if byte == 0x0A {
            Op::LdVxK(x)
        } else if byte == 0x15 {
            Op::LdDtVx(x)
        } else if byte == 0x18 {
            Op::LdStVx(x)
        } else if byte == 0x1E {
            Op::AddIVx(x)
        } else if byte == 0x29 {
            Op::LdFVx(x)
        } else if byte == 0x33 {
            Op::LdBVx(x)
        } else if byte == 0x55 {
            Op::LdIVx(x)
        } else if byte == 0x65 {
            Op::LdVxI(x)
        } else {
            Op::Unknown(op)
        }
    }
}

impl Op {
    /// The operand ranges that decoding can produce: register indices and
    /// counts fit in four bits, addresses in twelve; a system-call address is
    /// never one of the two fixed words of its family; an unknown word is one
    /// the opcode table refuses.
    pub open spec fn wf(self) -> bool {
        match self {
            Op::Cls => true,
            Op::Ret => true,
            Op::SysAddr(a) => a < 0x1000 && a != 0x00E0 && a != 0x00EE,
            Op::JpAddr(a) => a < 0x1000,
            Op::CallAddr(a) => a < 0x1000,
            Op::SeVxByte(x, _b) => x < 16,
            Op::SneVxByte(x, _b) => x < 16,
            Op::SeVxVy(x, y) => x < 16 && y < 16,
            Op::LdVxByte(x, _b) => x < 16,
            Op::AddVxByte(x, _b) => x < 16,
            Op::LdVxVy(x, y) => x < 16 && y < 16,
            Op::OrVxVy(x, y) => x < 16 && y < 16,
            Op::AndVxVy(x, y) => x < 16 && y < 16,
            Op::XorVxVy(x, y) => x < 16 && y < 16,
            Op::AddVxVy(x, y) => x < 16 && y < 16,
            Op::SubVxVy(x, y) => x < 16 && y < 16,
            Op::ShrVxVy(x, y) => x < 16 && y < 16,
            Op::SubnVxVy(x, y) => x < 16 && y < 16,
            Op::ShlVxVy(x, y) => x < 16 && y < 16,
            Op::SneVxVy(x, y) => x < 16 && y < 16,
            Op::LdIAddr(a) => a < 0x1000,
            Op::JpV0Addr(a) => a < 0x1000,
            Op::RndVxByte(x, _b) => x < 16,
            Op::DrwVxVyNibble(x, y, n) => x < 16 && y < 16 && n < 16,
            Op::SkpVx(x) => x < 16,
            Op::SknpVx(x) => x < 16,
            Op::LdVxDt(x) => x < 16,
            Op::LdVxK(x) => x < 16,
            Op::LdDtVx(x) => x < 16,
            Op::LdStVx(x) => x < 16,
            Op::AddIVx(x) => x < 16,
            Op::LdFVx(x) => x < 16,
            Op::LdBVx(x) => x < 16,
            Op::LdIVx(x) => x < 16,
            Op::LdVxI(x) => x < 16,
            Op::Unknown(w) => spec_decode(w) == Op::Unknown(w),
        }
    }
}

/// The instruction word that an operation assembles to: the inverse of the
/// decode table, meaningful for well-formed operations.
pub open spec fn spec_encode(i: Op) -> u16 {
    match i {
        Op::Cls => 0x00E0,
        Op::Ret => 0x00EE,
        Op::SysAddr(a) => a,
        Op::JpAddr(a) => 0x1000 | a,
        Op::CallAddr(a) => 0x2000 | a,
        Op::SeVxByte(x, b) => 0x3000 | ((x as u16) << 8) | (b as u16),
        Op::SneVxByte(x, b) => 0x4000 | ((x as u16) << 8) | (b as u16),
        Op::SeVxVy(x, y) => 0x5000 | ((x as u16) << 8) | ((y as u16) << 4),
        Op::LdVxByte(x, b) => 0x6000 | ((x as u16) << 8) | (b as u16),
        Op::AddVxByte(x, b) => 0x7000 | ((x as u16) << 8) | (b as u16),
        Op::LdVxVy(x, y) => 0x8000 | ((x as u16) << 8) | ((y as u16) << 4),
        Op::OrVxVy(x, y) => 0x8001 | ((x as u16) << 8) | ((y as u16) << 4),
        Op::AndVxVy(x, y) => 0x8002 | ((x as u16) << 8) | ((y as u16) << 4),
        Op::XorVxVy(x, y) => 0x8003 | ((x as u16) << 8) | ((y as u16) << 4),
        Op::AddVxVy(x, y) => 0x8004 | ((x as u16) << 8) | ((y as u16) << 4),
        Op::SubVxVy(x, y) => 0x8005 | ((x as u16) << 8) | ((y as u16) << 4),
        Op::ShrVxVy(x, y) => 0x8006 | ((x as u16) << 8) | ((y as u16) << 4),
        Op::SubnVxVy(x, y) => 0x8007 | ((x as u16) << 8) | ((y as u16) << 4),
        Op::ShlVxVy(x, y) => 0x800E | ((x as u16) << 8) | ((y as u16) << 4),
        Op::SneVxVy(x, y) => 0x9000 | ((x as u16) << 8) | ((y as u16) << 4),
        Op::LdIAddr(a) => 0xA000 | a,
        Op::JpV0Addr(a) => 0xB000 | a,
        Op::RndVxByte(x, b) => 0xC000 | ((x as u16) << 8) | (b as u16),
        Op::DrwVxVyNibble(x, y, n) => 0xD000 | ((x as u16) << 8) | ((y as u16) << 4) | n,
        Op::SkpVx(x) => 0xE09E | ((x as u16) << 8),
        Op::SknpVx(x) => 0xE0A1 | ((x as u16) << 8),
        Op::LdVxDt(x) => 0xF007 | ((x as u16) << 8),
        Op::LdVxK(x) => 0xF00A | ((x as u16) << 8),
        Op::LdDtVx(x) => 0xF015 | ((x as u16) << 8),
        Op::LdStVx(x) => 0xF018 | ((x as u16) << 8),
        Op::AddIVx(x) => 0xF01E | ((x as u16) << 8),
        Op::LdFVx(x) => 0xF029 | ((x as u16) << 8),
        Op::LdBVx(x) => 0xF033 | ((x as u16) << 8),
        Op::LdIVx(x) => 0xF055 | ((x as u16) << 8),
        Op::LdVxI(x) => 0xF065 | ((x as u16) << 8),
        Op::Unknown(w) => w,
    }
}

/// Assemble an operation back into its instruction word.
pub fn encode(i: &Op) -> (r: u16)
    ensures
        r == spec_encode(*i),
{
    match *i {
        Op::Cls => 0x00E0,
        Op::Ret => 0x00EE,
        Op::SysAddr(a) => a,
        Op::JpAddr(a) => 0x1000 | a,
        Op::CallAddr(a) => 0x2000 | a,
        Op::SeVxByte(x, b) => 0x3000 | ((x as u16) << 8) | (b as u16),
        Op::SneVxByte(x, b) => 0x4000 | ((x as u16) << 8) | (b as u16),
        Op::SeVxVy(x, y) => 0x5000 | ((x as u16) << 8) | ((y as u16) << 4),
        Op::LdVxByte(x, b) => 0x6000 | ((x as u16) << 8) | (b as u16),
        Op::AddVxByte(x, b) => 0x7000 | ((x as u16) << 8) | (b as u16),
        Op::LdVxVy(x, y) => 0x8000 | ((x as u16) << 8) | ((y as u16) << 4),
        Op::OrVxVy(x, y) => 0x8001 | ((x as u16) << 8) | ((y as u16) << 4),
        Op::AndVxVy(x, y) => 0x8002 | ((x as u16) << 8) | ((y as u16) << 4),
        Op::XorVxVy(x, y) => 0x8003 | ((x as u16) << 8) | ((y as u16) << 4),
        Op::AddVxVy(x, y) => 0x8004 | ((x as u16) << 8) | ((y as u16) << 4),
        Op::SubVxVy(x, y) => 0x8005 | ((x as u16) << 8) | ((y as u16) << 4),
        Op::ShrVxVy(x, y) => 0x8006 | ((x as u16) << 8) | ((y as u16) << 4),
        Op::SubnVxVy(x, y) => 0x8007 | ((x as u16) << 8) | ((y as u16) << 4),
        Op::ShlVxVy(x, y) => 0x800E | ((x as u16) << 8) | ((y as u16) << 4),
        Op::SneVxVy(x, y) => 0x9000 | ((x as u16) << 8) | ((y as u16) << 4),
        Op::LdIAddr(a) => 0xA000 | a,
        Op::JpV0Addr(a) => 0xB000 | a,
        Op::RndVxByte(x, b) => 0xC000 | ((x as u16) << 8) | (b as u16),
        Op::DrwVxVyNibble(x, y, n) => 0xD000 | ((x as u16) << 8) | ((y as u16) << 4) | n,
        Op::SkpVx(x) => 0xE09E | ((x as u16) << 8),
        Op::SknpVx(x) => 0xE0A1 | ((x as u16) << 8),
        Op::LdVxDt(x) => 0xF007 | ((x as u16) << 8),
        Op::LdVxK(x) => 0xF00A | ((x as u16) << 8),
        Op::LdDtVx(x) => 0xF015 | ((x as u16) << 8),
        Op::LdStVx(x) => 0xF018 | ((x as u16) << 8),
        Op::AddIVx(x) => 0xF01E | ((x as u16) << 8),
        Op::LdFVx(x) => 0xF029 | ((x as u16) << 8),
        Op::LdBVx(x) => 0xF033 | ((x as u16) << 8),
        Op::LdIVx(x) => 0xF055 | ((x as u16) << 8),
        Op::LdVxI(x) => 0xF065 | ((x as u16) << 8),
        Op::Unknown(w) => w,
    }
}

proof fn bv_ranges(op: u16)
    by (bit_vector)
    ensures
        ((op & 0x0F00) >> 8) < 16,
        ((op & 0x00F0) >> 4) < 16,
        (op & 0x00FF) < 256,
        (op & 0x0FFF) < 0x1000,
        (op & 0x000F) < 16,
        op & 0xF000 == 0x0000 || op & 0xF000 == 0x1000 || op & 0xF000 == 0x2000 || op & 0xF000
            == 0x3000 || op & 0xF000 == 0x4000 || op & 0xF000 == 0x5000 || op & 0xF000 == 0x6000
            || op & 0xF000 == 0x7000 || op & 0xF000 == 0x8000 || op & 0xF000 == 0x9000 || op
            & 0xF000 == 0xA000 || op & 0xF000 == 0xB000 || op & 0xF000 == 0xC000 || op & 0xF000
            == 0xD000 || op & 0xF000 == 0xE000 || op & 0xF000 == 0xF000,
        op & 0xF000 == 0x0000 ==> op & 0x0FFF == op,
{
}

proof fn bv_reassemble(op: u16)
    by (bit_vector)
    ensures
        op & 0xF000 == 0x0000 ==> (op & 0x0FFF) == op,
        op & 0xF000 == 0x1000 ==> 0x1000 | (op & 0x0FFF) == op,
        op & 0xF000 == 0x2000 ==> 0x2000 | (op & 0x0FFF) == op,
        op & 0xF000 == 0xA000 ==> 0xA000 | (op & 0x0FFF) == op,
        op & 0xF000 == 0xB000 ==> 0xB000 | (op & 0x0FFF) == op,
        op & 0xF000 == 0x3000 ==> 0x3000 | (((op & 0x0F00) >> 8) << 8) | (op & 0x00FF) == op,
        op & 0xF000 == 0x4000 ==> 0x4000 | (((op & 0x0F00) >> 8) << 8) | (op & 0x00FF) == op,
        op & 0xF000 == 0x6000 ==> 0x6000 | (((op & 0x0F00) >> 8) << 8) | (op & 0x00FF) == op,
        op & 0xF000 == 0x7000 ==> 0x7000 | (((op & 0x0F00) >> 8) << 8) | (op & 0x00FF) == op,
        op & 0xF000 == 0xC000 ==> 0xC000 | (((op & 0x0F00) >> 8) << 8) | (op & 0x00FF) == op,
        op & 0xF000 == 0x5000 && op & 0x000F == 0x0 ==> 0x5000 | (((op & 0x0F00) >> 8) << 8) | (((
        op & 0x00F0) >> 4) << 4) == op,
        op & 0xF000 == 0x9000 && op & 0x000F == 0x0 ==> 0x9000 | (((op & 0x0F00) >> 8) << 8) | (((
        op & 0x00F0) >> 4) << 4) == op,
        op & 0xF000 == 0x8000 && op & 0x000F == 0x0 ==> 0x8000 | (((op & 0x0F00) >> 8) << 8) | (((
        op & 0x00F0) >> 4) << 4) == op,
        op & 0xF000 == 0x8000 && op & 0x000F == 0x1 ==> 0x8001 | (((op & 0x0F00) >> 8) << 8) | (((
        op & 0x00F0) >> 4) << 4) == op,
        op & 0xF000 == 0x8000 && op & 0x000F == 0x2 ==> 0x8002 | (((op & 0x0F00) >> 8) << 8) | (((
        op & 0x00F0) >> 4) << 4) == op,
        op & 0xF000 == 0x8000 && op & 0x000F == 0x3 ==> 0x8003 | (((op & 0x0F00) >> 8) << 8) | (((
        op & 0x00F0) >> 4) << 4) == op,
        op & 0xF000 == 0x8000 && op & 0x000F == 0x4 ==> 0x8004 | (((op & 0x0F00) >> 8) << 8) | (((
        op & 0x00F0) >> 4) << 4) == op,
        op & 0xF000 == 0x8000 && op & 0x000F == 0x5 ==> 0x8005 | (((op & 0x0F00) >> 8) << 8) | (((
        op & 0x00F0) >> 4) << 4) == op,
        op & 0xF000 == 0x8000 && op & 0x000F == 0x6 ==> 0x8006 | (((op & 0x0F00) >> 8) << 8) | (((
        op & 0x00F0) >> 4) << 4) == op,
        op & 0xF000 == 0x8000 && op & 0x000F == 0x7 ==> 0x8007 | (((op & 0x0F00) >> 8) << 8) | (((
        op & 0x00F0) >> 4) << 4) == op,
        op & 0xF000 == 0x8000 && op & 0x000F == 0xE ==> 0x800E | (((op & 0x0F00) >> 8) << 8) | (((
        op & 0x00F0) >> 4) << 4) == op,
        op & 0xF000 == 0xD000 ==> 0xD000 | (((op & 0x0F00) >> 8) << 8) | (((op & 0x00F0) >> 4)
            << 4) | (op & 0x000F) == op,
        op & 0xF000 == 0xE000 && op & 0x00FF == 0x9E ==> 0xE09E | (((op & 0x0F00) >> 8) << 8)
            == op,
        op & 0xF000 == 0xE000 && op & 0x00FF == 0xA1 ==> 0xE0A1 | (((op & 0x0F00) >> 8) << 8)
            == op,
        op & 0xF000 == 0xF000 && op & 0x00FF == 0x07 ==> 0xF007 | (((op & 0x0F00) >> 8) << 8)
            == op,
        op & 0xF000 == 0xF000 && op & 0x00FF == 0x0A ==> 0xF00A | (((op & 0x0F00) >> 8) << 8)
            == op,
        op & 0xF000 == 0xF000 && op & 0x00FF == 0x15 ==> 0xF015 | (((op & 0x0F00) >> 8) << 8)
            == op,
        op & 0xF000 == 0xF000 && op & 0x00FF == 0x18 ==> 0xF018 | (((op & 0x0F00) >> 8) << 8)
            == op,
        op & 0xF000 == 0xF000 && op & 0x00FF == 0x1E ==> 0xF01E | (((op & 0x0F00) >> 8) << 8)
            == op,
        op & 0xF000 == 0xF000 && op & 0x00FF == 0x29 ==> 0xF029 | (((op & 0x0F00) >> 8) << 8)
            == op,
        op & 0xF000 == 0xF000 && op & 0x00FF == 0x33 ==> 0xF033 | (((op & 0x0F00) >> 8) << 8)
            == op,
        op & 0xF000 == 0xF000 && op & 0x00FF == 0x55 ==> 0xF055 | (((op & 0x0F00) >> 8) << 8)
            == op,
        op & 0xF000 == 0xF000 && op & 0x00FF == 0x65 ==> 0xF065 | (((op & 0x0F00) >> 8) << 8)
            == op,
{
}

/// Decoding only ever yields a well-formed operation: register operands fit
/// in four bits, addresses in twelve, and an unknown word stays unknown.
pub proof fn lemma_decode_wf(op: u16)
    ensures
        spec_decode(op).wf(),
{
    bv_ranges(op);
}

/// Re-encoding a decoded word reconstructs that word, for every word of a
/// family with a trivial inverse. The two register-register skip families
/// are the only ones without: the decoder ignores their low nibble, so only
/// their canonical words, with a zero low nibble, are reconstructed.
pub proof fn lemma_encode_decode(op: u16)
    requires
        op & 0xF000 == 0x5000 ==> op & 0x000F == 0,
        op & 0xF000 == 0x9000 ==> op & 0x000F == 0,
    ensures
        spec_encode(spec_decode(op)) == op,
{
    bv_ranges(op);
    bv_reassemble(op);
}

proof fn bv_decode_addr(c: u16, a: u16)
    by (bit_vector)
    requires
        a < 0x1000,
        c == 0x1000 || c == 0x2000 || c == 0xA000 || c == 0xB000,
    ensures
        (c | a) & 0xF000 == c,
        (c | a) & 0x0FFF == a,
        a & 0xF000 == 0,
        0x00E0u16 & 0xF000u16 == 0,
        0x00EEu16 & 0xF000u16 == 0,
        a & 0x0FFF == a,
{
}

proof fn bv_decode_xb(c: u16, x: u16, b: u16)
    by (bit_vector)
    requires
        x < 16,
        b < 256,
        c == 0x3000 || c == 0x4000 || c == 0x6000 || c == 0x7000 || c == 0xC000,
    ensures
        (c | (x << 8) | b) & 0xF000 == c,
        ((c | (x << 8) | b) & 0x0F00) >> 8 == x,
        (c | (x << 8) | b) & 0x00FF == b,
{
}

proof fn bv_decode_xy(c: u16, x: u16, y: u16)
    by (bit_vector)
    requires
        x < 16,
        y < 16,
        c == 0x5000 || c == 0x9000 || c == 0x8000 || c == 0x8001 || c == 0x8002 || c == 0x8003
            || c == 0x8004 || c == 0x8005 || c == 0x8006 || c == 0x8007 || c == 0x800E,
    ensures
        ((c | (x << 8) | (y << 4)) & 0x0F00) >> 8 == x,
        ((c | (x << 8) | (y << 4)) & 0x00F0) >> 4 == y,
        c == 0x5000 ==> (c | (x << 8) | (y << 4)) & 0xF000 == 0x5000,
        c == 0x9000 ==> (c | (x << 8) | (y << 4)) & 0xF000 == 0x9000,
        c != 0x5000 && c != 0x9000 ==> (c | (x << 8) | (y << 4)) & 0xF000 == 0x8000,
        (c | (x << 8) | (y << 4)) & 0x000F == c & 0x000F,
        c == 0x8000 ==> c & 0x000F == 0x0,
        c == 0x8001 ==> c & 0x000F == 0x1,
        c == 0x8002 ==> c & 0x000F == 0x2,
        c == 0x8003 ==> c & 0x000F == 0x3,
        c == 0x8004 ==> c & 0x000F == 0x4,
        c == 0x8005 ==> c & 0x000F == 0x5,
        c == 0x8006 ==> c & 0x000F == 0x6,
        c == 0x8007 ==> c & 0x000F == 0x7,
        c == 0x800E ==> c & 0x000F == 0xE,
{
}

proof fn bv_decode_x(c: u16, x: u16)
    by (bit_vector)
    requires
        x < 16,
        c == 0xE09E || c == 0xE0A1 || c == 0xF007 || c == 0xF00A || c == 0xF015 || c == 0xF018
            || c == 0xF01E || c == 0xF029 || c == 0xF033 || c == 0xF055 || c == 0xF065,
    ensures
        ((c | (x << 8)) & 0x0F00) >> 8 == x,
        (c | (x << 8)) & 0x00FF == c & 0x00FF,
        c == 0xE09E || c == 0xE0A1 ==> (c | (x << 8)) & 0xF000 == 0xE000,
        c != 0xE09E && c != 0xE0A1 ==> (c | (x << 8)) & 0xF000 == 0xF000,
        c == 0xE09E ==> c & 0x00FF == 0x9E,
        c == 0xE0A1 ==> c & 0x00FF == 0xA1,
        c == 0xF007 ==> c & 0x00FF == 0x07,
        c == 0xF00A ==> c & 0x00FF == 0x0A,
        c == 0xF015 ==> c & 0x00FF == 0x15,
        c == 0xF018 ==> c & 0x00FF == 0x18,
        c == 0xF01E ==> c & 0x00FF == 0x1E,
        c == 0xF029 ==> c & 0x00FF == 0x29,
        c == 0xF033 ==> c & 0x00FF == 0x33,
        c == 0xF055 ==> c & 0x00FF == 0x55,
        c == 0xF065 ==> c & 0x00FF == 0x65,
{
}

proof fn bv_decode_drw(x: u16, y: u16, n: u16)
    by (bit_vector)
    requires
        x < 16,
        y < 16,
        n < 16,
    ensures
        (0xD000 | (x << 8) | (y << 4) | n) & 0xF000 == 0xD000,
        ((0xD000 | (x << 8) | (y << 4) | n) & 0x0F00) >> 8 == x,
        ((0xD000 | (x << 8) | (y << 4) | n) & 0x00F0) >> 4 == y,
        (0xD000 | (x << 8) | (y << 4) | n) & 0x000F == n,
{
}

/// Decoding the word built from a well-formed operation yields exactly that
/// operation, operands included: the decoder is a total pure function that
/// inverts assembly.
pub proof fn lemma_decode_encode(i: Op)
    requires
        i.wf(),
    ensures
        spec_decode(spec_encode(i)) == i,
{
    match i {
        Op::Cls => {
            bv_decode_addr(0x1000, 0);
        },
        Op::Ret => {
            bv_decode_addr(0x1000, 0);
        },
        Op::SysAddr(a) => {
            bv_decode_addr(0x1000, a);
        },
        Op::JpAddr(a) => {
            bv_decode_addr(0x1000, a);
        },
        Op::CallAddr(a) => {
            bv_decode_addr(0x2000, a);
        },
        Op::SeVxByte(x, b) => {
            bv_decode_xb(0x3000, x as u16, b as u16);
        },
        Op::SneVxByte(x, b) => {
            bv_decode_xb(0x4000, x as u16, b as u16);
        },
        Op::SeVxVy(x, y) => {
            bv_decode_xy(0x5000, x as u16, y as u16);
        },
        Op::LdVxByte(x, b) => {
            bv_decode_xb(0x6000, x as u16, b as u16);
        },
        Op::AddVxByte(x, b) => {
            bv_decode_xb(0x7000, x as u16, b as u16);
        },
        Op::LdVxVy(x, y) => {
            bv_decode_xy(0x8000, x as u16, y as u16);
        },
        Op::OrVxVy(x, y) => {
            bv_decode_xy(0x8001, x as u16, y as u16);
        },
        Op::AndVxVy(x, y) => {
            bv_decode_xy(0x8002, x as u16, y as u16);
        },
        Op::XorVxVy(x, y) => {
            bv_decode_xy(0x8003, x as u16, y as u16);
        },
        Op::AddVxVy(x, y) => {
            bv_decode_xy(0x8004, x as u16, y as u16);
        },
        Op::SubVxVy(x, y) => {
            bv_decode_xy(0x8005, x as u16, y as u16);
        },
        Op::ShrVxVy(x, y) => {
            bv_decode_xy(0x8006, x as u16, y as u16);
        },
        Op::SubnVxVy(x, y) => {
            bv_decode_xy(0x8007, x as u16, y as u16);
        },
        Op::ShlVxVy(x, y) => {
            bv_decode_xy(0x800E, x as u16, y as u16);
        },
        Op::SneVxVy(x, y) => {
            bv_decode_xy(0x9000, x as u16, y as u16);
        },
        Op::LdIAddr(a) => {
            bv_decode_addr(0xA000, a);
        },
        Op::JpV0Addr(a) => {
            bv_decode_addr(0xB000, a);
        },
        Op::RndVxByte(x, b) => {
            bv_decode_xb(0xC000, x as u16, b as u16);
        },
        Op::DrwVxVyNibble(x, y, n) => {
            bv_decode_drw(x as u16, y as u16, n);
        },
        Op::SkpVx(x) => {
            bv_decode_x(0xE09E, x as u16);
        },
        Op::SknpVx(x) => {
            bv_decode_x(0xE0A1, x as u16);
        },
        Op::LdVxDt(x) => {
            bv_decode_x(0xF007, x as u16);
        },
        Op::LdVxK(x) => {
            bv_decode_x(0xF00A, x as u16);
        },
        Op::LdDtVx(x) => {
            bv_decode_x(0xF015, x as u16);
        },
        Op::LdStVx(x) => {
            bv_decode_x(0xF018, x as u16);
        },
        Op::AddIVx(x) => {
            bv_decode_x(0xF01E, x as u16);
        },
        Op::LdFVx(x) => {
            bv_decode_x(0xF029, x as u16);
        },
        Op::LdBVx(x) => {
            bv_decode_x(0xF033, x as u16);
        },
        Op::LdIVx(x) => {
            bv_decode_x(0xF055, x as u16);
        },
        Op::LdVxI(x) => {
            bv_decode_x(0xF065, x as u16);
        },
        Op::Unknown(_w) => {
        },
    }
}

/// Classify a 16-bit instruction word and invoke exactly one method of the
/// sink, handing it the operands extracted by the fixed bit masks. A word
/// outside the opcode table reaches the sink's unknown-opcode method with
/// the raw word.
pub fn decode<S: Chip8>(op: u16, i: &mut S)
    ensures
        final(i).sunk() == old(i).sunk().push(spec_decode(op)),
{
    match decode_op(op) {
        Op::Cls => i.cls(),
        Op::Ret => i.ret(),
        Op::SysAddr(addr) => i.sys_addr(addr),
        Op::JpAddr(addr) => i.jp_addr(addr),
        Op::CallAddr(addr) => i.call_addr(addr),
        Op::SeVxByte(x, byte) => i.se_vx_byte(x, byte),
        Op::SneVxByte(x, byte) => i.sne_vx_byte(x, byte),
        Op::SeVxVy(x, y) => i.se_vx_vy(x, y),
        Op::LdVxByte(x, byte) => i.ld_vx_byte(x, byte),
        Op::AddVxByte(x, byte) => i.add_vx_byte(x, byte),
        Op::LdVxVy(x, y) => i.ld_vx_vy(x, y),
        Op::OrVxVy(x, y) => i.or_vx_vy(x, y),
        Op::AndVxVy(x, y) => i.and_vx_vy(x, y),
        Op::XorVxVy(x, y) => i.xor_vx_vy(x, y),
        Op::AddVxVy(x, y) => i.add_vx_vy(x, y),
        Op::SubVxVy(x, y) => i.sub_vx_vy(x, y),
        Op::ShrVxVy(x, y) => i.shr_vx_vy(x, y),
        Op::SubnVxVy(x, y) => i.subn_vx_vy(x, y),
        Op::ShlVxVy(x, y) => i.shl_vx_vy(x, y),
        Op::SneVxVy(x, y) => i.sne_vx_vy(x, y),
        Op::LdIAddr(addr) => i.ld_i_addr(addr),
        Op::JpV0Addr(addr) => i.jp_v0_addr(addr),
        Op::RndVxByte(x, byte) => i.rnd_vx_byte(x, byte),
        Op::DrwVxVyNibble(x, y, nibble) => i.drw_vx_vy_nibble(x, y, nibble),
        Op::SkpVx(x) => i.skp_vx(x),
        Op::SknpVx(x) => i.sknp_vx(x),
        Op::LdVxDt(x) => i.ld_vx_dt(x),
        Op::LdVxK(x) => i.ld_vx_k(x),
        Op::LdDtVx(x) => i.ld_dt_vx(x),
        Op::LdStVx(x) => i.ld_st_vx(x),
        Op::AddIVx(x) => i.add_i_vx(x),
        Op::LdFVx(x) => i.ld_f_vx(x),
        Op::LdBVx(x) => i.ld_b_vx(x),
        Op::LdIVx(x) => i.ld_i_vx(x),
        Op::LdVxI(x) => i.ld_vx_i(x),
        Op::Unknown(w) => i.unknown(w),
    }
}

} // verus!
