use vstd::prelude::*;

verus! {

/// A decoded operation: the kind of instruction together with its operands,
/// extracted from a 16-bit instruction word. Operand conventions: `x` is the
/// second nibble, `y` the third nibble, `byte` the low 8 bits, `addr` the low
/// 12 bits, `nibble` the low 4 bits. `Unknown` carries the raw word of an
/// instruction outside the opcode table.
#[derive(Clone, Copy, PartialEq, Eq, Structural, Debug)]
pub enum Op {
    Cls,
    Ret,
    SysAddr(u16),
    JpAddr(u16),
    CallAddr(u16),
    SeVxByte(u8, u8),
    SneVxByte(u8, u8),
    SeVxVy(u8, u8),
    LdVxByte(u8, u8),
    AddVxByte(u8, u8),
    LdVxVy(u8, u8),
    OrVxVy(u8, u8),
    AndVxVy(u8, u8),
    XorVxVy(u8, u8),
    AddVxVy(u8, u8),
    SubVxVy(u8, u8),
    ShrVxVy(u8, u8),
    SubnVxVy(u8, u8),
    ShlVxVy(u8, u8),
    SneVxVy(u8, u8),
    LdIAddr(u16),
    JpV0Addr(u16),
    RndVxByte(u8, u8),
    DrwVxVyNibble(u8, u8, u16),
    SkpVx(u8),
    SknpVx(u8),
    LdVxDt(u8),
    LdVxK(u8),
    LdDtVx(u8),
    LdStVx(u8),
    AddIVx(u8),
    LdFVx(u8),
    LdBVx(u8),
    LdIVx(u8),
    LdVxI(u8),
    Unknown(u16),
}

/// The operation sink interface: one method per opcode semantic, plus an
/// unknown-opcode fallback. The decoder classifies a word and invokes exactly
/// one of these methods on the sink. `sunk()` is the sink's abstract log of
/// the operations it has received, oldest first; every method appends the
/// operation it stands for, so a caller of the decoder knows that exactly one
/// operation, with exactly the decoded operands, reached the sink.
pub trait Chip8 {
    spec fn sunk(&self) -> Seq<Op>;

    fn cls(&mut self)
        ensures
            final(self).sunk() == old(self).sunk().push(Op::Cls),
    ;

    fn ret(&mut self)
        ensures
            final(self).sunk() == old(self).sunk().push(Op::Ret),
    ;

    fn sys_addr(&mut self, addr: u16)
        ensures
            final(self).sunk() == old(self).sunk().push(Op::SysAddr(addr)),
    ;

    fn jp_addr(&mut self, addr: u16)
        ensures
            final(self).sunk() == old(self).sunk().push(Op::JpAddr(addr)),
    ;

    fn call_addr(&mut self, addr: u16)
        ensures
            final(self).sunk() == old(self).sunk().push(Op::CallAddr(addr)),
    ;

    fn se_vx_byte(&mut self, x: u8, byte: u8)
        ensures
            final(self).sunk() == old(self).sunk().push(Op::SeVxByte(x, byte)),
    ;

    fn sne_vx_byte(&mut self, x: u8, byte: u8)
        ensures
            final(self).sunk() == old(self).sunk().push(Op::SneVxByte(x, byte)),
    ;

    fn se_vx_vy(&mut self, x: u8, y: u8)
        ensures
            final(self).sunk() == old(self).sunk().push(Op::SeVxVy(x, y)),
    ;

    fn ld_vx_byte(&mut self, x: u8, byte: u8)
        ensures
            final(self).sunk() == old(self).sunk().push(Op::LdVxByte(x, byte)),
    ;

    fn add_vx_byte(&mut self, x: u8, byte: u8)
        ensures
            final(self).sunk() == old(self).sunk().push(Op::AddVxByte(x, byte)),
    ;

    fn ld_vx_vy(&mut self, x: u8, y: u8)
        ensures
            final(self).sunk() == old(self).sunk().push(Op::LdVxVy(x, y)),
    ;

    fn or_vx_vy(&mut self, x: u8, y: u8)
        ensures
            final(self).sunk() == old(self).sunk().push(Op::OrVxVy(x, y)),
    ;

    fn and_vx_vy(&mut self, x: u8, y: u8)
        ensures
            final(self).sunk() == old(self).sunk().push(Op::AndVxVy(x, y)),
    ;

    fn xor_vx_vy(&mut self, x: u8, y: u8)
        ensures
            final(self).sunk() == old(self).sunk().push(Op::XorVxVy(x, y)),
    ;

    fn add_vx_vy(&mut self, x: u8, y: u8)
        ensures
            final(self).sunk() == old(self).sunk().push(Op::AddVxVy(x, y)),
    ;

    fn sub_vx_vy(&mut self, x: u8, y: u8)
        ensures
            final(self).sunk() == old(self).sunk().push(Op::SubVxVy(x, y)),
    ;

    fn shr_vx_vy(&mut self, x: u8, y: u8)
        ensures
            final(self).sunk() == old(self).sunk().push(Op::ShrVxVy(x, y)),
    ;

    fn subn_vx_vy(&mut self, x: u8, y: u8)
        ensures
            final(self).sunk() == old(self).sunk().push(Op::SubnVxVy(x, y)),
    ;

    fn shl_vx_vy(&mut self, x: u8, y: u8)
        ensures
            final(self).sunk() == old(self).sunk().push(Op::ShlVxVy(x, y)),
    ;

    fn sne_vx_vy(&mut self, x: u8, y: u8)
        ensures
            final(self).sunk() == old(self).sunk().push(Op::SneVxVy(x, y)),
    ;

    fn ld_i_addr(&mut self, addr: u16)
        ensures
            final(self).sunk() == old(self).sunk().push(Op::LdIAddr(addr)),
    ;

    fn jp_v0_addr(&mut self, addr: u16)
        ensures
            final(self).sunk() == old(self).sunk().push(Op::JpV0Addr(addr)),
    ;

    fn rnd_vx_byte(&mut self, x: u8, byte: u8)
        ensures
            final(self).sunk() == old(self).sunk().push(Op::RndVxByte(x, byte)),
    ;

    fn drw_vx_vy_nibble(&mut self, x: u8, y: u8, nibble: u16)
        ensures
            final(self).sunk() == old(self).sunk().push(Op::DrwVxVyNibble(x, y, nibble)),
    ;

    fn skp_vx(&mut self, x: u8)
        ensures
            final(self).sunk() == old(self).sunk().push(Op::SkpVx(x)),
    ;

    fn sknp_vx(&mut self, x: u8)
        ensures
            final(self).sunk() == old(self).sunk().push(Op::SknpVx(x)),
    ;

    fn ld_vx_dt(&mut self, x: u8)
        ensures
            final(self).sunk() == old(self).sunk().push(Op::LdVxDt(x)),
    ;

    fn ld_vx_k(&mut self, x: u8)
        ensures
            final(self).sunk() == old(self).sunk().push(Op::LdVxK(x)),
    ;

    fn ld_dt_vx(&mut self, x: u8)
        ensures
            final(self).sunk() == old(self).sunk().push(Op::LdDtVx(x)),
    ;

    fn ld_st_vx(&mut self, x: u8)
        ensures
            final(self).sunk() == old(self).sunk().push(Op::LdStVx(x)),
    ;

    fn add_i_vx(&mut self, x: u8)
        ensures
            final(self).sunk() == old(self).sunk().push(Op::AddIVx(x)),
    ;

    fn ld_f_vx(&mut self, x: u8)
        ensures
            final(self).sunk() == old(self).sunk().push(Op::LdFVx(x)),
    ;

    fn ld_b_vx(&mut self, x: u8)
        ensures
            final(self).sunk() == old(self).sunk().push(Op::LdBVx(x)),
    ;

    fn ld_i_vx(&mut self, x: u8)
        ensures
            final(self).sunk() == old(self).sunk().push(Op::LdIVx(x)),
    ;

    fn ld_vx_i(&mut self, x: u8)
        ensures
            final(self).sunk() == old(self).sunk().push(Op::LdVxI(x)),
    ;

    fn unknown(&mut self, op: u16)
        ensures
            final(self).sunk() == old(self).sunk().push(Op::Unknown(op)),
    ;
}

/// The extended instruction set of the later, larger machine. Declared for
/// completeness; no consumer here implements it.
pub trait SuperChip8 {
    fn scd_nibble();

    fn scr();

    fn scl();

    fn exit();

    fn low();

    fn high();

    fn drw_vx_vy_0();

    fn ld_hf_vx();

    fn ld_r_vx();

    fn ld_vx_r();
}

} // verus!
