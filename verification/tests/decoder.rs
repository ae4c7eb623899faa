use chip8::decoder::decode_op;
use chip8::decoder::encode;
use chip8::decoder::decode;
use chip8::instructions::Chip8;
use chip8::instructions::Op;

/// A third consumer of the decoder: records every operation it is handed.
struct Recorder {
    calls: Vec<Op>,
}

impl Recorder {
    fn new() -> Recorder {
        Recorder { calls: Vec::new() }
    }
}

impl Chip8 for Recorder {
    // The abstract call log is a specification-level artifact; nothing can
    // call it at run time.
    fn sunk(&self) -> vstd::seq::Seq<Op> {
        unreachable!()
    }
    fn cls(&mut self) {
        self.calls.push(Op::Cls);
    }
    fn ret(&mut self) {
        self.calls.push(Op::Ret);
    }
    fn sys_addr(&mut self, addr: u16) {
        self.calls.push(Op::SysAddr(addr));
    }
    fn jp_addr(&mut self, addr: u16) {
        self.calls.push(Op::JpAddr(addr));
    }
    fn call_addr(&mut self, addr: u16) {
        self.calls.push(Op::CallAddr(addr));
    }
    fn se_vx_byte(&mut self, x: u8, byte: u8) {
        self.calls.push(Op::SeVxByte(x, byte));
    }
    fn sne_vx_byte(&mut self, x: u8, byte: u8) {
        self.calls.push(Op::SneVxByte(x, byte));
    }
    fn se_vx_vy(&mut self, x: u8, y: u8) {
        self.calls.push(Op::SeVxVy(x, y));
    }
    fn ld_vx_byte(&mut self, x: u8, byte: u8) {
        self.calls.push(Op::LdVxByte(x, byte));
    }
    fn add_vx_byte(&mut self, x: u8, byte: u8) {
        self.calls.push(Op::AddVxByte(x, byte));
    }
    fn ld_vx_vy(&mut self, x: u8, y: u8) {
        self.calls.push(Op::LdVxVy(x, y));
    }
    fn or_vx_vy(&mut self, x: u8, y: u8) {
        self.calls.push(Op::OrVxVy(x, y));
    }
    fn and_vx_vy(&mut self, x: u8, y: u8) {
        self.calls.push(Op::AndVxVy(x, y));
    }
    fn xor_vx_vy(&mut self, x: u8, y: u8) {
        self.calls.push(Op::XorVxVy(x, y));
    }
    fn add_vx_vy(&mut self, x: u8, y: u8) {
        self.calls.push(Op::AddVxVy(x, y));
    }
    fn sub_vx_vy(&mut self, x: u8, y: u8) {
        self.calls.push(Op::SubVxVy(x, y));
    }
    fn shr_vx_vy(&mut self, x: u8, y: u8) {
        self.calls.push(Op::ShrVxVy(x, y));
    }
    fn subn_vx_vy(&mut self, x: u8, y: u8) {
        self.calls.push(Op::SubnVxVy(x, y));
    }
    fn shl_vx_vy(&mut self, x: u8, y: u8) {
        self.calls.push(Op::ShlVxVy(x, y));
    }
    fn sne_vx_vy(&mut self, x: u8, y: u8) {
        self.calls.push(Op::SneVxVy(x, y));
    }
    fn ld_i_addr(&mut self, addr: u16) {
        self.calls.push(Op::LdIAddr(addr));
    }
    fn jp_v0_addr(&mut self, addr: u16) {
        self.calls.push(Op::JpV0Addr(addr));
    }
    fn rnd_vx_byte(&mut self, x: u8, byte: u8) {
        self.calls.push(Op::RndVxByte(x, byte));
    }
    fn drw_vx_vy_nibble(&mut self, x: u8, y: u8, nibble: u16) {
        self.calls.push(Op::DrwVxVyNibble(x, y, nibble));
    }
    fn skp_vx(&mut self, x: u8) {
        self.calls.push(Op::SkpVx(x));
    }
    fn sknp_vx(&mut self, x: u8) {
        self.calls.push(Op::SknpVx(x));
    }
    fn ld_vx_dt(&mut self, x: u8) {
        self.calls.push(Op::LdVxDt(x));
    }
    fn ld_vx_k(&mut self, x: u8) {
        self.calls.push(Op::LdVxK(x));
    }
    fn ld_dt_vx(&mut self, x: u8) {
        self.calls.push(Op::LdDtVx(x));
    }
    fn ld_st_vx(&mut self, x: u8) {
        self.calls.push(Op::LdStVx(x));
    }
    fn add_i_vx(&mut self, x: u8) {
        self.calls.push(Op::AddIVx(x));
    }
    fn ld_f_vx(&mut self, x: u8) {
        self.calls.push(Op::LdFVx(x));
    }
    fn ld_b_vx(&mut self, x: u8) {
        self.calls.push(Op::LdBVx(x));
    }
    fn ld_i_vx(&mut self, x: u8) {
        self.calls.push(Op::LdIVx(x));
    }
    fn ld_vx_i(&mut self, x: u8) {
        self.calls.push(Op::LdVxI(x));
    }
    fn unknown(&mut self, op: u16) {
        self.calls.push(Op::Unknown(op));
    }
}

fn all_opcode_samples() -> Vec<(u16, Op)> {
    vec![
        (0x00E0, Op::Cls),
        (0x00EE, Op::Ret),
        (0x0123, Op::SysAddr(0x123)),
        (0x1ABC, Op::JpAddr(0xABC)),
        (0x2DEF, Op::CallAddr(0xDEF)),
        (0x3455, Op::SeVxByte(0x4, 0x55)),
        (0x467F, Op::SneVxByte(0x6, 0x7F)),
        (0x5120, Op::SeVxVy(0x1, 0x2)),
        (0x6A0B, Op::LdVxByte(0xA, 0x0B)),
        (0x7C80, Op::AddVxByte(0xC, 0x80)),
        (0x8120, Op::LdVxVy(0x1, 0x2)),
        (0x8341, Op::OrVxVy(0x3, 0x4)),
        (0x8562, Op::AndVxVy(0x5, 0x6)),
        (0x8783, Op::XorVxVy(0x7, 0x8)),
        (0x89A4, Op::AddVxVy(0x9, 0xA)),
        (0x8BC5, Op::SubVxVy(0xB, 0xC)),
        (0x8DE6, Op::ShrVxVy(0xD, 0xE)),
        (0x8F07, Op::SubnVxVy(0xF, 0x0)),
        (0x812E, Op::ShlVxVy(0x1, 0x2)),
        (0x9340, Op::SneVxVy(0x3, 0x4)),
        (0xA111, Op::LdIAddr(0x111)),
        (0xB222, Op::JpV0Addr(0x222)),
        (0xC5AA, Op::RndVxByte(0x5, 0xAA)),
        (0xD67E, Op::DrwVxVyNibble(0x6, 0x7, 0xE)),
        (0xE89E, Op::SkpVx(0x8)),
        (0xE9A1, Op::SknpVx(0x9)),
        (0xFA07, Op::LdVxDt(0xA)),
        (0xFB0A, Op::LdVxK(0xB)),
        (0xFC15, Op::LdDtVx(0xC)),
        (0xFD18, Op::LdStVx(0xD)),
        (0xFE1E, Op::AddIVx(0xE)),
        (0xFF29, Op::LdFVx(0xF)),
        (0xF033, Op::LdBVx(0x0)),
        (0xF155, Op::LdIVx(0x1)),
        (0xF265, Op::LdVxI(0x2)),
    ]
}

#[test]
fn decode_all_opcodes_exact_operands() {
    for (word, expected) in all_opcode_samples() {
        assert_eq!(decode_op(word), expected);
    }
}

#[test]
fn decode_unknown_words() {
    assert_eq!(decode_op(0x8008), Op::Unknown(0x8008));
    assert_eq!(decode_op(0x8F0F), Op::Unknown(0x8F0F));
    assert_eq!(decode_op(0xE000), Op::Unknown(0xE000));
    assert_eq!(decode_op(0xE1FF), Op::Unknown(0xE1FF));
    assert_eq!(decode_op(0xF000), Op::Unknown(0xF000));
    assert_eq!(decode_op(0xF199), Op::Unknown(0xF199));
}

#[test]
fn decode_dispatches_exactly_one_sink_call() {
    for (word, expected) in all_opcode_samples() {
        let mut rec = Recorder::new();
        decode(word, &mut rec);
        assert_eq!(rec.calls, vec![expected]);
    }
    let mut rec = Recorder::new();
    decode(0x8008, &mut rec);
    assert_eq!(rec.calls, vec![Op::Unknown(0x8008)]);
}

#[test]
fn encode_inverts_decode() {
    for (word, _) in all_opcode_samples() {
        assert_eq!(encode(&decode_op(word)), word);
    }
    // Unknown words re-encode to themselves.
    assert_eq!(encode(&decode_op(0x8008)), 0x8008);
}

#[test]
fn decode_inverts_encode() {
    for (_, op) in all_opcode_samples() {
        assert_eq!(decode_op(encode(&op)), op);
    }
}

#[test]
fn skip_families_ignore_low_nibble() {
    // The decoder reads only the register nibbles of the register-register
    // skip families, so their non-canonical words lose the low nibble on a
    // round trip.
    assert_eq!(decode_op(0x5121), Op::SeVxVy(0x1, 0x2));
    assert_eq!(encode(&decode_op(0x5121)), 0x5120);
    assert_eq!(decode_op(0x9347), Op::SneVxVy(0x3, 0x4));
    assert_eq!(encode(&decode_op(0x9347)), 0x9340);
}
