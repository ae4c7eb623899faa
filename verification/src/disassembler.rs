use vstd::prelude::*;
use vstd::string::StringExecFns;
use crate::decoder::decode_op;
use crate::decoder::spec_decode;
use crate::instructions::Chip8;
use crate::instructions::Op;
use crate::interpreter::word_of;
use crate::program::Program;

verus! {

/// One uppercase hexadecimal digit.
pub open spec fn hex_digit(d: int) -> Seq<char> {
    if d == 0 {
        "0"@
    } else if d == 1 {
        "1"@
    } else if d == 2 {
        "2"@
    } else if d == 3 {
        "3"@
    } else if d == 4 {
        "4"@
    } else if d == 5 {
        "5"@
    } else if d == 6 {
        "6"@
    } else if d == 7 {
        "7"@
    } else if d == 8 {
        "8"@
    } else if d == 9 {
        "9"@
    } else if d == 10 {
        "A"@
    } else if d == 11 {
        "B"@
    } else if d == 12 {
        "C"@
    } else if d == 13 {
        "D"@
    } else if d == 14 {
        "E"@
    } else {
        "F"@
    }
}

/// A number in uppercase hexadecimal without leading zeros, as the
/// rendering convention writes operands.
pub open spec fn spec_hex(n: int) -> Seq<char>
    decreases n,
{
    if n < 16 {
        hex_digit(n)
    } else {
        spec_hex(n / 16) + hex_digit(n % 16)
    }
}

/// The mnemonic line an operation renders to, newline included.
pub open spec fn spec_line(i: Op) -> Seq<char> {
    match i {
        Op::Cls => "CLS\n"@,
        Op::Ret => "RET\n"@,
        Op::SysAddr(a) => "SYS "@ + spec_hex(a as int) + "\n"@,
        Op::JpAddr(a) => "JP "@ + spec_hex(a as int) + "\n"@,
        Op::CallAddr(a) => "CALL "@ + spec_hex(a as int) + "\n"@,
        Op::SeVxByte(x, b) => "SE V"@ + hex_digit((x as int) % 16) + ", "@ + spec_hex(b as int) + "\n"@,
        Op::SneVxByte(x, b) => "SNE V"@ + hex_digit((x as int) % 16) + ", "@ + spec_hex(b as int) + "\n"@,
        Op::SeVxVy(x, y) => "SE V"@ + hex_digit((x as int) % 16) + ", V"@ + hex_digit((y as int) % 16) + "\n"@,
        Op::LdVxByte(x, b) => "LD V"@ + hex_digit((x as int) % 16) + ", "@ + spec_hex(b as int) + "\n"@,
        Op::AddVxByte(x, b) => "ADD V"@ + hex_digit((x as int) % 16) + ", "@ + spec_hex(b as int) + "\n"@,
        Op::LdVxVy(x, y) => "LD V"@ + hex_digit((x as int) % 16) + ", V"@ + hex_digit((y as int) % 16) + "\n"@,
        Op::OrVxVy(x, y) => "OR V"@ + hex_digit((x as int) % 16) + ", V"@ + hex_digit((y as int) % 16) + "\n"@,
        Op::AndVxVy(x, y) => "AND V"@ + hex_digit((x as int) % 16) + ", V"@ + hex_digit((y as int) % 16) + "\n"@,
        Op::XorVxVy(x, y) => "XOR V"@ + hex_digit((x as int) % 16) + ", V"@ + hex_digit((y as int) % 16) + "\n"@,
        Op::AddVxVy(x, y) => "ADD V"@ + hex_digit((x as int) % 16) + ", V"@ + hex_digit((y as int) % 16) + "\n"@,
        Op::SubVxVy(x, y) => "SUB V"@ + hex_digit((x as int) % 16) + ", V"@ + hex_digit((y as int) % 16) + "\n"@,
        Op::ShrVxVy(x, y) => "SHR V"@ + hex_digit((x as int) % 16) + ", V"@ + hex_digit((y as int) % 16) + "\n"@,
        Op::SubnVxVy(x, y) => "SUBN V"@ + hex_digit((x as int) % 16) + ", V"@ + hex_digit((y as int) % 16)
            + "\n"@,
        Op::ShlVxVy(x, y) => "SHL V"@ + hex_digit((x as int) % 16) + ", V"@ + hex_digit((y as int) % 16) + "\n"@,
        Op::SneVxVy(x, y) => "SNE V"@ + hex_digit((x as int) % 16) + ", V"@ + hex_digit((y as int) % 16) + "\n"@,
        Op::LdIAddr(a) => "LD I, "@ + spec_hex(a as int) + "\n"@,
        Op::JpV0Addr(a) => "LD v0, "@ + spec_hex(a as int) + "\n"@,
        Op::RndVxByte(x, b) => "RND V"@ + hex_digit((x as int) % 16) + ", "@ + spec_hex(b as int) + "\n"@,
        Op::DrwVxVyNibble(x, y, n) => "DRW V"@ + hex_digit((x as int) % 16) + ", V"@ + hex_digit((y as int) % 16)
            + ", "@ + hex_digit((n as int) % 16) + "\n"@,
        Op::SkpVx(x) => "SKP V"@ + hex_digit((x as int) % 16) + "\n"@,
        Op::SknpVx(x) => "SKNP V"@ + hex_digit((x as int) % 16) + "\n"@,
        Op::LdVxDt(x) => "LD V"@ + hex_digit((x as int) % 16) + ", DT\n"@,
        Op::LdVxK(x) => "LD V"@ + hex_digit((x as int) % 16) + ", K\n"@,
        Op::LdDtVx(x) => "LD DT, V"@ + hex_digit((x as int) % 16) + "\n"@,
        Op::LdStVx(x) => "ST V"@ + hex_digit((x as int) % 16) + "\n"@,
        Op::AddIVx(x) => "ADD I, V"@ + hex_digit((x as int) % 16) + "\n"@,
        Op::LdFVx(x) => "LD F, V"@ + hex_digit((x as int) % 16) + "\n"@,
        Op::LdBVx(x) => "LD B, V"@ + hex_digit((x as int) % 16) + "\n"@,
        Op::LdIVx(x) => "LD I, V"@ + hex_digit((x as int) % 16) + "\n"@,
        Op::LdVxI(x) => "LD V"@ + hex_digit((x as int) % 16) + ", I\n"@,
        Op::Unknown(w) => "unknown instruction : "@ + spec_hex(w as int) + "\n"@,
    }
}

/// The text of every overlapping two-byte window of `content` up to window
/// `k` exclusive: window `i` decodes the word built from bytes `i` and
/// `i + 1`, so a buffer of `len` bytes has `len - 1` windows.
pub open spec fn spec_disassembly(content: Seq<u8>, k: int) -> Seq<char>
    decreases k,
{
    if k <= 0 {
        Seq::empty()
    } else {
        spec_disassembly(content, k - 1) + spec_line(
            spec_decode(word_of(content[k - 1], content[k])),
        )
    }
}

/// The operations of every overlapping two-byte window of `content` up to
/// window `k` exclusive, in order.
pub open spec fn spec_window_ops(content: Seq<u8>, k: int) -> Seq<Op>
    decreases k,
{
    if k <= 0 {
        Seq::empty()
    } else {
        spec_window_ops(content, k - 1).push(spec_decode(word_of(content[k - 1], content[k])))
    }
}

/// Each window of the scan holds the decoded word of its two bytes: what
/// the disassembler's log shows at position `i` is exactly the decoding of
/// bytes `i` and `i + 1`.
pub proof fn lemma_window_ops_index(content: Seq<u8>, k: int, i: int)
    requires
        0 <= i < k,
    ensures
        spec_window_ops(content, k).len() == k,
        spec_window_ops(content, k)[i] == spec_decode(word_of(content[i], content[i + 1])),
    decreases k,
{
    lemma_window_ops_len(content, k - 1);
    if i < k - 1 {
        lemma_window_ops_index(content, k - 1, i);
    }
}

proof fn lemma_window_ops_len(content: Seq<u8>, k: int)
    ensures
        spec_window_ops(content, k).len() == if k >= 0 { k } else { 0 },
    decreases k,
{
    if k > 0 {
        lemma_window_ops_len(content, k - 1);
    }
}

/// The second consumer of the decoder: renders operations as mnemonic
/// text, one line each, with no machine state and no side effects beyond
/// the growing text.
pub struct Disassembler {
    code: String,
    ops: Ghost<Seq<Op>>,
}

impl View for Disassembler {
    type V = Seq<char>;

    closed spec fn view(&self) -> Seq<char> {
        self.code@
    }
}

impl Disassembler {
    /// A disassembler with empty output.
    pub fn new() -> (r: Disassembler)
        ensures
            r@ == Seq::<char>::empty(),
            r.sunk() == Seq::<Op>::empty(),
    {
        Disassembler { code: String::new(), ops: Ghost(Seq::empty()) }
    }

    /// The text produced so far.
    pub fn code(&self) -> (r: &String)
        ensures
            r@ == self@,
    {
        &self.code
    }

    /// Decode one instruction word and append its mnemonic line.
    pub fn step(&mut self, op: u16)
        ensures
            final(self)@ == old(self)@ + spec_line(spec_decode(op)),
            final(self).sunk() == old(self).sunk().push(spec_decode(op)),
    {
        match decode_op(op) {
            Op::Cls => self.cls(),
            Op::Ret => self.ret(),
            Op::SysAddr(addr) => self.sys_addr(addr),
            Op::JpAddr(addr) => self.jp_addr(addr),
            Op::CallAddr(addr) => self.call_addr(addr),
            Op::SeVxByte(x, byte) => self.se_vx_byte(x, byte),
            Op::SneVxByte(x, byte) => self.sne_vx_byte(x, byte),
            Op::SeVxVy(x, y) => self.se_vx_vy(x, y),
            Op::LdVxByte(x, byte) => self.ld_vx_byte(x, byte),
            Op::AddVxByte(x, byte) => self.add_vx_byte(x, byte),
            Op::LdVxVy(x, y) => self.ld_vx_vy(x, y),
            Op::OrVxVy(x, y) => self.or_vx_vy(x, y),
            Op::AndVxVy(x, y) => self.and_vx_vy(x, y),
            Op::XorVxVy(x, y) => self.xor_vx_vy(x, y),
            Op::AddVxVy(x, y) => self.add_vx_vy(x, y),
            Op::SubVxVy(x, y) => self.sub_vx_vy(x, y),
            Op::ShrVxVy(x, y) => self.shr_vx_vy(x, y),
            Op::SubnVxVy(x, y) => self.subn_vx_vy(x, y),
            Op::ShlVxVy(x, y) => self.shl_vx_vy(x, y),
            Op::SneVxVy(x, y) => self.sne_vx_vy(x, y),
            Op::LdIAddr(addr) => self.ld_i_addr(addr),
            Op::JpV0Addr(addr) => self.jp_v0_addr(addr),
            Op::RndVxByte(x, byte) => self.rnd_vx_byte(x, byte),
            Op::DrwVxVyNibble(x, y, nibble) => self.drw_vx_vy_nibble(x, y, nibble),
            Op::SkpVx(x) => self.skp_vx(x),
            Op::SknpVx(x) => self.sknp_vx(x),
            Op::LdVxDt(x) => self.ld_vx_dt(x),
            Op::LdVxK(x) => self.ld_vx_k(x),
            Op::LdDtVx(x) => self.ld_dt_vx(x),
            Op::LdStVx(x) => self.ld_st_vx(x),
            Op::AddIVx(x) => self.add_i_vx(x),
            Op::LdFVx(x) => self.ld_f_vx(x),
            Op::LdBVx(x) => self.ld_b_vx(x),
            Op::LdIVx(x) => self.ld_i_vx(x),
            Op::LdVxI(x) => self.ld_vx_i(x),
            Op::Unknown(w) => self.unknown(w),
        }
    }

    /// Render every overlapping two-byte window of the program, sliding by
    /// one byte, so embedded data regions still show every alignment.
    pub fn disassemble(&mut self, p: &Program)
        ensures
            final(self)@ == old(self)@ + spec_disassembly(p@, p@.len() - 1),
            final(self).sunk() == old(self).sunk() + spec_window_ops(p@, p@.len() - 1),
    {
        let n = p.content.len();
        if n == 0 {
            proof {
                assert(self@ =~= old(self)@ + spec_disassembly(p@, p@.len() - 1));
                assert(self.sunk() =~= old(self).sunk() + spec_window_ops(p@, p@.len() - 1));
            }
            return ;
        }
        for i in 0..(n - 1)
            invariant
                n == p@.len(),
                n >= 1,
                self@ == old(self)@ + spec_disassembly(p@, i as int),
                self.sunk() == old(self).sunk() + spec_window_ops(p@, i as int),
        {
            let hi = p.content[i];
            let lo = p.content[i + 1];
            let op = ((hi as u16) << 8u16) | (lo as u16);
            self.step(op);
        }
        proof {
            assert(self@ =~= old(self)@ + spec_disassembly(p@, p@.len() - 1));
            assert(self.sunk() =~= old(self).sunk() + spec_window_ops(p@, p@.len() - 1));
        }
    }

    /// Append one uppercase hexadecimal digit.
    fn push_hex_digit(&mut self, d: u8)
        requires
            d < 16,
        ensures
            final(self)@ == old(self)@ + hex_digit(d as int),
            final(self).sunk() == old(self).sunk(),
    {
        let t: &str = match d {
            0 => "0",
            1 => "1",
            2 => "2",
            3 => "3",
            4 => "4",
            5 => "5",
            6 => "6",
            7 => "7",
            8 => "8",
            9 => "9",
            10 => "A",
            11 => "B",
            12 => "C",
            13 => "D",
            14 => "E",
            _ => "F",
        };
        self.code.append(t);
    }

    /// Append a number in uppercase hexadecimal without leading zeros.
    fn push_hex(&mut self, n: u16)
        ensures
            final(self)@ == old(self)@ + spec_hex(n as int),
            final(self).sunk() == old(self).sunk(),
        decreases n,
    {
        if n < 16 {
            self.push_hex_digit(n as u8);
        } else {
            self.push_hex(n / 16);
            self.push_hex_digit((n % 16) as u8);
        }
    }
}

impl Chip8 for Disassembler {
    closed spec fn sunk(&self) -> Seq<Op> {
        self.ops@
    }

    fn cls(&mut self)
        ensures
            final(self)@ == old(self)@ + spec_line(Op::Cls),
    {
        self.code.append("CLS\n");
        self.ops = Ghost(self.ops@.push(Op::Cls));
        proof {
            assert(self@ =~= old(self)@ + spec_line(Op::Cls));
        }
    }

    fn ret(&mut self)
        ensures
            final(self)@ == old(self)@ + spec_line(Op::Ret),
    {
        self.code.append("RET\n");
        self.ops = Ghost(self.ops@.push(Op::Ret));
        proof {
            assert(self@ =~= old(self)@ + spec_line(Op::Ret));
        }
    }

    fn sys_addr(&mut self, addr: u16)
        ensures
            final(self)@ == old(self)@ + spec_line(Op::SysAddr(addr)),
    {
        self.code.append("SYS ");
        self.push_hex(addr);
        self.code.append("\n");
        self.ops = Ghost(self.ops@.push(Op::SysAddr(addr)));
        proof {
            assert(self@ =~= old(self)@ + spec_line(Op::SysAddr(addr)));
        }
    }

    fn jp_addr(&mut self, addr: u16)
        ensures
            final(self)@ == old(self)@ + spec_line(Op::JpAddr(addr)),
    {
        self.code.append("JP ");
        self.push_hex(addr);
        self.code.append("\n");
        self.ops = Ghost(self.ops@.push(Op::JpAddr(addr)));
        proof {
            assert(self@ =~= old(self)@ + spec_line(Op::JpAddr(addr)));
        }
    }

    fn call_addr(&mut self, addr: u16)
        ensures
            final(self)@ == old(self)@ + spec_line(Op::CallAddr(addr)),
    {
        self.code.append("CALL ");
        self.push_hex(addr);
        self.code.append("\n");
        self.ops = Ghost(self.ops@.push(Op::CallAddr(addr)));
        proof {
            assert(self@ =~= old(self)@ + spec_line(Op::CallAddr(addr)));
        }
    }

    fn se_vx_byte(&mut self, x: u8, byte: u8)
        ensures
            final(self)@ == old(self)@ + spec_line(Op::SeVxByte(x, byte)),
    {
        self.code.append("SE V");
        self.push_hex_digit(x % 16);
        self.code.append(", ");
        self.push_hex(byte as u16);
        self.code.append("\n");
        self.ops = Ghost(self.ops@.push(Op::SeVxByte(x, byte)));
        proof {
            assert(self@ =~= old(self)@ + spec_line(Op::SeVxByte(x, byte)));
        }
    }

    fn sne_vx_byte(&mut self, x: u8, byte: u8)
        ensures
            final(self)@ == old(self)@ + spec_line(Op::SneVxByte(x, byte)),
    {
        self.code.append("SNE V");
        self.push_hex_digit(x % 16);
        self.code.append(", ");
        self.push_hex(byte as u16);
        self.code.append("\n");
        self.ops = Ghost(self.ops@.push(Op::SneVxByte(x, byte)));
        proof {
            assert(self@ =~= old(self)@ + spec_line(Op::SneVxByte(x, byte)));
        }
    }

    fn se_vx_vy(&mut self, x: u8, y: u8)
        ensures
            final(self)@ == old(self)@ + spec_line(Op::SeVxVy(x, y)),
    {
        self.code.append("SE V");
        self.push_hex_digit(x % 16);
        self.code.append(", V");
        self.push_hex_digit(y % 16);
        self.code.append("\n");
        self.ops = Ghost(self.ops@.push(Op::SeVxVy(x, y)));
        proof {
            assert(self@ =~= old(self)@ + spec_line(Op::SeVxVy(x, y)));
        }
    }

    fn ld_vx_byte(&mut self, x: u8, byte: u8)
        ensures
            final(self)@ == old(self)@ + spec_line(Op::LdVxByte(x, byte)),
    {
        self.code.append("LD V");
        self.push_hex_digit(x % 16);
        self.code.append(", ");
        self.push_hex(byte as u16);
        self.code.append("\n");
        self.ops = Ghost(self.ops@.push(Op::LdVxByte(x, byte)));
        proof {
            assert(self@ =~= old(self)@ + spec_line(Op::LdVxByte(x, byte)));
        }
    }

    fn add_vx_byte(&mut self, x: u8, byte: u8)
        ensures
            final(self)@ == old(self)@ + spec_line(Op::AddVxByte(x, byte)),
    {
        self.code.append("ADD V");
        self.push_hex_digit(x % 16);
        self.code.append(", ");
        self.push_hex(byte as u16);
        self.code.append("\n");
        self.ops = Ghost(self.ops@.push(Op::AddVxByte(x, byte)));
        proof {
            assert(self@ =~= old(self)@ + spec_line(Op::AddVxByte(x, byte)));
        }
    }

    fn ld_vx_vy(&mut self, x: u8, y: u8)
        ensures
            final(self)@ == old(self)@ + spec_line(Op::LdVxVy(x, y)),
    {
        self.code.append("LD V");
        self.push_hex_digit(x % 16);
        self.code.append(", V");
        self.push_hex_digit(y % 16);
        self.code.append("\n");
        self.ops = Ghost(self.ops@.push(Op::LdVxVy(x, y)));
        proof {
            assert(self@ =~= old(self)@ + spec_line(Op::LdVxVy(x, y)));
        }
    }

    fn or_vx_vy(&mut self, x: u8, y: u8)
        ensures
            final(self)@ == old(self)@ + spec_line(Op::OrVxVy(x, y)),
    {
        self.code.append("OR V");
        self.push_hex_digit(x % 16);
        self.code.append(", V");
        self.push_hex_digit(y % 16);
        self.code.append("\n");
        self.ops = Ghost(self.ops@.push(Op::OrVxVy(x, y)));
        proof {
            assert(self@ =~= old(self)@ + spec_line(Op::OrVxVy(x, y)));
        }
    }

    fn and_vx_vy(&mut self, x: u8, y: u8)
        ensures
            final(self)@ == old(self)@ + spec_line(Op::AndVxVy(x, y)),
    {
        self.code.append("AND V");
        self.push_hex_digit(x % 16);
        self.code.append(", V");
        self.push_hex_digit(y % 16);
        self.code.append("\n");
        self.ops = Ghost(self.ops@.push(Op::AndVxVy(x, y)));
        proof {
            assert(self@ =~= old(self)@ + spec_line(Op::AndVxVy(x, y)));
        }
    }

    fn xor_vx_vy(&mut self, x: u8, y: u8)
        ensures
            final(self)@ == old(self)@ + spec_line(Op::XorVxVy(x, y)),
    {
        self.code.append("XOR V");
        self.push_hex_digit(x % 16);
        self.code.append(", V");
        self.push_hex_digit(y % 16);
        self.code.append("\n");
        self.ops = Ghost(self.ops@.push(Op::XorVxVy(x, y)));
        proof {
            assert(self@ =~= old(self)@ + spec_line(Op::XorVxVy(x, y)));
        }
    }

    fn add_vx_vy(&mut self, x: u8, y: u8)
        ensures
            final(self)@ == old(self)@ + spec_line(Op::AddVxVy(x, y)),
    {
        self.code.append("ADD V");
        self.push_hex_digit(x % 16);
        self.code.append(", V");
        self.push_hex_digit(y % 16);
        self.code.append("\n");
        self.ops = Ghost(self.ops@.push(Op::AddVxVy(x, y)));
        proof {
            assert(self@ =~= old(self)@ + spec_line(Op::AddVxVy(x, y)));
        }
    }

    fn sub_vx_vy(&mut self, x: u8, y: u8)
        ensures
            final(self)@ == old(self)@ + spec_line(Op::SubVxVy(x, y)),
    {
        self.code.append("SUB V");
        self.push_hex_digit(x % 16);
        self.code.append(", V");
        self.push_hex_digit(y % 16);
        self.code.append("\n");
        self.ops = Ghost(self.ops@.push(Op::SubVxVy(x, y)));
        proof {
            assert(self@ =~= old(self)@ + spec_line(Op::SubVxVy(x, y)));
        }
    }

    fn shr_vx_vy(&mut self, x: u8, y: u8)
        ensures
            final(self)@ == old(self)@ + spec_line(Op::ShrVxVy(x, y)),
    {
        self.code.append("SHR V");
        self.push_hex_digit(x % 16);
        self.code.append(", V");
        self.push_hex_digit(y % 16);
        self.code.append("\n");
        self.ops = Ghost(self.ops@.push(Op::ShrVxVy(x, y)));
        proof {
            assert(self@ =~= old(self)@ + spec_line(Op::ShrVxVy(x, y)));
        }
    }

    fn subn_vx_vy(&mut self, x: u8, y: u8)
        ensures
            final(self)@ == old(self)@ + spec_line(Op::SubnVxVy(x, y)),
    {
        self.code.append("SUBN V");
        self.push_hex_digit(x % 16);
        self.code.append(", V");
        self.push_hex_digit(y % 16);
        self.code.append("\n");
        self.ops = Ghost(self.ops@.push(Op::SubnVxVy(x, y)));
        proof {
            assert(self@ =~= old(self)@ + spec_line(Op::SubnVxVy(x, y)));
        }
    }

    fn shl_vx_vy(&mut self, x: u8, y: u8)
        ensures
            final(self)@ == old(self)@ + spec_line(Op::ShlVxVy(x, y)),
    {
        self.code.append("SHL V");
        self.push_hex_digit(x % 16);
        self.code.append(", V");
        self.push_hex_digit(y % 16);
        self.code.append("\n");
        self.ops = Ghost(self.ops@.push(Op::ShlVxVy(x, y)));
        proof {
            assert(self@ =~= old(self)@ + spec_line(Op::ShlVxVy(x, y)));
        }
    }

    fn sne_vx_vy(&mut self, x: u8, y: u8)
        ensures
            final(self)@ == old(self)@ + spec_line(Op::SneVxVy(x, y)),
    {
        self.code.append("SNE V");
        self.push_hex_digit(x % 16);
        self.code.append(", V");
        self.push_hex_digit(y % 16);
        self.code.append("\n");
        self.ops = Ghost(self.ops@.push(Op::SneVxVy(x, y)));
        proof {
            assert(self@ =~= old(self)@ + spec_line(Op::SneVxVy(x, y)));
        }
    }

    fn ld_i_addr(&mut self, addr: u16)
        ensures
            final(self)@ == old(self)@ + spec_line(Op::LdIAddr(addr)),
    {
        self.code.append("LD I, ");
        self.push_hex(addr);
        self.code.append("\n");
        self.ops = Ghost(self.ops@.push(Op::LdIAddr(addr)));
        proof {
            assert(self@ =~= old(self)@ + spec_line(Op::LdIAddr(addr)));
        }
    }

    fn jp_v0_addr(&mut self, addr: u16)
        ensures
            final(self)@ == old(self)@ + spec_line(Op::JpV0Addr(addr)),
    {
        self.code.append("LD v0, ");
        self.push_hex(addr);
        self.code.append("\n");
        self.ops = Ghost(self.ops@.push(Op::JpV0Addr(addr)));
    }

    fn rnd_vx_byte(&mut self, x: u8, byte: u8)
        ensures
            final(self)@ == old(self)@ + spec_line(Op::RndVxByte(x, byte)),
    {
        self.code.append("RND V");
        self.push_hex_digit(x % 16);
        self.code.append(", ");
        self.push_hex(byte as u16);
        self.code.append("\n");
        self.ops = Ghost(self.ops@.push(Op::RndVxByte(x, byte)));
        proof {
            assert(self@ =~= old(self)@ + spec_line(Op::RndVxByte(x, byte)));
        }
    }

    fn drw_vx_vy_nibble(&mut self, x: u8, y: u8, nibble: u16)
        ensures
            final(self)@ == old(self)@ + spec_line(Op::DrwVxVyNibble(x, y, nibble)),
    {
        self.code.append("DRW V");
        self.push_hex_digit(x % 16);
        self.code.append(", V");
        self.push_hex_digit(y % 16);
        self.code.append(", ");
        self.push_hex_digit((nibble % 16) as u8);
        self.code.append("\n");
        self.ops = Ghost(self.ops@.push(Op::DrwVxVyNibble(x, y, nibble)));
        proof {
            assert(self@ =~= old(self)@ + spec_line(Op::DrwVxVyNibble(x, y, nibble)));
        }
    }

    fn skp_vx(&mut self, x: u8)
        ensures
            final(self)@ == old(self)@ + spec_line(Op::SkpVx(x)),
    {
        self.code.append("SKP V");
        self.push_hex_digit(x % 16);
        self.code.append("\n");
        self.ops = Ghost(self.ops@.push(Op::SkpVx(x)));
        proof {
            assert(self@ =~= old(self)@ + spec_line(Op::SkpVx(x)));
        }
    }

    fn sknp_vx(&mut self, x: u8)
        ensures
            final(self)@ == old(self)@ + spec_line(Op::SknpVx(x)),
    {
        self.code.append("SKNP V");
        self.push_hex_digit(x % 16);
        self.code.append("\n");
        self.ops = Ghost(self.ops@.push(Op::SknpVx(x)));
        proof {
            assert(self@ =~= old(self)@ + spec_line(Op::SknpVx(x)));
        }
    }

    fn ld_vx_dt(&mut self, x: u8)
        ensures
            final(self)@ == old(self)@ + spec_line(Op::LdVxDt(x)),
    {
        self.code.append("LD V");
        self.push_hex_digit(x % 16);
        self.code.append(", DT\n");
        self.ops = Ghost(self.ops@.push(Op::LdVxDt(x)));
        proof {
            assert(self@ =~= old(self)@ + spec_line(Op::LdVxDt(x)));
        }
    }

    fn ld_vx_k(&mut self, x: u8)
        ensures
            final(self)@ == old(self)@ + spec_line(Op::LdVxK(x)),
    {
        self.code.append("LD V");
        self.push_hex_digit(x % 16);
        self.code.append(", K\n");
        self.ops = Ghost(self.ops@.push(Op::LdVxK(x)));
        proof {
            assert(self@ =~= old(self)@ + spec_line(Op::LdVxK(x)));
        }
    }

    fn ld_dt_vx(&mut self, x: u8)
        ensures
            final(self)@ == old(self)@ + spec_line(Op::LdDtVx(x)),
    {
        self.code.append("LD DT, V");
        self.push_hex_digit(x % 16);
        self.code.append("\n");
        self.ops = Ghost(self.ops@.push(Op::LdDtVx(x)));
        proof {
            assert(self@ =~= old(self)@ + spec_line(Op::LdDtVx(x)));
        }
    }

    fn ld_st_vx(&mut self, x: u8)
        ensures
            final(self)@ == old(self)@ + spec_line(Op::LdStVx(x)),
    {
        self.code.append("ST V");
        self.push_hex_digit(x % 16);
        self.code.append("\n");
        self.ops = Ghost(self.ops@.push(Op::LdStVx(x)));
        proof {
            assert(self@ =~= old(self)@ + spec_line(Op::LdStVx(x)));
        }
    }

    fn add_i_vx(&mut self, x: u8)
        ensures
            final(self)@ == old(self)@ + spec_line(Op::AddIVx(x)),
    {
        self.code.append("ADD I, V");
        self.push_hex_digit(x % 16);
        self.code.append("\n");
        self.ops = Ghost(self.ops@.push(Op::AddIVx(x)));
        proof {
            assert(self@ =~= old(self)@ + spec_line(Op::AddIVx(x)));
        }
    }

    fn ld_f_vx(&mut self, x: u8)
        ensures
            final(self)@ == old(self)@ + spec_line(Op::LdFVx(x)),
    {
        self.code.append("LD F, V");
        self.push_hex_digit(x % 16);
        self.code.append("\n");
        self.ops = Ghost(self.ops@.push(Op::LdFVx(x)));
        proof {
            assert(self@ =~= old(self)@ + spec_line(Op::LdFVx(x)));
        }
    }

    fn ld_b_vx(&mut self, x: u8)
        ensures
            final(self)@ == old(self)@ + spec_line(Op::LdBVx(x)),
    {
        self.code.append("LD B, V");
        self.push_hex_digit(x % 16);
        self.code.append("\n");
        self.ops = Ghost(self.ops@.push(Op::LdBVx(x)));
        proof {
            assert(self@ =~= old(self)@ + spec_line(Op::LdBVx(x)));
        }
    }

    fn ld_i_vx(&mut self, x: u8)
        ensures
            final(self)@ == old(self)@ + spec_line(Op::LdIVx(x)),
    {
        self.code.append("LD I, V");
        self.push_hex_digit(x % 16);
        self.code.append("\n");
        self.ops = Ghost(self.ops@.push(Op::LdIVx(x)));
        proof {
            assert(self@ =~= old(self)@ + spec_line(Op::LdIVx(x)));
        }
    }

    fn ld_vx_i(&mut self, x: u8)
        ensures
            final(self)@ == old(self)@ + spec_line(Op::LdVxI(x)),
    {
        self.code.append("LD V");
        self.push_hex_digit(x % 16);
        self.code.append(", I\n");
        self.ops = Ghost(self.ops@.push(Op::LdVxI(x)));
        proof {
            assert(self@ =~= old(self)@ + spec_line(Op::LdVxI(x)));
        }
    }

    fn unknown(&mut self, op: u16)
        ensures
            final(self)@ == old(self)@ + spec_line(Op::Unknown(op)),
    {
        self.code.append("unknown instruction : ");
        self.push_hex(op);
        self.code.append("\n");
        self.ops = Ghost(self.ops@.push(Op::Unknown(op)));
        proof {
            assert(self@ =~= old(self)@ + spec_line(Op::Unknown(op)));
        }
    }
}

} // verus!
