use vstd::prelude::*;
use crate::cpu::Chip8Error;
use crate::cpu::Cpu;
use crate::cpu::State;
use crate::decoder::decode_op;
use crate::decoder::spec_decode;
use crate::instructions::Op;
use crate::program::Program;
use crate::screen::blank_screen;

verus! {

/// The program counter advanced by `d`, reduced modulo the memory size.
pub open spec fn pc_add(pc: u16, d: u16) -> u16 {
    (((pc as int) + (d as int)) % 4096) as u16
}

/// The program counter rewound by two, reduced modulo the memory size.
pub open spec fn pc_back2(pc: u16) -> u16 {
    (((pc as int) + 4094) % 4096) as u16
}

/// An eight-bit sum, truncated to eight bits.
pub open spec fn add_wrap(a: u8, b: u8) -> u8 {
    (((a as int) + (b as int)) % 256) as u8
}

/// An eight-bit difference, truncated to eight bits.
pub open spec fn sub_wrap(a: u8, b: u8) -> u8 {
    (((a as int) - (b as int)) % 256) as u8
}

/// The state with one register replaced.
pub open spec fn upd_reg(s: State, r: int, v: u8) -> State {
    State { registers: s.registers.update(r, v), ..s }
}

/// The state with the program counter advanced by two more when `cond`
/// holds: the skip convention.
pub open spec fn spec_skip_if(s: State, cond: bool) -> State {
    if cond {
        State { program_counter: pc_add(s.program_counter, 2), ..s }
    } else {
        s
    }
}

/// Clear the display.
pub open spec fn spec_cls(s: State) -> State {
    State { display: blank_screen(), ..s }
}

/// Return: load the program counter from the current stack slot, then
/// decrement the stack pointer. An empty stack underflows.
pub open spec fn spec_ret(s: State) -> Result<State, Chip8Error> {
    if s.stack_pointer == 0 {
        Err(Chip8Error::StackUnderflow)
    } else {
        Ok(State {
            program_counter: s.stack[s.stack_pointer],
            stack_pointer: s.stack_pointer - 1,
            ..s
        })
    }
}

/// Call: increment the stack pointer, store the current (already advanced)
/// program counter there, then jump. A full stack overflows.
pub open spec fn spec_call(s: State, addr: u16) -> Result<State, Chip8Error> {
    if s.stack_pointer >= 15 {
        Err(Chip8Error::StackOverflow)
    } else {
        Ok(State {
            stack_pointer: s.stack_pointer + 1,
            stack: s.stack.update(s.stack_pointer + 1, s.program_counter),
            program_counter: addr,
            ..s
        })
    }
}

/// Add register to register: the flag register takes the carry out of the
/// eight-bit sum, then the destination takes the truncated sum (so the
/// truncated sum wins when the destination is the flag register itself).
pub open spec fn spec_add_vx_vy(s: State, x: u8, y: u8) -> State {
    let vx = s.registers[x as int];
    let vy = s.registers[y as int];
    let carry: u8 = if vx as int + vy as int > 255 { 1 } else { 0 };
    State { registers: s.registers.update(15, carry).update(x as int, add_wrap(vx, vy)), ..s }
}

/// Subtract `y` from `x`: the flag register signals no-borrow (1) against
/// borrow (0) by unsigned comparison of the operands, then the destination
/// takes the truncated difference.
pub open spec fn spec_sub_vx_vy(s: State, x: u8, y: u8) -> State {
    let vx = s.registers[x as int];
    let vy = s.registers[y as int];
    let no_borrow: u8 = if vx >= vy { 1 } else { 0 };
    State { registers: s.registers.update(15, no_borrow).update(x as int, sub_wrap(vx, vy)), ..s }
}

/// Subtract `x` from `y` into `x`, with the same no-borrow convention.
pub open spec fn spec_subn_vx_vy(s: State, x: u8, y: u8) -> State {
    let vx = s.registers[x as int];
    let vy = s.registers[y as int];
    let no_borrow: u8 = if vy >= vx { 1 } else { 0 };
    State { registers: s.registers.update(15, no_borrow).update(x as int, sub_wrap(vy, vx)), ..s }
}

/// Shift right: copy the source register into the destination, extract the
/// bit shifted out into the flag register, then shift. The three writes
/// land in this order, which matters when the destination is the flag.
pub open spec fn spec_shr_vx_vy(s: State, x: u8, y: u8) -> State {
    let r1 = s.registers.update(x as int, s.registers[y as int]);
    let r2 = r1.update(15, r1[x as int] & 0x01);
    let r3 = r2.update(x as int, r2[x as int] >> 1u8);
    State { registers: r3, ..s }
}

/// Shift left: as the right shift, with the top bit extracted raw into the
/// flag register.
pub open spec fn spec_shl_vx_vy(s: State, x: u8, y: u8) -> State {
    let r1 = s.registers.update(x as int, s.registers[y as int]);
    let r2 = r1.update(15, r1[x as int] & 0x80);
    let r3 = r2.update(x as int, r2[x as int] << 1u8);
    State { registers: r3, ..s }
}

/// The highest key index below `n` that is latched as pressed, or -1 when
/// none is.
pub open spec fn highest_pressed(keys: Seq<bool>, n: int) -> int
    decreases n,
{
    if n <= 0 {
        -1
    } else if keys[n - 1] {
        n - 1
    } else {
        highest_pressed(keys, n - 1)
    }
}

/// Wait for a key: when some key is pressed, the destination register takes
/// the highest pressed index; when none is, the program counter is rewound
/// by two so the same instruction is fetched again next step.
pub open spec fn spec_ld_vx_k(s: State, x: u8) -> State {
    let h = highest_pressed(s.keys, 16);
    if h >= 0 {
        upd_reg(s, x as int, h as u8)
    } else {
        State { program_counter: pc_back2(s.program_counter), ..s }
    }
}

/// Whether bit `c` (0 is the most significant) of a sprite row byte is set.
pub open spec fn spec_bit(b: u8, c: int) -> bool {
    if c == 0 {
        b & 128 != 0
    } else if c == 1 {
        b & 64 != 0
    } else if c == 2 {
        b & 32 != 0
    } else if c == 3 {
        b & 16 != 0
    } else if c == 4 {
        b & 8 != 0
    } else if c == 5 {
        b & 4 != 0
    } else if c == 6 {
        b & 2 != 0
    } else {
        b & 1 != 0
    }
}

/// Sprite row `j`, read from memory at the index register plus `j`,
/// reduced modulo the memory size.
pub open spec fn sprite_byte(s: State, j: int) -> u8 {
    s.memory[((s.index as int) + j) % 4096]
}

/// Whether grid cell `p` lies in the drawn part of the sprite: within the
/// first `jr` full sprite rows, or in sprite row `jr` left of relative
/// column `jc`. Drawing clips at the bottom and right edges, which the grid
/// bound on `p` enforces by itself.
pub open spec fn sprite_covers(p: int, col0: int, row0: int, jr: int, jc: int) -> bool {
    let r = p / 64;
    let c = p % 64;
    &&& 0 <= p < 2048
    &&& col0 <= c < col0 + 8
    &&& (row0 <= r < row0 + jr || (r == row0 + jr && col0 <= c < col0 + jc))
}

/// The display after the sprite part given by `jr`/`jc` is drawn over
/// `disp`: each covered cell whose sprite bit is set is toggled.
pub open spec fn drawn(
    s: State,
    disp: Seq<bool>,
    col0: int,
    row0: int,
    jr: int,
    jc: int,
) -> Seq<bool> {
    Seq::new(2048, |p: int|
        if sprite_covers(p, col0, row0, jr, jc) && spec_bit(sprite_byte(s, p / 64 - row0), p % 64 - col0) {
            !disp[p]
        } else {
            disp[p]
        })
}

/// Whether the sprite part given by `jr`/`jc` turns any lit cell off: a set
/// sprite bit lands on a lit cell.
pub open spec fn collides(
    s: State,
    disp: Seq<bool>,
    col0: int,
    row0: int,
    jr: int,
    jc: int,
) -> bool {
    exists|p: int|
        sprite_covers(p, col0, row0, jr, jc) && spec_bit(
            sprite_byte(s, p / 64 - row0),
            p % 64 - col0,
        ) && disp[p]
}

/// The starting column of a sprite draw: the register value modulo the
/// display width.
pub open spec fn drw_col0(s: State, x: u8) -> int {
    (s.registers[x as int] as int) % 64
}

/// The starting row of a sprite draw: the register value modulo the
/// display height.
pub open spec fn drw_row0(s: State, y: u8) -> int {
    (s.registers[y as int] as int) % 32
}

/// Draw a sprite of `n` rows: XOR it onto the display, clipped at the
/// edges, and set the flag register to 1 exactly when some lit pixel was
/// turned off.
pub open spec fn spec_drw(s: State, x: u8, y: u8, n: u16) -> State {
    let col0 = drw_col0(s, x);
    let row0 = drw_row0(s, y);
    let hit = collides(s, s.display, col0, row0, n as int, 0);
    State {
        display: drawn(s, s.display, col0, row0, n as int, 0),
        registers: s.registers.update(15, if hit { 1u8 } else { 0u8 }),
        ..s
    }
}

/// Store the decimal digits of a register: hundreds, tens and units into
/// the three memory cells starting at the index register.
pub open spec fn spec_ld_b_vx(s: State, x: u8) -> State {
    let v = s.registers[x as int];
    let i0 = s.index as int;
    State {
        memory: s.memory.update(i0, v / 100).update((i0 + 1) % 4096, (v / 10) % 10).update(
            (i0 + 2) % 4096,
            v % 10,
        ),
        ..s
    }
}

/// The memory after registers 0 up to `count - 1` are stored at the index
/// register, one cell each, addresses reduced modulo the memory size.
pub open spec fn block_store(mem: Seq<u8>, regs: Seq<u8>, idx: int, count: int) -> Seq<u8>
    decreases count,
{
    if count <= 0 {
        mem
    } else {
        block_store(mem, regs, idx, count - 1).update((idx + (count - 1)) % 4096, regs[count - 1])
    }
}

/// The register file after registers 0 up to `count - 1` are loaded from
/// memory at the index register.
pub open spec fn block_load(regs: Seq<u8>, mem: Seq<u8>, idx: int, count: int) -> Seq<u8>
    decreases count,
{
    if count <= 0 {
        regs
    } else {
        block_load(regs, mem, idx, count - 1).update(count - 1, mem[(idx + (count - 1)) % 4096])
    }
}

/// What one decoded operation does to the machine state. The random-AND
/// operation is the one place randomness enters: it consumes the drawn
/// byte `rb`; every other operation ignores it.
pub open spec fn spec_exec(s: State, i: Op, rb: u8) -> Result<State, Chip8Error> {
    match i {
        Op::Cls => Ok(spec_cls(s)),
        Op::Ret => spec_ret(s),
        Op::SysAddr(a) => Err(Chip8Error::UnimplementedSys(a)),
        Op::JpAddr(a) => Ok(State { program_counter: a, ..s }),
        Op::CallAddr(a) => spec_call(s, a),
        Op::SeVxByte(x, b) => Ok(spec_skip_if(s, s.registers[x as int] == b)),
        Op::SneVxByte(x, b) => Ok(spec_skip_if(s, s.registers[x as int] != b)),
        Op::SeVxVy(x, y) => Ok(spec_skip_if(s, s.registers[x as int] == s.registers[y as int])),
        Op::LdVxByte(x, b) => Ok(upd_reg(s, x as int, b)),
        Op::AddVxByte(x, b) => Ok(upd_reg(s, x as int, add_wrap(s.registers[x as int], b))),
        Op::LdVxVy(x, y) => Ok(upd_reg(s, x as int, s.registers[y as int])),
        Op::OrVxVy(x, y) => Ok(
            upd_reg(s, x as int, s.registers[x as int] | s.registers[y as int]),
        ),
        Op::AndVxVy(x, y) => Ok(
            upd_reg(s, x as int, s.registers[x as int] & s.registers[y as int]),
        ),
        Op::XorVxVy(x, y) => Ok(
            upd_reg(s, x as int, s.registers[x as int] ^ s.registers[y as int]),
        ),
        Op::AddVxVy(x, y) => Ok(spec_add_vx_vy(s, x, y)),
        Op::SubVxVy(x, y) => Ok(spec_sub_vx_vy(s, x, y)),
        Op::ShrVxVy(x, y) => Ok(spec_shr_vx_vy(s, x, y)),
        Op::SubnVxVy(x, y) => Ok(spec_subn_vx_vy(s, x, y)),
        Op::ShlVxVy(x, y) => Ok(spec_shl_vx_vy(s, x, y)),
        Op::SneVxVy(x, y) => Ok(spec_skip_if(s, s.registers[y as int] != s.registers[x as int])),
        Op::LdIAddr(a) => Ok(State { index: a, ..s }),
        Op::JpV0Addr(a) => Ok(
            State { program_counter: (((a as int) + (s.registers[0] as int)) % 4096) as u16, ..s },
        ),
        Op::RndVxByte(x, b) => Ok(upd_reg(s, x as int, b & rb)),
        Op::DrwVxVyNibble(x, y, n) => Ok(spec_drw(s, x, y, n)),
        Op::SkpVx(x) => Ok(spec_skip_if(s, s.keys[(s.registers[x as int] as int) % 16])),
        Op::SknpVx(x) => Ok(spec_skip_if(s, !s.keys[(s.registers[x as int] as int) % 16])),
        Op::LdVxDt(x) => Ok(upd_reg(s, x as int, s.delay_timer)),
        Op::LdVxK(x) => Ok(spec_ld_vx_k(s, x)),
        Op::LdDtVx(x) => Ok(State { delay_timer: s.registers[x as int], ..s }),
        Op::LdStVx(x) => Ok(State { sound_timer: s.registers[x as int], ..s }),
        Op::AddIVx(x) => Ok(
            State {
                index: (((s.index as int) + (s.registers[x as int] as int)) % 4096) as u16,
                ..s
            },
        ),
        Op::LdFVx(x) => Ok(State { index: (x * 5) as u16, ..s }),
        Op::LdBVx(x) => Ok(spec_ld_b_vx(s, x)),
        Op::LdIVx(x) => Ok(
            State { memory: block_store(s.memory, s.registers, s.index as int, x as int + 1), ..s },
        ),
        Op::LdVxI(x) => Ok(
            State {
                registers: block_load(s.registers, s.memory, s.index as int, x as int + 1),
                ..s
            },
        ),
        Op::Unknown(w) => Err(Chip8Error::UnknownOpcode(w)),
    }
}

/// The big-endian instruction word formed from two memory bytes.
pub open spec fn word_of(hi: u8, lo: u8) -> u16 {
    ((hi as u16) << 8u16) | (lo as u16)
}

/// The instruction word at the program counter.
pub open spec fn spec_word(s: State) -> u16 {
    word_of(
        s.memory[s.program_counter as int],
        s.memory[((s.program_counter as int) + 1) % 4096],
    )
}

/// One whole machine step: fetch the word at the program counter, advance
/// the counter by two, decode, and execute against the advanced state.
pub open spec fn spec_step(s: State, rb: u8) -> Result<State, Chip8Error> {
    let s1 = State { program_counter: pc_add(s.program_counter, 2), ..s };
    spec_exec(s1, spec_decode(spec_word(s)), rb)
}

/// The execution engine: owns one machine state and runs the
/// fetch-decode-execute cycle against it, one instruction per step.
pub struct Interpreter {
    pub cpu: Cpu,
}

impl View for Interpreter {
    type V = State;

    open spec fn view(&self) -> State {
        self.cpu@
    }
}

/// Clearing the display is idempotent: clearing twice in a row yields the
/// same all-off state as clearing once.
pub proof fn lemma_cls_idempotent(s: State)
    ensures
        spec_cls(spec_cls(s)) == spec_cls(s),
{
}

/// The skip convention: with a skip-if-equal word at the program counter,
/// a step moves the counter by exactly four in total when the register
/// equals the immediate (two for the fetch, two for the skip), and by
/// exactly two otherwise, changing nothing else.
pub proof fn lemma_skip_semantics(s: State, x: u8, b: u8)
    requires
        s.wf(),
        x < 16,
        spec_decode(spec_word(s)) == Op::SeVxByte(x, b),
    ensures
        spec_step(s, 0) == Ok::<State, Chip8Error>(
            State {
                program_counter: if s.registers[x as int] == b {
                    pc_add(s.program_counter, 4)
                } else {
                    pc_add(s.program_counter, 2)
                },
                ..s
            },
        ),
{
    let pc = s.program_counter as int;
    vstd::arithmetic::div_mod::lemma_add_mod_noop(pc + 2, 2, 4096);
    vstd::arithmetic::div_mod::lemma_small_mod(2nat, 4096nat);
    assert(((pc + 2) % 4096 + 2) % 4096 == (pc + 4) % 4096);
}

/// The key-wait spin: with no key pressed and a key-wait word at the
/// program counter, a step leaves the machine exactly as it was, the
/// counter included; stepping any number of times keeps it there until a
/// key is latched.
pub proof fn lemma_key_wait_spin(s: State, x: u8)
    requires
        s.wf(),
        highest_pressed(s.keys, 16) < 0,
        spec_decode(spec_word(s)) == Op::LdVxK(x),
    ensures
        spec_step(s, 0) == Ok::<State, Chip8Error>(s),
{
    let pc = s.program_counter as int;
    vstd::arithmetic::div_mod::lemma_add_mod_noop(pc + 2, 4094, 4096);
    vstd::arithmetic::div_mod::lemma_small_mod(4094nat, 4096nat);
    assert((pc + 4096) % 4096 == pc % 4096) by {
        vstd::arithmetic::div_mod::lemma_mod_add_multiples_vanish(pc, 4096);
    }
    vstd::arithmetic::div_mod::lemma_small_mod(s.program_counter as nat, 4096nat);
    assert(((pc + 2) % 4096 + 4094) % 4096 == pc);
}

/// The XOR draw is an involution: drawing the same sprite twice at the
/// same coordinates restores the display exactly, and the flag of the
/// second draw reports a collision precisely when the sprite lit some
/// pixel on the first draw (so a sprite drawn onto dark ground collides
/// on the second draw only). The start registers must not be the flag
/// register, which the first draw overwrites.
pub proof fn lemma_draw_twice_restores(s: State, x: u8, y: u8, n: u16)
    requires
        s.wf(),
        x < 15,
        y < 15,
        n <= 15,
    ensures
        spec_drw(spec_drw(s, x, y, n), x, y, n).display == s.display,
        spec_drw(spec_drw(s, x, y, n), x, y, n).registers[15] == 1 <==> exists|p: int|
            sprite_covers(p, drw_col0(s, x), drw_row0(s, y), n as int, 0) && spec_bit(
                sprite_byte(s, p / 64 - drw_row0(s, y)),
                p % 64 - drw_col0(s, x),
            ) && !s.display[p],
{
    let col0 = drw_col0(s, x);
    let row0 = drw_row0(s, y);
    let s1 = spec_drw(s, x, y, n);
    assert(s1.registers[x as int] == s.registers[x as int]);
    assert(s1.registers[y as int] == s.registers[y as int]);
    assert(drw_col0(s1, x) == col0);
    assert(drw_row0(s1, y) == row0);
    assert forall|j: int| sprite_byte(s1, j) == sprite_byte(s, j) by {}
    let s2 = spec_drw(s1, x, y, n);
    assert forall|p: int| 0 <= p < 2048 implies #[trigger] s2.display[p] == s.display[p] by {
        if sprite_covers(p, col0, row0, n as int, 0) && spec_bit(
            sprite_byte(s, p / 64 - row0),
            p % 64 - col0,
        ) {
            assert(s1.display[p] == !s.display[p]);
            assert(s2.display[p] == !s1.display[p]);
        } else {
            assert(s1.display[p] == s.display[p]);
            assert(s2.display[p] == s.display[p]);
        }
    }
    assert(s2.display =~= s.display);
    let lit = exists|p: int|
        sprite_covers(p, col0, row0, n as int, 0) && spec_bit(
            sprite_byte(s, p / 64 - row0),
            p % 64 - col0,
        ) && !s.display[p];
    if lit {
        let p = choose|p: int|
            sprite_covers(p, col0, row0, n as int, 0) && spec_bit(
                sprite_byte(s, p / 64 - row0),
                p % 64 - col0,
            ) && !s.display[p];
        assert(s1.display[p]);
        assert(collides(s1, s1.display, col0, row0, n as int, 0));
    }
    if collides(s1, s1.display, col0, row0, n as int, 0) {
        let p = choose|p: int|
            sprite_covers(p, col0, row0, n as int, 0) && spec_bit(
                sprite_byte(s1, p / 64 - row0),
                p % 64 - col0,
            ) && s1.display[p];
        assert(s1.display[p] == !s.display[p]);
        assert(lit);
    }
}

proof fn lemma_grid_cell(r: int, c: int)
    requires
        0 <= r < 32,
        0 <= c < 64,
    ensures
        (r * 64 + c) / 64 == r,
        (r * 64 + c) % 64 == c,
        0 <= r * 64 + c < 2048,
{
    vstd::arithmetic::div_mod::lemma_fundamental_div_mod_converse(r * 64 + c, 64, r, c);
}

proof fn lemma_point(p: int)
    requires
        0 <= p < 2048,
    ensures
        0 <= p % 64 < 64,
        0 <= p / 64 < 32,
        p == (p / 64) * 64 + (p % 64),
{
    vstd::arithmetic::div_mod::lemma_fundamental_div_mod(p, 64);
    vstd::arithmetic::div_mod::lemma_mod_pos_bound(p, 64);
}

proof fn lemma_collides_extend(s: State, disp: Seq<bool>, col0: int, row0: int, j: int, c: int)
    requires
        0 <= col0 < 64,
        0 <= row0 < 32,
        0 <= c < 8,
        col0 + c < 64,
        0 <= j,
        row0 + j < 32,
    ensures
        collides(s, disp, col0, row0, j, c + 1) == (collides(s, disp, col0, row0, j, c) || (
        spec_bit(sprite_byte(s, j), c) && disp[(row0 + j) * 64 + (col0 + c)])),
{
    let p0 = (row0 + j) * 64 + (col0 + c);
    lemma_grid_cell(row0 + j, col0 + c);
    if collides(s, disp, col0, row0, j, c + 1) {
        let p = choose|p: int|
            sprite_covers(p, col0, row0, j, c + 1) && spec_bit(
                sprite_byte(s, p / 64 - row0),
                p % 64 - col0,
            ) && disp[p];
        lemma_point(p);
        if p == p0 {
            assert(spec_bit(sprite_byte(s, j), c) && disp[p0]);
        } else {
            assert(sprite_covers(p, col0, row0, j, c));
            assert(collides(s, disp, col0, row0, j, c));
        }
    }
    if collides(s, disp, col0, row0, j, c) {
        let p = choose|p: int|
            sprite_covers(p, col0, row0, j, c) && spec_bit(
                sprite_byte(s, p / 64 - row0),
                p % 64 - col0,
            ) && disp[p];
        assert(sprite_covers(p, col0, row0, j, c + 1));
        assert(collides(s, disp, col0, row0, j, c + 1));
    }
    if spec_bit(sprite_byte(s, j), c) && disp[p0] {
        assert(sprite_covers(p0, col0, row0, j, c + 1));
        assert(spec_bit(sprite_byte(s, p0 / 64 - row0), p0 % 64 - col0));
        assert(collides(s, disp, col0, row0, j, c + 1));
    }
}

proof fn lemma_drawn_extend(s: State, disp: Seq<bool>, col0: int, row0: int, j: int, c: int)
    requires
        0 <= col0 < 64,
        0 <= row0 < 32,
        0 <= c < 8,
        col0 + c < 64,
        0 <= j,
        row0 + j < 32,
    ensures
        drawn(s, disp, col0, row0, j, c)[(row0 + j) * 64 + (col0 + c)] == disp[(row0 + j) * 64 + (
        col0 + c)],
        spec_bit(sprite_byte(s, j), c) ==> drawn(s, disp, col0, row0, j, c + 1) =~= drawn(
            s,
            disp,
            col0,
            row0,
            j,
            c,
        ).update((row0 + j) * 64 + (col0 + c), !disp[(row0 + j) * 64 + (col0 + c)]),
        !spec_bit(sprite_byte(s, j), c) ==> drawn(s, disp, col0, row0, j, c + 1) =~= drawn(
            s,
            disp,
            col0,
            row0,
            j,
            c,
        ),
{
    let p0 = (row0 + j) * 64 + (col0 + c);
    lemma_grid_cell(row0 + j, col0 + c);
    assert(!sprite_covers(p0, col0, row0, j, c));
    assert(sprite_covers(p0, col0, row0, j, c + 1));
    assert forall|p: int| 0 <= p < 2048 && p != p0 implies sprite_covers(p, col0, row0, j, c + 1)
        == sprite_covers(p, col0, row0, j, c) by {
        lemma_point(p);
    }
    if spec_bit(sprite_byte(s, j), c) {
        assert forall|p: int| 0 <= p < 2048 implies #[trigger] drawn(s, disp, col0, row0, j, c + 1)[p]
            == drawn(s, disp, col0, row0, j, c).update(p0, !disp[p0])[p] by {
            lemma_point(p);
        }
        assert(drawn(s, disp, col0, row0, j, c + 1) =~= drawn(s, disp, col0, row0, j, c).update(
            p0,
            !disp[p0],
        ));
    } else {
        assert forall|p: int| 0 <= p < 2048 implies #[trigger] drawn(s, disp, col0, row0, j, c + 1)[p]
            == drawn(s, disp, col0, row0, j, c)[p] by {
            lemma_point(p);
        }
        assert(drawn(s, disp, col0, row0, j, c + 1) =~= drawn(s, disp, col0, row0, j, c));
    }
}

proof fn lemma_region_equiv(
    s: State,
    disp: Seq<bool>,
    col0: int,
    row0: int,
    jr1: int,
    jc1: int,
    jr2: int,
    jc2: int,
)
    requires
        forall|p: int|
            sprite_covers(p, col0, row0, jr1, jc1) == sprite_covers(p, col0, row0, jr2, jc2),
    ensures
        drawn(s, disp, col0, row0, jr1, jc1) =~= drawn(s, disp, col0, row0, jr2, jc2),
        collides(s, disp, col0, row0, jr1, jc1) == collides(s, disp, col0, row0, jr2, jc2),
{
    assert forall|p: int| 0 <= p < 2048 implies #[trigger] drawn(s, disp, col0, row0, jr1, jc1)[p] == drawn(
        s,
        disp,
        col0,
        row0,
        jr2,
        jc2,
    )[p] by {
        assert(sprite_covers(p, col0, row0, jr1, jc1) == sprite_covers(p, col0, row0, jr2, jc2));
    }
    assert(drawn(s, disp, col0, row0, jr1, jc1) =~= drawn(s, disp, col0, row0, jr2, jc2));
    if collides(s, disp, col0, row0, jr1, jc1) {
        let p = choose|p: int|
            sprite_covers(p, col0, row0, jr1, jc1) && spec_bit(
                sprite_byte(s, p / 64 - row0),
                p % 64 - col0,
            ) && disp[p];
        assert(sprite_covers(p, col0, row0, jr2, jc2));
        assert(collides(s, disp, col0, row0, jr2, jc2));
    }
    if collides(s, disp, col0, row0, jr2, jc2) {
        let p = choose|p: int|
            sprite_covers(p, col0, row0, jr2, jc2) && spec_bit(
                sprite_byte(s, p / 64 - row0),
                p % 64 - col0,
            ) && disp[p];
        assert(sprite_covers(p, col0, row0, jr1, jc1));
        assert(collides(s, disp, col0, row0, jr1, jc1));
    }
}

proof fn lemma_region_roll(s: State, disp: Seq<bool>, col0: int, row0: int, j: int, c: int)
    requires
        0 <= col0 < 64,
        0 <= row0 < 32,
        0 <= j,
        0 <= c <= 8,
        c == 8 || col0 + c == 64,
    ensures
        drawn(s, disp, col0, row0, j, c) =~= drawn(s, disp, col0, row0, j + 1, 0),
        collides(s, disp, col0, row0, j, c) == collides(s, disp, col0, row0, j + 1, 0),
{
    assert forall|p: int|
        sprite_covers(p, col0, row0, j, c) == sprite_covers(p, col0, row0, j + 1, 0) by {
        if 0 <= p < 2048 {
            lemma_point(p);
        }
    }
    lemma_region_equiv(s, disp, col0, row0, j, c, j + 1, 0);
}

proof fn lemma_region_finish(s: State, disp: Seq<bool>, col0: int, row0: int, j: int, n: int)
    requires
        0 <= row0 < 32,
        0 <= j <= n,
        j == n || row0 + j >= 32,
    ensures
        drawn(s, disp, col0, row0, j, 0) =~= drawn(s, disp, col0, row0, n, 0),
        collides(s, disp, col0, row0, j, 0) == collides(s, disp, col0, row0, n, 0),
{
    assert forall|p: int|
        sprite_covers(p, col0, row0, j, 0) == sprite_covers(p, col0, row0, n, 0) by {
        if 0 <= p < 2048 {
            lemma_point(p);
        }
    }
    lemma_region_equiv(s, disp, col0, row0, j, 0, n, 0);
}

/// Relies on rand::random::<u8>: draws one byte from the thread-local
/// generator; nothing is assumed of the value.
#[verifier::external_body]
fn random_byte() -> u8 {
    rand::random::<u8>()
}

impl Interpreter {
    /// The machine invariant, inherited from the state model.
    pub open spec fn wf(&self) -> bool {
        self.cpu.wf()
    }

    /// A fresh machine behind a fresh engine.
    pub fn new() -> (r: Interpreter)
        ensures
            r.wf(),
            r@ == crate::cpu::init_state(),
    {
        Interpreter { cpu: Cpu::new() }
    }

    /// Load a program image into the machine's memory.
    pub fn load_program(&mut self, p: &Program) -> (r: Result<(), Chip8Error>)
        requires
            old(self).wf(),
        ensures
            final(self).wf(),
            match r {
                Ok(()) => p@.len() <= 3584 && final(self)@ == (State {
                    memory: crate::cpu::loaded_memory(old(self)@.memory, p@),
                    ..old(self)@
                }),
                Err(e) => {
                    &&& e == Chip8Error::ProgramTooLarge
                    &&& p@.len() > 3584
                    &&& *final(self) == *old(self)
                },
            },
    {
        self.cpu.load_program(p)
    }

    /// Clear the screen.
    pub fn cls(&mut self)
        requires
            old(self).wf(),
        ensures
            final(self).wf(),
            final(self)@ == spec_cls(old(self)@),
    {
        self.cpu.display.clear();
    }

    /// Return from a call; fails on an empty call stack.
    pub fn ret(&mut self) -> (r: Result<(), Chip8Error>)
        requires
            old(self).wf(),
        ensures
            final(self).wf(),
            match r {
                Ok(()) => spec_ret(old(self)@) == Ok::<State, Chip8Error>(final(self)@),
                Err(e) => spec_ret(old(self)@) == Err::<State, Chip8Error>(e) && *final(self)
                    == *old(self),
            },
    {
        if self.cpu.stack_pointer == 0 {
            return Err(Chip8Error::StackUnderflow);
        }
        self.cpu.program_counter = self.cpu.stack[self.cpu.stack_pointer];
        self.cpu.stack_pointer = self.cpu.stack_pointer - 1;
        Ok(())
    }

    /// The reserved legacy system call: fatal, never executed.
    pub fn sys_addr(&mut self, addr: u16) -> (r: Result<(), Chip8Error>)
        requires
            old(self).wf(),
        ensures
            final(self).wf(),
            r == Err::<(), Chip8Error>(Chip8Error::UnimplementedSys(addr)),
            *final(self) == *old(self),
    {
        Err(Chip8Error::UnimplementedSys(addr))
    }

    /// Jump to an address.
    pub fn jp_addr(&mut self, addr: u16)
        requires
            old(self).wf(),
            addr < 4096,
        ensures
            final(self).wf(),
            final(self)@ == (State { program_counter: addr, ..old(self)@ }),
    {
        self.cpu.program_counter = addr;
    }

    /// Call a subroutine; fails when all stack slots are in use.
    pub fn call_addr(&mut self, addr: u16) -> (r: Result<(), Chip8Error>)
        requires
            old(self).wf(),
            addr < 4096,
        ensures
            final(self).wf(),
            match r {
                Ok(()) => spec_call(old(self)@, addr) == Ok::<State, Chip8Error>(final(self)@),
                Err(e) => spec_call(old(self)@, addr) == Err::<State, Chip8Error>(e) && *final(self)
                    == *old(self),
            },
    {
        if self.cpu.stack_pointer >= 15 {
            return Err(Chip8Error::StackOverflow);
        }
        self.cpu.stack_pointer = self.cpu.stack_pointer + 1;
        let sp = self.cpu.stack_pointer;
        self.cpu.stack[sp] = self.cpu.program_counter;
        self.cpu.program_counter = addr;
        Ok(())
    }

    /// Skip the next instruction when the register equals the immediate.
    pub fn se_vx_byte(&mut self, x: u8, byte: u8)
        requires
            old(self).wf(),
            x < 16,
        ensures
            final(self).wf(),
            final(self)@ == spec_skip_if(old(self)@, old(self)@.registers[x as int] == byte),
    {
        if byte == self.cpu.registers[x as usize] {
            self.advance_pc();
        }
    }

    /// Skip the next instruction when the register differs from the
    /// immediate.
    pub fn sne_vx_byte(&mut self, x: u8, byte: u8)
        requires
            old(self).wf(),
            x < 16,
        ensures
            final(self).wf(),
            final(self)@ == spec_skip_if(old(self)@, old(self)@.registers[x as int] != byte),
    {
        if byte != self.cpu.registers[x as usize] {
            self.advance_pc();
        }
    }

    /// Skip the next instruction when the two registers are equal.
    pub fn se_vx_vy(&mut self, x: u8, y: u8)
        requires
            old(self).wf(),
            x < 16,
            y < 16,
        ensures
            final(self).wf(),
            final(self)@ == spec_skip_if(
                old(self)@,
                old(self)@.registers[x as int] == old(self)@.registers[y as int],
            ),
    {
        if self.cpu.registers[x as usize] == self.cpu.registers[y as usize] {
            self.advance_pc();
        }
    }

    /// Load an immediate into a register.
    pub fn ld_vx_byte(&mut self, x: u8, byte: u8)
        requires
            old(self).wf(),
            x < 16,
        ensures
            final(self).wf(),
            final(self)@ == upd_reg(old(self)@, x as int, byte),
    {
        self.cpu.registers[x as usize] = byte;
    }

    /// Add an immediate to a register, truncated to eight bits, no flag.
    pub fn add_vx_byte(&mut self, x: u8, byte: u8)
        requires
            old(self).wf(),
            x < 16,
        ensures
            final(self).wf(),
            final(self)@ == upd_reg(
                old(self)@,
                x as int,
                add_wrap(old(self)@.registers[x as int], byte),
            ),
    {
        let result = (self.cpu.registers[x as usize] as u16) + (byte as u16);
        self.cpu.registers[x as usize] = (result % 256) as u8;
    }

    /// Copy one register into another.
    pub fn ld_vx_vy(&mut self, x: u8, y: u8)
        requires
            old(self).wf(),
            x < 16,
            y < 16,
        ensures
            final(self).wf(),
            final(self)@ == upd_reg(old(self)@, x as int, old(self)@.registers[y as int]),
    {
        self.cpu.registers[x as usize] = self.cpu.registers[y as usize];
    }

    /// Bitwise OR of two registers into the first.
    pub fn or_vx_vy(&mut self, x: u8, y: u8)
        requires
            old(self).wf(),
            x < 16,
            y < 16,
        ensures
            final(self).wf(),
            final(self)@ == upd_reg(
                old(self)@,
                x as int,
                old(self)@.registers[x as int] | old(self)@.registers[y as int],
            ),
    {
        let v = self.cpu.registers[x as usize] | self.cpu.registers[y as usize];
        self.cpu.registers[x as usize] = v;
    }

    /// Bitwise AND of two registers into the first.
    pub fn and_vx_vy(&mut self, x: u8, y: u8)
        requires
            old(self).wf(),
            x < 16,
            y < 16,
        ensures
            final(self).wf(),
            final(self)@ == upd_reg(
                old(self)@,
                x as int,
                old(self)@.registers[x as int] & old(self)@.registers[y as int],
            ),
    {
        let v = self.cpu.registers[x as usize] & self.cpu.registers[y as usize];
        self.cpu.registers[x as usize] = v;
    }

    /// Bitwise XOR of two registers into the first.
    pub fn xor_vx_vy(&mut self, x: u8, y: u8)
        requires
            old(self).wf(),
            x < 16,
            y < 16,
        ensures
            final(self).wf(),
            final(self)@ == upd_reg(
                old(self)@,
                x as int,
                old(self)@.registers[x as int] ^ old(self)@.registers[y as int],
            ),
    {
        let v = self.cpu.registers[x as usize] ^ self.cpu.registers[y as usize];
        self.cpu.registers[x as usize] = v;
    }

    /// Add register to register with the carry flag convention.
    pub fn add_vx_vy(&mut self, x: u8, y: u8)
        requires
            old(self).wf(),
            x < 16,
            y < 16,
        ensures
            final(self).wf(),
            final(self)@ == spec_add_vx_vy(old(self)@, x, y),
    {
        let result = (self.cpu.registers[x as usize] as u16) + (self.cpu.registers[y as usize]
            as u16);
        if result > 0xFF {
            self.cpu.registers[0x0F] = 1;
        } else {
            self.cpu.registers[0x0F] = 0;
        }
        self.cpu.registers[x as usize] = (result % 256) as u8;
    }

    /// Subtract register from register with the borrow flag convention.
    pub fn sub_vx_vy(&mut self, x: u8, y: u8)
        requires
            old(self).wf(),
            x < 16,
            y < 16,
        ensures
            final(self).wf(),
            final(self)@ == spec_sub_vx_vy(old(self)@, x, y),
    {
        let vx = self.cpu.registers[x as usize];
        let vy = self.cpu.registers[y as usize];
        if vx >= vy {
            self.cpu.registers[0x0F] = 1;
        } else {
            self.cpu.registers[0x0F] = 0;
        }
        let result = ((vx as u16) + 256 - (vy as u16)) % 256;
        self.cpu.registers[x as usize] = result as u8;
    }

    /// Shift a register right by one through the flag register.
    pub fn shr_vx_vy(&mut self, x: u8, y: u8)
        requires
            old(self).wf(),
            x < 16,
            y < 16,
        ensures
            final(self).wf(),
            final(self)@ == spec_shr_vx_vy(old(self)@, x, y),
    {
        self.cpu.registers[x as usize] = self.cpu.registers[y as usize];
        self.cpu.registers[0x0F] = self.cpu.registers[x as usize] & 0x01;
        let v = self.cpu.registers[x as usize];
        self.cpu.registers[x as usize] = v >> 1u8;
    }

    /// Subtract the destination from the source with the borrow flag
    /// convention.
    pub fn subn_vx_vy(&mut self, x: u8, y: u8)
        requires
            old(self).wf(),
            x < 16,
            y < 16,
        ensures
            final(self).wf(),
            final(self)@ == spec_subn_vx_vy(old(self)@, x, y),
    {
        let vx = self.cpu.registers[x as usize];
        let vy = self.cpu.registers[y as usize];
        if vy >= vx {
            self.cpu.registers[0x0F] = 1;
        } else {
            self.cpu.registers[0x0F] = 0;
        }
        let result = ((vy as u16) + 256 - (vx as u16)) % 256;
        self.cpu.registers[x as usize] = result as u8;
    }

    /// Shift a register left by one through the flag register.
    pub fn shl_vx_vy(&mut self, x: u8, y: u8)
        requires
            old(self).wf(),
            x < 16,
            y < 16,
        ensures
            final(self).wf(),
            final(self)@ == spec_shl_vx_vy(old(self)@, x, y),
    {
        self.cpu.registers[x as usize] = self.cpu.registers[y as usize];
        self.cpu.registers[0x0F] = self.cpu.registers[x as usize] & 0x80;
        let v = self.cpu.registers[x as usize];
        self.cpu.registers[x as usize] = v << 1u8;
    }

    /// Skip the next instruction when the two registers differ.
    pub fn sne_vx_vy(&mut self, x: u8, y: u8)
        requires
            old(self).wf(),
            x < 16,
            y < 16,
        ensures
            final(self).wf(),
            final(self)@ == spec_skip_if(
                old(self)@,
                old(self)@.registers[y as int] != old(self)@.registers[x as int],
            ),
    {
        if self.cpu.registers[y as usize] != self.cpu.registers[x as usize] {
            self.advance_pc();
        }
    }

    /// Load an address into the index register.
    pub fn ld_i_addr(&mut self, addr: u16)
        requires
            old(self).wf(),
            addr < 4096,
        ensures
            final(self).wf(),
            final(self)@ == (State { index: addr, ..old(self)@ }),
    {
        self.cpu.index = addr;
    }

    /// Jump to an address offset by register zero, modulo the memory size.
    pub fn jp_v0_addr(&mut self, addr: u16)
        requires
            old(self).wf(),
            addr < 4096,
        ensures
            final(self).wf(),
            final(self)@ == (State {
                program_counter: (((addr as int) + (old(self)@.registers[0] as int)) % 4096) as u16,
                ..old(self)@
            }),
    {
        self.cpu.program_counter = ((addr as usize + self.cpu.registers[0] as usize) % 4096) as u16;
    }

    /// Random-AND: draw a random byte and AND it with the mask into the
    /// register. Every outcome keeps only bits of the mask.
    pub fn rnd_vx_byte(&mut self, x: u8, byte: u8)
        requires
            old(self).wf(),
            x < 16,
        ensures
            final(self).wf(),
            exists|rb: u8| final(self)@ == upd_reg(old(self)@, x as int, byte & rb),
    {
        let rb = random_byte();
        self.rnd_apply(x, byte, rb);
    }

    /// The deterministic tail of random-AND, taking the drawn byte as an
    /// argument.
    pub fn rnd_apply(&mut self, x: u8, byte: u8, rb: u8)
        requires
            old(self).wf(),
            x < 16,
        ensures
            final(self).wf(),
            final(self)@ == upd_reg(old(self)@, x as int, byte & rb),
    {
        self.cpu.registers[x as usize] = byte & rb;
    }

    /// Skip the next instruction when the key named by the register's low
    /// nibble is pressed.
    pub fn skp_vx(&mut self, x: u8)
        requires
            old(self).wf(),
            x < 16,
        ensures
            final(self).wf(),
            final(self)@ == spec_skip_if(
                old(self)@,
                old(self)@.keys[(old(self)@.registers[x as int] as int) % 16],
            ),
    {
        let k = (self.cpu.registers[x as usize] % 16) as usize;
        if self.cpu.keys[k] {
            self.advance_pc();
        }
    }

    /// Skip the next instruction when the key named by the register's low
    /// nibble is not pressed.
    pub fn sknp_vx(&mut self, x: u8)
        requires
            old(self).wf(),
            x < 16,
        ensures
            final(self).wf(),
            final(self)@ == spec_skip_if(
                old(self)@,
                !old(self)@.keys[(old(self)@.registers[x as int] as int) % 16],
            ),
    {
        let k = (self.cpu.registers[x as usize] % 16) as usize;
        if !self.cpu.keys[k] {
            self.advance_pc();
        }
    }

    /// Read the delay timer into a register.
    pub fn ld_vx_dt(&mut self, x: u8)
        requires
            old(self).wf(),
            x < 16,
        ensures
            final(self).wf(),
            final(self)@ == upd_reg(old(self)@, x as int, old(self)@.delay_timer),
    {
        self.cpu.registers[x as usize] = self.cpu.delay_timer;
    }

    /// Set the delay timer from a register.
    pub fn ld_dt_vx(&mut self, x: u8)
        requires
            old(self).wf(),
            x < 16,
        ensures
            final(self).wf(),
            final(self)@ == (State { delay_timer: old(self)@.registers[x as int], ..old(self)@ }),
    {
        self.cpu.delay_timer = self.cpu.registers[x as usize];
    }

    /// Set the sound timer from a register.
    pub fn ld_st_vx(&mut self, x: u8)
        requires
            old(self).wf(),
            x < 16,
        ensures
            final(self).wf(),
            final(self)@ == (State { sound_timer: old(self)@.registers[x as int], ..old(self)@ }),
    {
        self.cpu.sound_timer = self.cpu.registers[x as usize];
    }

    /// Add a register to the index register, modulo the memory size.
    pub fn add_i_vx(&mut self, x: u8)
        requires
            old(self).wf(),
            x < 16,
        ensures
            final(self).wf(),
            final(self)@ == (State {
                index: (((old(self)@.index as int) + (old(self)@.registers[x as int] as int))
                    % 4096) as u16,
                ..old(self)@
            }),
    {
        self.cpu.index = ((self.cpu.index as usize + self.cpu.registers[x as usize] as usize)
            % 4096) as u16;
    }

    /// Point the index register at the five-byte font glyph named by the
    /// operand nibble.
    pub fn ld_f_vx(&mut self, x: u8)
        requires
            old(self).wf(),
            x < 16,
        ensures
            final(self).wf(),
            final(self)@ == (State { index: (x * 5) as u16, ..old(self)@ }),
    {
        self.cpu.index = (x * 0x05) as u16;
    }

    /// Report an unknown instruction word: fatal, nothing executed.
    pub fn unknown(&mut self, op: u16) -> (r: Result<(), Chip8Error>)
        requires
            old(self).wf(),
        ensures
            final(self).wf(),
            r == Err::<(), Chip8Error>(Chip8Error::UnknownOpcode(op)),
            *final(self) == *old(self),
    {
        Err(Chip8Error::UnknownOpcode(op))
    }

    /// Wait for a key: scan the latch and store the highest pressed index,
    /// or rewind the program counter by two so the same instruction is
    /// fetched again next step. A spin-poll, not a suspend.
    pub fn ld_vx_k(&mut self, x: u8)
        requires
            old(self).wf(),
            x < 16,
        ensures
            final(self).wf(),
            final(self)@ == spec_ld_vx_k(old(self)@, x),
    {
        let mut pressed = false;
        for k in 0..16usize
            invariant
                x < 16,
                old(self).wf(),
                self@ == (State { registers: self@.registers, ..old(self)@ }),
                self@.registers.len() == 16,
                pressed == (highest_pressed(old(self)@.keys, k as int) >= 0),
                !pressed ==> self@.registers == old(self)@.registers,
                pressed ==> 0 <= highest_pressed(old(self)@.keys, k as int) < 16
                    && self@.registers == old(self)@.registers.update(
                    x as int,
                    highest_pressed(old(self)@.keys, k as int) as u8,
                ),
        {
            if self.cpu.keys[k] {
                proof {
                    if pressed {
                        let h = highest_pressed(old(self)@.keys, k as int);
                        assert(old(self)@.registers.update(x as int, h as u8).update(
                            x as int,
                            k as u8,
                        ) =~= old(self)@.registers.update(x as int, k as u8));
                    }
                }
                self.cpu.registers[x as usize] = k as u8;
                pressed = true;
            }
        }
        if !pressed {
            self.cpu.program_counter = ((self.cpu.program_counter as usize + 4094) % 4096) as u16;
        }
    }

    /// Store the decimal digits of a register into the three memory cells
    /// at the index register: hundreds, tens, units.
    pub fn ld_b_vx(&mut self, x: u8)
        requires
            old(self).wf(),
            x < 16,
        ensures
            final(self).wf(),
            final(self)@ == spec_ld_b_vx(old(self)@, x),
    {
        let v = self.cpu.registers[x as usize];
        let i0 = self.cpu.index as usize;
        self.cpu.memory[i0] = v / 100;
        self.cpu.memory[(i0 + 1) % 4096] = (v / 10) % 10;
        self.cpu.memory[(i0 + 2) % 4096] = v % 10;
    }

    /// Store registers 0 through `x` into memory at the index register,
    /// which itself stays unchanged.
    pub fn ld_i_vx(&mut self, x: u8)
        requires
            old(self).wf(),
            x < 16,
        ensures
            final(self).wf(),
            final(self)@ == (State {
                memory: block_store(
                    old(self)@.memory,
                    old(self)@.registers,
                    old(self)@.index as int,
                    x as int + 1,
                ),
                ..old(self)@
            }),
    {
        let n = x as usize + 1;
        let idx = self.cpu.index as usize;
        for j in 0..n
            invariant
                n == x as int + 1,
                n <= 16,
                idx == old(self)@.index as int,
                idx < 4096,
                old(self).wf(),
                self@ == (State { memory: self@.memory, ..old(self)@ }),
                self@.memory.len() == 4096,
                self@.memory == block_store(
                    old(self)@.memory,
                    old(self)@.registers,
                    idx as int,
                    j as int,
                ),
        {
            self.cpu.memory[(idx + j) % 4096] = self.cpu.registers[j];
        }
    }

    /// Load registers 0 through `x` from memory at the index register,
    /// which itself stays unchanged.
    pub fn ld_vx_i(&mut self, x: u8)
        requires
            old(self).wf(),
            x < 16,
        ensures
            final(self).wf(),
            final(self)@ == (State {
                registers: block_load(
                    old(self)@.registers,
                    old(self)@.memory,
                    old(self)@.index as int,
                    x as int + 1,
                ),
                ..old(self)@
            }),
    {
        let n = x as usize + 1;
        let idx = self.cpu.index as usize;
        for j in 0..n
            invariant
                n == x as int + 1,
                n <= 16,
                idx == old(self)@.index as int,
                idx < 4096,
                old(self).wf(),
                self@ == (State { registers: self@.registers, ..old(self)@ }),
                self@.registers.len() == 16,
                self@.registers == block_load(
                    old(self)@.registers,
                    old(self)@.memory,
                    idx as int,
                    j as int,
                ),
        {
            self.cpu.registers[j] = self.cpu.memory[(idx + j) % 4096];
        }
    }

    /// Draw a sprite of `nibble` rows read from memory at the index
    /// register: start coordinates are the registers modulo the display
    /// size, set bits are XORed onto the framebuffer, the flag register
    /// reports whether any lit pixel was turned off, and drawing clips at
    /// the bottom and right edges.
    pub fn drw_vx_vy_nibble(&mut self, x: u8, y: u8, nibble: u16)
        requires
            old(self).wf(),
            x < 16,
            y < 16,
            nibble < 16,
        ensures
            final(self).wf(),
            final(self)@ == spec_drw(old(self)@, x, y, nibble),
    {
        let col0 = (self.cpu.registers[x as usize] % 64) as usize;
        let row0 = (self.cpu.registers[y as usize] % 32) as usize;
        self.cpu.registers[0x0F] = 0;
        let n = nibble as usize;
        proof {
            assert(old(self)@.registers.update(15, 0u8) =~= old(self)@.registers.update(
                15,
                if collides(old(self)@, old(self)@.display, col0 as int, row0 as int, 0, 0) {
                    1u8
                } else {
                    0u8
                },
            ));
            assert(self@.display =~= drawn(
                old(self)@,
                old(self)@.display,
                col0 as int,
                row0 as int,
                0,
                0,
            ));
        }
        let mut j: usize = 0;
        while j < n && row0 + j < 32
            invariant
                old(self).wf(),
                x < 16,
                y < 16,
                n == nibble as int,
                n < 16,
                0 <= j <= n,
                col0 == drw_col0(old(self)@, x),
                row0 == drw_row0(old(self)@, y),
                col0 < 64,
                row0 < 32,
                self@ == (State {
                    display: self@.display,
                    registers: self@.registers,
                    ..old(self)@
                }),
                self@.display == drawn(
                    old(self)@,
                    old(self)@.display,
                    col0 as int,
                    row0 as int,
                    j as int,
                    0,
                ),
                self@.registers == old(self)@.registers.update(
                    15,
                    if collides(
                        old(self)@,
                        old(self)@.display,
                        col0 as int,
                        row0 as int,
                        j as int,
                        0,
                    ) {
                        1u8
                    } else {
                        0u8
                    },
                ),
            decreases n - j,
        {
            let row_byte = self.cpu.memory[(self.cpu.index as usize + j) % 4096];
            let mut c: usize = 0;
            while c < 8 && col0 + c < 64
                invariant
                    old(self).wf(),
                    x < 16,
                    y < 16,
                    0 <= c <= 8,
                    col0 + c <= 64,
                    0 <= j < n,
                    n < 16,
                    col0 == drw_col0(old(self)@, x),
                    row0 == drw_row0(old(self)@, y),
                    col0 < 64,
                    row0 < 32,
                    row0 + j < 32,
                    row_byte == sprite_byte(old(self)@, j as int),
                    self@ == (State {
                        display: self@.display,
                        registers: self@.registers,
                        ..old(self)@
                    }),
                    self@.display == drawn(
                        old(self)@,
                        old(self)@.display,
                        col0 as int,
                        row0 as int,
                        j as int,
                        c as int,
                    ),
                    self@.registers == old(self)@.registers.update(
                        15,
                        if collides(
                            old(self)@,
                            old(self)@.display,
                            col0 as int,
                            row0 as int,
                            j as int,
                            c as int,
                        ) {
                            1u8
                        } else {
                            0u8
                        },
                    ),
                decreases 8 - c,
            {
                let mask: u8 = match c {
                    0 => 128,
                    1 => 64,
                    2 => 32,
                    3 => 16,
                    4 => 8,
                    5 => 4,
                    6 => 2,
                    _ => 1,
                };
                let on = row_byte & mask != 0;
                proof {
                    assert(on == spec_bit(sprite_byte(old(self)@, j as int), c as int));
                    lemma_grid_cell(row0 as int + j as int, col0 as int + c as int);
                    lemma_collides_extend(
                        old(self)@,
                        old(self)@.display,
                        col0 as int,
                        row0 as int,
                        j as int,
                        c as int,
                    );
                    lemma_drawn_extend(
                        old(self)@,
                        old(self)@.display,
                        col0 as int,
                        row0 as int,
                        j as int,
                        c as int,
                    );
                }
                let r = row0 + j;
                let cc = col0 + c;
                let ghost p0 = (row0 as int + j as int) * 64 + (col0 as int + c as int);
                proof {
                    assert(self@.display[p0] == old(self)@.display[p0]);
                }
                if on {
                    let pixel = self.cpu.display.get(r, cc);
                    if pixel {
                        self.cpu.display.set(r, cc, false);
                        proof {
                            if !collides(
                                old(self)@,
                                old(self)@.display,
                                col0 as int,
                                row0 as int,
                                j as int,
                                c as int,
                            ) {
                                assert(old(self)@.registers.update(15, 0u8).update(15, 1u8)
                                    =~= old(self)@.registers.update(15, 1u8));
                            } else {
                                assert(old(self)@.registers.update(15, 1u8).update(15, 1u8)
                                    =~= old(self)@.registers.update(15, 1u8));
                            }
                        }
                        self.cpu.registers[0x0F] = 1;
                    } else {
                        self.cpu.display.set(r, cc, true);
                    }
                }
                c = c + 1;
            }
            proof {
                lemma_region_roll(
                    old(self)@,
                    old(self)@.display,
                    col0 as int,
                    row0 as int,
                    j as int,
                    c as int,
                );
            }
            j = j + 1;
        }
        proof {
            lemma_region_finish(
                old(self)@,
                old(self)@.display,
                col0 as int,
                row0 as int,
                j as int,
                n as int,
            );
        }
    }

    /// One deterministic machine step, with the byte for the random-AND
    /// operation supplied by the caller: fetch the word at the program
    /// counter, advance the counter by two, decode, execute. On an error
    /// the machine is left exactly as it was.
    pub fn step_with(&mut self, rb: u8) -> (r: Result<(), Chip8Error>)
        requires
            old(self).wf(),
        ensures
            final(self).wf(),
            match r {
                Ok(()) => spec_step(old(self)@, rb) == Ok::<State, Chip8Error>(final(self)@),
                Err(e) => spec_step(old(self)@, rb) == Err::<State, Chip8Error>(e) && final(self)@
                    == old(self)@,
            },
    {
        let pc0 = self.cpu.program_counter;
        let pc = pc0 as usize;
        let hi = self.cpu.memory[pc];
        let lo = self.cpu.memory[(pc + 1) % 4096];
        let op = ((hi as u16) << 8u16) | (lo as u16);
        proof {
            assert(op == spec_word(old(self)@));
            crate::decoder::lemma_decode_wf(op);
        }
        self.advance_pc();
        let result: Result<(), Chip8Error> = match decode_op(op) {
            Op::Cls => {
                self.cls();
                Ok(())
            },
            Op::Ret => self.ret(),
            Op::SysAddr(a) => self.sys_addr(a),
            Op::JpAddr(a) => {
                self.jp_addr(a);
                Ok(())
            },
            Op::CallAddr(a) => self.call_addr(a),
            Op::SeVxByte(x, b) => {
                self.se_vx_byte(x, b);
                Ok(())
            },
            Op::SneVxByte(x, b) => {
                self.sne_vx_byte(x, b);
                Ok(())
            },
            Op::SeVxVy(x, y) => {
                self.se_vx_vy(x, y);
                Ok(())
            },
            Op::LdVxByte(x, b) => {
                self.ld_vx_byte(x, b);
                Ok(())
            },
            Op::AddVxByte(x, b) => {
                self.add_vx_byte(x, b);
                Ok(())
            },
            Op::LdVxVy(x, y) => {
                self.ld_vx_vy(x, y);
                Ok(())
            },
            Op::OrVxVy(x, y) => {
                self.or_vx_vy(x, y);
                Ok(())
            },
            Op::AndVxVy(x, y) => {
                self.and_vx_vy(x, y);
                Ok(())
            },
            Op::XorVxVy(x, y) => {
                self.xor_vx_vy(x, y);
                Ok(())
            },
            Op::AddVxVy(x, y) => {
                self.add_vx_vy(x, y);
                Ok(())
            },
            Op::SubVxVy(x, y) => {
                self.sub_vx_vy(x, y);
                Ok(())
            },
            Op::ShrVxVy(x, y) => {
                self.shr_vx_vy(x, y);
                Ok(())
            },
            Op::SubnVxVy(x, y) => {
                self.subn_vx_vy(x, y);
                Ok(())
            },
            Op::ShlVxVy(x, y) => {
                self.shl_vx_vy(x, y);
                Ok(())
            },
            Op::SneVxVy(x, y) => {
                self.sne_vx_vy(x, y);
                Ok(())
            },
            Op::LdIAddr(a) => {
                self.ld_i_addr(a);
                Ok(())
            },
            Op::JpV0Addr(a) => {
                self.jp_v0_addr(a);
                Ok(())
            },
            Op::RndVxByte(x, b) => {
                self.rnd_apply(x, b, rb);
                Ok(())
            },
            Op::DrwVxVyNibble(x, y, n) => {
                self.drw_vx_vy_nibble(x, y, n);
                Ok(())
            },
            Op::SkpVx(x) => {
                self.skp_vx(x);
                Ok(())
            },
            Op::SknpVx(x) => {
                self.sknp_vx(x);
                Ok(())
            },
            Op::LdVxDt(x) => {
                self.ld_vx_dt(x);
                Ok(())
            },
            Op::LdVxK(x) => {
                self.ld_vx_k(x);
                Ok(())
            },
            Op::LdDtVx(x) => {
                self.ld_dt_vx(x);
                Ok(())
            },
            Op::LdStVx(x) => {
                self.ld_st_vx(x);
                Ok(())
            },
            Op::AddIVx(x) => {
                self.add_i_vx(x);
                Ok(())
            },
            Op::LdFVx(x) => {
                self.ld_f_vx(x);
                Ok(())
            },
            Op::LdBVx(x) => {
                self.ld_b_vx(x);
                Ok(())
            },
            Op::LdIVx(x) => {
                self.ld_i_vx(x);
                Ok(())
            },
            Op::LdVxI(x) => {
                self.ld_vx_i(x);
                Ok(())
            },
            Op::Unknown(w) => self.unknown(w),
        };
        if result.is_err() {
            self.cpu.program_counter = pc0;
        }
        result
    }

    /// One whole machine step, drawing the byte for the random-AND
    /// operation from the generator.
    pub fn step(&mut self) -> (r: Result<(), Chip8Error>)
        requires
            old(self).wf(),
        ensures
            final(self).wf(),
            match r {
                Ok(()) => exists|rb: u8|
                    spec_step(old(self)@, rb) == Ok::<State, Chip8Error>(final(self)@),
                Err(e) => (exists|rb: u8|
                    spec_step(old(self)@, rb) == Err::<State, Chip8Error>(e)) && final(self)@
                    == old(self)@,
            },
    {
        let rb = random_byte();
        self.step_with(rb)
    }

    /// Advance the program counter by two, modulo the memory size.
    fn advance_pc(&mut self)
        requires
            old(self).wf(),
        ensures
            final(self).wf(),
            final(self)@ == (State {
                program_counter: pc_add(old(self)@.program_counter, 2),
                ..old(self)@
            }),
    {
        self.cpu.program_counter = ((self.cpu.program_counter as usize + 2) % 4096) as u16;
    }
}

} // verus!
