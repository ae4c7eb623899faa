use vstd::prelude::*;
use crate::program::Program;
use crate::screen::Screen;
use crate::screen::blank_screen;

verus! {

/// Number of addressable bytes of memory.
pub const MEMORY_SIZE: usize = 4096;

/// The conventional offset at which a program image is loaded and at which
/// execution starts.
pub const PROGRAM_START: usize = 0x200;

/// Bytes of memory available to a program image.
pub const PROGRAM_CAPACITY: usize = 3584;

/// Ways a machine step or a program load can fail. Every failure is final
/// for the machine instance; there are no retries.
#[derive(Clone, Copy, PartialEq, Eq, Structural, Debug)]
pub enum Chip8Error {
    /// The fetched word matches no opcode of the table; carries the raw word.
    UnknownOpcode(u16),
    /// The reserved legacy system-call family; carries the call address.
    UnimplementedSys(u16),
    /// A call instruction found all sixteen stack slots in use.
    StackOverflow,
    /// A return instruction found the call stack empty.
    StackUnderflow,
    /// The program image does not fit in memory above the start offset.
    ProgramTooLarge,
}

/// The mathematical model of the machine state: the memory image, the call
/// stack, the register file, the two countdown timers, the index register,
/// the program counter, the stack pointer, the key latch and the display.
pub struct State {
    pub memory: Seq<u8>,
    pub stack: Seq<u16>,
    pub registers: Seq<u8>,
    pub delay_timer: u8,
    pub sound_timer: u8,
    pub index: u16,
    pub program_counter: u16,
    pub stack_pointer: int,
    pub keys: Seq<bool>,
    pub display: Seq<bool>,
}

impl State {
    /// The machine invariant: every array has its fixed size, the stack
    /// pointer stays within the sixteen slots, and the program counter and
    /// index register are kept reduced modulo the memory size.
    pub open spec fn wf(self) -> bool {
        &&& self.memory.len() == 4096
        &&& self.stack.len() == 16
        &&& self.registers.len() == 16
        &&& self.keys.len() == 16
        &&& self.display.len() == 2048
        &&& 0 <= self.stack_pointer < 16
        &&& self.program_counter < 4096
        &&& self.index < 4096
        &&& forall|i: int| 0 <= i < 16 ==> self.stack[i] < 4096
    }
}

/// The constant font table: five-byte glyph bitmaps for the hexadecimal
/// digits 0 through F, copied to the lowest memory addresses at machine
/// construction.
pub open spec fn font_seq() -> Seq<u8> {
    seq![
        0xF0u8, 0x90, 0x90, 0x90, 0xF0,
        0x20, 0x60, 0x20, 0x20, 0x70,
        0xF0, 0x10, 0xF0, 0x80, 0xF0,
        0xF0, 0x10, 0xF0, 0x10, 0xF0,
        0x90, 0x90, 0xF0, 0x10, 0x10,
        0xF0, 0x80, 0xF0, 0x10, 0xF0,
        0xF0, 0x80, 0xF0, 0x90, 0xF0,
        0xF0, 0x10, 0x20, 0x40, 0x40,
        0xF0, 0x90, 0xF0, 0x90, 0xF0,
        0xF0, 0x90, 0xF0, 0x10, 0xF0,
        0xF0, 0x90, 0xF0, 0x90, 0x90,
        0xE0, 0x90, 0xE0, 0x90, 0xE0,
        0xF0, 0x80, 0x80, 0x80, 0xF0,
        0xE0, 0x90, 0x90, 0x90, 0xE0,
        0xF0, 0x80, 0xF0, 0x80, 0xF0,
        0xF0, 0x80, 0xF0, 0x80, 0x80,
    ]
}

/// The memory image of a freshly constructed machine: the font table in the
/// lowest addresses, zero everywhere above it.
pub open spec fn init_memory() -> Seq<u8> {
    Seq::new(4096, |i: int| if i < 80 { font_seq()[i] } else { 0u8 })
}

/// The state of a freshly constructed machine: everything cleared, the font
/// loaded, the program counter at the conventional start offset.
pub open spec fn init_state() -> State {
    State {
        memory: init_memory(),
        stack: Seq::new(16, |i: int| 0u16),
        registers: Seq::new(16, |i: int| 0u8),
        delay_timer: 0,
        sound_timer: 0,
        index: 0,
        program_counter: 0x200,
        stack_pointer: 0,
        keys: Seq::new(16, |i: int| false),
        display: blank_screen(),
    }
}

/// The memory image after a program is loaded: the image verbatim from the
/// start offset, the rest untouched.
pub open spec fn loaded_memory(mem: Seq<u8>, content: Seq<u8>) -> Seq<u8> {
    Seq::new(mem.len(), |i: int|
        if 0x200 <= i < 0x200 + content.len() {
            content[i - 0x200]
        } else {
            mem[i]
        })
}

/// The register file, memory image, call stack, timers, key latch and
/// framebuffer of one machine instance.
pub struct Cpu {
    pub memory: Vec<u8>,
    pub stack: Vec<u16>,
    pub registers: Vec<u8>,
    pub delay_timer: u8,
    pub sound_timer: u8,
    pub index: u16,
    pub program_counter: u16,
    pub stack_pointer: usize,
    pub keys: Vec<bool>,
    pub display: Screen,
}

impl View for Cpu {
    type V = State;

    open spec fn view(&self) -> State {
        State {
            memory: self.memory@,
            stack: self.stack@,
            registers: self.registers@,
            delay_timer: self.delay_timer,
            sound_timer: self.sound_timer,
            index: self.index,
            program_counter: self.program_counter,
            stack_pointer: self.stack_pointer as int,
            keys: self.keys@,
            display: self.display@,
        }
    }
}

impl Cpu {
    /// The machine invariant, stated over the model.
    pub open spec fn wf(&self) -> bool {
        self@.wf()
    }

    /// A fresh machine: all state cleared, the font table copied into the
    /// lowest memory addresses, the program counter at the start offset.
    pub fn new() -> (cpu: Cpu)
        ensures
            cpu.wf(),
            cpu@ == init_state(),
    {
        let font: [u8; 80] = [
            0xF0, 0x90, 0x90, 0x90, 0xF0,
            0x20, 0x60, 0x20, 0x20, 0x70,
            0xF0, 0x10, 0xF0, 0x80, 0xF0,
            0xF0, 0x10, 0xF0, 0x10, 0xF0,
            0x90, 0x90, 0xF0, 0x10, 0x10,
            0xF0, 0x80, 0xF0, 0x10, 0xF0,
            0xF0, 0x80, 0xF0, 0x90, 0xF0,
            0xF0, 0x10, 0x20, 0x40, 0x40,
            0xF0, 0x90, 0xF0, 0x90, 0xF0,
            0xF0, 0x90, 0xF0, 0x10, 0xF0,
            0xF0, 0x90, 0xF0, 0x90, 0x90,
            0xE0, 0x90, 0xE0, 0x90, 0xE0,
            0xF0, 0x80, 0x80, 0x80, 0xF0,
            0xE0, 0x90, 0x90, 0x90, 0xE0,
            0xF0, 0x80, 0xF0, 0x80, 0xF0,
            0xF0, 0x80, 0xF0, 0x80, 0x80,
        ];
        proof {
            assert(font@ =~= font_seq());
        }
        let mut memory: Vec<u8> = vec![0u8; 4096];
        assert forall|j: int| 0 <= j < 4096 implies memory@[j] == 0u8 by {
            assert(cloned(0u8, memory@[j]));
        }
        for i in 0..80
            invariant
                font@ == font_seq(),
                memory@.len() == 4096,
                forall|j: int| 0 <= j < i ==> memory@[j] == font_seq()[j],
                forall|j: int| i <= j < 4096 ==> memory@[j] == 0u8,
        {
            memory[i] = font[i];
        }
        let cpu = Cpu {
            memory,
            stack: vec![0u16; 16],
            registers: vec![0u8; 16],
            delay_timer: 0,
            sound_timer: 0,
            index: 0,
            program_counter: 0x200,
            stack_pointer: 0,
            keys: vec![false; 16],
            display: Screen::new(),
        };
        proof {
            assert forall|j: int| 0 <= j < 16 implies cpu.stack@[j] == 0u16 by {
                assert(cloned(0u16, cpu.stack@[j]));
            }
            assert forall|j: int| 0 <= j < 16 implies cpu.registers@[j] == 0u8 by {
                assert(cloned(0u8, cpu.registers@[j]));
            }
            assert forall|j: int| 0 <= j < 16 implies cpu.keys@[j] == false by {
                assert(cloned(false, cpu.keys@[j]));
            }
            assert(cpu@.memory =~= init_memory());
            assert(cpu@.stack =~= init_state().stack);
            assert(cpu@.registers =~= init_state().registers);
            assert(cpu@.keys =~= init_state().keys);
            assert(cpu@ == init_state());
        }
        cpu
    }

    /// Copy a program image verbatim into memory at the start offset. An
    /// image larger than the memory above that offset is rejected whole.
    pub fn load_program(&mut self, p: &Program) -> (r: Result<(), Chip8Error>)
        requires
            old(self).wf(),
        ensures
            final(self).wf(),
            match r {
                Ok(()) => p@.len() <= 3584 && final(self)@ == (State {
                    memory: loaded_memory(old(self)@.memory, p@),
                    ..old(self)@
                }),
                Err(e) => {
                    &&& e == Chip8Error::ProgramTooLarge
                    &&& p@.len() > 3584
                    &&& *final(self) == *old(self)
                },
            },
    {
        if p.content.len() > PROGRAM_CAPACITY {
            return Err(Chip8Error::ProgramTooLarge);
        }
        let n = p.content.len();
        for i in 0..n
            invariant
                n == p@.len() <= 3584,
                self@.memory.len() == 4096,
                forall|j: int| 0x200 <= j < 0x200 + i ==> self@.memory[j] == p@[j - 0x200],
                forall|j: int| 0 <= j < 4096 && !(0x200 <= j < 0x200 + i)
                    ==> self@.memory[j] == old(self)@.memory[j],
                self@ == (State { memory: self@.memory, ..old(self)@ }),
        {
            self.memory[0x200 + i] = p.content[i];
        }
        proof {
            assert(self@.memory =~= loaded_memory(old(self)@.memory, p@));
        }
        Ok(())
    }
}

} // verus!
