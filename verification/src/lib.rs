//! A verified virtual machine for the classic 8-bit interpreted bytecode
//! format: 16-bit instruction words are fetched from an emulated memory
//! image, decoded into one of 35 operations, and either executed against
//! the machine state or rendered as mnemonic text. The decoder, the
//! execution semantics (carry and borrow flags, wraparound arithmetic,
//! sprite-collision detection, the blocking key wait) and the disassembly
//! are specified against a mathematical model of the machine state and
//! proved against it.

pub mod cpu;
pub mod decoder;
pub mod disassembler;
pub mod instructions;
pub mod interpreter;
pub mod program;
pub mod screen;
