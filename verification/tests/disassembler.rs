use chip8::disassembler::Disassembler;
use chip8::program::Program;

fn line_of(op: u16) -> String {
    let mut d = Disassembler::new();
    d.step(op);
    d.code().clone()
}

#[test]
fn mnemonics_render_exactly() {
    assert_eq!(line_of(0x00E0), "CLS\n");
    assert_eq!(line_of(0x00EE), "RET\n");
    assert_eq!(line_of(0x0123), "SYS 123\n");
    assert_eq!(line_of(0x1ABC), "JP ABC\n");
    assert_eq!(line_of(0x2DEF), "CALL DEF\n");
    assert_eq!(line_of(0x3105), "SE V1, 5\n");
    assert_eq!(line_of(0x4620), "SNE V6, 20\n");
    assert_eq!(line_of(0x5120), "SE V1, V2\n");
    assert_eq!(line_of(0x6A0B), "LD VA, B\n");
    assert_eq!(line_of(0x7C80), "ADD VC, 80\n");
    assert_eq!(line_of(0x8120), "LD V1, V2\n");
    assert_eq!(line_of(0x8341), "OR V3, V4\n");
    assert_eq!(line_of(0x8562), "AND V5, V6\n");
    assert_eq!(line_of(0x8783), "XOR V7, V8\n");
    assert_eq!(line_of(0x89A4), "ADD V9, VA\n");
    assert_eq!(line_of(0x8BC5), "SUB VB, VC\n");
    assert_eq!(line_of(0x8DE6), "SHR VD, VE\n");
    assert_eq!(line_of(0x8F07), "SUBN VF, V0\n");
    assert_eq!(line_of(0x812E), "SHL V1, V2\n");
    assert_eq!(line_of(0x9340), "SNE V3, V4\n");
    assert_eq!(line_of(0xA111), "LD I, 111\n");
    assert_eq!(line_of(0xB222), "LD v0, 222\n");
    assert_eq!(line_of(0xC5AA), "RND V5, AA\n");
    assert_eq!(line_of(0xD67E), "DRW V6, V7, E\n");
    assert_eq!(line_of(0xE89E), "SKP V8\n");
    assert_eq!(line_of(0xE9A1), "SKNP V9\n");
    assert_eq!(line_of(0xFA07), "LD VA, DT\n");
    assert_eq!(line_of(0xFB0A), "LD VB, K\n");
    assert_eq!(line_of(0xFC15), "LD DT, VC\n");
    assert_eq!(line_of(0xFD18), "ST VD\n");
    assert_eq!(line_of(0xFE1E), "ADD I, VE\n");
    assert_eq!(line_of(0xFF29), "LD F, VF\n");
    assert_eq!(line_of(0xF033), "LD B, V0\n");
    assert_eq!(line_of(0xF155), "LD I, V1\n");
    assert_eq!(line_of(0xF265), "LD V2, I\n");
}

#[test]
fn unknown_renders_raw_word() {
    assert_eq!(line_of(0x8FF8), "unknown instruction : 8FF8\n");
    assert_eq!(line_of(0xE000), "unknown instruction : E000\n");
}

#[test]
fn hex_has_no_leading_zeros() {
    assert_eq!(line_of(0x6000), "LD V0, 0\n");
    assert_eq!(line_of(0x1005), "JP 5\n");
    assert_eq!(line_of(0x10A5), "JP A5\n");
}

#[test]
fn steps_accumulate_lines() {
    let mut d = Disassembler::new();
    assert_eq!(d.code().as_str(), "");
    d.step(0x00E0);
    d.step(0x1ABC);
    assert_eq!(d.code().as_str(), "CLS\nJP ABC\n");
}

#[test]
fn disassemble_walks_every_overlapping_window() {
    // Window 0 is bytes 0 and 1, window 1 is bytes 1 and 2: the scan
    // slides by one byte, not two.
    let mut d = Disassembler::new();
    let p = Program { content: vec![0x00, 0xE0, 0xEE] };
    d.disassemble(&p);
    assert_eq!(d.code().as_str(), "CLS\nunknown instruction : E0EE\n");
}

#[test]
fn disassemble_short_buffers_produce_nothing() {
    let mut d = Disassembler::new();
    d.disassemble(&Program { content: vec![] });
    assert_eq!(d.code().as_str(), "");
    d.disassemble(&Program { content: vec![0x7F] });
    assert_eq!(d.code().as_str(), "");
}
