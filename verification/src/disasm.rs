//! The disassembler: from the bytes of one Z80 instruction to its mnemonic
//! and its length.
//!
//! The text of each instruction is stated as a spec function over the
//! instruction's bytes; the executable decoder builds exactly that text.

use crate::text::{
    around_hex2, around_hex4, hex2, hex4, hex_digit, hex_str, join2, join3, join4, push_hex2,
    push_hex4, push_signed, signed, signed_decimal,
};
use vstd::prelude::*;
use vstd::string::StringExecFns;

verus! {

/// The name of an 8-bit operand, by its three-bit code.
pub open spec fn reg_name(i: int) -> Seq<char> {
    if i == 0 {
        "B"@
    } else if i == 1 {
        "C"@
    } else if i == 2 {
        "D"@
    } else if i == 3 {
        "E"@
    } else if i == 4 {
        "H"@
    } else if i == 5 {
        "L"@
    } else if i == 6 {
        "(HL)"@
    } else {
        "A"@
    }
}

/// The name of a register pair, by its two-bit code.
pub open spec fn pair_name(i: int) -> Seq<char> {
    if i == 0 {
        "BC"@
    } else if i == 1 {
        "DE"@
    } else if i == 2 {
        "HL"@
    } else {
        "SP"@
    }
}

/// The name of a register pair as PUSH and POP count them: AF stands where
/// SP does elsewhere.
pub open spec fn stack_pair_name(i: int) -> Seq<char> {
    if i == 0 {
        "BC"@
    } else if i == 1 {
        "DE"@
    } else if i == 2 {
        "HL"@
    } else {
        "AF"@
    }
}

/// The name of a condition, by its three-bit code.
pub open spec fn cond_name(i: int) -> Seq<char> {
    if i == 0 {
        "NZ"@
    } else if i == 1 {
        "Z"@
    } else if i == 2 {
        "NC"@
    } else if i == 3 {
        "C"@
    } else if i == 4 {
        "PO"@
    } else if i == 5 {
        "PE"@
    } else if i == 6 {
        "P"@
    } else {
        "M"@
    }
}

/// An 8-bit arithmetic or logic operation before a register operand.
pub open spec fn alu_name(i: int) -> Seq<char> {
    if i == 0 {
        "ADD "@
    } else if i == 1 {
        "ADC "@
    } else if i == 2 {
        "SUB "@
    } else if i == 3 {
        "SBC "@
    } else if i == 4 {
        "AND "@
    } else if i == 5 {
        "XOR "@
    } else if i == 6 {
        "OR "@
    } else {
        "CP "@
    }
}

/// An 8-bit arithmetic or logic operation before an immediate operand.
pub open spec fn alu_immediate_name(i: int) -> Seq<char> {
    if i == 0 {
        "ADD A,0x"@
    } else if i == 1 {
        "ADC A,0x"@
    } else if i == 2 {
        "SUB 0x"@
    } else if i == 3 {
        "SBC A,0x"@
    } else if i == 4 {
        "AND 0x"@
    } else if i == 5 {
        "XOR 0x"@
    } else if i == 6 {
        "OR 0x"@
    } else {
        "CP 0x"@
    }
}

/// An 8-bit arithmetic or logic operation before an indexed operand.
pub open spec fn alu_indexed_name(i: int) -> Seq<char> {
    if i == 0 {
        "ADD A,("@
    } else if i == 1 {
        "ADC A,("@
    } else if i == 2 {
        "SUB ("@
    } else if i == 3 {
        "SBC A,("@
    } else if i == 4 {
        "AND ("@
    } else if i == 5 {
        "XOR ("@
    } else if i == 6 {
        "OR ("@
    } else {
        "CP ("@
    }
}

/// A rotation or shift of the CB family.
pub open spec fn rotation_name(i: int) -> Seq<char> {
    if i == 0 {
        "RLC "@
    } else if i == 1 {
        "RRC "@
    } else if i == 2 {
        "RL "@
    } else if i == 3 {
        "RR "@
    } else if i == 4 {
        "SLA "@
    } else if i == 5 {
        "SRA "@
    } else if i == 6 {
        "SLL "@
    } else {
        "SRL "@
    }
}

/// A bit operation of the CB family, by the opcode's top two bits.
pub open spec fn bit_op_name(group: int) -> Seq<char> {
    if group == 1 {
        "BIT "@
    } else if group == 2 {
        "RES "@
    } else {
        "SET "@
    }
}

/// The index register that a prefix byte selects.
pub open spec fn index_name(prefix: u8) -> Seq<char> {
    if prefix == 0xDD {
        "IX"@
    } else {
        "IY"@
    }
}

/// A register pair after a DD or FD prefix: the index register stands where
/// HL does.
pub open spec fn index_pair_name(prefix: u8, i: int) -> Seq<char> {
    if i == 0 {
        "BC"@
    } else if i == 1 {
        "DE"@
    } else if i == 2 {
        index_name(prefix)
    } else {
        "SP"@
    }
}

/// The word of two operand bytes, low byte first.
pub open spec fn operand_word(low: u8, high: u8) -> u16 {
    (high as int * 256 + low as int) as u16
}

/// The address that a relative jump at `pc` with displacement `d` goes to.
pub open spec fn relative_target(pc: u16, d: u8) -> u16 {
    ((pc as int + 2 + signed(d)) % 0x10000) as u16
}

/// A byte that no instruction claims.
pub open spec fn db_text(b0: u8) -> Seq<char> {
    "DB 0x"@ + hex2(b0)
}

/// Two bytes that no instruction claims.
pub open spec fn db2_text(b0: u8, b1: u8) -> Seq<char> {
    "DB 0x"@ + hex2(b0) + ",0x"@ + hex2(b1)
}

/// The number of bytes of an instruction without prefix.
pub open spec fn base_length(b0: u8) -> int {
    if b0 < 0x40 {
        if b0 % 16 == 1 || b0 == 0x22 || b0 == 0x2A || b0 == 0x32 || b0 == 0x3A {
            3
        } else if b0 % 8 == 6 || b0 == 0x10 || b0 == 0x18 || (b0 >= 0x20 && b0 % 8 == 0) {
            2
        } else {
            1
        }
    } else if b0 < 0xC0 {
        1
    } else if b0 % 8 == 2 || b0 % 8 == 4 || b0 == 0xC3 || b0 == 0xCD {
        3
    } else if b0 % 8 == 6 || b0 == 0xD3 || b0 == 0xDB {
        2
    } else {
        1
    }
}

/// The mnemonic of an instruction without prefix.
pub open spec fn base_text(b0: u8, b1: u8, b2: u8, pc: u16) -> Seq<char> {
    let pair = (b0 as int / 16) % 4;
    let reg = (b0 as int / 8) % 8;
    let nn = operand_word(b1, b2);
    if b0 == 0x00 {
        "NOP"@
    } else if b0 < 0x40 {
        if b0 % 16 == 1 {
            "LD "@ + pair_name(pair) + ",0x"@ + hex4(nn)
        } else if b0 % 16 == 9 {
            "ADD HL,"@ + pair_name(pair)
        } else if b0 % 16 == 3 {
            "INC "@ + pair_name(pair)
        } else if b0 % 16 == 11 {
            "DEC "@ + pair_name(pair)
        } else if b0 % 8 == 4 {
            "INC "@ + reg_name(reg)
        } else if b0 % 8 == 5 {
            "DEC "@ + reg_name(reg)
        } else if b0 % 8 == 6 {
            "LD "@ + reg_name(reg) + ",0x"@ + hex2(b1)
        } else if b0 == 0x10 {
            "DJNZ 0x"@ + hex4(relative_target(pc, b1))
        } else if b0 == 0x18 {
            "JR 0x"@ + hex4(relative_target(pc, b1))
        } else if b0 >= 0x20 && b0 % 8 == 0 {
            "JR "@ + cond_name(reg % 4) + ",0x"@ + hex4(relative_target(pc, b1))
        } else if b0 == 0x22 {
            "LD (0x"@ + hex4(nn) + "),HL"@
        } else if b0 == 0x2A {
            "LD HL,(0x"@ + hex4(nn) + ")"@
        } else if b0 == 0x32 {
            "LD (0x"@ + hex4(nn) + "),A"@
        } else if b0 == 0x3A {
            "LD A,(0x"@ + hex4(nn) + ")"@
        } else {
            db_text(b0)
        }
    } else if b0 < 0x80 {
        if b0 == 0x76 {
            "HALT"@
        } else {
            "LD "@ + reg_name(reg) + ","@ + reg_name(b0 as int % 8)
        }
    } else if b0 < 0xC0 {
        alu_name(reg) + reg_name(b0 as int % 8)
    } else if b0 % 8 == 0 {
        "RET "@ + cond_name(reg)
    } else if b0 % 16 == 1 {
        "POP "@ + stack_pair_name(pair)
    } else if b0 % 8 == 2 {
        "JP "@ + cond_name(reg) + ",0x"@ + hex4(nn)
    } else if b0 == 0xC3 {
        "JP 0x"@ + hex4(nn)
    } else if b0 % 8 == 4 {
        "CALL "@ + cond_name(reg) + ",0x"@ + hex4(nn)
    } else if b0 % 16 == 5 {
        "PUSH "@ + stack_pair_name(pair)
    } else if b0 % 8 == 6 {
        alu_immediate_name(reg) + hex2(b1)
    } else if b0 % 8 == 7 {
        "RST 0x"@ + hex4((reg * 8) as u16)
    } else if b0 == 0xC9 {
        "RET"@
    } else if b0 == 0xCD {
        "CALL 0x"@ + hex4(nn)
    } else if b0 == 0xD3 {
        "OUT (0x"@ + hex2(b1) + "),A"@
    } else if b0 == 0xDB {
        "IN A,(0x"@ + hex2(b1) + ")"@
    } else if b0 == 0xD9 {
        "EXX"@
    } else if b0 == 0xE9 {
        "JP (HL)"@
    } else if b0 == 0xEB {
        "EX DE,HL"@
    } else if b0 == 0xF3 {
        "DI"@
    } else if b0 == 0xFB {
        "EI"@
    } else {
        db_text(b0)
    }
}

/// The number of bytes of an instruction with the ED prefix, by the byte
/// after the prefix.
pub open spec fn ed_length(b1: u8) -> int {
    if 0x40 <= b1 < 0x80 && (b1 % 16 == 3 || b1 % 16 == 11) {
        4
    } else {
        2
    }
}

/// The mnemonic of an instruction with the ED prefix.
pub open spec fn ed_text(b1: u8, b2: u8, b3: u8) -> Seq<char> {
    let pair = (b1 as int / 16) % 4;
    let reg = (b1 as int / 8) % 8;
    let nn = operand_word(b2, b3);
    if 0x40 <= b1 < 0x80 {
        if b1 % 16 == 10 {
            "ADC HL,"@ + pair_name(pair)
        } else if b1 % 16 == 2 {
            "SBC HL,"@ + pair_name(pair)
        } else if b1 % 16 == 3 {
            "LD (0x"@ + hex4(nn) + "),"@ + pair_name(pair)
        } else if b1 % 16 == 11 {
            "LD "@ + pair_name(pair) + ",(0x"@ + hex4(nn) + ")"@
        } else if b1 == 0x46 {
            "IM 0"@
        } else if b1 == 0x56 {
            "IM 1"@
        } else if b1 == 0x5E {
            "IM 2"@
        } else if b1 == 0x45 {
            "RETN"@
        } else if b1 == 0x4D {
            "RETI"@
        } else if b1 % 8 == 4 {
            "NEG"@
        } else if b1 == 0x47 {
            "LD I,A"@
        } else if b1 == 0x4F {
            "LD R,A"@
        } else if b1 == 0x57 {
            "LD A,I"@
        } else if b1 == 0x5F {
            "LD A,R"@
        } else if b1 % 8 == 0 {
            "IN "@ + reg_name(reg) + ",(C)"@
        } else if b1 % 8 == 1 {
            "OUT (C),"@ + reg_name(reg)
        } else if b1 == 0x67 {
            "RRD"@
        } else if b1 == 0x6F {
            "RLD"@
        } else {
            db2_text(0xED, b1)
        }
    } else if b1 == 0xA2 {
        "INI"@
    } else if b1 == 0xAA {
        "IND"@
    } else if b1 == 0xB2 {
        "INIR"@
    } else if b1 == 0xBA {
        "INDR"@
    } else if b1 == 0xA3 {
        "OUTI"@
    } else if b1 == 0xAB {
        "OUTD"@
    } else if b1 == 0xB3 {
        "OTIR"@
    } else if b1 == 0xBB {
        "OTDR"@
    } else if b1 == 0x00 || b1 == 0xFF {
        "NOP"@
    } else {
        db2_text(0xED, b1)
    }
}

/// The mnemonic of an instruction with the CB prefix, by the byte after the
/// prefix.
pub open spec fn cb_text(op: u8) -> Seq<char> {
    let group = op as int / 64;
    let n = (op as int / 8) % 8;
    let r = op as int % 8;
    if group == 0 {
        rotation_name(n) + reg_name(r)
    } else {
        bit_op_name(group) + seq![hex_digit(n)] + ","@ + reg_name(r)
    }
}

/// The number of bytes of an instruction with the DD or FD prefix, by the
/// byte after the prefix.
pub open spec fn index_length(b1: u8) -> int {
    if b1 == 0x21 || b1 == 0x22 || b1 == 0x2A || b1 == 0x36 || b1 == 0xCB {
        4
    } else if b1 == 0x34 || b1 == 0x35 || (0x40 <= b1 < 0xC0 && (b1 % 8 == 6 || b1 / 8 == 14)) {
        3
    } else {
        2
    }
}

/// The operand `(IX+d)` or `(IY+d)` without its opening bracket.
pub open spec fn indexed_operand(prefix: u8, d: u8) -> Seq<char> {
    index_name(prefix) + signed_decimal(d) + ")"@
}

/// The mnemonic of an instruction with the DD or FD prefix. In the
/// four-byte forms with CB the displacement `b2` comes before the opcode
/// `b3`.
pub open spec fn index_text(prefix: u8, b1: u8, b2: u8, b3: u8) -> Seq<char> {
    let x = index_name(prefix);
    let reg = (b1 as int / 8) % 8;
    let nn = operand_word(b2, b3);
    if b1 == 0x21 {
        "LD "@ + x + ",0x"@ + hex4(nn)
    } else if b1 == 0x22 {
        "LD (0x"@ + hex4(nn) + "),"@ + x
    } else if b1 == 0x2A {
        "LD "@ + x + ",(0x"@ + hex4(nn) + ")"@
    } else if b1 == 0x23 {
        "INC "@ + x
    } else if b1 == 0x2B {
        "DEC "@ + x
    } else if b1 < 0x40 && b1 % 16 == 9 {
        "ADD "@ + x + ","@ + index_pair_name(prefix, (b1 as int / 16) % 4)
    } else if b1 == 0xE5 {
        "PUSH "@ + x
    } else if b1 == 0xE1 {
        "POP "@ + x
    } else if b1 == 0xE3 {
        "EX (SP),"@ + x
    } else if b1 == 0xE9 {
        "JP ("@ + x + ")"@
    } else if b1 == 0xF9 {
        "LD SP,"@ + x
    } else if b1 == 0x34 {
        "INC ("@ + indexed_operand(prefix, b2)
    } else if b1 == 0x35 {
        "DEC ("@ + indexed_operand(prefix, b2)
    } else if b1 == 0x36 {
        "LD ("@ + indexed_operand(prefix, b2) + ",0x"@ + hex2(b3)
    } else if 0x70 <= b1 <= 0x77 {
        "LD ("@ + indexed_operand(prefix, b2) + ","@ + reg_name(b1 as int % 8)
    } else if 0x40 <= b1 < 0x80 && b1 % 8 == 6 {
        "LD "@ + reg_name(reg) + ",("@ + indexed_operand(prefix, b2)
    } else if 0x80 <= b1 < 0xC0 && b1 % 8 == 6 {
        alu_indexed_name(reg) + indexed_operand(prefix, b2)
    } else if b1 == 0xCB {
        let group = b3 as int / 64;
        let n = (b3 as int / 8) % 8;
        if group == 0 {
            rotation_name(n) + "("@ + indexed_operand(prefix, b2)
        } else {
            bit_op_name(group) + seq![hex_digit(n)] + ",("@ + indexed_operand(prefix, b2)
        }
    } else {
        db2_text(prefix, b1)
    }
}

/// The byte at position `i` of the window, or zero past its end.
pub open spec fn byte_or_zero(mem: Seq<u8>, i: int) -> u8 {
    if 0 <= i < mem.len() {
        mem[i]
    } else {
        0
    }
}

/// The number of bytes that the instruction at `index` is made of, as far
/// as the window shows: a prefix at the window's last byte counts as two.
pub open spec fn instruction_length(mem: Seq<u8>, index: int) -> int {
    let b0 = byte_or_zero(mem, index);
    let b1 = byte_or_zero(mem, index + 1);
    if b0 == 0xCB {
        2
    } else if b0 == 0xED {
        ed_length(b1)
    } else if b0 == 0xDD || b0 == 0xFD {
        index_length(b1)
    } else {
        base_length(b0)
    }
}

/// The mnemonic of the instruction at `index`, which stands at address `pc`.
pub open spec fn instruction_text(mem: Seq<u8>, index: int, pc: u16) -> Seq<char> {
    let b0 = byte_or_zero(mem, index);
    let b1 = byte_or_zero(mem, index + 1);
    let b2 = byte_or_zero(mem, index + 2);
    let b3 = byte_or_zero(mem, index + 3);
    if b0 == 0xCB {
        cb_text(b1)
    } else if b0 == 0xED {
        ed_text(b1, b2, b3)
    } else if b0 == 0xDD || b0 == 0xFD {
        index_text(b0, b1, b2, b3)
    } else {
        base_text(b0, b1, b2, pc)
    }
}

/// The position in a window that starts at address `base` of the byte at
/// address `pc`.
pub open spec fn window_index(pc: u16, base: u16) -> int {
    (pc as int - base as int) % 0x10000
}

/// What the disassembler answers for the instruction at `pc` in a window
/// `mem` that starts at `base`: mnemonic and length. An address outside the
/// window gives a note of length 1; an instruction that the window cuts
/// short gives its first byte as data, with length 1.
pub open spec fn disassembled(mem: Seq<u8>, pc: u16, base: u16) -> (Seq<char>, u8) {
    let index = window_index(pc, base);
    if index >= mem.len() {
        ("<fuera de memoria>"@, 1u8)
    } else if index + instruction_length(mem, index) > mem.len() {
        (db_text(mem[index]), 1u8)
    } else {
        (instruction_text(mem, index, pc), instruction_length(mem, index) as u8)
    }
}

/// The name of an 8-bit operand.
pub fn regs(i: u8) -> (s: &'static str)
    ensures
        s@ == reg_name(i as int),
{
    match i {
        0 => "B",
        1 => "C",
        2 => "D",
        3 => "E",
        4 => "H",
        5 => "L",
        6 => "(HL)",
        _ => "A",
    }
}

/// The name of a register pair.
pub fn rp(i: u8) -> (s: &'static str)
    ensures
        s@ == pair_name(i as int),
{
    match i {
        0 => "BC",
        1 => "DE",
        2 => "HL",
        _ => "SP",
    }
}

fn rp2(i: u8) -> (s: &'static str)
    ensures
        s@ == stack_pair_name(i as int),
{
    match i {
        0 => "BC",
        1 => "DE",
        2 => "HL",
        _ => "AF",
    }
}

fn conds(i: u8) -> (s: &'static str)
    ensures
        s@ == cond_name(i as int),
{
    match i {
        0 => "NZ",
        1 => "Z",
        2 => "NC",
        3 => "C",
        4 => "PO",
        5 => "PE",
        6 => "P",
        _ => "M",
    }
}

fn alu(i: u8) -> (s: &'static str)
    ensures
        s@ == alu_name(i as int),
{
    match i {
        0 => "ADD ",
        1 => "ADC ",
        2 => "SUB ",
        3 => "SBC ",
        4 => "AND ",
        5 => "XOR ",
        6 => "OR ",
        _ => "CP ",
    }
}

fn alu_immediate(i: u8) -> (s: &'static str)
    ensures
        s@ == alu_immediate_name(i as int),
{
    match i {
        0 => "ADD A,0x",
        1 => "ADC A,0x",
        2 => "SUB 0x",
        3 => "SBC A,0x",
        4 => "AND 0x",
        5 => "XOR 0x",
        6 => "OR 0x",
        _ => "CP 0x",
    }
}

fn alu_indexed(i: u8) -> (s: &'static str)
    ensures
        s@ == alu_indexed_name(i as int),
{
    match i {
        0 => "ADD A,(",
        1 => "ADC A,(",
        2 => "SUB (",
        3 => "SBC A,(",
        4 => "AND (",
        5 => "XOR (",
        6 => "OR (",
        _ => "CP (",
    }
}

fn rotation(i: u8) -> (s: &'static str)
    ensures
        s@ == rotation_name(i as int),
{
    match i {
        0 => "RLC ",
        1 => "RRC ",
        2 => "RL ",
        3 => "RR ",
        4 => "SLA ",
        5 => "SRA ",
        6 => "SLL ",
        _ => "SRL ",
    }
}

fn bit_op(group: u8) -> (s: &'static str)
    ensures
        s@ == bit_op_name(group as int),
{
    match group {
        1 => "BIT ",
        2 => "RES ",
        _ => "SET ",
    }
}

fn index_reg(prefix: u8) -> (s: &'static str)
    ensures
        s@ == index_name(prefix),
{
    if prefix == 0xDD {
        "IX"
    } else {
        "IY"
    }
}

fn index_pair(prefix: u8, i: u8) -> (s: &'static str)
    ensures
        s@ == index_pair_name(prefix, i as int),
{
    match i {
        0 => "BC",
        1 => "DE",
        2 => index_reg(prefix),
        _ => "SP",
    }
}

fn operand(low: u8, high: u8) -> (w: u16)
    ensures
        w == operand_word(low, high),
{
    high as u16 * 256 + low as u16
}

fn target(pc: u16, d: u8) -> (t: u16)
    ensures
        t == relative_target(pc, d),
{
    let next = pc.wrapping_add(2);
    if d < 128 {
        next.wrapping_add(d as u16)
    } else {
        next.wrapping_sub(256 - d as u16)
    }
}

fn decode_db(b0: u8) -> (s: String)
    ensures
        s@ == db_text(b0),
{
    let mut s = String::from_str("DB 0x");
    push_hex2(&mut s, b0);
    s
}

fn decode_db2(b0: u8, b1: u8) -> (s: String)
    ensures
        s@ == db2_text(b0, b1),
{
    let mut s = around_hex2("DB 0x", b0, ",0x");
    push_hex2(&mut s, b1);
    s
}

fn base_len(b0: u8) -> (n: u8)
    ensures
        n == base_length(b0),
{
    if b0 < 0x40 {
        if b0 % 16 == 1 || b0 == 0x22 || b0 == 0x2A || b0 == 0x32 || b0 == 0x3A {
            3
        } else if b0 % 8 == 6 || b0 == 0x10 || b0 == 0x18 || (b0 >= 0x20 && b0 % 8 == 0) {
            2
        } else {
            1
        }
    } else if b0 < 0xC0 {
        1
    } else if b0 % 8 == 2 || b0 % 8 == 4 || b0 == 0xC3 || b0 == 0xCD {
        3
    } else if b0 % 8 == 6 || b0 == 0xD3 || b0 == 0xDB {
        2
    } else {
        1
    }
}

fn ed_len(b1: u8) -> (n: u8)
    ensures
        n == ed_length(b1),
{
    if 0x40 <= b1 && b1 < 0x80 && (b1 % 16 == 3 || b1 % 16 == 11) {
        4
    } else {
        2
    }
}

fn index_len(b1: u8) -> (n: u8)
    ensures
        n == index_length(b1),
{
    if b1 == 0x21 || b1 == 0x22 || b1 == 0x2A || b1 == 0x36 || b1 == 0xCB {
        4
    } else if b1 == 0x34 || b1 == 0x35 || (0x40 <= b1 && b1 < 0xC0 && (b1 % 8 == 6 || b1 / 8
        == 14)) {
        3
    } else {
        2
    }
}

/// Decodes the quarter of the opcodes below 0x40: loads of constants,
/// 16-bit arithmetic, increments, relative jumps.
fn decode_low(b0: u8, b1: u8, b2: u8, pc: u16) -> (s: String)
    requires
        0 < b0 < 0x40,
    ensures
        s@ == base_text(b0, b1, b2, pc),
{
    let pair = (b0 / 16) % 4;
    let reg = (b0 / 8) % 8;
    let nn = operand(b1, b2);
    if b0 % 16 == 1 {
        let mut s = join3("LD ", rp(pair), ",0x");
        push_hex4(&mut s, nn);
        s
    } else if b0 % 16 == 9 {
        join2("ADD HL,", rp(pair))
    } else if b0 % 16 == 3 {
        join2("INC ", rp(pair))
    } else if b0 % 16 == 11 {
        join2("DEC ", rp(pair))
    } else if b0 % 8 == 4 {
        join2("INC ", regs(reg))
    } else if b0 % 8 == 5 {
        join2("DEC ", regs(reg))
    } else if b0 % 8 == 6 {
        let mut s = join3("LD ", regs(reg), ",0x");
        push_hex2(&mut s, b1);
        s
    } else if b0 == 0x10 {
        let mut s = String::from_str("DJNZ 0x");
        push_hex4(&mut s, target(pc, b1));
        s
    } else if b0 == 0x18 {
        let mut s = String::from_str("JR 0x");
        push_hex4(&mut s, target(pc, b1));
        s
    } else if b0 >= 0x20 && b0 % 8 == 0 {
        let mut s = join3("JR ", conds(reg % 4), ",0x");
        push_hex4(&mut s, target(pc, b1));
        s
    } else if b0 == 0x22 {
        around_hex4("LD (0x", nn, "),HL")
    } else if b0 == 0x2A {
        around_hex4("LD HL,(0x", nn, ")")
    } else if b0 == 0x32 {
        around_hex4("LD (0x", nn, "),A")
    } else if b0 == 0x3A {
        around_hex4("LD A,(0x", nn, ")")
    } else {
        decode_db(b0)
    }
}

/// Decodes the quarter of the opcodes from 0xC0 on: returns, jumps, calls,
/// the stack, arithmetic with a constant, restarts, port access.
fn decode_high(b0: u8, b1: u8, b2: u8, pc: u16) -> (s: String)
    requires
        b0 >= 0xC0,
    ensures
        s@ == base_text(b0, b1, b2, pc),
{
    let pair = (b0 / 16) % 4;
    let reg = (b0 / 8) % 8;
    let nn = operand(b1, b2);
    if b0 % 8 == 0 {
        join2("RET ", conds(reg))
    } else if b0 % 16 == 1 {
        join2("POP ", rp2(pair))
    } else if b0 % 8 == 2 {
        let mut s = join3("JP ", conds(reg), ",0x");
        push_hex4(&mut s, nn);
        s
    } else if b0 == 0xC3 {
        let mut s = String::from_str("JP 0x");
        push_hex4(&mut s, nn);
        s
    } else if b0 % 8 == 4 {
        let mut s = join3("CALL ", conds(reg), ",0x");
        push_hex4(&mut s, nn);
        s
    } else if b0 % 16 == 5 {
        join2("PUSH ", rp2(pair))
    } else if b0 % 8 == 6 {
        let mut s = String::from_str(alu_immediate(reg));
        push_hex2(&mut s, b1);
        s
    } else if b0 % 8 == 7 {
        let mut s = String::from_str("RST 0x");
        push_hex4(&mut s, reg as u16 * 8);
        s
    } else if b0 == 0xC9 {
        String::from_str("RET")
    } else if b0 == 0xCD {
        let mut s = String::from_str("CALL 0x");
        push_hex4(&mut s, nn);
        s
    } else if b0 == 0xD3 {
        around_hex2("OUT (0x", b1, "),A")
    } else if b0 == 0xDB {
        around_hex2("IN A,(0x", b1, ")")
    } else if b0 == 0xD9 {
        String::from_str("EXX")
    } else if b0 == 0xE9 {
        String::from_str("JP (HL)")
    } else if b0 == 0xEB {
        String::from_str("EX DE,HL")
    } else if b0 == 0xF3 {
        String::from_str("DI")
    } else if b0 == 0xFB {
        String::from_str("EI")
    } else {
        decode_db(b0)
    }
}

/// Decodes an instruction without prefix.
fn decode_base(b0: u8, b1: u8, b2: u8, pc: u16) -> (s: String)
    ensures
        s@ == base_text(b0, b1, b2, pc),
{
    if b0 == 0x00 {
        String::from_str("NOP")
    } else if b0 < 0x40 {
        decode_low(b0, b1, b2, pc)
    } else if b0 < 0x80 {
        decode_ld_r_r_halt(b0)
    } else if b0 < 0xC0 {
        decode_alu_r(b0)
    } else {
        decode_high(b0, b1, b2, pc)
    }
}

fn decode_ld_r_r_halt(b0: u8) -> (s: String)
    requires
        0x40 <= b0 < 0x80,
    ensures
        s@ == base_text(b0, 0, 0, 0),
{
    if b0 == 0x76 {
        String::from_str("HALT")
    } else {
        join4("LD ", regs((b0 / 8) % 8), ",", regs(b0 % 8))
    }
}

fn decode_alu_r(b0: u8) -> (s: String)
    requires
        0x80 <= b0 < 0xC0,
    ensures
        s@ == base_text(b0, 0, 0, 0),
{
    join2(alu((b0 / 8) % 8), regs(b0 % 8))
}

/// Decodes an instruction with the ED prefix, from the byte after it.
fn decode_ed(b1: u8, b2: u8, b3: u8) -> (s: String)
    ensures
        s@ == ed_text(b1, b2, b3),
{
    let pair = (b1 / 16) % 4;
    let reg = (b1 / 8) % 8;
    let nn = operand(b2, b3);
    if 0x40 <= b1 && b1 < 0x80 {
        if b1 % 16 == 10 {
            join2("ADC HL,", rp(pair))
        } else if b1 % 16 == 2 {
            join2("SBC HL,", rp(pair))
        } else if b1 % 16 == 3 {
            let mut s = around_hex4("LD (0x", nn, "),");
            s.append(rp(pair));
            s
        } else if b1 % 16 == 11 {
            let mut s = join3("LD ", rp(pair), ",(0x");
            push_hex4(&mut s, nn);
            s.append(")");
            s
        } else if b1 == 0x46 {
            String::from_str("IM 0")
        } else if b1 == 0x56 {
            String::from_str("IM 1")
        } else if b1 == 0x5E {
            String::from_str("IM 2")
        } else if b1 == 0x45 {
            String::from_str("RETN")
        } else if b1 == 0x4D {
            String::from_str("RETI")
        } else if b1 % 8 == 4 {
            String::from_str("NEG")
        } else if b1 == 0x47 {
            String::from_str("LD I,A")
        } else if b1 == 0x4F {
            String::from_str("LD R,A")
        } else if b1 == 0x57 {
            String::from_str("LD A,I")
        } else if b1 == 0x5F {
            String::from_str("LD A,R")
        } else if b1 % 8 == 0 {
            join3("IN ", regs(reg), ",(C)")
        } else if b1 % 8 == 1 {
            join2("OUT (C),", regs(reg))
        } else if b1 == 0x67 {
            String::from_str("RRD")
        } else if b1 == 0x6F {
            String::from_str("RLD")
        } else {
            decode_db2(0xED, b1)
        }
    } else if b1 == 0xA2 {
        String::from_str("INI")
    } else if b1 == 0xAA {
        String::from_str("IND")
    } else if b1 == 0xB2 {
        String::from_str("INIR")
    } else if b1 == 0xBA {
        String::from_str("INDR")
    } else if b1 == 0xA3 {
        String::from_str("OUTI")
    } else if b1 == 0xAB {
        String::from_str("OUTD")
    } else if b1 == 0xB3 {
        String::from_str("OTIR")
    } else if b1 == 0xBB {
        String::from_str("OTDR")
    } else if b1 == 0x00 || b1 == 0xFF {
        String::from_str("NOP")
    } else {
        decode_db2(0xED, b1)
    }
}

/// Decodes an instruction with the CB prefix, from the byte after it.
fn decode_cb(op: u8) -> (s: String)
    ensures
        s@ == cb_text(op),
{
    let group = op / 64;
    let n = (op / 8) % 8;
    let r = op % 8;
    if group == 0 {
        join2(rotation(n), regs(r))
    } else {
        join4(bit_op(group), hex_str(n), ",", regs(r))
    }
}

/// Appends `IX+d)` or `IY+d)`.
fn push_indexed(s: &mut String, prefix: u8, d: u8)
    ensures
        final(s)@ == old(s)@ + indexed_operand(prefix, d),
{
    s.append(index_reg(prefix));
    push_signed(s, d);
    s.append(")");
    assert(s@ =~= old(s)@ + indexed_operand(prefix, d));
}

/// Decodes the four-byte forms `prefix CB d op`.
fn decode_index_cb(prefix: u8, d: u8, op: u8) -> (s: String)
    requires
        prefix == 0xDD || prefix == 0xFD,
    ensures
        s@ == index_text(prefix, 0xCB, d, op),
{
    let group = op / 64;
    let n = (op / 8) % 8;
    if group == 0 {
        let mut s = join2(rotation(n), "(");
        push_indexed(&mut s, prefix, d);
        s
    } else {
        let mut s = join3(bit_op(group), hex_str(n), ",(");
        push_indexed(&mut s, prefix, d);
        s
    }
}

/// Decodes an instruction with the DD or FD prefix, from the byte after it.
fn decode_index(prefix: u8, b1: u8, b2: u8, b3: u8) -> (s: String)
    requires
        prefix == 0xDD || prefix == 0xFD,
    ensures
        s@ == index_text(prefix, b1, b2, b3),
{
    let x = index_reg(prefix);
    let reg = (b1 / 8) % 8;
    let nn = operand(b2, b3);
    if b1 == 0x21 {
        let mut s = join3("LD ", x, ",0x");
        push_hex4(&mut s, nn);
        s
    } else if b1 == 0x22 {
        let mut s = around_hex4("LD (0x", nn, "),");
        s.append(x);
        s
    } else if b1 == 0x2A {
        let mut s = join3("LD ", x, ",(0x");
        push_hex4(&mut s, nn);
        s.append(")");
        s
    } else if b1 == 0x23 {
        join2("INC ", x)
    } else if b1 == 0x2B {
        join2("DEC ", x)
    } else if b1 < 0x40 && b1 % 16 == 9 {
        join4("ADD ", x, ",", index_pair(prefix, (b1 / 16) % 4))
    } else if b1 == 0xE5 {
        join2("PUSH ", x)
    } else if b1 == 0xE1 {
        join2("POP ", x)
    } else if b1 == 0xE3 {
        join2("EX (SP),", x)
    } else if b1 == 0xE9 {
        join3("JP (", x, ")")
    } else if b1 == 0xF9 {
        join2("LD SP,", x)
    } else if b1 == 0x34 {
        let mut s = String::from_str("INC (");
        push_indexed(&mut s, prefix, b2);
        s
    } else if b1 == 0x35 {
        let mut s = String::from_str("DEC (");
        push_indexed(&mut s, prefix, b2);
        s
    } else if b1 == 0x36 {
        let mut s = String::from_str("LD (");
        push_indexed(&mut s, prefix, b2);
        s.append(",0x");
        push_hex2(&mut s, b3);
        s
    } else if 0x70 <= b1 && b1 <= 0x77 {
        let mut s = String::from_str("LD (");
        push_indexed(&mut s, prefix, b2);
        s.append(",");
        s.append(regs(b1 % 8));
        s
    } else if 0x40 <= b1 && b1 < 0x80 && b1 % 8 == 6 {
        let mut s = join3("LD ", regs(reg), ",(");
        push_indexed(&mut s, prefix, b2);
        s
    } else if 0x80 <= b1 && b1 < 0xC0 && b1 % 8 == 6 {
        let mut s = String::from_str(alu_indexed(reg));
        push_indexed(&mut s, prefix, b2);
        s
    } else if b1 == 0xCB {
        decode_index_cb(prefix, b2, b3)
    } else {
        decode_db2(prefix, b1)
    }
}

/// Decodes an instruction with the DD prefix: the IX family.
fn decode_dd(b1: u8, b2: u8, b3: u8) -> (s: String)
    ensures
        s@ == index_text(0xDD, b1, b2, b3),
{
    decode_index(0xDD, b1, b2, b3)
}

/// Decodes an instruction with the FD prefix: the IY family.
fn decode_fd(b1: u8, b2: u8, b3: u8) -> (s: String)
    ensures
        s@ == index_text(0xFD, b1, b2, b3),
{
    decode_index(0xFD, b1, b2, b3)
}

fn peek(mem: &[u8], i: usize) -> (b: u8)
    ensures
        b == byte_or_zero(mem@, i as int),
{
    if i < mem.len() {
        mem[i]
    } else {
        0
    }
}

/// Disassembles the instruction at address `pc`. `mem` is a window of
/// memory whose first byte stands at address `base`. The result is the
/// mnemonic and the number of bytes of the instruction, from 1 to 4.
pub fn disassemble(mem: &[u8], pc: u16, base: u16) -> (r: (String, u8))
    ensures
        r.0@ == disassembled(mem@, pc, base).0,
        r.1 == disassembled(mem@, pc, base).1,
        1 <= r.1 <= 4,
        window_index(pc, base) < mem@.len() ==> window_index(pc, base) + r.1 <= mem@.len(),
{
    let index = pc.wrapping_sub(base) as usize;
    if index >= mem.len() {
        return (String::from_str("<fuera de memoria>"), 1);
    }
    let b0 = mem[index];
    let b1 = peek(mem, index + 1);
    let b2 = peek(mem, index + 2);
    let b3 = peek(mem, index + 3);
    let len = if b0 == 0xCB {
        2
    } else if b0 == 0xED {
        ed_len(b1)
    } else if b0 == 0xDD {
        index_len(b1)
    } else if b0 == 0xFD {
        index_len(b1)
    } else {
        base_len(b0)
    };
    if len as usize > mem.len() - index {
        return (decode_db(b0), 1);
    }
    let text = if b0 == 0xCB {
        decode_cb(b1)
    } else if b0 == 0xED {
        decode_ed(b1, b2, b3)
    } else if b0 == 0xDD {
        decode_dd(b1, b2, b3)
    } else if b0 == 0xFD {
        decode_fd(b1, b2, b3)
    } else {
        decode_base(b0, b1, b2, pc)
    };
    (text, len)
}

/// The length that the disassembler gives lies between 1 and 4, and an
/// instruction inside the window ends inside it.
pub proof fn lemma_length_in_window(mem: Seq<u8>, pc: u16, base: u16)
    ensures
        1 <= disassembled(mem, pc, base).1 <= 4,
        window_index(pc, base) < mem.len() ==> window_index(pc, base) + disassembled(
            mem,
            pc,
            base,
        ).1 <= mem.len(),
{
}

/// The length of an instruction does not depend on where it stands: only
/// the text of a relative jump does.
pub proof fn lemma_length_position_independent(
    mem: Seq<u8>,
    pc: u16,
    base: u16,
    pc2: u16,
    base2: u16,
)
    requires
        window_index(pc, base) == window_index(pc2, base2),
    ensures
        disassembled(mem, pc, base).1 == disassembled(mem, pc2, base2).1,
{
}

} // verus!
