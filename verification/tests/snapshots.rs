use std::collections::HashMap;
use zx_spectrum::bin::load_bin;
use zx_spectrum::cpu_exec::CpuRunState;
use zx_spectrum::engine::{new_engine, read, registers, set_rom_range, write_range};
use zx_spectrum::error::LoadError;
use zx_spectrum::load::{file_kind, load_file, load_rom, LoadResult};
use zx_spectrum::sna::{apply_sna, SnaSnapshot};
use zx_spectrum::z80::{
    apply_z80, apply_z80_v23, read_extended_header, read_ram_blocks, rle_decode, Z80Snapshot,
    Z80SnapshotV23,
};

fn sna_file() -> Vec<u8> {
    let mut data = vec![0u8; 49179];
    data[0] = 0x3F; // I
    data[1..9].copy_from_slice(&[0x01, 0x02, 0x03, 0x04, 0x05, 0x06, 0x07, 0x08]); // HL' DE' BC' AF'
    data[9..15].copy_from_slice(&[0x11, 0x12, 0x13, 0x14, 0x15, 0x16]); // HL DE BC
    data[15..19].copy_from_slice(&[0x3A, 0x5C, 0x21, 0x22]); // IY IX
    data[19] = 0x04; // IFF2
    data[20] = 0x7E; // R
    data[21..23].copy_from_slice(&[0x31, 0x32]); // AF
    data[23..25].copy_from_slice(&[0x00, 0x80]); // SP = 0x8000
    data[25] = 0x01; // IM
    data[26] = 0x05; // border
    // the stack of the image holds the program counter 0x9ABC
    data[27 + 0x4000] = 0xBC;
    data[27 + 0x4001] = 0x9A;
    data[27] = 0xAA; // first byte of RAM
    data[49178] = 0x55; // last byte of RAM
    data
}

#[test]
fn sna_header_is_read_field_by_field() {
    let s = SnaSnapshot::load(&sna_file()).unwrap();
    assert_eq!(s.i, 0x3F);
    assert_eq!(s.hl_, 0x0201);
    assert_eq!(s.de_, 0x0403);
    assert_eq!(s.bc_, 0x0605);
    assert_eq!(s.af_, 0x0807);
    assert_eq!(s.hl, 0x1211);
    assert_eq!(s.de, 0x1413);
    assert_eq!(s.bc, 0x1615);
    assert_eq!(s.iy, 0x5C3A);
    assert_eq!(s.ix, 0x2221);
    assert!(s.iff2);
    assert_eq!(s.r, 0x7E);
    assert_eq!(s.af, 0x3231);
    assert_eq!(s.sp, 0x8000);
    assert_eq!(s.im, 1);
    assert_eq!(s.border, 5);
    assert_eq!(s.ram.len(), 49152);
    assert_eq!(s.ram[0], 0xAA);
    assert_eq!(s.ram[49151], 0x55);
}

#[test]
fn sna_of_any_other_size_is_refused() {
    assert_eq!(SnaSnapshot::load(&[]).err(), Some(LoadError::SizeMismatch));
    assert_eq!(SnaSnapshot::load(&vec![0u8; 49178]).err(), Some(LoadError::SizeMismatch));
    assert_eq!(SnaSnapshot::load(&vec![0u8; 49180]).err(), Some(LoadError::SizeMismatch));
    assert!(SnaSnapshot::load(&vec![0u8; 49179]).is_ok());
}

#[test]
fn sna_round_trip() {
    let mut cpu = new_engine();
    write_range(&mut cpu, 0x0000, &[0xF3, 0xAF]);
    let mut run = CpuRunState::new();
    run.halted = true;
    run.t_states = 12345;
    run.iff1_pending = true;
    run.allow_interrupts = false;
    let s = SnaSnapshot::load(&sna_file()).unwrap();
    apply_sna(&mut cpu, &mut run, &s);

    let r = registers(&cpu);
    assert_eq!(r.i, 0x3F);
    assert_eq!(r.hl_, 0x0201);
    assert_eq!(r.de_, 0x0403);
    assert_eq!(r.bc_, 0x0605);
    assert_eq!(r.af_, 0x0807);
    assert_eq!(r.hl, 0x1211);
    assert_eq!(r.de, 0x1413);
    assert_eq!(r.bc, 0x1615);
    assert_eq!(r.iy, 0x5C3A);
    assert_eq!(r.ix, 0x2221);
    assert_eq!(r.r, 0x7E);
    assert_eq!(r.af, 0x3231);
    // the program counter was popped from the image's stack
    assert_eq!(r.pc, 0x9ABC);
    assert_eq!(r.sp, 0x8002);
    assert_eq!(read(&cpu, 0x8000), (r.pc & 0xFF) as u8);
    assert_eq!(read(&cpu, 0x8001), (r.pc >> 8) as u8);

    assert_eq!(read(&cpu, 0x4000), 0xAA);
    assert_eq!(read(&cpu, 0xFFFF), 0x55);
    assert_eq!(read(&cpu, 0x0000), 0xF3);
    assert_eq!(read(&cpu, 0x0001), 0xAF);

    assert!(run.iff1);
    assert!(!run.iff1_pending);
    assert_eq!(run.im, 1);
    assert!(!run.halted);
    assert!(run.allow_interrupts);
    assert_eq!(run.t_states, 0);

    // the ROM is protected after the load
    zx_spectrum::engine::write(&mut cpu, 0x0000, 0x00);
    zx_spectrum::engine::write(&mut cpu, 0x3FFF, 0x99);
    assert_eq!(read(&cpu, 0x0000), 0xF3);
    assert_eq!(read(&cpu, 0x3FFF), 0x00);
    zx_spectrum::engine::write(&mut cpu, 0x4000, 0x11);
    assert_eq!(read(&cpu, 0x4000), 0x11);
}

#[test]
fn sna_stack_at_the_top_wraps() {
    let mut data = sna_file();
    data[23..25].copy_from_slice(&[0xFF, 0xFF]);
    data[49178] = 0x34;
    let mut cpu = new_engine();
    write_range(&mut cpu, 0x0000, &[0x12]);
    let mut run = CpuRunState::new();
    apply_sna(&mut cpu, &mut run, &SnaSnapshot::load(&data).unwrap());
    let r = registers(&cpu);
    assert_eq!(r.pc, 0x1234);
    assert_eq!(r.sp, 0x0001);
}

fn z80_header(pc: u16, flags: u8) -> Vec<u8> {
    let mut h = vec![0u8; 30];
    h[0] = 0x12; // A
    h[1] = 0x34; // F
    h[2..6].copy_from_slice(&[0x56, 0x78, 0x9A, 0xBC]); // BC HL
    h[6] = (pc & 0xFF) as u8;
    h[7] = (pc >> 8) as u8;
    h[8..10].copy_from_slice(&[0xFE, 0xFF]); // SP
    h[10] = 0x3F; // I
    h[11] = 0x21; // R
    h[12] = flags;
    h[13..15].copy_from_slice(&[0x01, 0x02]); // DE
    h[15..21].copy_from_slice(&[0x03, 0x04, 0x05, 0x06, 0x07, 0x08]); // BC' DE' HL'
    h[21] = 0xA1; // A'
    h[22] = 0xF1; // F'
    h[23..27].copy_from_slice(&[0x3A, 0x5C, 0x10, 0x20]); // IY IX
    h[27] = 1; // IFF1
    h[28] = 0; // IFF2
    h[29] = 0x06; // IM in the low two bits
    h
}

fn check_z80_header(s: &Z80Snapshot, pc: u16) {
    assert_eq!(s.af, 0x1234);
    assert_eq!(s.bc, 0x7856);
    assert_eq!(s.hl, 0xBC9A);
    assert_eq!(s.pc, pc);
    assert_eq!(s.sp, 0xFFFE);
    assert_eq!(s.i, 0x3F);
    assert_eq!(s.r, 0x21);
    assert_eq!(s.de, 0x0201);
    assert_eq!(s.bc_, 0x0403);
    assert_eq!(s.de_, 0x0605);
    assert_eq!(s.hl_, 0x0807);
    assert_eq!(s.af_, 0xA1F1);
    assert_eq!(s.iy, 0x5C3A);
    assert_eq!(s.ix, 0x2010);
    assert!(s.iff1);
    assert!(!s.iff2);
    assert_eq!(s.im, 2);
}

#[test]
fn z80_v1_plain() {
    let mut data = z80_header(0x8000, 0x05);
    let mut ram = vec![0u8; 49152];
    ram[0] = 0x11;
    ram[49151] = 0x99;
    data.extend_from_slice(&ram);
    let s = Z80Snapshot::load(&data).unwrap();
    check_z80_header(&s, 0x8000);
    assert_eq!(s.border, 5);
    assert_eq!(s.ram, ram);
}

#[test]
fn z80_v1_plain_cut_short() {
    let mut data = z80_header(0x8000, 0x00);
    data.extend_from_slice(&vec![0u8; 49151]);
    assert_eq!(Z80Snapshot::load(&data).err(), Some(LoadError::TruncatedBlock));
}

#[test]
fn z80_v1_compressed() {
    let mut data = z80_header(0x6000, 0x20 | 0x02);
    // 1 + 255*192 + 190 + 1 = 49152 bytes
    data.push(0x11);
    for _ in 0..192 {
        data.extend_from_slice(&[0xED, 0xED, 0xFF, 0x22]);
    }
    data.extend_from_slice(&[0xED, 0xED, 190, 0x33]);
    data.push(0x99);
    // the end marker, which is never decoded
    data.extend_from_slice(&[0x00, 0xED, 0xED, 0x00]);
    let s = Z80Snapshot::load(&data).unwrap();
    check_z80_header(&s, 0x6000);
    assert_eq!(s.border, 2);
    assert_eq!(s.ram.len(), 49152);
    assert_eq!(s.ram[0], 0x11);
    assert_eq!(s.ram[1], 0x22);
    assert_eq!(s.ram[255 * 192], 0x22);
    assert_eq!(s.ram[255 * 192 + 1], 0x33);
    assert_eq!(s.ram[49150], 0x33);
    assert_eq!(s.ram[49151], 0x99);
}

#[test]
fn z80_v1_compressed_stops_at_48k() {
    let mut data = z80_header(0x6000, 0x20);
    for _ in 0..193 {
        data.extend_from_slice(&[0xED, 0xED, 0xFF, 0x44]);
    }
    let s = Z80Snapshot::load(&data).unwrap();
    assert_eq!(s.ram.len(), 49152);
    assert!(s.ram.iter().all(|b| *b == 0x44));
}

#[test]
fn z80_v1_compressed_cut_short() {
    let mut data = z80_header(0x6000, 0x20);
    for _ in 0..192 {
        data.extend_from_slice(&[0xED, 0xED, 0xFF, 0x44]);
    }
    assert_eq!(Z80Snapshot::load(&data).err(), Some(LoadError::TruncatedBlock));
}

#[test]
fn z80_shorter_than_its_header() {
    assert_eq!(Z80Snapshot::load(&[]).err(), Some(LoadError::TruncatedHeader));
    assert_eq!(Z80Snapshot::load(&vec![0u8; 29]).err(), Some(LoadError::TruncatedHeader));
    // a header with PC = 0 wants an extended header
    assert_eq!(Z80Snapshot::load(&vec![0u8; 30]).err(), Some(LoadError::TruncatedHeader));
    assert_eq!(Z80Snapshot::load(&vec![0u8; 33]).err(), Some(LoadError::TruncatedHeader));
}

fn z80_v2(blocks: &[(u8, Vec<u8>, bool)]) -> Vec<u8> {
    let mut data = z80_header(0, 0x01);
    data.extend_from_slice(&[23, 0]); // extended header of 23 bytes
    data.extend_from_slice(&[0xCD, 0xAB]); // PC = 0xABCD
    data.extend_from_slice(&[0u8; 21]);
    for (page, body, raw) in blocks {
        if *raw {
            data.extend_from_slice(&[0xFF, 0xFF]);
        } else {
            data.extend_from_slice(&[(body.len() & 0xFF) as u8, (body.len() >> 8) as u8]);
        }
        data.push(*page);
        data.extend_from_slice(body);
    }
    data
}

fn packed_page(value: u8) -> Vec<u8> {
    // 64 runs of 255 and one of 64: 16384 bytes
    let mut body = Vec::new();
    for _ in 0..64 {
        body.extend_from_slice(&[0xED, 0xED, 0xFF, value]);
    }
    body.extend_from_slice(&[0xED, 0xED, 64, value]);
    body
}

#[test]
fn z80_v2_pages_go_to_their_place() {
    let mut raw = vec![0x88u8; 16384];
    raw[0] = 0x80;
    raw[16383] = 0x8F;
    let data = z80_v2(&[
        (4, packed_page(0x44), false),
        (8, raw, true),
        (5, packed_page(0x55), false),
        (3, packed_page(0x33), false),
    ]);
    let s = Z80Snapshot::load(&data).unwrap();
    check_z80_header(&s, 0xABCD);
    assert_eq!(s.border, 1);
    assert_eq!(s.ram.len(), 49152);
    // page 8 is the RAM from 0x4000, page 4 from 0x8000, page 5 from 0xC000
    assert_eq!(s.ram[0x0000], 0x80);
    assert_eq!(s.ram[0x3FFF], 0x8F);
    assert_eq!(s.ram[0x4000], 0x44);
    assert_eq!(s.ram[0x7FFF], 0x44);
    assert_eq!(s.ram[0x8000], 0x55);
    assert_eq!(s.ram[0xBFFF], 0x55);

    let mut cpu = new_engine();
    let mut run = CpuRunState::new();
    apply_z80(&mut cpu, &mut run, &s);
    assert_eq!(read(&cpu, 0x4000), 0x80);
    assert_eq!(read(&cpu, 0x7FFF), 0x8F);
    assert_eq!(read(&cpu, 0x8000), 0x44);
    assert_eq!(read(&cpu, 0xC000), 0x55);
    assert_eq!(read(&cpu, 0xFFFF), 0x55);
    let r = registers(&cpu);
    assert_eq!(r.pc, 0xABCD);
    assert_eq!(r.sp, 0xFFFE);
    assert_eq!(r.af, 0x1234);
    assert_eq!(r.ix, 0x2010);
    assert_eq!(r.iy, 0x5C3A);
    assert_eq!(r.af_, 0xA1F1);
    assert!(run.iff1);
    assert_eq!(run.im, 2);
    assert!(run.allow_interrupts);
    assert_eq!(run.t_states, 0);
}

#[test]
fn z80_v2_missing_pages_are_zero() {
    let data = z80_v2(&[(5, packed_page(0x55), false)]);
    let s = Z80Snapshot::load(&data).unwrap();
    assert!(s.ram[..0x8000].iter().all(|b| *b == 0));
    assert!(s.ram[0x8000..].iter().all(|b| *b == 0x55));
}

#[test]
fn z80_v2_last_block_of_a_page_wins() {
    let data = z80_v2(&[(4, packed_page(0x41), false), (4, packed_page(0x42), false)]);
    let s = Z80Snapshot::load(&data).unwrap();
    assert!(s.ram[0x4000..0x8000].iter().all(|b| *b == 0x42));
}

#[test]
fn z80_v2_block_errors() {
    // a block that the file cuts short
    let mut data = z80_v2(&[(4, packed_page(0x44), false)]);
    data.pop();
    assert_eq!(Z80Snapshot::load(&data).err(), Some(LoadError::TruncatedBlock));
    let mut data = z80_v2(&[(4, vec![0u8; 16384], true)]);
    data.pop();
    assert_eq!(Z80Snapshot::load(&data).err(), Some(LoadError::TruncatedBlock));
    // a block that unpacks to another size
    let data = z80_v2(&[(4, vec![0xED, 0xED, 0x10, 0x00], false)]);
    assert_eq!(Z80Snapshot::load(&data).err(), Some(LoadError::SizeMismatch));
    let mut long = packed_page(0x44);
    long.push(0x00);
    let data = z80_v2(&[(4, long, false)]);
    assert_eq!(Z80Snapshot::load(&data).err(), Some(LoadError::SizeMismatch));
    // an extended header longer than the file
    let mut data = z80_header(0, 0);
    data.extend_from_slice(&[23, 0, 0xCD, 0xAB]);
    assert_eq!(Z80Snapshot::load(&data).err(), Some(LoadError::TruncatedHeader));
    // one or two bytes behind the last block are no block
    let mut data = z80_v2(&[(4, packed_page(0x44), false)]);
    data.extend_from_slice(&[0x01, 0x02]);
    assert!(Z80Snapshot::load(&data).is_ok());
    // no block at all
    assert!(Z80Snapshot::load(&z80_v2(&[])).is_ok());
}

#[test]
fn extended_header_tells_where_the_pages_begin() {
    let data = z80_v2(&[]);
    assert_eq!(read_extended_header(&data), Ok((55, 0xABCD)));
    let mut v3 = z80_header(0, 0);
    v3.extend_from_slice(&[54, 0, 0x34, 0x12]);
    v3.extend_from_slice(&[0u8; 52]);
    assert_eq!(read_extended_header(&v3), Ok((86, 0x1234)));
    v3.pop();
    assert_eq!(read_extended_header(&v3), Err(LoadError::TruncatedHeader));
}

#[test]
fn blocks_are_read_into_pages() {
    let data = z80_v2(&[(4, packed_page(0x44), false), (9, packed_page(0x99), false)]);
    let pages = read_ram_blocks(&data, 55).unwrap();
    assert_eq!(pages.len(), 2);
    assert_eq!(pages[&4], vec![0x44; 16384]);
    assert_eq!(pages[&9], vec![0x99; 16384]);
}

#[test]
fn run_length_decoding() {
    assert_eq!(rle_decode(&[], 100), Vec::<u8>::new());
    assert_eq!(rle_decode(&[1, 2, 3], 100), vec![1, 2, 3]);
    assert_eq!(rle_decode(&[0xED, 0xED, 3, 7], 100), vec![7, 7, 7]);
    assert_eq!(rle_decode(&[1, 0xED, 0xED, 2, 9, 4], 100), vec![1, 9, 9, 4]);
    // a single 0xED stands for itself
    assert_eq!(rle_decode(&[0xED, 5, 0xED], 100), vec![0xED, 5, 0xED]);
    // two 0xED without count and value stand for themselves
    assert_eq!(rle_decode(&[0xED, 0xED], 100), vec![0xED, 0xED]);
    assert_eq!(rle_decode(&[0xED, 0xED, 5], 100), vec![0xED, 0xED, 5]);
    // a run of nothing
    assert_eq!(rle_decode(&[0xED, 0xED, 0, 7, 8], 100), vec![8]);
    // a run of 0xED
    assert_eq!(rle_decode(&[0xED, 0xED, 2, 0xED], 100), vec![0xED, 0xED]);
    // three 0xED: the first two with the next two bytes make a run
    assert_eq!(rle_decode(&[0xED, 0xED, 0xED, 2], 1000), vec![2; 0xED]);
    // the output stops at the cap
    assert_eq!(rle_decode(&[1, 2, 3], 2), vec![1, 2]);
    assert_eq!(rle_decode(&[1, 0xED, 0xED, 9, 7, 3], 4), vec![1, 7, 7, 7]);
    assert_eq!(rle_decode(&[1, 2, 3], 0), Vec::<u8>::new());
}

fn v23(pages: &[(u8, u8)]) -> Z80SnapshotV23 {
    let mut ram_pages = HashMap::new();
    for (page, value) in pages {
        ram_pages.insert(*page, vec![*value; 16384]);
    }
    Z80SnapshotV23 {
        af: 0x0102,
        bc: 0x0304,
        de: 0x0506,
        hl: 0x0708,
        af_: 0x1112,
        bc_: 0x1314,
        de_: 0x1516,
        hl_: 0x1718,
        ix: 0x2122,
        iy: 0x2324,
        sp: 0x3132,
        pc: 0x3334,
        i: 0x41,
        r: 0x42,
        iff1: false,
        iff2: true,
        im: 1,
        border: 3,
        ram_pages,
    }
}

#[test]
fn v23_becomes_v1() {
    let s = Z80Snapshot::from_v23(v23(&[(4, 0x44), (5, 0x55), (8, 0x88), (0, 0x10)]));
    assert_eq!(s.af, 0x0102);
    assert_eq!(s.bc, 0x0304);
    assert_eq!(s.de, 0x0506);
    assert_eq!(s.hl, 0x0708);
    assert_eq!(s.af_, 0x1112);
    assert_eq!(s.bc_, 0x1314);
    assert_eq!(s.de_, 0x1516);
    assert_eq!(s.hl_, 0x1718);
    assert_eq!(s.ix, 0x2122);
    assert_eq!(s.iy, 0x2324);
    assert_eq!(s.sp, 0x3132);
    assert_eq!(s.pc, 0x3334);
    assert_eq!(s.i, 0x41);
    assert_eq!(s.r, 0x42);
    assert!(!s.iff1);
    assert!(s.iff2);
    assert_eq!(s.im, 1);
    assert_eq!(s.border, 3);
    assert_eq!(s.ram.len(), 49152);
    assert!(s.ram[..0x4000].iter().all(|b| *b == 0x88));
    assert!(s.ram[0x4000..0x8000].iter().all(|b| *b == 0x44));
    assert!(s.ram[0x8000..].iter().all(|b| *b == 0x55));
}

#[test]
fn v23_applied_leaves_memory_without_a_page_alone() {
    let mut cpu = new_engine();
    write_range(&mut cpu, 0x0000, &[0xF3]);
    write_range(&mut cpu, 0x4000, &[0x01]);
    write_range(&mut cpu, 0xC000, &[0x02]);
    let mut run = CpuRunState::new();
    run.halted = true;
    apply_z80_v23(&mut cpu, &mut run, &v23(&[(4, 0x44), (7, 0x77)]));
    assert_eq!(read(&cpu, 0x0000), 0xF3);
    assert_eq!(read(&cpu, 0x4000), 0x01);
    assert_eq!(read(&cpu, 0x8000), 0x44);
    assert_eq!(read(&cpu, 0xBFFF), 0x44);
    assert_eq!(read(&cpu, 0xC000), 0x02);
    let r = registers(&cpu);
    assert_eq!(r.pc, 0x3334);
    assert_eq!(r.sp, 0x3132);
    assert_eq!(r.hl_, 0x1718);
    assert!(!run.iff1);
    assert!(!run.halted);
    assert_eq!(run.im, 1);
    zx_spectrum::engine::write(&mut cpu, 0x0000, 0x00);
    assert_eq!(read(&cpu, 0x0000), 0xF3);
}

#[test]
fn bin_without_header_goes_to_0x8000() {
    let mut cpu = new_engine();
    let mut run = CpuRunState::new();
    run.halted = true;
    run.t_states = 99;
    run.im = 2;
    assert_eq!(load_bin(&mut cpu, &mut run, &[0x3E, 0x42, 0x76, 0x00, 0x01]), Ok(()));
    assert_eq!(read(&cpu, 0x8000), 0x3E);
    assert_eq!(read(&cpu, 0x8004), 0x01);
    assert_eq!(read(&cpu, 0x8005), 0x00);
    assert_eq!(registers(&cpu).pc, 0x8000);
    assert!(!run.halted);
    assert!(!run.allow_interrupts);
    assert!(!run.iff1);
    assert!(!run.iff1_pending);
    assert_eq!(run.im, 1);
    assert_eq!(run.t_states, 0);
}

#[test]
fn bin_with_header_goes_where_it_says() {
    let mut cpu = new_engine();
    let mut run = CpuRunState::new();
    let file = [b'Z', b'X', 0x00, 0x60, 0x02, 0x60, 0x03, 0x00, 0xEE, 0xEE, 0x11, 0x22, 0x33, 0x44];
    assert_eq!(load_bin(&mut cpu, &mut run, &file), Ok(()));
    assert_eq!(read(&cpu, 0x5FFF), 0x00);
    assert_eq!(read(&cpu, 0x6000), 0x11);
    assert_eq!(read(&cpu, 0x6001), 0x22);
    assert_eq!(read(&cpu, 0x6002), 0x33);
    // the code has three bytes, whatever follows them
    assert_eq!(read(&cpu, 0x6003), 0x00);
    assert_eq!(registers(&cpu).pc, 0x6002);
    assert!(!run.allow_interrupts);
}

#[test]
fn bin_that_is_refused_changes_nothing() {
    let mut cpu = new_engine();
    let mut run = CpuRunState::new();
    run.t_states = 7;
    assert_eq!(load_bin(&mut cpu, &mut run, &[1, 2, 3]), Err(LoadError::TruncatedHeader));
    assert_eq!(
        load_bin(&mut cpu, &mut run, &[b'Z', b'X', 0, 0x60, 0, 0x60, 1, 0, 0]),
        Err(LoadError::TruncatedHeader)
    );
    assert_eq!(
        load_bin(&mut cpu, &mut run, &[b'Z', b'X', 0, 0x60, 0, 0x60, 2, 0, 0, 0, 0x11]),
        Err(LoadError::TruncatedBlock)
    );
    assert_eq!(read(&cpu, 0x6000), 0);
    assert_eq!(read(&cpu, 0x8000), 0);
    assert_eq!(registers(&cpu).pc, 0);
    assert_eq!(run.t_states, 7);
    assert!(run.allow_interrupts);
}

#[test]
fn bin_does_not_write_into_the_rom() {
    let mut cpu = new_engine();
    set_rom_range(&mut cpu, 0x0000, 0x3FFF);
    let mut run = CpuRunState::new();
    let file = [b'Z', b'X', 0xFE, 0x3F, 0x00, 0x40, 0x04, 0x00, 0, 0, 0x11, 0x22, 0x33, 0x44];
    assert_eq!(load_bin(&mut cpu, &mut run, &file), Ok(()));
    assert_eq!(read(&cpu, 0x3FFE), 0x00);
    assert_eq!(read(&cpu, 0x3FFF), 0x00);
    assert_eq!(read(&cpu, 0x4000), 0x33);
    assert_eq!(read(&cpu, 0x4001), 0x44);
}

#[test]
fn extensions_are_read_in_either_case() {
    assert_eq!(file_kind("rom"), Some(LoadResult::Rom));
    assert_eq!(file_kind("ROM"), Some(LoadResult::Rom));
    assert_eq!(file_kind("Sna"), Some(LoadResult::Sna));
    assert_eq!(file_kind("z80"), Some(LoadResult::Z80));
    assert_eq!(file_kind("Z80"), Some(LoadResult::Z80));
    assert_eq!(file_kind("bIn"), Some(LoadResult::Bin));
    assert_eq!(file_kind(""), None);
    assert_eq!(file_kind("tap"), None);
    assert_eq!(file_kind("roms"), None);
    assert_eq!(file_kind("ro"), None);
    assert_eq!(file_kind(".rom"), None);
    assert_eq!(file_kind("z\u{18}0"), None);
    assert_eq!(file_kind("zx0"), None);
}

#[test]
fn rom_of_16k_is_loaded_and_protected() {
    let mut cpu = new_engine();
    let mut run = CpuRunState::new();
    run.halted = true;
    run.t_states = 5;
    run.allow_interrupts = false;
    let mut rom = vec![0x00u8; 16384];
    rom[0] = 0xF3;
    rom[16383] = 0x3C;
    assert_eq!(load_rom(&mut cpu, &mut run, &rom), Ok(()));
    assert_eq!(read(&cpu, 0x0000), 0xF3);
    assert_eq!(read(&cpu, 0x3FFF), 0x3C);
    assert_eq!(registers(&cpu).pc, 0);
    assert!(!run.halted);
    assert!(run.allow_interrupts);
    assert_eq!(run.t_states, 0);
    zx_spectrum::engine::write(&mut cpu, 0x0000, 0x00);
    assert_eq!(read(&cpu, 0x0000), 0xF3);
    // a second ROM replaces the first
    rom[0] = 0xAF;
    assert_eq!(load_rom(&mut cpu, &mut run, &rom), Ok(()));
    assert_eq!(read(&cpu, 0x0000), 0xAF);
    assert_eq!(load_rom(&mut cpu, &mut run, &rom[..16383]), Err(LoadError::SizeMismatch));
    assert_eq!(load_rom(&mut cpu, &mut run, &[]), Err(LoadError::SizeMismatch));
    assert_eq!(read(&cpu, 0x0000), 0xAF);
}

#[test]
fn files_are_loaded_by_their_extension() {
    let mut cpu = new_engine();
    let mut run = CpuRunState::new();
    assert_eq!(load_file(&mut cpu, &mut run, "tap", &[0; 100]), Err(LoadError::UnsupportedFormat));
    assert_eq!(load_file(&mut cpu, &mut run, "rom", &[0; 100]), Err(LoadError::SizeMismatch));
    assert_eq!(load_file(&mut cpu, &mut run, "sna", &[0; 100]), Err(LoadError::SizeMismatch));
    assert_eq!(load_file(&mut cpu, &mut run, "z80", &[0; 10]), Err(LoadError::TruncatedHeader));
    assert_eq!(load_file(&mut cpu, &mut run, "bin", &[0; 3]), Err(LoadError::TruncatedHeader));
    assert_eq!(registers(&cpu).pc, 0);
    assert_eq!(read(&cpu, 0x8000), 0);

    assert_eq!(load_file(&mut cpu, &mut run, "ROM", &vec![0xC9; 16384]), Ok(LoadResult::Rom));
    assert_eq!(read(&cpu, 0x3FFF), 0xC9);
    assert!(run.allow_interrupts);

    assert_eq!(load_file(&mut cpu, &mut run, "BIN", &[0x76, 0, 0, 0]), Ok(LoadResult::Bin));
    assert_eq!(registers(&cpu).pc, 0x8000);
    assert!(!run.allow_interrupts);

    assert_eq!(load_file(&mut cpu, &mut run, "sna", &sna_file()), Ok(LoadResult::Sna));
    assert_eq!(registers(&cpu).pc, 0x9ABC);
    assert!(run.allow_interrupts);
    assert_eq!(read(&cpu, 0x3FFF), 0xC9);

    let mut z80 = z80_header(0x7000, 0x00);
    z80.extend_from_slice(&vec![0x5A; 49152]);
    assert_eq!(load_file(&mut cpu, &mut run, "z80", &z80), Ok(LoadResult::Z80));
    assert_eq!(registers(&cpu).pc, 0x7000);
    assert_eq!(read(&cpu, 0x4000), 0x5A);
    assert_eq!(read(&cpu, 0xFFFF), 0x5A);
    assert_eq!(read(&cpu, 0x3FFF), 0xC9);
    assert!(run.allow_interrupts);
}
