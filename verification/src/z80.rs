//! The .Z80 snapshot in its three versions: a 30-byte header of registers,
//! then either one image of the 48 KiB of RAM (version 1) or an extended
//! header and a row of 16 KiB pages (versions 2 and 3). Images and pages
//! may be run-length encoded.

use crate::cpu_exec::CpuRunState;
use crate::engine::{
    engine_memory, engine_quiet, engine_registers, engine_rom, le16, lemma_written_range_overlays,
    overlaid, read_le16, set_registers, set_rom_range, word, write_range, Registers, MEMORY_SIZE,
};
use crate::error::LoadError;
use crate::sna::{load_ram, resume, resumed, with_ram, RAM_LEN_MAX, ROM_END};
use std::collections::HashMap;
use vstd::prelude::*;
use vstd::slice::{slice_subrange, slice_to_vec};
use zilog_z80::cpu::CPU;

verus! {

broadcast use vstd::std_specs::hash::group_hash_axioms;

/// The size of the header that every .Z80 file starts with.
pub const Z80_HEADER: usize = 30;

/// The size of a page of memory.
pub const PAGE_SIZE: usize = 16384;

/// The block length that marks a page as stored without compression.
pub const RAW_BLOCK: u16 = 0xFFFF;

/// A version 1 snapshot, or a later one brought into its form.
pub struct Z80Snapshot {
    pub af: u16,
    pub bc: u16,
    pub de: u16,
    pub hl: u16,
    pub af_: u16,
    pub bc_: u16,
    pub de_: u16,
    pub hl_: u16,
    pub ix: u16,
    pub iy: u16,
    pub sp: u16,
    pub pc: u16,
    pub i: u8,
    pub r: u8,
    pub iff1: bool,
    pub iff2: bool,
    pub im: u8,
    pub border: u8,
    /// The RAM from 0x4000 to 0xFFFF.
    pub ram: Vec<u8>,
}

/// A snapshot of version 2 or 3: the registers and the pages of memory by
/// their number.
pub struct Z80SnapshotV23 {
    pub af: u16,
    pub bc: u16,
    pub de: u16,
    pub hl: u16,
    pub af_: u16,
    pub bc_: u16,
    pub de_: u16,
    pub hl_: u16,
    pub ix: u16,
    pub iy: u16,
    pub sp: u16,
    /// The program counter, from the extended header.
    pub pc: u16,
    pub i: u8,
    pub r: u8,
    pub iff1: bool,
    pub iff2: bool,
    pub im: u8,
    pub border: u8,
    pub ram_pages: HashMap<u8, Vec<u8>>,
}

/// `count` copies of a byte.
pub open spec fn repeated(value: u8, count: int) -> Seq<u8> {
    Seq::new(count as nat, |i: int| value)
}

/// The bytes that a run-length encoded block stands for. Two bytes 0xED
/// in a row, with two more bytes behind them, stand for a run: the third
/// byte is the count and the fourth the value. Every other byte stands for
/// itself.
pub open spec fn rle_decoded(src: Seq<u8>) -> Seq<u8>
    decreases src.len(),
{
    if src.len() == 0 {
        Seq::empty()
    } else if src.len() >= 4 && src[0] == 0xED && src[1] == 0xED {
        repeated(src[3], src[2] as int) + rle_decoded(src.skip(4))
    } else {
        seq![src[0]] + rle_decoded(src.skip(1))
    }
}

/// The first `n` items of a sequence, or all of it if it has fewer.
pub open spec fn at_most(s: Seq<u8>, n: int) -> Seq<u8> {
    if s.len() >= n {
        s.take(n)
    } else {
        s
    }
}

/// The registers of the 30-byte header, but for the program counter.
pub open spec fn header_registers(data: Seq<u8>, pc: u16) -> Registers {
    Registers {
        pc,
        sp: le16(data, 8),
        af: word(data[0], data[1]),
        bc: le16(data, 2),
        de: le16(data, 13),
        hl: le16(data, 4),
        ix: le16(data, 25),
        iy: le16(data, 23),
        af_: word(data[21], data[22]),
        bc_: le16(data, 15),
        de_: le16(data, 17),
        hl_: le16(data, 19),
        i: data[10],
        r: data[11],
    }
}

/// The image of version 1: 48 KiB from offset 30, stored as they are or
/// run-length encoded (bit 5 of byte 12). Decoding ends once 48 KiB are
/// there.
pub open spec fn v1_ram(data: Seq<u8>) -> Result<Seq<u8>, LoadError> {
    if (data[12] / 32) % 2 == 1 {
        let all = rle_decoded(data.skip(Z80_HEADER as int));
        if all.len() >= RAM_LEN_MAX {
            Ok(all.take(RAM_LEN_MAX as int))
        } else {
            Err(LoadError::TruncatedBlock)
        }
    } else if data.len() >= Z80_HEADER + RAM_LEN_MAX {
        Ok(data.subrange(Z80_HEADER as int, Z80_HEADER + RAM_LEN_MAX))
    } else {
        Err(LoadError::TruncatedBlock)
    }
}

/// Where the pages begin and what the program counter is, from the
/// extended header: two bytes of length at offset 30, then the header,
/// which starts with the program counter.
pub open spec fn extended_header(data: Seq<u8>) -> Result<(int, u16), LoadError> {
    if data.len() < 34 || data.len() < 32 + le16(data, 30) {
        Err(LoadError::TruncatedHeader)
    } else {
        Ok((32 + le16(data, 30), le16(data, 32)))
    }
}

/// The pages that the blocks from `pos` on add to `pages`. A block is two
/// bytes of length, the page number, and the page: 16 KiB as they are
/// where the length is 0xFFFF, else that many bytes run-length encoded.
/// Fewer than three bytes at the end are no block.
pub open spec fn blocks_parsed(data: Seq<u8>, pos: int, pages: Map<u8, Seq<u8>>) -> Result<
    Map<u8, Seq<u8>>,
    LoadError,
>
    decreases data.len() - pos,
{
    if pos < 0 || pos + 3 > data.len() {
        Ok(pages)
    } else {
        let len = le16(data, pos);
        let body = pos + 3;
        let stored = if len == RAW_BLOCK {
            PAGE_SIZE as int
        } else {
            len as int
        };
        if body + stored > data.len() {
            Err(LoadError::TruncatedBlock)
        } else {
            let page = if len == RAW_BLOCK {
                data.subrange(body, body + stored)
            } else {
                rle_decoded(data.subrange(body, body + stored))
            };
            if page.len() != PAGE_SIZE {
                Err(LoadError::SizeMismatch)
            } else {
                blocks_parsed(data, body + stored, pages.insert(data[pos + 2], page))
            }
        }
    }
}

/// The 48 KiB of RAM that a set of pages makes: page 8 is the RAM from
/// 0x4000, page 4 from 0x8000, page 5 from 0xC000. A missing page is
/// zeros, and any other page is left out.
pub open spec fn flat_ram(pages: Map<u8, Seq<u8>>) -> Seq<u8> {
    Seq::new(
        RAM_LEN_MAX as nat,
        |i: int|
            {
                let page = if i < 0x4000 {
                    8u8
                } else if i < 0x8000 {
                    4u8
                } else {
                    5u8
                };
                if pages.contains_key(page) {
                    pages[page][i % 0x4000]
                } else {
                    0u8
                }
            },
    )
}

/// The program counter and the RAM that a .Z80 file gives, or the reason
/// for which it gives none. A program counter of zero in the header marks
/// version 2 or 3.
pub open spec fn z80_image(data: Seq<u8>) -> Result<(u16, Seq<u8>), LoadError> {
    if data.len() < Z80_HEADER {
        Err(LoadError::TruncatedHeader)
    } else if le16(data, 6) == 0 {
        match extended_header(data) {
            Err(e) => Err(e),
            Ok((pos, pc)) => match blocks_parsed(data, pos, Map::empty()) {
                Err(e) => Err(e),
                Ok(pages) => Ok((pc, flat_ram(pages))),
            },
        }
    } else {
        match v1_ram(data) {
            Err(e) => Err(e),
            Ok(ram) => Ok((le16(data, 6), ram)),
        }
    }
}

/// Whether the executable pages hold what `pages` says.
pub open spec fn holds(stored: Map<u8, Vec<u8>>, pages: Map<u8, Seq<u8>>) -> bool {
    &&& stored.dom() == pages.dom()
    &&& forall|k: u8| pages.contains_key(k) ==> (#[trigger] stored[k])@ == pages[k]
}

/// The views of the stored pages.
pub open spec fn page_views(stored: Map<u8, Vec<u8>>) -> Map<u8, Seq<u8>> {
    Map::new(|k: u8| stored.contains_key(k), |k: u8| stored[k]@)
}

impl Z80Snapshot {
    /// The registers of the snapshot.
    pub open spec fn registers(&self) -> Registers {
        Registers {
            pc: self.pc,
            sp: self.sp,
            af: self.af,
            bc: self.bc,
            de: self.de,
            hl: self.hl,
            ix: self.ix,
            iy: self.iy,
            af_: self.af_,
            bc_: self.bc_,
            de_: self.de_,
            hl_: self.hl_,
            i: self.i,
            r: self.r,
        }
    }

    /// Whether the record holds what the header of `data` says, with the
    /// given program counter.
    pub open spec fn describes(&self, data: Seq<u8>, pc: u16) -> bool {
        &&& self.registers() == header_registers(data, pc)
        &&& self.iff1 == (data[27] != 0)
        &&& self.iff2 == (data[28] != 0)
        &&& self.im == data[29] % 4
        &&& self.border == data[12] % 8
    }

    /// Whether the record has the RAM of a 48K machine.
    pub open spec fn wf(&self) -> bool {
        self.ram@.len() == RAM_LEN_MAX
    }

    /// Reads a .Z80 file of any version.
    pub fn load(data: &[u8]) -> (r: Result<Z80Snapshot, LoadError>)
        ensures
            match z80_image(data@) {
                Ok((pc, ram)) => r matches Ok(s) && s.describes(data@, pc) && s.ram@ == ram
                    && s.wf(),
                Err(e) => r == Err::<Z80Snapshot, LoadError>(e),
            },
    {
        if data.len() < Z80_HEADER {
            return Err(LoadError::TruncatedHeader);
        }
        let pc = read_le16(data, 6);
        if pc == 0 {
            let (pos, real_pc) = match read_extended_header(data) {
                Ok(found) => found,
                Err(e) => {
                    return Err(e);
                },
            };
            let ram_pages = match read_ram_blocks(data, pos) {
                Ok(pages) => pages,
                Err(e) => {
                    return Err(e);
                },
            };
            let v23 = header_v23(data, real_pc, ram_pages);
            proof {
                lemma_parsed_pages_are_whole(data@, pos as int, Map::empty());
                let pages = blocks_parsed(data@, pos as int, Map::empty())->Ok_0;
                assert(page_views(v23.ram_pages@) =~= pages);
            }
            return Ok(Z80Snapshot::from_v23(v23));
        }
        let compressed = (data[12] / 32) % 2 == 1;
        let ram = if compressed {
            let packed = slice_subrange(data, Z80_HEADER, data.len());
            assert(packed@ =~= data@.skip(Z80_HEADER as int));
            let ram = rle_decode(packed, RAM_LEN_MAX);
            if ram.len() < RAM_LEN_MAX {
                return Err(LoadError::TruncatedBlock);
            }
            ram
        } else {
            if data.len() < Z80_HEADER + RAM_LEN_MAX {
                return Err(LoadError::TruncatedBlock);
            }
            slice_to_vec(slice_subrange(data, Z80_HEADER, Z80_HEADER + RAM_LEN_MAX))
        };
        Ok(
            Z80Snapshot {
                af: data[0] as u16 * 256 + data[1] as u16,
                bc: read_le16(data, 2),
                de: read_le16(data, 13),
                hl: read_le16(data, 4),
                af_: data[21] as u16 * 256 + data[22] as u16,
                bc_: read_le16(data, 15),
                de_: read_le16(data, 17),
                hl_: read_le16(data, 19),
                ix: read_le16(data, 25),
                iy: read_le16(data, 23),
                sp: read_le16(data, 8),
                pc,
                i: data[10],
                r: data[11],
                iff1: data[27] != 0,
                iff2: data[28] != 0,
                im: data[29] % 4,
                border: data[12] % 8,
                ram,
            },
        )
    }

    /// Brings a snapshot of version 2 or 3 into the form of version 1: the
    /// pages 8, 4 and 5 become one image of the 48 KiB of RAM.
    pub fn from_v23(v: Z80SnapshotV23) -> (s: Z80Snapshot)
        requires
            v.wf(),
        ensures
            s.wf(),
            s.ram@ == flat_ram(page_views(v.ram_pages@)),
            s.registers() == v.registers(),
            s.iff1 == v.iff1,
            s.iff2 == v.iff2,
            s.im == v.im,
            s.border == v.border,
    {
        let mut ram: Vec<u8> = Vec::with_capacity(RAM_LEN_MAX);
        let ghost pages = page_views(v.ram_pages@);
        push_page(&mut ram, v.ram_pages.get(&8));
        push_page(&mut ram, v.ram_pages.get(&4));
        push_page(&mut ram, v.ram_pages.get(&5));
        assert(ram@ =~= flat_ram(pages));
        Z80Snapshot {
            af: v.af,
            bc: v.bc,
            de: v.de,
            hl: v.hl,
            af_: v.af_,
            bc_: v.bc_,
            de_: v.de_,
            hl_: v.hl_,
            ix: v.ix,
            iy: v.iy,
            sp: v.sp,
            pc: v.pc,
            i: v.i,
            r: v.r,
            iff1: v.iff1,
            iff2: v.iff2,
            im: v.im,
            border: v.border,
            ram,
        }
    }
}

impl Z80SnapshotV23 {
    /// The registers of the snapshot.
    pub open spec fn registers(&self) -> Registers {
        Registers {
            pc: self.pc,
            sp: self.sp,
            af: self.af,
            bc: self.bc,
            de: self.de,
            hl: self.hl,
            ix: self.ix,
            iy: self.iy,
            af_: self.af_,
            bc_: self.bc_,
            de_: self.de_,
            hl_: self.hl_,
            i: self.i,
            r: self.r,
        }
    }

    /// Whether every page has 16 KiB.
    pub open spec fn wf(&self) -> bool {
        forall|k: u8|
            self.ram_pages@.contains_key(k) ==> (#[trigger] self.ram_pages@[k])@.len()
                == PAGE_SIZE
    }
}

/// Appends a page, or 16 KiB of zeros where there is none.
fn push_page(ram: &mut Vec<u8>, page: Option<&Vec<u8>>)
    requires
        page matches Some(p) ==> p@.len() == PAGE_SIZE,
    ensures
        final(ram)@ == old(ram)@ + match page {
            Some(p) => p@,
            None => repeated(0, PAGE_SIZE as int),
        },
{
    match page {
        Some(p) => {
            ram.extend_from_slice(p.as_slice());
        },
        None => {
            push_run(ram, 0, PAGE_SIZE);
        },
    }
}

/// Appends `count` copies of a byte.
fn push_run(out: &mut Vec<u8>, value: u8, count: usize)
    ensures
        final(out)@ == old(out)@ + repeated(value, count as int),
{
    let mut k: usize = 0;
    assert(out@ =~= old(out)@ + repeated(value, 0));
    while k < count
        invariant
            k <= count,
            out@ == old(out)@ + repeated(value, k as int),
        decreases count - k,
    {
        out.push(value);
        k = k + 1;
        assert(out@ =~= old(out)@ + repeated(value, k as int));
    }
}

fn header_v23(data: &[u8], pc: u16, ram_pages: HashMap<u8, Vec<u8>>) -> (v: Z80SnapshotV23)
    requires
        data@.len() >= Z80_HEADER,
    ensures
        v.ram_pages == ram_pages,
        v.registers() == header_registers(data@, pc),
        v.iff1 == (data@[27] != 0),
        v.iff2 == (data@[28] != 0),
        v.im == data@[29] % 4,
        v.border == data@[12] % 8,
{
    Z80SnapshotV23 {
        af: data[0] as u16 * 256 + data[1] as u16,
        bc: read_le16(data, 2),
        de: read_le16(data, 13),
        hl: read_le16(data, 4),
        af_: data[21] as u16 * 256 + data[22] as u16,
        bc_: read_le16(data, 15),
        de_: read_le16(data, 17),
        hl_: read_le16(data, 19),
        ix: read_le16(data, 25),
        iy: read_le16(data, 23),
        sp: read_le16(data, 8),
        pc,
        i: data[10],
        r: data[11],
        iff1: data[27] != 0,
        iff2: data[28] != 0,
        im: data[29] % 4,
        border: data[12] % 8,
        ram_pages,
    }
}

/// Decodes a run-length encoded block, up to `cap` bytes of output.
pub fn rle_decode(src: &[u8], cap: usize) -> (out: Vec<u8>)
    ensures
        out@ == at_most(rle_decoded(src@), cap as int),
{
    let ghost total = rle_decoded(src@);
    let mut out: Vec<u8> = Vec::new();
    let mut pos: usize = 0;
    assert(src@.skip(0) =~= src@);
    while pos < src.len() && out.len() < cap
        invariant
            pos <= src@.len(),
            out@.len() <= cap,
            total == rle_decoded(src@),
            out@.len() <= total.len(),
            total.take(out@.len() as int) == out@,
            out@.len() < cap ==> total == out@ + rle_decoded(src@.skip(pos as int)),
        decreases src@.len() - pos,
    {
        let ghost rest = src@.skip(pos as int);
        let ghost before = out@;
        if src.len() - pos >= 4 && src[pos] == 0xED && src[pos + 1] == 0xED {
            let count = src[pos + 2] as usize;
            let value = src[pos + 3];
            let room = cap - out.len();
            let n = if count < room {
                count
            } else {
                room
            };
            push_run(&mut out, value, n);
            proof {
                assert(rest.skip(4) =~= src@.skip(pos as int + 4));
                let run = repeated(value, count as int);
                let tail = rle_decoded(rest.skip(4));
                assert(total == before + (run + tail));
                assert(total.take(out@.len() as int) =~= out@);
                if out@.len() < cap {
                    assert(n == count);
                    assert(total =~= out@ + tail);
                }
            }
            pos = pos + 4;
        } else {
            out.push(src[pos]);
            proof {
                assert(rest.skip(1) =~= src@.skip(pos as int + 1));
                let tail = rle_decoded(rest.skip(1));
                assert(total == before + (seq![src@[pos as int]] + tail));
                assert(total.take(out@.len() as int) =~= out@);
                assert(total =~= out@ + tail);
            }
            pos = pos + 1;
        }
    }
    proof {
        if out@.len() < cap {
            assert(src@.skip(pos as int).len() == 0);
            assert(total =~= out@);
        }
    }
    out
}

/// Reads the extended header of versions 2 and 3: where the pages begin
/// and what the program counter is.
pub fn read_extended_header(data: &[u8]) -> (r: Result<(usize, u16), LoadError>)
    ensures
        match extended_header(data@) {
            Ok((pos, pc)) => r == Ok::<(usize, u16), LoadError>((pos as usize, pc)) && pos
                <= data@.len(),
            Err(e) => r == Err::<(usize, u16), LoadError>(e),
        },
{
    if data.len() < 34 {
        return Err(LoadError::TruncatedHeader);
    }
    let header_len = read_le16(data, 30) as usize;
    if data.len() < 32 + header_len {
        return Err(LoadError::TruncatedHeader);
    }
    Ok((32 + header_len, read_le16(data, 32)))
}

/// Reads the pages of versions 2 and 3 from `pos` on.
pub fn read_ram_blocks(data: &[u8], pos: usize) -> (r: Result<HashMap<u8, Vec<u8>>, LoadError>)
    requires
        pos <= data@.len(),
    ensures
        match blocks_parsed(data@, pos as int, Map::empty()) {
            Ok(pages) => r matches Ok(stored) && holds(stored@, pages),
            Err(e) => r == Err::<HashMap<u8, Vec<u8>>, LoadError>(e),
        },
{
    let mut stored: HashMap<u8, Vec<u8>> = HashMap::new();
    let ghost mut pages: Map<u8, Seq<u8>> = Map::empty();
    let mut at: usize = pos;
    assert(stored@.dom() =~= pages.dom());
    while data.len() - at >= 3
        invariant
            at <= data@.len(),
            holds(stored@, pages),
            blocks_parsed(data@, pos as int, Map::empty()) == blocks_parsed(
                data@,
                at as int,
                pages,
            ),
        decreases data@.len() - at,
    {
        let len = read_le16(data, at);
        let number = data[at + 2];
        let body = at + 3;
        let stored_len = if len == RAW_BLOCK {
            PAGE_SIZE
        } else {
            len as usize
        };
        if data.len() - body < stored_len {
            assert(blocks_parsed(data@, at as int, pages) == Err::<Map<u8, Seq<u8>>, LoadError>(
                LoadError::TruncatedBlock,
            ));
            return Err(LoadError::TruncatedBlock);
        }
        let block = slice_subrange(data, body, body + stored_len);
        let page = if len == RAW_BLOCK {
            slice_to_vec(block)
        } else {
            rle_decode(block, PAGE_SIZE + 1)
        };
        if page.len() != PAGE_SIZE {
            assert(blocks_parsed(data@, at as int, pages) == Err::<Map<u8, Seq<u8>>, LoadError>(
                LoadError::SizeMismatch,
            ));
            return Err(LoadError::SizeMismatch);
        }
        assert(blocks_parsed(data@, at as int, pages) == blocks_parsed(
            data@,
            body + stored_len,
            pages.insert(number, page@),
        ));
        at = body + stored_len;
        proof {
            pages = pages.insert(number, page@);
        }
        let _ = stored.insert(number, page);
        assert(stored@.dom() =~= pages.dom());
    }
    Ok(stored)
}

/// Every page that the blocks add has 16 KiB, if those before had.
pub proof fn lemma_parsed_pages_are_whole(data: Seq<u8>, pos: int, pages: Map<u8, Seq<u8>>)
    requires
        forall|k: u8| pages.contains_key(k) ==> (#[trigger] pages[k]).len() == PAGE_SIZE,
    ensures
        blocks_parsed(data, pos, pages) matches Ok(all) ==> forall|k: u8|
            all.contains_key(k) ==> (#[trigger] all[k]).len() == PAGE_SIZE,
    decreases data.len() - pos,
{
    if !(pos < 0 || pos + 3 > data.len()) {
        let len = le16(data, pos);
        let body = pos + 3;
        let stored = if len == RAW_BLOCK {
            PAGE_SIZE as int
        } else {
            len as int
        };
        if body + stored <= data.len() {
            let page = if len == RAW_BLOCK {
                data.subrange(body, body + stored)
            } else {
                rle_decoded(data.subrange(body, body + stored))
            };
            if page.len() == PAGE_SIZE {
                lemma_parsed_pages_are_whole(
                    data,
                    body + stored,
                    pages.insert(data[pos + 2], page),
                );
            }
        }
    }
}

/// Puts a version 1 snapshot into the machine: the RAM image, the
/// registers and the interrupt state. The first 16 KiB become the
/// protected range.
pub fn apply_z80(cpu: &mut CPU, run_state: &mut CpuRunState, snap: &Z80Snapshot)
    requires
        snap.wf(),
        engine_memory(*old(cpu)).len() == MEMORY_SIZE,
    ensures
        engine_memory(*final(cpu)) == with_ram(engine_memory(*old(cpu)), snap.ram@),
        engine_rom(*final(cpu)) == Some((0u16, ROM_END)),
        engine_quiet(*final(cpu)) == engine_quiet(*old(cpu)),
        engine_registers(*final(cpu)) == snap.registers(),
        *final(run_state) == resumed(*old(run_state), snap.iff1, snap.im),
{
    load_ram(cpu, snap.ram.as_slice());
    let r = Registers {
        pc: snap.pc,
        sp: snap.sp,
        af: snap.af,
        bc: snap.bc,
        de: snap.de,
        hl: snap.hl,
        ix: snap.ix,
        iy: snap.iy,
        af_: snap.af_,
        bc_: snap.bc_,
        de_: snap.de_,
        hl_: snap.hl_,
        i: snap.i,
        r: snap.r,
    };
    set_registers(cpu, &r);
    resume(run_state, snap.iff1, snap.im);
}

/// The memory with a page laid over it at `base`, if there is one.
pub open spec fn with_page(memory: Seq<u8>, pages: Map<u8, Seq<u8>>, number: u8, base: int) -> Seq<
    u8,
> {
    if pages.contains_key(number) {
        overlaid(memory, base, pages[number])
    } else {
        memory
    }
}

/// Puts a snapshot of version 2 or 3 into the machine. Page 8 goes to
/// 0x4000, page 4 to 0x8000 and page 5 to 0xC000; memory for which the
/// snapshot has no page stays as it is, and any other page is left out.
/// The first 16 KiB become the protected range.
pub fn apply_z80_v23(cpu: &mut CPU, run_state: &mut CpuRunState, snap: &Z80SnapshotV23)
    requires
        snap.wf(),
        engine_memory(*old(cpu)).len() == MEMORY_SIZE,
    ensures
        engine_memory(*final(cpu)) == with_page(
            with_page(
                with_page(engine_memory(*old(cpu)), page_views(snap.ram_pages@), 8, 0x4000),
                page_views(snap.ram_pages@),
                4,
                0x8000,
            ),
            page_views(snap.ram_pages@),
            5,
            0xC000,
        ),
        engine_rom(*final(cpu)) == Some((0u16, ROM_END)),
        engine_quiet(*final(cpu)) == engine_quiet(*old(cpu)),
        engine_registers(*final(cpu)) == snap.registers(),
        *final(run_state) == resumed(*old(run_state), snap.iff1, snap.im),
{
    set_rom_range(cpu, 0, ROM_END);
    load_page(cpu, snap.ram_pages.get(&8), 0x4000);
    load_page(cpu, snap.ram_pages.get(&4), 0x8000);
    load_page(cpu, snap.ram_pages.get(&5), 0xC000);
    let r = Registers {
        pc: snap.pc,
        sp: snap.sp,
        af: snap.af,
        bc: snap.bc,
        de: snap.de,
        hl: snap.hl,
        ix: snap.ix,
        iy: snap.iy,
        af_: snap.af_,
        bc_: snap.bc_,
        de_: snap.de_,
        hl_: snap.hl_,
        i: snap.i,
        r: snap.r,
    };
    set_registers(cpu, &r);
    resume(run_state, snap.iff1, snap.im);
}

/// Lays a page over the RAM at `base`, if there is one.
fn load_page(cpu: &mut CPU, page: Option<&Vec<u8>>, base: u16)
    requires
        page matches Some(p) ==> p@.len() == PAGE_SIZE,
        base == 0x4000 || base == 0x8000 || base == 0xC000,
        engine_memory(*old(cpu)).len() == MEMORY_SIZE,
        engine_rom(*old(cpu)) == Some((0u16, ROM_END)),
    ensures
        engine_memory(*final(cpu)) == match page {
            Some(p) => overlaid(engine_memory(*old(cpu)), base as int, p@),
            None => engine_memory(*old(cpu)),
        },
        engine_memory(*final(cpu)).len() == MEMORY_SIZE,
        engine_rom(*final(cpu)) == engine_rom(*old(cpu)),
        engine_registers(*final(cpu)) == engine_registers(*old(cpu)),
        engine_quiet(*final(cpu)) == engine_quiet(*old(cpu)),
{
    match page {
        Some(p) => {
            proof {
                lemma_written_range_overlays(
                    engine_memory(*cpu),
                    engine_rom(*cpu),
                    base,
                    p@,
                );
            }
            write_range(cpu, base, p.as_slice());
        },
        None => {},
    }
}

} // verus!
