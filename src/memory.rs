//! One mebibyte of physical memory behind four segment registers, a
//! current-segment latch, and the instruction fetch buffer.
use vstd::prelude::*;

verus! {

/// The size of physical memory: 20 address lines.
pub const MEMORY_SIZE: usize = 0x10_0000;

/// Where the video option ROM is loaded.
pub const VIDEO_ROM_START: usize = 0xC_0000;

/// Where the disk option ROM is loaded.
pub const DISK_ROM_START: usize = 0xC_8000;

/// Where the BIOS ROM is loaded; it runs to the end of memory.
pub const BIOS_ROM_START: usize = 0xF_0000;

/// The only size of BIOS ROM that fits its slot.
pub const BIOS_ROM_SIZE: usize = 0x1_0000;

#[derive(Clone, Copy, Debug, PartialEq, Eq, Structural)]
pub enum Segment {
    ES,
    CS,
    SS,
    DS,
}

/// The physical address of `seg:off`: the segment shifted by four, plus the
/// offset, wrapped to 20 bits.
pub open spec fn physical(seg: u16, off: u16) -> int {
    (seg * 16 + off) % 0x10_0000
}

/// The offset one past `off`, wrapping inside the segment.
pub open spec fn next_offset(off: u16) -> u16 {
    ((off + 1) % 0x1_0000) as u16
}

/// The little-endian 16-bit value of two bytes.
pub open spec fn le_word(low: u8, high: u8) -> u16 {
    (low + 256 * high) as u16
}

/// The little-endian value of a byte sequence.
pub open spec fn le_value(bytes: Seq<u8>) -> nat
    decreases bytes.len(),
{
    if bytes.len() == 0 {
        0
    } else {
        bytes[0] as nat + 256 * le_value(bytes.drop_first())
    }
}

/// The byte at offset `i` of a ROM slot of `len` bytes that holds `rom`:
/// the ROM's byte, or zero past its end.
pub open spec fn slot_byte(rom: Seq<u8>, i: int) -> u8 {
    if i < rom.len() {
        rom[i]
    } else {
        0
    }
}

/// The byte at physical address `a` right after boot: RAM is zero, the two
/// option ROMs sit in their slots padded with zeros (and cut at the slot's
/// end), and the BIOS fills the top 64 KiB.
pub open spec fn boot_byte(video: Seq<u8>, disk: Seq<u8>, bios: Seq<u8>, a: int) -> u8 {
    if a < VIDEO_ROM_START {
        0
    } else if a < DISK_ROM_START {
        slot_byte(video, a - VIDEO_ROM_START)
    } else if a < BIOS_ROM_START {
        slot_byte(disk, a - DISK_ROM_START)
    } else {
        bios[a - BIOS_ROM_START]
    }
}

/// Whether a BIOS image fits its slot: a BIOS of any other size is a fatal
/// startup error, so callers test this before laying out memory.
pub fn bios_size_ok(bios_rom: &Vec<u8>) -> (r: bool)
    ensures
        r == (bios_rom@.len() == BIOS_ROM_SIZE),
{
    bios_rom.len() == BIOS_ROM_SIZE
}

pub fn calculate_addr(segment: u16, offset: u16) -> (r: usize)
    ensures
        r == physical(segment, offset),
        r < MEMORY_SIZE,
{
    ((segment as usize) * 16 + offset as usize) % MEMORY_SIZE
}

pub struct Memory {
    pub es: u16,
    pub cs: u16,
    pub ss: u16,
    pub ds: u16,
    pub ip: u16,
    /// The segment that byte and word accesses go through.
    pub current_segment: Segment,
    /// The bytes of the instruction at hand, the next one lowest.
    pub current_instruction: u64,
    pub ram: Vec<u8>,
}

impl Memory {
    pub open spec fn wf(&self) -> bool {
        self.ram@.len() == MEMORY_SIZE
    }

    /// The value of a segment register.
    pub open spec fn seg(&self, seg: Segment) -> u16 {
        match seg {
            Segment::ES => self.es,
            Segment::CS => self.cs,
            Segment::SS => self.ss,
            Segment::DS => self.ds,
        }
    }

    /// The physical address of an offset in the current segment.
    pub open spec fn addr(&self, offset: u16) -> int {
        physical(self.seg(self.current_segment), offset)
    }

    /// The byte at an offset in the current segment.
    pub open spec fn byte(&self, offset: u16) -> u8 {
        self.ram@[self.addr(offset)]
    }

    /// The word at an offset in the current segment: its high byte comes from
    /// the next offset of the same segment.
    pub open spec fn word(&self, offset: u16) -> u16 {
        le_word(self.byte(offset), self.byte(next_offset(offset)))
    }

    /// The word at a physical address; the high byte wraps at 20 bits.
    pub open spec fn word_at_addr(&self, addr: int) -> u16 {
        le_word(self.ram@[addr], self.ram@[(addr + 1) % 0x10_0000])
    }

    /// The eight bytes at `CS:IP` and the seven offsets after it.
    pub open spec fn fetch_bytes(&self) -> Seq<u8> {
        Seq::new(8, |k: int| self.ram@[physical(self.cs, ((self.ip + k) % 0x1_0000) as u16)])
    }

    /// Memory as laid out at boot from three ROM images, with the
    /// reset vector `F000:FFF0` in `CS:IP` and the other segments zero.
    pub fn new(bios_rom: &Vec<u8>, video_rom: &Vec<u8>, disk_rom: &Vec<u8>) -> (m: Memory)
        requires
            bios_rom@.len() == BIOS_ROM_SIZE,
        ensures
            m.wf(),
            m.cs == 0xF000 && m.ip == 0xFFF0,
            m.ds == 0 && m.ss == 0 && m.es == 0,
            m.current_segment == Segment::DS,
            m.current_instruction == 0,
            forall|a: int|
                0 <= a < MEMORY_SIZE ==> #[trigger] m.ram@[a] == boot_byte(
                    video_rom@,
                    disk_rom@,
                    bios_rom@,
                    a,
                ),
    {
        let mut ram: Vec<u8> = Vec::new();
        let mut a: usize = 0;
        while a < MEMORY_SIZE
            invariant
                a <= MEMORY_SIZE,
                ram@.len() == a,
                bios_rom@.len() == BIOS_ROM_SIZE,
                forall|i: int|
                    0 <= i < a ==> #[trigger] ram@[i] == boot_byte(
                        video_rom@,
                        disk_rom@,
                        bios_rom@,
                        i,
                    ),
            decreases MEMORY_SIZE - a,
        {
            let b: u8 = if a < VIDEO_ROM_START {
                0
            } else if a < DISK_ROM_START {
                if a - VIDEO_ROM_START < video_rom.len() {
                    video_rom[a - VIDEO_ROM_START]
                } else {
                    0
                }
            } else if a < BIOS_ROM_START {
                if a - DISK_ROM_START < disk_rom.len() {
                    disk_rom[a - DISK_ROM_START]
                } else {
                    0
                }
            } else {
                bios_rom[a - BIOS_ROM_START]
            };
            ram.push(b);
            a = a + 1;
        }
        Memory {
            es: 0,
            cs: 0xF000,
            ss: 0,
            ds: 0,
            ip: 0xFFF0,
            current_segment: Segment::DS,
            current_instruction: 0,
            ram,
        }
    }

    /// Takes the next byte of the fetch buffer and moves IP past it.
    pub fn next_byte(&mut self) -> (r: u8)
        ensures
            r == old(self).current_instruction % 256,
            final(self).current_instruction == old(self).current_instruction / 256,
            final(self).ip == next_offset(old(self).ip),
            final(self).ram == old(self).ram,
            final(self).cs == old(self).cs && final(self).ds == old(self).ds,
            final(self).ss == old(self).ss && final(self).es == old(self).es,
            final(self).current_segment == old(self).current_segment,
    {
        self.ip = self.ip.wrapping_add(1);
        let byte = self.current_instruction % 256;
        self.current_instruction = self.current_instruction / 256;
        byte as u8
    }

    /// Takes the next little-endian word of the fetch buffer and moves IP
    /// past it.
    pub fn next_word(&mut self) -> (r: u16)
        ensures
            r == old(self).current_instruction % 0x1_0000,
            final(self).current_instruction == old(self).current_instruction / 0x1_0000,
            final(self).ip == ((old(self).ip + 2) % 0x1_0000) as u16,
            final(self).ram == old(self).ram,
            final(self).cs == old(self).cs && final(self).ds == old(self).ds,
            final(self).ss == old(self).ss && final(self).es == old(self).es,
            final(self).current_segment == old(self).current_segment,
    {
        self.ip = self.ip.wrapping_add(2);
        let word = self.current_instruction % 0x1_0000;
        self.current_instruction = self.current_instruction / 0x1_0000;
        word as u16
    }

    pub fn set_byte(&mut self, offset: u16, byte: u8)
        requires
            old(self).wf(),
        ensures
            final(self).wf(),
            final(self).ram@ == old(self).ram@.update(old(self).addr(offset), byte),
            final(self).es == old(self).es && final(self).cs == old(self).cs,
            final(self).ss == old(self).ss && final(self).ds == old(self).ds,
            final(self).ip == old(self).ip,
            final(self).current_segment == old(self).current_segment,
            final(self).current_instruction == old(self).current_instruction,
    {
        let addr = calculate_addr(self.get_seg(&self.current_segment), offset);
        self.ram.set(addr, byte);
    }

    pub fn get_byte(&self, offset: u16) -> (r: u8)
        requires
            self.wf(),
        ensures
            r == self.byte(offset),
    {
        let addr = calculate_addr(self.get_seg(&self.current_segment), offset);
        self.ram[addr]
    }

    /// Writes a word little-endian; the high byte goes to the next offset of
    /// the same segment.
    pub fn set_word(&mut self, offset: u16, word: u16)
        requires
            old(self).wf(),
        ensures
            final(self).wf(),
            final(self).ram@ == old(self).ram@.update(old(self).addr(offset), (word % 256) as u8).update(
                old(self).addr(next_offset(offset)),
                (word / 256) as u8,
            ),
            final(self).es == old(self).es && final(self).cs == old(self).cs,
            final(self).ss == old(self).ss && final(self).ds == old(self).ds,
            final(self).ip == old(self).ip,
            final(self).current_segment == old(self).current_segment,
            final(self).current_instruction == old(self).current_instruction,
    {
        let seg = self.get_seg(&self.current_segment);
        let low_addr = calculate_addr(seg, offset);
        let high_addr = calculate_addr(seg, offset.wrapping_add(1));
        self.ram.set(low_addr, (word % 256) as u8);
        self.ram.set(high_addr, (word / 256) as u8);
    }

    pub fn get_word(&self, offset: u16) -> (r: u16)
        requires
            self.wf(),
        ensures
            r == self.word(offset),
    {
        let seg = self.get_seg(&self.current_segment);
        let low = self.ram[calculate_addr(seg, offset)];
        let high = self.ram[calculate_addr(seg, offset.wrapping_add(1))];
        low as u16 + 256 * high as u16
    }

    pub fn get_word_at_addr(&self, addr: usize) -> (r: u16)
        requires
            self.wf(),
            addr < MEMORY_SIZE,
        ensures
            r == self.word_at_addr(addr as int),
    {
        let low = self.ram[addr];
        let high = self.ram[(addr + 1) % MEMORY_SIZE];
        low as u16 + 256 * high as u16
    }

    /// Refills the fetch buffer with the eight bytes at `CS:IP`.
    pub fn prepare_next_instruction(&mut self)
        requires
            old(self).wf(),
        ensures
            final(self).current_instruction == le_value(old(self).fetch_bytes()),
            final(self).ram == old(self).ram,
            final(self).es == old(self).es && final(self).cs == old(self).cs,
            final(self).ss == old(self).ss && final(self).ds == old(self).ds,
            final(self).ip == old(self).ip,
            final(self).current_segment == old(self).current_segment,
    {
        let ghost bytes = self.fetch_bytes();
        let mut value: u64 = 0;
        let mut k: usize = 8;
        while k > 0
            invariant
                k <= 8,
                self.wf(),
                bytes == self.fetch_bytes(),
                value == le_value(bytes.subrange(k as int, 8)),
                value < pow256((8 - k) as nat),
            decreases k,
        {
            k = k - 1;
            let b = self.ram[calculate_addr(self.cs, self.ip.wrapping_add(k as u16))];
            proof {
                lemma_le_value_step(bytes, k as int);
                lemma_pow256_step((7 - k) as nat);
                lemma_pow256_mono((8 - k) as nat, 8);
                assert(b as nat + 256 * value < pow256((8 - k) as nat)) by (nonlinear_arith)
                    requires
                        b < 256,
                        value < pow256((7 - k) as nat),
                        pow256((8 - k) as nat) == 256 * pow256((7 - k) as nat),
                ;
            }
            value = b as u64 + 256 * value;
        }
        assert(bytes.subrange(0, 8) =~= bytes);
        self.current_instruction = value;
    }

    pub fn get_current_address(&self) -> (r: usize)
        ensures
            r == physical(self.cs, self.ip),
    {
        calculate_addr(self.cs, self.ip)
    }

    pub fn set_seg(&mut self, seg: &Segment, value: u16)
        ensures
            final(self).seg(*seg) == value,
            final(self).es == (if *seg == Segment::ES { value } else { old(self).es }),
            final(self).cs == (if *seg == Segment::CS { value } else { old(self).cs }),
            final(self).ss == (if *seg == Segment::SS { value } else { old(self).ss }),
            final(self).ds == (if *seg == Segment::DS { value } else { old(self).ds }),
            final(self).ram == old(self).ram,
            final(self).ip == old(self).ip,
            final(self).current_segment == old(self).current_segment,
            final(self).current_instruction == old(self).current_instruction,
    {
        match seg {
            Segment::ES => self.es = value,
            Segment::CS => self.cs = value,
            Segment::SS => self.ss = value,
            Segment::DS => self.ds = value,
        }
    }

    pub fn get_seg(&self, seg: &Segment) -> (r: u16)
        ensures
            r == self.seg(*seg),
    {
        match seg {
            Segment::ES => self.es,
            Segment::CS => self.cs,
            Segment::SS => self.ss,
            Segment::DS => self.ds,
        }
    }
}

/// `256` to the power `n`.
pub open spec fn pow256(n: nat) -> nat
    decreases n,
{
    if n == 0 {
        1
    } else {
        256 * pow256((n - 1) as nat)
    }
}

proof fn lemma_pow256_step(n: nat)
    ensures
        pow256(n + 1) == 256 * pow256(n),
        pow256(8) == 0x1_0000_0000_0000_0000,
{
    reveal_with_fuel(pow256, 9);
}

proof fn lemma_pow256_mono(a: nat, b: nat)
    requires
        a <= b,
    ensures
        1 <= pow256(a) <= pow256(b),
    decreases b,
{
    if a < b {
        lemma_pow256_mono(a, (b - 1) as nat);
    } else if a > 0 {
        lemma_pow256_mono((a - 1) as nat, (a - 1) as nat);
    }
}

proof fn lemma_le_value_step(bytes: Seq<u8>, k: int)
    requires
        0 <= k < bytes.len(),
    ensures
        le_value(bytes.subrange(k, bytes.len() as int)) == bytes[k] as nat + 256 * le_value(
            bytes.subrange(k + 1, bytes.len() as int),
        ),
{
    assert(bytes.subrange(k, bytes.len() as int).drop_first() =~= bytes.subrange(
        k + 1,
        bytes.len() as int,
    ));
}

/// An offset and the next one name two different physical addresses.
pub proof fn lemma_offsets_distinct(seg: u16, off: u16)
    ensures
        physical(seg, off) != physical(seg, next_offset(off)),
{
}

/// Every offset of every segment names an address inside physical memory,
/// and that address is the segment shifted by four plus the offset, wrapped
/// to 20 bits.
pub proof fn lemma_segmented_address(seg: u16, off: u16)
    ensures
        physical(seg, off) == ((((seg as u32) << 4) + off as u32) as u32) & 0xF_FFFF,
        0 <= physical(seg, off) < MEMORY_SIZE,
{
    assert(((((seg as u32) << 4) + off as u32) as u32) & 0xF_FFFF == ((seg as u32) * 16
        + off as u32) % 0x10_0000) by (bit_vector);
}

} // verus!
