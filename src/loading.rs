//! Loading a program into memory: raw binaries and `.c16` images with a header.
use vstd::prelude::*;
use crate::bytes::unsigned8;
use crate::cpu::Cpu;

verus! {

/// Size of the `.c16` header.
pub const HEADER_SIZE: usize = 16;

/// Why a program could not be loaded.
#[derive(Clone, Copy, Debug, PartialEq, Eq, Structural)]
pub enum LoadError {
    /// The program does not fit in memory.
    RomTooLarge,
    /// The header's ROM size is not the file's length less the header.
    RomSizeMismatch { header: u32, actual: u64 },
}

/// Whether a file starts with a `.c16` header: the magic "CH16" in a file long
/// enough to hold the whole header.
pub open spec fn has_header(rom: Seq<u8>) -> bool {
    &&& rom.len() >= 16
    &&& rom[0] == 0x43
    &&& rom[1] == 0x48
    &&& rom[2] == 0x31
    &&& rom[3] == 0x36
}

/// The big-endian ROM size field of a header.
pub open spec fn header_rom_size(rom: Seq<u8>) -> int {
    rom[6] * 0x1000000 + rom[7] * 0x10000 + rom[8] * 0x100 + rom[9]
}

/// The big-endian start address field of a header.
pub open spec fn header_start(rom: Seq<u8>) -> int {
    rom[14] * 0x100 + rom[15]
}

/// Memory of `next` holds `rom` from offset `from` on at address 0; the rest is as in `cpu`.
pub open spec fn holds_program(cpu: Cpu, next: Cpu, rom: Seq<u8>, from: int) -> bool {
    &&& forall|i: int| 0 <= i < rom.len() - from ==> unsigned8(#[trigger] next.memory@[i]) == rom[from + i]
    &&& forall|i: int| rom.len() - from <= i < 65536 ==> #[trigger] next.memory@[i] == cpu.memory@[i]
    &&& next.sp == cpu.sp
    &&& next.rx == cpu.rx
    &&& next.flags == cpu.flags
    &&& next.vblank == cpu.vblank
    &&& next.graphics == cpu.graphics
}

/// Checks the header's ROM size against the file's length.
pub fn check_rom_size(file_size: u64, rom_size: u32) -> (r: Result<(), LoadError>)
    requires
        file_size >= 16,
    ensures
        r is Ok <==> rom_size == file_size - 16,
        r is Err ==> r == Err::<(), LoadError>(
            LoadError::RomSizeMismatch { header: rom_size, actual: (file_size - 16) as u64 },
        ),
{
    let actual = file_size - 16;
    if rom_size as u64 != actual {
        return Err(LoadError::RomSizeMismatch { header: rom_size, actual });
    }
    Ok(())
}

/// Copies `rom` from offset `from` on into memory at address 0.
fn copy_program(rom: &Vec<u8>, from: usize, cpu: &mut Cpu)
    requires
        from <= rom@.len(),
        rom@.len() - from <= 65536,
    ensures
        holds_program(*old(cpu), *final(cpu), rom@, from as int),
        final(cpu).pc == old(cpu).pc,
{
    let mut i: usize = from;
    while i < rom.len()
        invariant
            from <= i <= rom@.len(),
            rom@.len() - from <= 65536,
            forall|j: int| 0 <= j < i - from ==> unsigned8(#[trigger] cpu.memory@[j]) == rom@[from + j],
            forall|j: int| i - from <= j < 65536 ==> #[trigger] cpu.memory@[j] == old(cpu).memory@[j],
            cpu.pc == old(cpu).pc,
            cpu.sp == old(cpu).sp,
            cpu.rx == old(cpu).rx,
            cpu.flags == old(cpu).flags,
            cpu.vblank == old(cpu).vblank,
            cpu.graphics == old(cpu).graphics,
        decreases rom@.len() - i,
    {
        let b = rom[i];
        let v: i8 = if b >= 128 {
            (b as i16 - 256) as i8
        } else {
            b as i8
        };
        cpu.memory.write_byte(i - from, v);
        i = i + 1;
    }
}

/// Loads a headerless program at address 0.
pub fn load_bin(rom: &Vec<u8>, cpu: &mut Cpu) -> (r: Result<(), LoadError>)
    ensures
        r is Ok <==> rom@.len() <= 65536,
        r is Ok ==> holds_program(*old(cpu), *final(cpu), rom@, 0) && final(cpu).pc == old(cpu).pc,
        r is Err ==> r == Err::<(), LoadError>(LoadError::RomTooLarge) && *final(cpu) == *old(cpu),
{
    if rom.len() > 65536 {
        return Err(LoadError::RomTooLarge);
    }
    copy_program(rom, 0, cpu);
    Ok(())
}

/// Loads a `.c16` image: with the magic "CH16", its 16-byte header gives the
/// ROM size, which must match, and the start address; the code follows the
/// header. Without the magic the whole file is a headerless program.
pub fn load_c16(rom: &Vec<u8>, cpu: &mut Cpu) -> (r: Result<(), LoadError>)
    ensures
        has_header(rom@) ==> {
            &&& r is Ok <==> (header_rom_size(rom@) == rom@.len() - 16 && rom@.len() - 16 <= 65536)
            &&& header_rom_size(rom@) != rom@.len() - 16 ==> r == Err::<(), LoadError>(
                LoadError::RomSizeMismatch {
                    header: header_rom_size(rom@) as u32,
                    actual: (rom@.len() - 16) as u64,
                },
            )
            &&& header_rom_size(rom@) == rom@.len() - 16 && rom@.len() - 16 > 65536 ==> r
                == Err::<(), LoadError>(LoadError::RomTooLarge)
            &&& r is Ok ==> holds_program(*old(cpu), *final(cpu), rom@, 16) && final(cpu).pc
                == header_start(rom@)
        },
        !has_header(rom@) ==> {
            &&& r is Ok <==> rom@.len() <= 65536
            &&& r is Err ==> r == Err::<(), LoadError>(LoadError::RomTooLarge)
            &&& r is Ok ==> holds_program(*old(cpu), *final(cpu), rom@, 0) && final(cpu).pc == old(cpu).pc
        },
        r is Err ==> *final(cpu) == *old(cpu),
{
    let n = rom.len();
    if n >= HEADER_SIZE && rom[0] == 0x43 && rom[1] == 0x48 && rom[2] == 0x31 && rom[3] == 0x36 {
        let rom_size: u32 = rom[6] as u32 * 0x1000000 + rom[7] as u32 * 0x10000 + rom[8] as u32
            * 0x100 + rom[9] as u32;
        let start: u16 = rom[14] as u16 * 0x100 + rom[15] as u16;
        let size_check = check_rom_size(n as u64, rom_size);
        if size_check.is_err() {
            return size_check;
        }
        if n - HEADER_SIZE > 65536 {
            return Err(LoadError::RomTooLarge);
        }
        copy_program(rom, HEADER_SIZE, cpu);
        cpu.pc = start;
        Ok(())
    } else {
        load_bin(rom, cpu)
    }
}

impl Cpu {
    /// A console at power-on with `rom` loaded, as a `.c16` image or as a raw
    /// binary, presented at `multiplier` times the native size.
    pub fn new(rom: &Vec<u8>, c16: bool, multiplier: u32) -> (r: Result<Cpu, LoadError>)
        ensures
            match r {
                Ok(cpu) => {
                    &&& cpu.sp == crate::cpu::STACK_BASE
                    &&& forall|i: int| 0 <= i < 16 ==> cpu.reg(i) == 0
                    &&& cpu.flags.bits() == 0
                    &&& !cpu.vblank
                    &&& cpu.graphics.is_blank()
                    &&& cpu.graphics.size == multiplier
                    &&& if c16 && has_header(rom@) {
                        &&& header_rom_size(rom@) == rom@.len() - 16
                        &&& rom@.len() - 16 <= 65536
                        &&& cpu.pc == header_start(rom@)
                        &&& forall|i: int|
                            0 <= i < rom@.len() - 16 ==> unsigned8(#[trigger] cpu.memory@[i]) == rom@[16 + i]
                        &&& forall|i: int| rom@.len() - 16 <= i < 65536 ==> #[trigger] cpu.memory@[i] == 0
                    } else {
                        &&& rom@.len() <= 65536
                        &&& cpu.pc == 0
                        &&& forall|i: int| 0 <= i < rom@.len() ==> unsigned8(#[trigger] cpu.memory@[i]) == rom@[i]
                        &&& forall|i: int| rom@.len() <= i < 65536 ==> #[trigger] cpu.memory@[i] == 0
                    }
                },
                Err(e) => if c16 && has_header(rom@) {
                    if header_rom_size(rom@) != rom@.len() - 16 {
                        e == LoadError::RomSizeMismatch {
                            header: header_rom_size(rom@) as u32,
                            actual: (rom@.len() - 16) as u64,
                        }
                    } else {
                        e == LoadError::RomTooLarge && rom@.len() - 16 > 65536
                    }
                } else {
                    e == LoadError::RomTooLarge && rom@.len() > 65536
                },
            },
    {
        let mut cpu = Cpu::new_test();
        let ghost fresh = cpu;
        cpu.graphics.size = multiplier;
        let loaded = if c16 {
            load_c16(rom, &mut cpu)
        } else {
            load_bin(rom, &mut cpu)
        };
        match loaded {
            Ok(()) => {
                assert forall|i: int| 0 <= i < 16 implies cpu.reg(i) == 0 by {
                    assert(fresh.reg(i) == 0);
                }
                Ok(cpu)
            },
            Err(e) => Err(e),
        }
    }
}

} // verus!
