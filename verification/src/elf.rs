//! Fixed-layout ELF64 binary structures, decoded field by field in
//! ELF64-ABI order through a [`BytesReader`].
//!
//! The decoders do no validation beyond bounds checking; magic-byte
//! validation belongs to [`crate::input_file::InputFile`].

use vstd::prelude::*;

use crate::bytes_reader::{le_u16, le_u32, le_u64, BytesReader};
use crate::result::{LinkerError, LinkerResult};

verus! {

/// Value of `sh_strndx` meaning the real string-table index is held in
/// the `link` field of the first section header.
pub const SHN_XINDEX: u16 = 0xffff;

/// Size in bytes of an encoded file header.
pub const EHDR_SIZE: usize = 64;

/// Size in bytes of an encoded section header.
pub const SHDR_SIZE: usize = 64;

/// Size in bytes of an encoded symbol record.
pub const SYM_SIZE: usize = 24;

/// A section type: an open 32-bit enumeration. Unknown values are legal
/// and round-trip unchanged.
#[derive(Debug, Clone, Copy, PartialEq, Eq, Structural)]
pub struct SectionType(pub u32);

/// Legal values for the section type field, per the ELF specification.
pub const SHT_NULL: u32 = 0;

/// Program data.
pub const SHT_PROGBITS: u32 = 1;

/// Symbol table.
pub const SHT_SYMTAB: u32 = 2;

/// String table.
pub const SHT_STRTAB: u32 = 3;

/// Relocation entries with addends.
pub const SHT_RELA: u32 = 4;

/// Symbol hash table.
pub const SHT_HASH: u32 = 5;

/// Dynamic linking information.
pub const SHT_DYNAMIC: u32 = 6;

/// Notes.
pub const SHT_NOTE: u32 = 7;

/// Program space with no data (bss).
pub const SHT_NOBITS: u32 = 8;

/// Relocation entries, no addends.
pub const SHT_REL: u32 = 9;

/// Reserved.
pub const SHT_SHLIB: u32 = 10;

/// Dynamic linker symbol table.
pub const SHT_DYNSYM: u32 = 11;

/// Array of constructors.
pub const SHT_INIT_ARRAY: u32 = 14;

/// Array of destructors.
pub const SHT_FINI_ARRAY: u32 = 15;

/// Array of pre-constructors.
pub const SHT_PREINIT_ARRAY: u32 = 16;

/// Section group.
pub const SHT_GROUP: u32 = 17;

/// Extended section indices.
pub const SHT_SYMTAB_SHNDX: u32 = 18;

/// Number of defined types.
pub const SHT_NUM: u32 = 19;

/// Start of OS-specific types.
pub const SHT_LOOS: u32 = 0x60000000;

/// Object attributes.
pub const SHT_GNU_ATTRIBUTES: u32 = 0x6ffffff5;

/// GNU-style hash table.
pub const SHT_GNU_HASH: u32 = 0x6ffffff6;

/// Prelink library list.
pub const SHT_GNU_LIBLIST: u32 = 0x6ffffff7;

/// Checksum for DSO content.
pub const SHT_CHECKSUM: u32 = 0x6ffffff8;

/// Sun-specific low bound.
pub const SHT_LOSUNW: u32 = 0x6ffffffa;

pub const SHT_SUNW_MOVE: u32 = 0x6ffffffa;

pub const SHT_SUNW_COMDAT: u32 = 0x6ffffffb;

pub const SHT_SUNW_SYMINFO: u32 = 0x6ffffffc;

/// Version definition section.
pub const SHT_GNU_VERDEF: u32 = 0x6ffffffd;

/// Version needs section.
pub const SHT_GNU_VERNEED: u32 = 0x6ffffffe;

/// Version symbol table.
pub const SHT_GNU_VERSYM: u32 = 0x6fffffff;

/// Sun-specific high bound.
pub const SHT_HISUNW: u32 = 0x6fffffff;

/// End of OS-specific types.
pub const SHT_HIOS: u32 = 0x6fffffff;

/// Start of processor-specific types.
pub const SHT_LOPROC: u32 = 0x70000000;

/// End of processor-specific types.
pub const SHT_HIPROC: u32 = 0x7fffffff;

/// Start of application-specific types.
pub const SHT_LOUSER: u32 = 0x80000000;

/// End of application-specific types.
pub const SHT_HIUSER: u32 = 0x8fffffff;

/// The ELF file header: a 16-byte identification array followed by the
/// scalar fields, in ELF64-ABI order.
#[derive(Debug, Clone, Copy)]
pub struct Ehdr {
    pub ident: [u8; 16],
    pub ty: u16,
    pub machine: u16,
    pub version: u32,
    pub entry: u64,
    pub ph_off: u64,
    pub sh_off: u64,
    pub flags: u32,
    pub eh_size: u16,
    pub ph_ent_size: u16,
    pub ph_num: u16,
    pub sh_ent_size: u16,
    pub sh_num: u16,
    pub sh_strndx: u16,
}

/// The `sh_off` field of the file header encoded at the start of `b`.
pub open spec fn ehdr_sh_off(b: Seq<u8>) -> int {
    le_u64(b, 40)
}

/// The `sh_num` field of the file header encoded at the start of `b`.
pub open spec fn ehdr_sh_num(b: Seq<u8>) -> int {
    le_u16(b, 60)
}

/// The `sh_strndx` field of the file header encoded at the start of `b`.
pub open spec fn ehdr_sh_strndx(b: Seq<u8>) -> int {
    le_u16(b, 62)
}

/// `h` holds exactly the fields encoded in the first [`EHDR_SIZE`] bytes
/// of `b`.
pub open spec fn ehdr_matches(h: Ehdr, b: Seq<u8>) -> bool
    recommends
        b.len() >= EHDR_SIZE,
{
    &&& h.ident@ == b.subrange(0, 16)
    &&& h.ty == le_u16(b, 16)
    &&& h.machine == le_u16(b, 18)
    &&& h.version == le_u32(b, 20)
    &&& h.entry == le_u64(b, 24)
    &&& h.ph_off == le_u64(b, 32)
    &&& h.sh_off == ehdr_sh_off(b)
    &&& h.flags == le_u32(b, 48)
    &&& h.eh_size == le_u16(b, 52)
    &&& h.ph_ent_size == le_u16(b, 54)
    &&& h.ph_num == le_u16(b, 56)
    &&& h.sh_ent_size == le_u16(b, 58)
    &&& h.sh_num == ehdr_sh_num(b)
    &&& h.sh_strndx == ehdr_sh_strndx(b)
}

impl Ehdr {
    /// Whether the section-name string-table index overflowed the 16-bit
    /// field and is held in the `link` field of the first section header.
    pub fn index_is_in_extra_table(&self) -> (r: bool)
        ensures
            r == (self.sh_strndx == SHN_XINDEX),
    {
        self.sh_strndx == SHN_XINDEX
    }

    /// Decodes a file header from the start of `value`; fails when the
    /// buffer is too short, never reading out of bounds.
    pub fn parse(value: &[u8]) -> (r: LinkerResult<Self>)
        ensures
            r is Ok <==> value@.len() >= EHDR_SIZE,
            r is Err ==> r == LinkerResult::<Self>::Err(LinkerError::MalformedSlice),
            r is Ok ==> ehdr_matches(r.unwrap(), value@),
    {
        if value.len() < EHDR_SIZE {
            return Err(LinkerError::MalformedSlice);
        }
        let ident: [u8; 16] = [
            value[0], value[1], value[2], value[3], value[4], value[5], value[6], value[7],
            value[8], value[9], value[10], value[11], value[12], value[13], value[14], value[15],
        ];
        proof {
            assert(ident@ =~= value@.subrange(0, 16));
        }
        let mut reader = BytesReader::new_at(value, 16);
        Ok(Self {
            ident,
            ty: reader.read_u16(),
            machine: reader.read_u16(),
            version: reader.read_u32(),
            entry: reader.read_u64(),
            ph_off: reader.read_u64(),
            sh_off: reader.read_u64(),
            flags: reader.read_u32(),
            eh_size: reader.read_u16(),
            ph_ent_size: reader.read_u16(),
            ph_num: reader.read_u16(),
            sh_ent_size: reader.read_u16(),
            sh_num: reader.read_u16(),
            sh_strndx: reader.read_u16(),
        })
    }
}

/// A section header.
#[derive(Debug, Clone, Copy)]
pub struct Shdr {
    pub name: u32,
    pub ty: SectionType,
    pub flags: u64,
    pub addr: u64,
    pub offset: u64,
    pub size: u64,
    pub link: u32,
    pub info: u32,
    pub addr_align: u64,
    pub ent_size: u64,
}

/// The section header encoded in the [`SHDR_SIZE`] bytes of `b` at `pos`.
pub open spec fn shdr_of(b: Seq<u8>, pos: int) -> Shdr
    recommends
        0 <= pos,
        pos + SHDR_SIZE <= b.len(),
{
    Shdr {
        name: le_u32(b, pos) as u32,
        ty: SectionType(le_u32(b, pos + 4) as u32),
        flags: le_u64(b, pos + 8) as u64,
        addr: le_u64(b, pos + 16) as u64,
        offset: le_u64(b, pos + 24) as u64,
        size: le_u64(b, pos + 32) as u64,
        link: le_u32(b, pos + 40) as u32,
        info: le_u32(b, pos + 44) as u32,
        addr_align: le_u64(b, pos + 48) as u64,
        ent_size: le_u64(b, pos + 56) as u64,
    }
}

impl Shdr {
    /// Decodes one section header from `value` at `pos`; fails when fewer
    /// than [`SHDR_SIZE`] bytes remain, never reading out of bounds.
    pub fn parse(value: &[u8], pos: usize) -> (r: LinkerResult<Self>)
        ensures
            r is Ok <==> pos + SHDR_SIZE <= value@.len(),
            r is Err ==> r == LinkerResult::<Self>::Err(LinkerError::MalformedSlice),
            r is Ok ==> r.unwrap() == shdr_of(value@, pos as int),
    {
        if value.len() < SHDR_SIZE || pos > value.len() - SHDR_SIZE {
            return Err(LinkerError::MalformedSlice);
        }
        let mut reader = BytesReader::new_at(value, pos);
        Ok(Self {
            name: reader.read_u32(),
            ty: SectionType(reader.read_u32()),
            flags: reader.read_u64(),
            addr: reader.read_u64(),
            offset: reader.read_u64(),
            size: reader.read_u64(),
            link: reader.read_u32(),
            info: reader.read_u32(),
            addr_align: reader.read_u64(),
            ent_size: reader.read_u64(),
        })
    }
}

/// A symbol table entry, in table order; index 0 is the reserved null
/// symbol, and entries before `first_global` are local.
#[derive(Debug, Clone, Copy)]
pub struct Sym {
    pub name: u32,
    pub info: u8,
    pub other: u8,
    pub shndx: u16,
    pub val: u64,
    pub size: u64,
}

/// The symbol record encoded in the [`SYM_SIZE`] bytes of `b` at `pos`,
/// in ELF64-ABI order: name, info, other, section index, value, size.
pub open spec fn sym_of(b: Seq<u8>, pos: int) -> Sym
    recommends
        0 <= pos,
        pos + SYM_SIZE <= b.len(),
{
    Sym {
        name: le_u32(b, pos) as u32,
        info: b[pos + 4],
        other: b[pos + 5],
        shndx: le_u16(b, pos + 6) as u16,
        val: le_u64(b, pos + 8) as u64,
        size: le_u64(b, pos + 16) as u64,
    }
}

impl Sym {
    /// Decodes one symbol record from `value` at `pos`, consuming
    /// exactly [`SYM_SIZE`] bytes; fails when fewer remain, never
    /// reading out of bounds.
    pub fn parse(value: &[u8], pos: usize) -> (r: LinkerResult<Self>)
        ensures
            r is Ok <==> pos + SYM_SIZE <= value@.len(),
            r is Err ==> r == LinkerResult::<Self>::Err(LinkerError::MalformedSlice),
            r is Ok ==> r.unwrap() == sym_of(value@, pos as int),
    {
        if value.len() < SYM_SIZE || pos > value.len() - SYM_SIZE {
            return Err(LinkerError::MalformedSlice);
        }
        let mut reader = BytesReader::new_at(value, pos);
        Ok(Self {
            name: reader.read_u32(),
            info: reader.read_u8(),
            other: reader.read_u8(),
            shndx: reader.read_u16(),
            val: reader.read_u64(),
            size: reader.read_u64(),
        })
    }

    /// Decodes the full symbol table held in `bytes`: one record each
    /// [`SYM_SIZE`] bytes, in table order. A buffer length that is not an
    /// exact multiple of the record size is rejected, not truncated.
    pub fn read_syms(bytes: &[u8]) -> (r: LinkerResult<Vec<Sym>>)
        ensures
            r is Ok <==> bytes@.len() as int % SYM_SIZE as int == 0,
            r is Err ==> r == LinkerResult::<Vec<Sym>>::Err(LinkerError::MalformedSlice),
            r is Ok ==> r.unwrap()@.len() == bytes@.len() as int / SYM_SIZE as int,
            r is Ok ==> forall|j: int|
                0 <= j < r.unwrap()@.len() ==> r.unwrap()@[j] == sym_of(
                    bytes@,
                    SYM_SIZE as int * j,
                ),
    {
        if bytes.len() % SYM_SIZE != 0 {
            return Err(LinkerError::MalformedSlice);
        }
        let nums = bytes.len() / SYM_SIZE;
        let mut elf_syms = Vec::<Sym>::new();
        let mut pos: usize = 0;
        let mut i: usize = 0;
        while i < nums
            invariant
                bytes@.len() <= usize::MAX,
                nums == bytes@.len() as int / SYM_SIZE as int,
                bytes@.len() as int % SYM_SIZE as int == 0,
                i <= nums,
                pos == SYM_SIZE as int * i,
                elf_syms@.len() == i,
                forall|j: int|
                    0 <= j < i ==> elf_syms@[j] == sym_of(bytes@, SYM_SIZE as int * j),
            decreases nums - i,
        {
            assert(SYM_SIZE as int * nums == bytes@.len());
            assert(SYM_SIZE as int * (i + 1) <= SYM_SIZE as int * nums);
            let sym = match Sym::parse(bytes, pos) {
                Ok(s) => s,
                Err(e) => {
                    return Err(e);
                },
            };
            elf_syms.push(sym);
            pos = pos + SYM_SIZE;
            i = i + 1;
        }
        Ok(elf_syms)
    }
}

} // verus!
