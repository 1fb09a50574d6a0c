use rvld::{BytesReader, Ehdr, File, InputFile, LinkerError, SectionType, Shdr, Sym};
use rvld::elf::{SHT_STRTAB, SHT_SYMTAB};

fn set_u16(b: &mut Vec<u8>, pos: usize, v: u16) {
    b[pos] = (v & 0xff) as u8;
    b[pos + 1] = ((v >> 8) & 0xff) as u8;
}

fn set_u32(b: &mut Vec<u8>, pos: usize, v: u32) {
    for k in 0..4 {
        b[pos + k] = ((v >> (8 * k)) & 0xff) as u8;
    }
}

fn set_u64(b: &mut Vec<u8>, pos: usize, v: u64) {
    for k in 0..8 {
        b[pos + k] = ((v >> (8 * k)) & 0xff) as u8;
    }
}

#[test]
fn reader_reads_little_endian() {
    let b = vec![0x34, 0x12, 0x78, 0x56, 0x34, 0x12, 0xef, 0xcd, 0xab, 0x89, 0x67, 0x45, 0x23, 0x01];
    let mut r = BytesReader::new(&b);
    assert_eq!(0x1234, r.read_u16());
    assert_eq!(0x12345678, r.read_u32());
    assert_eq!(0x0123456789abcdef, r.read_u64());
}

#[test]
fn reader_starts_at_offset() {
    let b = vec![0xff, 0xff, 0x01, 0x02];
    let mut r = BytesReader::new_at(&b, 2);
    assert_eq!(0x01, r.read_u8());
    assert_eq!(0x02, r.read_u8());
}

#[test]
fn ehdr_fields_decode_in_order() {
    let mut b = vec![0u8; 64];
    b[0] = 0x7f;
    b[1] = b'E';
    b[2] = b'L';
    b[3] = b'F';
    set_u16(&mut b, 16, 1); // ty
    set_u16(&mut b, 18, 0x003e); // machine
    set_u32(&mut b, 20, 1); // version
    set_u64(&mut b, 24, 0x1000); // entry
    set_u64(&mut b, 32, 0x40); // ph_off
    set_u64(&mut b, 40, 0x2000); // sh_off
    set_u32(&mut b, 48, 5); // flags
    set_u16(&mut b, 52, 64); // eh_size
    set_u16(&mut b, 54, 56); // ph_ent_size
    set_u16(&mut b, 56, 2); // ph_num
    set_u16(&mut b, 58, 64); // sh_ent_size
    set_u16(&mut b, 60, 12); // sh_num
    set_u16(&mut b, 62, 11); // sh_strndx
    let h = Ehdr::parse(&b).unwrap();
    assert_eq!([0x7f, b'E', b'L', b'F', 0, 0, 0, 0, 0, 0, 0, 0, 0, 0, 0, 0], h.ident);
    assert_eq!(1, h.ty);
    assert_eq!(0x003e, h.machine);
    assert_eq!(1, h.version);
    assert_eq!(0x1000, h.entry);
    assert_eq!(0x40, h.ph_off);
    assert_eq!(0x2000, h.sh_off);
    assert_eq!(5, h.flags);
    assert_eq!(64, h.eh_size);
    assert_eq!(56, h.ph_ent_size);
    assert_eq!(2, h.ph_num);
    assert_eq!(64, h.sh_ent_size);
    assert_eq!(12, h.sh_num);
    assert_eq!(11, h.sh_strndx);
    assert!(!h.index_is_in_extra_table());
}

#[test]
fn ehdr_extra_table_flag() {
    let mut b = vec![0u8; 64];
    set_u16(&mut b, 62, 0xffff);
    let h = Ehdr::parse(&b).unwrap();
    assert!(h.index_is_in_extra_table());
}

#[test]
fn ehdr_too_short_rejected() {
    let b = vec![0u8; 63];
    assert_eq!(LinkerError::MalformedSlice, Ehdr::parse(&b).err().unwrap());
}

#[test]
fn shdr_fields_decode_in_order() {
    let mut b = vec![0u8; 80];
    let pos = 16;
    set_u32(&mut b, pos, 9); // name
    set_u32(&mut b, pos + 4, 3); // ty
    set_u64(&mut b, pos + 8, 0x20); // flags
    set_u64(&mut b, pos + 16, 0x400000); // addr
    set_u64(&mut b, pos + 24, 0x200); // offset
    set_u64(&mut b, pos + 32, 0x30); // size
    set_u32(&mut b, pos + 40, 4); // link
    set_u32(&mut b, pos + 44, 6); // info
    set_u64(&mut b, pos + 48, 8); // addr_align
    set_u64(&mut b, pos + 56, 24); // ent_size
    let h = Shdr::parse(&b, pos).unwrap();
    assert_eq!(9, h.name);
    assert_eq!(SectionType(3), h.ty);
    assert_eq!(0x20, h.flags);
    assert_eq!(0x400000, h.addr);
    assert_eq!(0x200, h.offset);
    assert_eq!(0x30, h.size);
    assert_eq!(4, h.link);
    assert_eq!(6, h.info);
    assert_eq!(8, h.addr_align);
    assert_eq!(24, h.ent_size);
}

#[test]
fn shdr_out_of_bounds_rejected() {
    let b = vec![0u8; 80];
    assert_eq!(LinkerError::MalformedSlice, Shdr::parse(&b, 17).err().unwrap());
}

#[test]
fn sym_fields_decode_in_order() {
    let mut b = vec![0u8; 24];
    set_u32(&mut b, 0, 5);
    b[4] = 0x12;
    b[5] = 0x34;
    set_u16(&mut b, 6, 0x0102);
    set_u64(&mut b, 8, 0x0000000000401020); // value
    set_u64(&mut b, 16, 0x1122334455667788); // size
    let s = Sym::parse(&b, 0).unwrap();
    assert_eq!(5, s.name);
    assert_eq!(0x12, s.info);
    assert_eq!(0x34, s.other);
    assert_eq!(0x0102, s.shndx);
    assert_eq!(0x0000000000401020, s.val);
    assert_eq!(0x1122334455667788, s.size);
}

#[test]
fn sym_size_reads_the_last_eight_bytes() {
    // Only byte 16 is set: the size field's least-significant byte.
    let mut b = vec![0u8; 24];
    b[16] = 1;
    let s = Sym::parse(&b, 0).unwrap();
    assert_eq!(0, s.val);
    assert_eq!(1, s.size);
}

#[test]
fn sym_too_short_rejected() {
    let b = vec![0u8; 23];
    assert_eq!(LinkerError::MalformedSlice, Sym::parse(&b, 0).err().unwrap());
}

#[test]
fn read_syms_counts_records() {
    let mut b = vec![0u8; 48];
    set_u32(&mut b, 24, 3); // second record's name offset
    let syms = Sym::read_syms(&b).unwrap();
    assert_eq!(2, syms.len());
    assert_eq!(0, syms[0].name);
    assert_eq!(3, syms[1].name);
}

#[test]
fn read_syms_rejects_partial_record() {
    let b = vec![0u8; 47];
    assert_eq!(LinkerError::MalformedSlice, Sym::read_syms(&b).err().unwrap());
}

#[test]
fn read_syms_empty_table() {
    let b: Vec<u8> = Vec::new();
    assert_eq!(0, Sym::read_syms(&b).unwrap().len());
}

/// A zero-filled object whose sections carry the given types.
fn elf_with_types(types: &[u32]) -> Vec<u8> {
    let n = types.len();
    let mut b = vec![0u8; 64 + n * 64];
    b[0] = 0x7f;
    b[1] = b'E';
    b[2] = b'L';
    b[3] = b'F';
    set_u64(&mut b, 40, 64);
    set_u16(&mut b, 60, n as u16);
    for (i, t) in types.iter().enumerate() {
        set_u32(&mut b, 64 + i * 64 + 4, *t);
    }
    b
}

#[test]
fn find_section_returns_first_match() {
    let b = elf_with_types(&[0, 3, 2, 3]);
    let f = InputFile::new(File::new("t.o".to_string(), b)).unwrap();
    assert_eq!(Some(1), f.find_section_position(SectionType(SHT_STRTAB)));
    assert_eq!(Some(2), f.find_section_position(SectionType(SHT_SYMTAB)));
    assert_eq!(None, f.find_section_position(SectionType(9)));
    let h = f.find_section(SectionType(SHT_STRTAB)).unwrap();
    assert_eq!(SectionType(3), h.ty);
    assert!(f.find_section(SectionType(17)).is_none());
}

#[test]
fn section_bytes_window() {
    let mut b = elf_with_types(&[0, 1]);
    // Section 1 covers the four magic bytes.
    set_u64(&mut b, 64 + 64 + 24, 0);
    set_u64(&mut b, 64 + 64 + 32, 4);
    let f = InputFile::new(File::new("w.o".to_string(), b)).unwrap();
    assert_eq!(vec![0x7f, b'E', b'L', b'F'], f.get_bytes_from_idx(1).to_vec());
    let h = *f.find_section(SectionType(1)).unwrap();
    assert_eq!(vec![0x7f, b'E', b'L', b'F'], f.get_bytes_from_shdr(&h).to_vec());
}
