use rvld::{File, LinkerError, ObjectFile};

fn set_u16(b: &mut Vec<u8>, pos: usize, v: u16) {
    b[pos] = (v & 0xff) as u8;
    b[pos + 1] = ((v >> 8) & 0xff) as u8;
}

fn set_u32(b: &mut Vec<u8>, pos: usize, v: u32) {
    for k in 0..4 {
        b[pos + k] = ((v >> (8 * k)) & 0xff) as u8;
    }
}

fn set_u64(b: &mut Vec<u8>, pos: usize, v: u64) {
    for k in 0..8 {
        b[pos + k] = ((v >> (8 * k)) & 0xff) as u8;
    }
}

/// A relocatable object with three sections: a null section, a symbol
/// table of `names.len()` entries whose `info` field is `first_global`,
/// and the symbol-name string table holding `strtab`. Each symbol's
/// name-offset field is taken from `names`.
fn obj_with_syms(first_global: u32, strtab: &[u8], names: &[u32]) -> Vec<u8> {
    let nsec = 3;
    let sym_off = 64 + nsec * 64;
    let sym_size = names.len() * 24;
    let str_off = sym_off + sym_size;
    let mut b = vec![0u8; str_off + strtab.len()];
    b[0] = 0x7f;
    b[1] = b'E';
    b[2] = b'L';
    b[3] = b'F';
    set_u64(&mut b, 40, 64); // sh_off
    set_u16(&mut b, 60, nsec as u16);
    set_u16(&mut b, 62, 0);
    // section 1: the symbol table
    let s1 = 64 + 64;
    set_u32(&mut b, s1 + 4, 2); // SHT_SYMTAB
    set_u64(&mut b, s1 + 24, sym_off as u64);
    set_u64(&mut b, s1 + 32, sym_size as u64);
    set_u32(&mut b, s1 + 40, 2); // link: the symbol string table
    set_u32(&mut b, s1 + 44, first_global);
    // section 2: the symbol string table
    let s2 = 64 + 2 * 64;
    set_u32(&mut b, s2 + 4, 3); // SHT_STRTAB
    set_u64(&mut b, s2 + 24, str_off as u64);
    set_u64(&mut b, s2 + 32, strtab.len() as u64);
    for (i, nm) in names.iter().enumerate() {
        set_u32(&mut b, sym_off + i * 24, *nm);
    }
    b[str_off..].copy_from_slice(strtab);
    b
}

#[test]
fn resolve_symbol_names() {
    let b = obj_with_syms(1, b"\0main\0printf\0", &[0, 1, 6]);
    let o = ObjectFile::new(File::new("a.o".to_string(), b)).unwrap();
    assert_eq!(1, o.symtab_sec_position);
    assert_eq!(3, o.input_file.elf_syms.len());
    let name1 = o.input_file.elf_syms[1].name as usize;
    let name2 = o.input_file.elf_syms[2].name as usize;
    assert_eq!("main", o.input_file.symbol_strtab.get_str(name1).unwrap());
    assert_eq!("printf", o.input_file.symbol_strtab.get_str(name2).unwrap());
}

#[test]
fn symbol_count_is_size_over_entry_size() {
    let b = obj_with_syms(0, b"\0", &[0, 0, 0, 0, 0]);
    let o = ObjectFile::new(File::new("five.o".to_string(), b)).unwrap();
    assert_eq!(5, o.input_file.elf_syms.len());
}

#[test]
fn symbol_table_length_not_multiple_rejected() {
    let mut b = obj_with_syms(0, b"\0", &[0, 0]);
    // Shrink the symbol table's size to 47: not a multiple of the
    // 24-byte record stride, so the table must be rejected.
    set_u64(&mut b, 64 + 64 + 32, 47);
    let r = ObjectFile::new(File::new("odd.o".to_string(), b));
    assert_eq!(LinkerError::MalformedSlice, r.err().unwrap());
}

#[test]
fn first_global_taken_verbatim_from_info() {
    let b = obj_with_syms(7, b"\0", &[0, 0, 0, 0, 0, 0, 0, 0]);
    let o = ObjectFile::new(File::new("fg.o".to_string(), b)).unwrap();
    assert_eq!(7, o.input_file.first_global);
}

#[test]
fn first_global_never_exceeds_symbol_count() {
    // info claims seven local symbols but the table holds only one.
    let b = obj_with_syms(7, b"\0", &[0]);
    let r = ObjectFile::new(File::new("badfg.o".to_string(), b));
    assert_eq!(LinkerError::MalformedSlice, r.err().unwrap());
}

#[test]
fn missing_symtab_is_typed_error() {
    // A well-formed object with no symbol table section.
    let mut b = vec![0u8; 64 + 2 * 64];
    b[0] = 0x7f;
    b[1] = b'E';
    b[2] = b'L';
    b[3] = b'F';
    set_u64(&mut b, 40, 64);
    set_u16(&mut b, 60, 2);
    let r = ObjectFile::new(File::new("nosym.o".to_string(), b));
    assert_eq!(LinkerError::MissingRequiredSection, r.err().unwrap());
}

#[test]
fn symtab_link_out_of_range_rejected() {
    let mut b = obj_with_syms(0, b"\0", &[0]);
    set_u32(&mut b, 64 + 64 + 40, 9); // link names no section
    let r = ObjectFile::new(File::new("badlink.o".to_string(), b));
    assert_eq!(LinkerError::MalformedSlice, r.err().unwrap());
}

#[test]
fn symtab_window_out_of_range_rejected() {
    let mut b = obj_with_syms(0, b"\0", &[0]);
    set_u64(&mut b, 64 + 64 + 24, 1u64 << 40); // symtab offset past the end
    let r = ObjectFile::new(File::new("badoff.o".to_string(), b));
    assert_eq!(LinkerError::MalformedSlice, r.err().unwrap());
}

#[test]
fn object_file_propagates_magic_error() {
    let r = ObjectFile::new(File::new("junk".to_string(), b"junk".to_vec()));
    assert_eq!(LinkerError::NotAnElfFile, r.err().unwrap());
}

#[test]
fn decoded_symbol_fields() {
    let mut b = obj_with_syms(0, b"\0x\0", &[0, 1]);
    let sym1 = 64 + 3 * 64 + 24;
    b[sym1 + 4] = 0x12; // info
    b[sym1 + 5] = 0x34; // other
    set_u16(&mut b, sym1 + 6, 0x0102); // shndx
    set_u64(&mut b, sym1 + 8, 0x0000000000401020); // value
    set_u64(&mut b, sym1 + 16, 0x1122334455667788); // size
    let o = ObjectFile::new(File::new("fields.o".to_string(), b)).unwrap();
    let s = &o.input_file.elf_syms[1];
    assert_eq!(1, s.name);
    assert_eq!(0x12, s.info);
    assert_eq!(0x34, s.other);
    assert_eq!(0x0102, s.shndx);
    assert_eq!(0x0000000000401020, s.val);
    assert_eq!(0x1122334455667788, s.size);
}
