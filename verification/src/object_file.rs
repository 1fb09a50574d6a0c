//! The object-file abstraction: locates the symbol table section,
//! decodes the symbol entries, records the first-global index, and
//! resolves the symbol-name string table.

use vstd::prelude::*;

use crate::elf::{SectionType, Shdr, Sym, SHT_SYMTAB, SYM_SIZE};
use crate::file::File;
use crate::input_file::{
    first_match_at, has_section, input_file_ok, magic_ok, resolved_strndx, section_at,
    section_window, sections_of, window_in_bounds, InputFile,
};
use crate::result::{LinkerError, LinkerResult};

verus! {

/// The position of the first section of symbol-table type in `s`.
pub open spec fn symtab_pos(s: Seq<Shdr>) -> int {
    choose|j: int| first_match_at(s, SectionType(SHT_SYMTAB), j)
}

/// Any two first matches coincide: the position of the first section of
/// a given type is unique.
pub proof fn lemma_first_match_at_unique(s: Seq<Shdr>, ty: SectionType, a: int, b: int)
    requires
        first_match_at(s, ty, a),
        first_match_at(s, ty, b),
    ensures
        a == b,
{
}

/// Everything locating and decoding the symbol table demands of a
/// buffer `c` with decoded section sequence `s`: a symbol-table section
/// whose byte window is in bounds and an exact multiple of the record
/// size, whose `info` field (the first-global index) does not exceed
/// the symbol count, and whose `link` field names an in-bounds
/// string-table section.
pub open spec fn parse_ok(c: Seq<u8>, s: Seq<Shdr>) -> bool {
    &&& has_section(s, SectionType(SHT_SYMTAB))
    &&& window_in_bounds(c, s[symtab_pos(s)])
    &&& s[symtab_pos(s)].size as int % SYM_SIZE as int == 0
    &&& s[symtab_pos(s)].info as int <= s[symtab_pos(s)].size as int / SYM_SIZE as int
    &&& s[symtab_pos(s)].link < s.len()
    &&& window_in_bounds(c, s[s[symtab_pos(s)].link as int])
}

/// Everything [`ObjectFile::new`] demands of a buffer in order to
/// succeed.
pub open spec fn object_file_ok(b: Seq<u8>) -> bool {
    input_file_ok(b) && parse_ok(b, sections_of(b))
}

/// An [`InputFile`] whose symbol table has been located and decoded.
pub struct ObjectFile {
    pub input_file: InputFile,
    /// Position of the symbol-table section header.
    pub symtab_sec_position: usize,
}

impl ObjectFile {
    /// Decodes `file` as an [`InputFile`], propagating its errors
    /// unchanged, then locates and decodes the symbol table.
    pub fn new(file: File) -> (r: LinkerResult<Self>)
        ensures
            r is Ok <==> object_file_ok(file.contents@),
            !magic_ok(file.contents@) ==> r == LinkerResult::<Self>::Err(LinkerError::NotAnElfFile),
            magic_ok(file.contents@) ==> r != LinkerResult::<Self>::Err(LinkerError::NotAnElfFile),
            magic_ok(file.contents@) && !input_file_ok(file.contents@) ==> r
                == LinkerResult::<Self>::Err(LinkerError::MalformedSlice),
            input_file_ok(file.contents@) && !has_section(
                sections_of(file.contents@),
                SectionType(SHT_SYMTAB),
            ) ==> r == LinkerResult::<Self>::Err(LinkerError::MissingRequiredSection),
            input_file_ok(file.contents@) && has_section(
                sections_of(file.contents@),
                SectionType(SHT_SYMTAB),
            ) && !object_file_ok(file.contents@) ==> r == LinkerResult::<Self>::Err(
                LinkerError::MalformedSlice,
            ),
            r is Ok ==> r.unwrap().wf_decoded_from(file.contents@, file.name@),
            r is Ok ==> r.unwrap().input_file.first_global as int
                <= r.unwrap().input_file.elf_syms@.len(),
    {
        let input_file = match InputFile::new(file) {
            Ok(f) => f,
            Err(e) => {
                return Err(e);
            },
        };
        Self::parse(input_file)
    }

    /// The decoded state that a successful [`ObjectFile::new`] on a
    /// buffer `b` leaves behind: the section sequence of `b`, the symbol
    /// table decoded from the first symbol-table section's byte window,
    /// `first_global` taken verbatim from that section's `info` field,
    /// and the two resolved string tables.
    pub open spec fn wf_decoded_from(self, b: Seq<u8>, name: Seq<char>) -> bool {
        let s = sections_of(b);
        let hdr = s[symtab_pos(s)];
        &&& self.input_file.contents() == b
        &&& self.input_file.name() == name
        &&& self.input_file.elf_sections@ == s
        &&& self.symtab_sec_position == symtab_pos(s)
        &&& self.input_file.first_global == hdr.info
        &&& self.input_file.elf_syms@.len() == hdr.size as int / SYM_SIZE as int
        &&& (forall|k: int|
            0 <= k < self.input_file.elf_syms@.len() ==> self.input_file.elf_syms@[k]
                == crate::elf::sym_of(section_window(b, hdr), SYM_SIZE as int * k))
        &&& self.input_file.sh_strtab@ == section_window(b, section_at(b, resolved_strndx(b)))
        &&& self.input_file.symbol_strtab@ == section_window(b, s[hdr.link as int])
    }

    /// Locates the first symbol-table section of `input_file`, records
    /// its `info` field as the first-global index, decodes its byte
    /// window as the symbol table, and resolves the symbol-name string
    /// table named by its `link` field. A header whose first-global
    /// index exceeds the symbol count is rejected, so that
    /// `first_global` never exceeds the length of `elf_syms`.
    fn parse(input_file: InputFile) -> (r: LinkerResult<ObjectFile>)
        ensures
            r is Ok <==> parse_ok(input_file.contents(), input_file.elf_sections@),
            !has_section(input_file.elf_sections@, SectionType(SHT_SYMTAB)) ==> r
                == LinkerResult::<ObjectFile>::Err(LinkerError::MissingRequiredSection),
            has_section(input_file.elf_sections@, SectionType(SHT_SYMTAB)) && !parse_ok(
                input_file.contents(),
                input_file.elf_sections@,
            ) ==> r == LinkerResult::<ObjectFile>::Err(LinkerError::MalformedSlice),
            r is Ok ==> r.unwrap().parse_result_of(input_file),
            r is Ok ==> r.unwrap().input_file.first_global as int
                <= r.unwrap().input_file.elf_syms@.len(),
    {
        let ghost c = input_file.contents();
        let ghost s = input_file.elf_sections@;
        let mut input_file = input_file;
        let symtab_sec_position = match input_file.find_section_position(
            SectionType(SHT_SYMTAB),
        ) {
            Some(p) => p,
            None => {
                return Err(LinkerError::MissingRequiredSection);
            },
        };
        proof {
            assert(first_match_at(s, SectionType(SHT_SYMTAB), symtab_sec_position as int));
            lemma_first_match_at_unique(
                s,
                SectionType(SHT_SYMTAB),
                symtab_pos(s),
                symtab_sec_position as int,
            );
        }
        let symtab_sec = input_file.elf_sections[symtab_sec_position];
        let clen = input_file.contents_len();
        if symtab_sec.offset > clen as u64 || clen as u64 - symtab_sec.offset < symtab_sec.size {
            return Err(LinkerError::MalformedSlice);
        }
        input_file.first_global = symtab_sec.info;
        let bytes = input_file.get_bytes_from_shdr(&symtab_sec);
        let elf_syms = match Sym::read_syms(bytes) {
            Ok(v) => v,
            Err(e) => {
                return Err(e);
            },
        };
        if symtab_sec.info as usize > elf_syms.len() {
            // The claimed first-global index lies beyond the symbol
            // table: the header is inconsistent with the table it names.
            return Err(LinkerError::MalformedSlice);
        }
        input_file.elf_syms = elf_syms;
        let link = symtab_sec.link as usize;
        if link >= input_file.elf_sections.len() {
            return Err(LinkerError::MalformedSlice);
        }
        let link_hdr = input_file.elf_sections[link];
        if link_hdr.offset > clen as u64 || clen as u64 - link_hdr.offset < link_hdr.size {
            return Err(LinkerError::MalformedSlice);
        }
        let symbol_strtab = input_file.get_string_table_from_idx(link);
        input_file.symbol_strtab = symbol_strtab;
        Ok(ObjectFile { input_file, symtab_sec_position })
    }

    /// The state that a successful [`ObjectFile::parse`] leaves behind,
    /// relative to the input it was given.
    pub open spec fn parse_result_of(self, input: InputFile) -> bool {
        let c = input.contents();
        let s = input.elf_sections@;
        let hdr = s[symtab_pos(s)];
        &&& self.input_file.contents() == c
        &&& self.input_file.name() == input.name()
        &&& self.input_file.elf_sections@ == s
        &&& self.input_file.sh_strtab@ == input.sh_strtab@
        &&& self.symtab_sec_position == symtab_pos(s)
        &&& self.input_file.first_global == hdr.info
        &&& self.input_file.elf_syms@.len() == hdr.size as int / SYM_SIZE as int
        &&& (forall|k: int|
            0 <= k < self.input_file.elf_syms@.len() ==> self.input_file.elf_syms@[k]
                == crate::elf::sym_of(section_window(c, hdr), SYM_SIZE as int * k))
        &&& self.input_file.symbol_strtab@ == section_window(c, s[hdr.link as int])
    }
}

} // verus!
