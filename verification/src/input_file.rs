//! String tables, and the decoded object-file representation built from a
//! raw buffer: file header, section header table (including the extended
//! section-count encoding), and the section-header string table.

use vstd::prelude::*;
use vstd::slice::{slice_subrange, slice_to_vec};
use vstd::string::StringSliceAdditionalSpecFns;
use vstd::utf8::{decode_utf8, encode_utf8, valid_utf8};

use crate::elf::{ehdr_sh_num, ehdr_sh_off, ehdr_sh_strndx, shdr_of};
use crate::elf::{Ehdr, SectionType, Shdr, Sym, EHDR_SIZE, SHDR_SIZE, SHN_XINDEX};
use crate::file::File;
use crate::result::{LinkerError, LinkerResult};

verus! {

/// Some byte at or after `off` in `b` is a NUL terminator.
pub open spec fn has_nul_from(b: Seq<u8>, off: int) -> bool {
    exists|j: int| off <= j < b.len() && b[j] == 0
}

/// Position of the first NUL byte at or after `off` in `b`.
pub open spec fn nul_pos_from(b: Seq<u8>, off: int) -> int
    recommends
        0 <= off,
        has_nul_from(b, off),
    decreases b.len() - off,
{
    if off >= b.len() {
        off
    } else if b[off] == 0 {
        off
    } else {
        nul_pos_from(b, off + 1)
    }
}

/// The bytes of the string-table entry starting at `off`: everything up
/// to (excluding) its NUL terminator.
pub open spec fn entry_bytes(b: Seq<u8>, off: int) -> Seq<u8>
    recommends
        0 <= off,
        has_nul_from(b, off),
{
    b.subrange(off, nul_pos_from(b, off))
}

proof fn lemma_nul_pos_from(b: Seq<u8>, off: int, j: int)
    requires
        0 <= off <= j < b.len(),
        b[j] == 0,
        forall|k: int| off <= k < j ==> b[k] != 0,
    ensures
        has_nul_from(b, off),
        nul_pos_from(b, off) == j,
    decreases j - off,
{
    if off < j {
        lemma_nul_pos_from(b, off + 1, j);
    }
}

/// Relies on std::str::from_utf8: it succeeds exactly when the bytes are
/// valid UTF-8, and the returned str is a view of those same bytes.
#[verifier::external_body]
fn bytes_to_str(bytes: &[u8]) -> (r: Option<&str>)
    ensures
        r is Some <==> valid_utf8(bytes@),
        r is Some ==> r.unwrap().spec_bytes() == bytes@,
{
    std::str::from_utf8(bytes).ok()
}

/// The raw bytes of one string-table section, holding NUL-terminated
/// text that other structures reference by byte offset.
pub struct StringTable(Vec<u8>);

impl View for StringTable {
    type V = Seq<u8>;

    closed spec fn view(&self) -> Seq<u8> {
        self.0@
    }
}

impl StringTable {
    pub fn new(bytes: Vec<u8>) -> (r: Self)
        ensures
            r@ == bytes@,
    {
        StringTable(bytes)
    }

    /// The text starting at `offset`, up to (excluding) the first NUL
    /// byte. Fails cleanly — never reading past the buffer — when no NUL
    /// follows `offset` or the bytes before it are not valid text.
    pub fn get_str(&self, offset: usize) -> (r: Result<&str, LinkerError>)
        ensures
            r is Ok <==> has_nul_from(self@, offset as int) && valid_utf8(
                entry_bytes(self@, offset as int),
            ),
            r is Err ==> r == Result::<&str, LinkerError>::Err(LinkerError::MalformedStringTable),
            r is Ok ==> r.unwrap()@ == decode_utf8(entry_bytes(self@, offset as int)),
    {
        let len = self.0.len();
        if offset >= len {
            // The offset does not address any terminated entry.
            return Err(LinkerError::MalformedStringTable);
        }
        let mut j = offset;
        while j < len && self.0[j] != 0
            invariant
                len == self@.len(),
                offset <= j <= len,
                forall|k: int| offset <= k < j ==> self@[k] != 0,
            decreases len - j,
        {
            j = j + 1;
        }
        if j >= len {
            // No terminator at or after `offset`.
            assert(!has_nul_from(self@, offset as int));
            return Err(LinkerError::MalformedStringTable);
        }
        proof {
            lemma_nul_pos_from(self@, offset as int, j as int);
        }
        let bytes = slice_subrange(self.0.as_slice(), offset, j);
        match bytes_to_str(bytes) {
            Some(s) => {
                proof {
                    // encode_utf8(s@) == bytes@, so decoding the entry
                    // bytes gives back exactly s@.
                    vstd::utf8::encode_utf8_decode_utf8(s@);
                }
                Ok(s)
            },
            None => Err(LinkerError::MalformedStringTable),
        }
    }
}

/// The buffer begins with the ELF magic bytes `7F 45 4C 46`.
pub open spec fn magic_ok(b: Seq<u8>) -> bool {
    b.len() >= 4 && b[0] == 0x7f && b[1] == 0x45 && b[2] == 0x4c && b[3] == 0x46
}

/// File offset of the section header table.
pub open spec fn sec0_pos(b: Seq<u8>) -> int {
    ehdr_sh_off(b)
}

/// The true number of section headers: `sh_num`, unless that field is
/// zero, in which case the count overflowed 16 bits and is held in the
/// `size` field of the first section header (extended-count encoding).
pub open spec fn true_section_count(b: Seq<u8>) -> int {
    if ehdr_sh_num(b) == 0 {
        shdr_of(b, sec0_pos(b)).size as int
    } else {
        ehdr_sh_num(b)
    }
}

/// Number of section headers the decoder stores: the first header is
/// always decoded and kept, so at least one.
pub open spec fn stored_section_count(b: Seq<u8>) -> int {
    if true_section_count(b) < 1 {
        1
    } else {
        true_section_count(b)
    }
}

/// The resolved index of the section-header string table: `sh_strndx`,
/// unless that field is [`SHN_XINDEX`], in which case the index is held
/// in the `link` field of the first section header.
pub open spec fn resolved_strndx(b: Seq<u8>) -> int {
    if ehdr_sh_strndx(b) == SHN_XINDEX as int {
        shdr_of(b, sec0_pos(b)).link as int
    } else {
        ehdr_sh_strndx(b)
    }
}

/// The `i`-th entry of the section header table of `b`, in file order.
pub open spec fn section_at(b: Seq<u8>, i: int) -> Shdr {
    shdr_of(b, sec0_pos(b) + SHDR_SIZE as int * i)
}

/// The full decoded section-header sequence of `b`.
pub open spec fn sections_of(b: Seq<u8>) -> Seq<Shdr> {
    Seq::new(stored_section_count(b) as nat, |i: int| section_at(b, i))
}

/// The byte window of section `h`: file offset to offset plus size.
pub open spec fn section_window(b: Seq<u8>, h: Shdr) -> Seq<u8>
    recommends
        window_in_bounds(b, h),
{
    b.subrange(h.offset as int, h.offset + h.size)
}

/// Section `h`'s byte window lies within the buffer.
pub open spec fn window_in_bounds(b: Seq<u8>, h: Shdr) -> bool {
    h.offset + h.size <= b.len()
}

/// Everything [`InputFile::new`] demands of a buffer in order to
/// succeed: the magic, a whole file header, a whole section header
/// table, and a resolvable in-bounds section-header string table.
pub open spec fn input_file_ok(b: Seq<u8>) -> bool {
    &&& magic_ok(b)
    &&& b.len() >= EHDR_SIZE
    &&& sec0_pos(b) + SHDR_SIZE <= b.len()
    &&& sec0_pos(b) + SHDR_SIZE as int * stored_section_count(b) <= b.len()
    &&& resolved_strndx(b) < stored_section_count(b)
    &&& window_in_bounds(b, section_at(b, resolved_strndx(b)))
}

/// `s[j]` is the first section of type `ty`, in file order.
pub open spec fn first_match_at(s: Seq<Shdr>, ty: SectionType, j: int) -> bool {
    &&& 0 <= j < s.len()
    &&& s[j].ty == ty
    &&& forall|i: int| 0 <= i < j ==> s[i].ty != ty
}

/// Some section of `s` has type `ty`.
pub open spec fn has_section(s: Seq<Shdr>, ty: SectionType) -> bool {
    exists|i: int| 0 <= i < s.len() && (#[trigger] s[i]).ty == ty
}

/// An input file together with its fully decoded, ordered
/// section-header sequence; the symbol fields are filled in by
/// [`crate::object_file::ObjectFile`].
pub struct InputFile {
    pub file: File,
    pub elf_sections: Vec<Shdr>,
    pub elf_syms: Vec<Sym>,
    /// Index of the first global symbol.
    pub first_global: u32,
    /// Section-header string table.
    pub sh_strtab: StringTable,
    /// Symbol string table.
    pub symbol_strtab: StringTable,
}

impl InputFile {
    /// The raw bytes of the underlying file.
    pub open spec fn contents(self) -> Seq<u8> {
        self.file.contents@
    }

    /// The name of the underlying file.
    pub open spec fn name(self) -> Seq<char> {
        self.file.name@
    }

    /// Decodes the file header and the whole section header table of
    /// `file`, applying the extended-count encoding, and resolves the
    /// section-header string table.
    pub fn new(file: File) -> (r: LinkerResult<Self>)
        ensures
            r is Ok <==> input_file_ok(file.contents@),
            !magic_ok(file.contents@) ==> r == LinkerResult::<Self>::Err(LinkerError::NotAnElfFile),
            magic_ok(file.contents@) ==> r != LinkerResult::<Self>::Err(LinkerError::NotAnElfFile),
            magic_ok(file.contents@) && !input_file_ok(file.contents@) ==> r
                == LinkerResult::<Self>::Err(LinkerError::MalformedSlice),
            r is Ok ==> r.unwrap().contents() == file.contents@,
            r is Ok ==> r.unwrap().name() == file.name@,
            r is Ok ==> r.unwrap().elf_sections@ == sections_of(file.contents@),
            r is Ok ==> r.unwrap().sh_strtab@ == section_window(
                file.contents@,
                section_at(file.contents@, resolved_strndx(file.contents@)),
            ),
            r is Ok ==> r.unwrap().first_global == 0,
            r is Ok ==> r.unwrap().elf_syms@ == Seq::<Sym>::empty(),
            r is Ok ==> r.unwrap().symbol_strtab@ == Seq::<u8>::empty(),
    {
        let ghost b = file.contents@;
        let clen = file.contents.len();
        if clen < 4 {
            return Err(LinkerError::NotAnElfFile);
        }
        if !(file.contents[0] == 0x7f && file.contents[1] == 0x45 && file.contents[2] == 0x4c
            && file.contents[3] == 0x46) {
            return Err(LinkerError::NotAnElfFile);
        }
        let ehdr = match Ehdr::parse(file.contents.as_slice()) {
            Ok(h) => h,
            Err(e) => {
                return Err(e);
            },
        };
        if ehdr.sh_off > clen as u64 || clen as u64 - ehdr.sh_off < SHDR_SIZE as u64 {
            return Err(LinkerError::MalformedSlice);
        }
        let sh_off = ehdr.sh_off as usize;
        let shdr0 = match Shdr::parse(file.contents.as_slice(), sh_off) {
            Ok(h) => h,
            Err(e) => {
                return Err(e);
            },
        };
        let num_sections: u64 = if ehdr.sh_num == 0 {
            shdr0.size
        } else {
            ehdr.sh_num as u64
        };
        let sh_strndx_wide: u64 = if ehdr.sh_strndx == SHN_XINDEX {
            shdr0.link as u64
        } else {
            ehdr.sh_strndx as u64
        };
        proof {
            assert(sh_off as int == sec0_pos(b));
            assert(shdr0 == shdr_of(b, sec0_pos(b)));
            assert(num_sections as int == true_section_count(b));
            assert(sh_strndx_wide as int == resolved_strndx(b));
        }
        let mut elf_sections: Vec<Shdr> = Vec::new();
        elf_sections.push(shdr0);
        let mut pos: usize = sh_off;
        let mut i: u64 = 1;
        while i < num_sections
            invariant
                file.contents@ == b,
                clen == b.len(),
                b.len() <= usize::MAX,
                magic_ok(b),
                b.len() >= EHDR_SIZE,
                sh_off as int == sec0_pos(b),
                num_sections as int == true_section_count(b),
                1 <= i,
                num_sections >= 1 ==> i <= num_sections,
                num_sections == 0 ==> i == 1,
                i <= stored_section_count(b),
                elf_sections@.len() == i,
                forall|j: int| 0 <= j < i ==> elf_sections@[j] == section_at(b, j),
                pos == sec0_pos(b) + SHDR_SIZE as int * (i - 1),
                pos + SHDR_SIZE <= b.len(),
            decreases num_sections - i,
        {
            let next = pos + SHDR_SIZE;
            if clen - next < SHDR_SIZE {
                proof {
                    // The table of stored_section_count(b) headers would
                    // run past the end of the buffer.
                    assert(SHDR_SIZE as int * (i + 1) <= SHDR_SIZE as int * stored_section_count(
                        b,
                    ));
                }
                return Err(LinkerError::MalformedSlice);
            }
            let sh = match Shdr::parse(file.contents.as_slice(), next) {
                Ok(h) => h,
                Err(e) => {
                    return Err(e);
                },
            };
            elf_sections.push(sh);
            pos = next;
            i = i + 1;
        }
        if sh_strndx_wide >= i {
            proof {
                assert(SHDR_SIZE as int * i <= SHDR_SIZE as int * stored_section_count(b));
            }
            return Err(LinkerError::MalformedSlice);
        }
        let sh_strndx = sh_strndx_wide as usize;
        let strhdr = elf_sections[sh_strndx];
        if strhdr.offset > clen as u64 || clen as u64 - strhdr.offset < strhdr.size {
            return Err(LinkerError::MalformedSlice);
        }
        let mut input_file = Self {
            file,
            elf_sections,
            elf_syms: Vec::new(),
            first_global: 0,
            sh_strtab: StringTable::new(Vec::new()),
            symbol_strtab: StringTable::new(Vec::new()),
        };
        proof {
            assert(input_file.elf_sections@ =~= sections_of(b));
        }
        let sh_strtab = input_file.get_string_table_from_idx(sh_strndx);
        input_file.sh_strtab = sh_strtab;
        Ok(input_file)
    }

    /// Number of bytes in the underlying file.
    pub fn contents_len(&self) -> (n: usize)
        ensures
            n == self.contents().len(),
    {
        self.file.contents.len()
    }

    /// The borrowed byte window of section `shdr`: file offset to offset
    /// plus size, no copy.
    pub fn get_bytes_from_shdr(&self, shdr: &Shdr) -> (r: &[u8])
        requires
            window_in_bounds(self.contents(), *shdr),
        ensures
            r@ == section_window(self.contents(), *shdr),
    {
        let clen = self.file.contents.len();
        let start = shdr.offset as usize;
        let end = (shdr.offset + shdr.size) as usize;
        slice_subrange(self.file.contents.as_slice(), start, end)
    }

    /// The borrowed byte window of the section at `idx`.
    pub fn get_bytes_from_idx(&self, idx: usize) -> (r: &[u8])
        requires
            idx < self.elf_sections@.len(),
            window_in_bounds(self.contents(), self.elf_sections@[idx as int]),
        ensures
            r@ == section_window(self.contents(), self.elf_sections@[idx as int]),
    {
        self.get_bytes_from_shdr(&self.elf_sections[idx])
    }

    /// An owned copy of the string-table section at `idx`.
    pub fn get_string_table_from_idx(&self, idx: usize) -> (r: StringTable)
        requires
            idx < self.elf_sections@.len(),
            window_in_bounds(self.contents(), self.elf_sections@[idx as int]),
        ensures
            r@ == section_window(self.contents(), self.elf_sections@[idx as int]),
    {
        StringTable::new(slice_to_vec(self.get_bytes_from_idx(idx)))
    }

    /// The first section of type `ty`, in file order.
    pub fn find_section(&self, ty: SectionType) -> (r: Option<&Shdr>)
        ensures
            r is Some <==> has_section(self.elf_sections@, ty),
            r is Some ==> exists|j: int|
                #[trigger] first_match_at(self.elf_sections@, ty, j) && *r.unwrap()
                    == self.elf_sections@[j],
    {
        match self.find_section_position(ty) {
            Some(p) => Some(&self.elf_sections[p]),
            None => None,
        }
    }

    /// The position of the first section of type `ty`, in file order.
    pub fn find_section_position(&self, ty: SectionType) -> (r: Option<usize>)
        ensures
            r is Some <==> has_section(self.elf_sections@, ty),
            r is Some ==> first_match_at(self.elf_sections@, ty, r.unwrap() as int),
    {
        let n = self.elf_sections.len();
        let mut i: usize = 0;
        while i < n
            invariant
                n == self.elf_sections@.len(),
                i <= n,
                forall|k: int| 0 <= k < i ==> (#[trigger] self.elf_sections@[k]).ty != ty,
            decreases n - i,
        {
            if self.elf_sections[i].ty == ty {
                return Some(i);
            }
            i = i + 1;
        }
        None
    }
}

} // verus!
