//! Ingestion layer of an ELF object-file linker: decodes a raw byte buffer
//! of a relocatable ELF64 little-endian object file into a validated
//! in-memory representation (file header, section header table, symbol
//! table, string tables) for later linker stages to consume.

pub mod bytes_reader;
pub mod elf;
pub mod file;
pub mod input_file;
pub mod object_file;
pub mod result;

pub use bytes_reader::BytesReader;
pub use elf::{Ehdr, SectionType, Shdr, Sym};
pub use file::File;
pub use input_file::{InputFile, StringTable};
pub use object_file::ObjectFile;
pub use result::{LinkerError, LinkerResult};
