//! Decoding of ELF object files from an in-memory byte image.

pub mod bytes;
pub mod hdr;
pub mod shdr;
pub mod phdr;
pub mod internal;
pub mod text;
pub mod sym;
pub mod dynamic;
pub mod file_data;
pub mod reloc;
pub mod display;
pub mod ver;
