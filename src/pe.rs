//! On-disk records of the PE/COFF format, each read field by field in
//! declaration order at its published width.
use vstd::prelude::*;
use crate::byteparse::Byteparse;
use crate::stream::{PeError, PeSource};

verus! {

/// The MS-DOS header at the start of an image. It occupies 64 bytes.
#[derive(Clone, Copy, Debug, Default, PartialEq, Eq)]
pub struct ImageDosHeader {
    pub e_magic: u16,
    pub e_cblp: u16,
    pub e_cp: u16,
    pub e_crlc: u16,
    pub e_cparhdr: u16,
    pub e_minalloc: u16,
    pub e_maxalloc: u16,
    pub e_ss: u16,
    pub e_sp: u16,
    pub e_csum: u16,
    pub e_ip: u16,
    pub e_cs: u16,
    pub e_lfarlc: u16,
    pub e_ovno: u16,
    pub e_res: [u16; 4],
    pub e_oemid: u16,
    pub e_oeminfo: u16,
    pub e_res2: [u16; 10],
    pub e_lfanew: i32,
}

impl Byteparse for ImageDosHeader {
    open spec fn byte_len() -> nat {
        64
    }

    open spec fn spec_read(data: Seq<u8>, off: int) -> ImageDosHeader {
        ImageDosHeader {
            e_magic: u16::spec_read(data, off + 0),
            e_cblp: u16::spec_read(data, off + 2),
            e_cp: u16::spec_read(data, off + 4),
            e_crlc: u16::spec_read(data, off + 6),
            e_cparhdr: u16::spec_read(data, off + 8),
            e_minalloc: u16::spec_read(data, off + 10),
            e_maxalloc: u16::spec_read(data, off + 12),
            e_ss: u16::spec_read(data, off + 14),
            e_sp: u16::spec_read(data, off + 16),
            e_csum: u16::spec_read(data, off + 18),
            e_ip: u16::spec_read(data, off + 20),
            e_cs: u16::spec_read(data, off + 22),
            e_lfarlc: u16::spec_read(data, off + 24),
            e_ovno: u16::spec_read(data, off + 26),
            e_res: <[u16; 4]>::spec_read(data, off + 28),
            e_oemid: u16::spec_read(data, off + 36),
            e_oeminfo: u16::spec_read(data, off + 38),
            e_res2: <[u16; 10]>::spec_read(data, off + 40),
            e_lfanew: i32::spec_read(data, off + 60),
        }
    }

    fn parse_to<S: PeSource>(&mut self, r: &mut S) -> (res: Result<(), PeError>) {
        proof { r.lemma_position_range(); }
        self.e_magic.parse_to(r)?;
        self.e_cblp.parse_to(r)?;
        self.e_cp.parse_to(r)?;
        self.e_crlc.parse_to(r)?;
        self.e_cparhdr.parse_to(r)?;
        self.e_minalloc.parse_to(r)?;
        self.e_maxalloc.parse_to(r)?;
        self.e_ss.parse_to(r)?;
        self.e_sp.parse_to(r)?;
        self.e_csum.parse_to(r)?;
        self.e_ip.parse_to(r)?;
        self.e_cs.parse_to(r)?;
        self.e_lfarlc.parse_to(r)?;
        self.e_ovno.parse_to(r)?;
        self.e_res.parse_to(r)?;
        self.e_oemid.parse_to(r)?;
        self.e_oeminfo.parse_to(r)?;
        self.e_res2.parse_to(r)?;
        self.e_lfanew.parse_to(r)?;
        Ok(())
    }
}

/// The COFF file header. It occupies 20 bytes.
#[derive(Clone, Copy, Debug, Default, PartialEq, Eq)]
pub struct ImageFileHeader {
    pub machine: u16,
    pub number_of_sections: u16,
    pub time_date_stamp: u32,
    pub pointer_to_symbol_table: u32,
    pub number_of_symbols: u32,
    pub size_of_optional_header: u16,
    pub characteristics: u16,
}

impl Byteparse for ImageFileHeader {
    open spec fn byte_len() -> nat {
        20
    }

    open spec fn spec_read(data: Seq<u8>, off: int) -> ImageFileHeader {
        ImageFileHeader {
            machine: u16::spec_read(data, off + 0),
            number_of_sections: u16::spec_read(data, off + 2),
            time_date_stamp: u32::spec_read(data, off + 4),
            pointer_to_symbol_table: u32::spec_read(data, off + 8),
            number_of_symbols: u32::spec_read(data, off + 12),
            size_of_optional_header: u16::spec_read(data, off + 16),
            characteristics: u16::spec_read(data, off + 18),
        }
    }

    fn parse_to<S: PeSource>(&mut self, r: &mut S) -> (res: Result<(), PeError>) {
        proof { r.lemma_position_range(); }
        self.machine.parse_to(r)?;
        self.number_of_sections.parse_to(r)?;
        self.time_date_stamp.parse_to(r)?;
        self.pointer_to_symbol_table.parse_to(r)?;
        self.number_of_symbols.parse_to(r)?;
        self.size_of_optional_header.parse_to(r)?;
        self.characteristics.parse_to(r)?;
        Ok(())
    }
}

/// One entry of the data directory: the address and size of a table. It occupies 8 bytes.
#[derive(Clone, Copy, Debug, Default, PartialEq, Eq)]
pub struct ImageDataDirectory {
    pub virtual_address: u32,
    pub size: u32,
}

impl Byteparse for ImageDataDirectory {
    open spec fn byte_len() -> nat {
        8
    }

    open spec fn spec_read(data: Seq<u8>, off: int) -> ImageDataDirectory {
        ImageDataDirectory {
            virtual_address: u32::spec_read(data, off + 0),
            size: u32::spec_read(data, off + 4),
        }
    }

    fn parse_to<S: PeSource>(&mut self, r: &mut S) -> (res: Result<(), PeError>) {
        proof { r.lemma_position_range(); }
        self.virtual_address.parse_to(r)?;
        self.size.parse_to(r)?;
        Ok(())
    }
}

/// The PE32+ optional header. It occupies 240 bytes.
#[derive(Clone, Copy, Debug, Default, PartialEq, Eq)]
pub struct ImageOptionalHeader64 {
    pub magic: u16,
    pub major_linker_version: u8,
    pub minor_linker_version: u8,
    pub size_of_code: u32,
    pub size_of_initialized_data: u32,
    pub size_of_uninitialized_data: u32,
    pub address_of_entry_point: u32,
    pub base_of_code: u32,
    pub image_base: u64,
    pub section_alignment: u32,
    pub file_alignment: u32,
    pub major_operating_system_version: u16,
    pub minor_operating_system_version: u16,
    pub major_image_version: u16,
    pub minor_image_version: u16,
    pub major_subsystem_version: u16,
    pub minor_subsystem_version: u16,
    pub win32_version_value: u32,
    pub size_of_image: u32,
    pub size_of_headers: u32,
    pub check_sum: u32,
    pub subsystem: u16,
    pub dll_characteristics: u16,
    pub size_of_stack_reserve: u64,
    pub size_of_stack_commit: u64,
    pub size_of_heap_reserve: u64,
    pub size_of_heap_commit: u64,
    pub loader_flags: u32,
    pub number_of_rva_and_sizes: u32,
    pub data_directory: [ImageDataDirectory; 16],
}

impl Byteparse for ImageOptionalHeader64 {
    open spec fn byte_len() -> nat {
        240
    }

    open spec fn spec_read(data: Seq<u8>, off: int) -> ImageOptionalHeader64 {
        ImageOptionalHeader64 {
            magic: u16::spec_read(data, off + 0),
            major_linker_version: u8::spec_read(data, off + 2),
            minor_linker_version: u8::spec_read(data, off + 3),
            size_of_code: u32::spec_read(data, off + 4),
            size_of_initialized_data: u32::spec_read(data, off + 8),
            size_of_uninitialized_data: u32::spec_read(data, off + 12),
            address_of_entry_point: u32::spec_read(data, off + 16),
            base_of_code: u32::spec_read(data, off + 20),
            image_base: u64::spec_read(data, off + 24),
            section_alignment: u32::spec_read(data, off + 32),
            file_alignment: u32::spec_read(data, off + 36),
            major_operating_system_version: u16::spec_read(data, off + 40),
            minor_operating_system_version: u16::spec_read(data, off + 42),
            major_image_version: u16::spec_read(data, off + 44),
            minor_image_version: u16::spec_read(data, off + 46),
            major_subsystem_version: u16::spec_read(data, off + 48),
            minor_subsystem_version: u16::spec_read(data, off + 50),
            win32_version_value: u32::spec_read(data, off + 52),
            size_of_image: u32::spec_read(data, off + 56),
            size_of_headers: u32::spec_read(data, off + 60),
            check_sum: u32::spec_read(data, off + 64),
            subsystem: u16::spec_read(data, off + 68),
            dll_characteristics: u16::spec_read(data, off + 70),
            size_of_stack_reserve: u64::spec_read(data, off + 72),
            size_of_stack_commit: u64::spec_read(data, off + 80),
            size_of_heap_reserve: u64::spec_read(data, off + 88),
            size_of_heap_commit: u64::spec_read(data, off + 96),
            loader_flags: u32::spec_read(data, off + 104),
            number_of_rva_and_sizes: u32::spec_read(data, off + 108),
            data_directory: <[ImageDataDirectory; 16]>::spec_read(data, off + 112),
        }
    }

    fn parse_to<S: PeSource>(&mut self, r: &mut S) -> (res: Result<(), PeError>) {
        proof { r.lemma_position_range(); }
        self.magic.parse_to(r)?;
        self.major_linker_version.parse_to(r)?;
        self.minor_linker_version.parse_to(r)?;
        self.size_of_code.parse_to(r)?;
        self.size_of_initialized_data.parse_to(r)?;
        self.size_of_uninitialized_data.parse_to(r)?;
        self.address_of_entry_point.parse_to(r)?;
        self.base_of_code.parse_to(r)?;
        self.image_base.parse_to(r)?;
        self.section_alignment.parse_to(r)?;
        self.file_alignment.parse_to(r)?;
        self.major_operating_system_version.parse_to(r)?;
        self.minor_operating_system_version.parse_to(r)?;
        self.major_image_version.parse_to(r)?;
        self.minor_image_version.parse_to(r)?;
        self.major_subsystem_version.parse_to(r)?;
        self.minor_subsystem_version.parse_to(r)?;
        self.win32_version_value.parse_to(r)?;
        self.size_of_image.parse_to(r)?;
        self.size_of_headers.parse_to(r)?;
        self.check_sum.parse_to(r)?;
        self.subsystem.parse_to(r)?;
        self.dll_characteristics.parse_to(r)?;
        self.size_of_stack_reserve.parse_to(r)?;
        self.size_of_stack_commit.parse_to(r)?;
        self.size_of_heap_reserve.parse_to(r)?;
        self.size_of_heap_commit.parse_to(r)?;
        self.loader_flags.parse_to(r)?;
        self.number_of_rva_and_sizes.parse_to(r)?;
        self.data_directory.parse_to(r)?;
        Ok(())
    }
}

/// The NT headers of a 64-bit image. It occupies 264 bytes.
#[derive(Clone, Copy, Debug, Default, PartialEq, Eq)]
pub struct ImageNtHeaders64 {
    pub signature: u32,
    pub file_header: ImageFileHeader,
    pub optional_header: ImageOptionalHeader64,
}

impl Byteparse for ImageNtHeaders64 {
    open spec fn byte_len() -> nat {
        264
    }

    open spec fn spec_read(data: Seq<u8>, off: int) -> ImageNtHeaders64 {
        ImageNtHeaders64 {
            signature: u32::spec_read(data, off + 0),
            file_header: ImageFileHeader::spec_read(data, off + 4),
            optional_header: ImageOptionalHeader64::spec_read(data, off + 24),
        }
    }

    fn parse_to<S: PeSource>(&mut self, r: &mut S) -> (res: Result<(), PeError>) {
        proof { r.lemma_position_range(); }
        self.signature.parse_to(r)?;
        self.file_header.parse_to(r)?;
        self.optional_header.parse_to(r)?;
        Ok(())
    }
}

/// One record of the section table. It occupies 40 bytes.
#[derive(Clone, Copy, Debug, Default, PartialEq, Eq)]
pub struct ImageSectionHeader {
    pub name: [u8; 8],
    pub virtual_size: u32,
    pub virtual_address: u32,
    pub size_of_raw_data: u32,
    pub pointer_to_raw_data: u32,
    pub pointer_to_relocations: u32,
    pub pointer_to_linenumbers: u32,
    pub number_of_relocations: u16,
    pub number_of_linenumbers: u16,
    pub characteristics: u32,
}

impl Byteparse for ImageSectionHeader {
    open spec fn byte_len() -> nat {
        40
    }

    open spec fn spec_read(data: Seq<u8>, off: int) -> ImageSectionHeader {
        ImageSectionHeader {
            name: <[u8; 8]>::spec_read(data, off + 0),
            virtual_size: u32::spec_read(data, off + 8),
            virtual_address: u32::spec_read(data, off + 12),
            size_of_raw_data: u32::spec_read(data, off + 16),
            pointer_to_raw_data: u32::spec_read(data, off + 20),
            pointer_to_relocations: u32::spec_read(data, off + 24),
            pointer_to_linenumbers: u32::spec_read(data, off + 28),
            number_of_relocations: u16::spec_read(data, off + 32),
            number_of_linenumbers: u16::spec_read(data, off + 34),
            characteristics: u32::spec_read(data, off + 36),
        }
    }

    fn parse_to<S: PeSource>(&mut self, r: &mut S) -> (res: Result<(), PeError>) {
        proof { r.lemma_position_range(); }
        self.name.parse_to(r)?;
        self.virtual_size.parse_to(r)?;
        self.virtual_address.parse_to(r)?;
        self.size_of_raw_data.parse_to(r)?;
        self.pointer_to_raw_data.parse_to(r)?;
        self.pointer_to_relocations.parse_to(r)?;
        self.pointer_to_linenumbers.parse_to(r)?;
        self.number_of_relocations.parse_to(r)?;
        self.number_of_linenumbers.parse_to(r)?;
        self.characteristics.parse_to(r)?;
        Ok(())
    }
}

/// The export directory table. It occupies 40 bytes.
#[derive(Clone, Copy, Debug, Default, PartialEq, Eq)]
pub struct ImageExportDirectory {
    pub characteristics: u32,
    pub time_date_stamp: u32,
    pub major_version: u16,
    pub minor_version: u16,
    pub name: u32,
    pub base: u32,
    pub number_of_functions: u32,
    pub number_of_names: u32,
    pub address_of_functions: u32,
    pub address_of_names: u32,
    pub address_of_name_ordinals: u32,
}

impl Byteparse for ImageExportDirectory {
    open spec fn byte_len() -> nat {
        40
    }

    open spec fn spec_read(data: Seq<u8>, off: int) -> ImageExportDirectory {
        ImageExportDirectory {
            characteristics: u32::spec_read(data, off + 0),
            time_date_stamp: u32::spec_read(data, off + 4),
            major_version: u16::spec_read(data, off + 8),
            minor_version: u16::spec_read(data, off + 10),
            name: u32::spec_read(data, off + 12),
            base: u32::spec_read(data, off + 16),
            number_of_functions: u32::spec_read(data, off + 20),
            number_of_names: u32::spec_read(data, off + 24),
            address_of_functions: u32::spec_read(data, off + 28),
            address_of_names: u32::spec_read(data, off + 32),
            address_of_name_ordinals: u32::spec_read(data, off + 36),
        }
    }

    fn parse_to<S: PeSource>(&mut self, r: &mut S) -> (res: Result<(), PeError>) {
        proof { r.lemma_position_range(); }
        self.characteristics.parse_to(r)?;
        self.time_date_stamp.parse_to(r)?;
        self.major_version.parse_to(r)?;
        self.minor_version.parse_to(r)?;
        self.name.parse_to(r)?;
        self.base.parse_to(r)?;
        self.number_of_functions.parse_to(r)?;
        self.number_of_names.parse_to(r)?;
        self.address_of_functions.parse_to(r)?;
        self.address_of_names.parse_to(r)?;
        self.address_of_name_ordinals.parse_to(r)?;
        Ok(())
    }
}

/// One record of the import directory table. It occupies 20 bytes.
#[derive(Clone, Copy, Debug, Default, PartialEq, Eq)]
pub struct ImageImportDescriptor {
    pub original_first_thunk: u32,
    pub time_date_stamp: u32,
    pub forwarder_chain: u32,
    pub name: u32,
    pub first_thunk: u32,
}

impl Byteparse for ImageImportDescriptor {
    open spec fn byte_len() -> nat {
        20
    }

    open spec fn spec_read(data: Seq<u8>, off: int) -> ImageImportDescriptor {
        ImageImportDescriptor {
            original_first_thunk: u32::spec_read(data, off + 0),
            time_date_stamp: u32::spec_read(data, off + 4),
            forwarder_chain: u32::spec_read(data, off + 8),
            name: u32::spec_read(data, off + 12),
            first_thunk: u32::spec_read(data, off + 16),
        }
    }

    fn parse_to<S: PeSource>(&mut self, r: &mut S) -> (res: Result<(), PeError>) {
        proof { r.lemma_position_range(); }
        self.original_first_thunk.parse_to(r)?;
        self.time_date_stamp.parse_to(r)?;
        self.forwarder_chain.parse_to(r)?;
        self.name.parse_to(r)?;
        self.first_thunk.parse_to(r)?;
        Ok(())
    }
}

} // verus!
