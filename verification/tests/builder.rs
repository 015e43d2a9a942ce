use pewter::error::PerwError;
use pewter::pe::coff::{ImageFileCharacteristics, ImageFileMachine};
use pewter::pe::dos::ImageDosHeader;
use pewter::pe::file::definition::{
    align_up, checked_align_up, PEImageDef, SectionDefinitions, SectionHeap,
};
use pewter::pe::optional_header::data_directories::ImageDataDirectory;
use pewter::pe::optional_header::OptionalHeaderMagic;
use pewter::pe::sections::SectionFlags;
use pewter::pe::PEFile;

fn heap(name: &str, virtual_address: u32, data: &[u8]) -> SectionHeap {
    SectionHeap {
        name: name.to_string(),
        virtual_address,
        virtual_size: 0,
        characteristics: SectionFlags::from_bits_retain(SectionFlags::MEM_READ),
        data: data.to_vec(),
    }
}

#[test]
fn a_new_section_is_written_and_parsed_again() {
    let mut def = PEImageDef::new();

    let dotnet_vaddr = {
        let new_section = def.new_section(
            ".net".to_string(),
            SectionFlags::from_bits_retain(
                SectionFlags::MEM_READ | SectionFlags::CNT_INITIALIZED_DATA,
            ),
        );
        new_section.add_data(&[1, 2, 3, 4, 5])
    };
    assert_eq!(dotnet_vaddr, 0x1000);

    def.optional_header.data_directories.clr_runtime_header = ImageDataDirectory {
        virtual_address: dotnet_vaddr as u32,
        size: 6,
    };

    let patched_data = def.write_file().unwrap();

    let pe = PEFile::parse(&patched_data).unwrap();
    let optional_header = pe.optional_header.unwrap();
    assert_eq!(
        optional_header.data_directories.clr_runtime_header,
        ImageDataDirectory { virtual_address: dotnet_vaddr as u32, size: 6 }
    );
    assert_eq!(optional_header.windows_specific_fields.number_of_rva_and_sizes(), 15);
    assert_eq!(pe.coff_header.machine, ImageFileMachine::Amd64);
    assert_eq!(pe.coff_header.number_of_sections, 1);
    assert_eq!(pe.coff_header.size_of_optional_header, 96 + 15 * 8);
    assert_eq!(pe.section_table.len(), 1);
    let row = pe.section_table.get_by_name(".net").unwrap();
    assert_eq!(row.virtual_address, 0x1000);
    assert_eq!(row.virtual_size, 5);
    assert_eq!(row.size_of_raw_data, 5);
    assert_eq!(row.pointer_to_raw_data, 64 + 4 + 20 + 96 + 15 * 8 + 40);
    assert_eq!(
        row.characteristics.bits(),
        SectionFlags::MEM_READ | SectionFlags::CNT_INITIALIZED_DATA
    );
    assert_eq!(
        pe.section_table.find_rva_data(&patched_data, dotnet_vaddr).unwrap(),
        &[1, 2, 3, 4, 5]
    );
    assert_eq!(patched_data.len(), 64 + 4 + 20 + 96 + 15 * 8 + 40 + 5);
    assert_eq!(&patched_data[0..2], b"MZ");
    assert_eq!(&patched_data[64..68], b"PE\0\0");
}

#[test]
fn the_empty_definition_has_a_place_for_the_signature() {
    let def = PEImageDef::new();
    assert_eq!(def.dos_header.e_magic, ImageDosHeader::MAGIC_CONSTANT);
    assert_eq!(def.dos_header.e_lfanew, 64);
    assert_eq!(def.sections.count(), 0);
    assert_eq!(def.file_characteristics.bits(), 0);
    assert_eq!(def.optional_header.standard_fields.magic, OptionalHeaderMagic::PE32);
    let bytes = def.write_no_fix().unwrap();
    assert_eq!(bytes.len(), 64 + 4 + 20 + 96);
    let pe = PEFile::parse(&bytes).unwrap();
    assert_eq!(pe.section_table.len(), 0);
}

#[test]
fn sections_are_laid_out_at_the_file_alignment() {
    let mut def = PEImageDef::new();
    def.dos_header.e_lfanew = 0x80;
    def.file_characteristics =
        ImageFileCharacteristics::from_bits_retain(ImageFileCharacteristics::EXECUTABLE_IMAGE);
    def.optional_header.windows_specific_fields.set_file_alignment(0x200);
    def.optional_header.windows_specific_fields.set_section_alignment(0x1000);
    def.sections.text = Some(heap(".text", 0x1000, &[0xC3; 0x234]));
    def.sections.data = Some(heap(".data", 0x3000, &[7; 0x200]));
    def.sections.rdata = Some(heap(".rdata", 0x2000, &[9; 1]));
    def.sections.other.push(heap("skipped", 0, &[1, 2, 3]));
    def.sections.other.push(heap("a-long-name", 0x4000, &[]));
    assert_eq!(def.sections.count(), 4);

    let bytes = def.write_file().unwrap();
    let headers_end = 0x80 + 4 + 20 + 96 + 4 * 40;
    assert_eq!(headers_end, 0x198);
    let windows = def.optional_header.windows_specific_fields;
    assert_eq!(windows.size_of_headers(), 0x200);
    assert_eq!(windows.size_of_image(), 0x200 + 0x1000 + 0x1000 + 0x1000);
    assert_eq!(windows.number_of_rva_and_sizes(), 0);

    assert_eq!(&bytes[64..0x80], &[0u8; 0x40]);
    assert_eq!(&bytes[0x80..0x84], b"PE\0\0");
    let pe = PEFile::parse_minimal(&bytes).unwrap();
    assert_eq!(pe.dos_header, def.dos_header);
    assert_eq!(pe.coff_header.characteristics, def.file_characteristics);
    assert_eq!(pe.coff_header.size_of_optional_header, 96);
    let rows = &pe.section_table.0 .0;
    assert_eq!(rows.len(), 4);
    assert_eq!(rows[0].name_str(), ".text");
    assert_eq!(rows[1].name_str(), ".rdata");
    assert_eq!(rows[2].name_str(), ".data");
    assert_eq!(rows[3].name_str(), "a-long-n");
    assert_eq!(rows[0].pointer_to_raw_data, 0x200);
    assert_eq!(rows[0].size_of_raw_data, 0x234);
    assert_eq!(rows[0].virtual_size, 0x234);
    assert_eq!(rows[1].pointer_to_raw_data, 0x600);
    assert_eq!(rows[2].pointer_to_raw_data, 0x800);
    assert_eq!(rows[3].pointer_to_raw_data, 0xA00);
    assert_eq!(rows[3].size_of_raw_data, 0);
    assert_eq!(bytes.len(), 0xA00);
    assert_eq!(&bytes[0x198..0x200], &[0u8; 0x68]);
    assert_eq!(&bytes[0x200..0x434], &[0xC3; 0x234]);
    assert_eq!(&bytes[0x434..0x600], &[0u8; 0x1CC]);
    assert_eq!(bytes[0x600], 9);
    assert_eq!(&bytes[0x800..0xA00], &[7; 0x200]);
    assert_eq!(def.write_no_fix().unwrap(), bytes);
}

#[test]
fn fix_headers_raises_the_count_of_directories() {
    let mut def = PEImageDef::new();
    def.optional_header.windows_specific_fields.set_number_of_rva_and_sizes(3);
    def.fix_headers();
    assert_eq!(def.optional_header.windows_specific_fields.number_of_rva_and_sizes(), 3);
    def.optional_header.data_directories.debug = ImageDataDirectory { virtual_address: 1, size: 0 };
    def.fix_headers();
    assert_eq!(def.optional_header.windows_specific_fields.number_of_rva_and_sizes(), 7);
    assert_eq!(
        def.optional_header.windows_specific_fields.size_of_headers(),
        64 + 4 + 20 + 96 + 7 * 8
    );
    assert_eq!(
        def.optional_header.windows_specific_fields.size_of_image(),
        64 + 4 + 20 + 96 + 7 * 8
    );
    def.optional_header.windows_specific_fields.set_number_of_rva_and_sizes(16);
    def.fix_headers();
    assert_eq!(def.optional_header.windows_specific_fields.number_of_rva_and_sizes(), 16);
}

#[test]
fn output_size_takes_each_section_up_to_the_section_alignment() {
    let mut def = PEImageDef::new();
    def.optional_header.windows_specific_fields.set_size_of_headers(0x400);
    def.optional_header.windows_specific_fields.set_section_alignment(0x1000);
    def.sections.other.push(heap("a", 0x1000, &[0; 1]));
    def.sections.other.push(heap("b", 0x2000, &[0; 0x1000]));
    def.sections.other.push(heap("c", 0x3000, &[0; 0x1001]));
    def.sections.other.push(heap("d", 0, &[0; 0x1001]));
    assert_eq!(def.output_size(), 0x400 + 0x1000 + 0x1000 + 0x2000);
    def.optional_header.windows_specific_fields.set_section_alignment(0);
    assert_eq!(def.output_size(), 0x400 + 1 + 0x1000 + 0x1001);
}

#[test]
fn a_header_of_the_wrong_shape_is_not_written() {
    let mut def = PEImageDef::new();
    def.optional_header.standard_fields.magic = OptionalHeaderMagic::PE32Plus;
    match def.write_file() {
        Err(PerwError::InvalidImageFormat { .. }) => {}
        other => panic!("unexpected result {:?}", other),
    }
}

#[test]
fn alignment_rounds_up() {
    assert_eq!(align_up(0, 512), 0);
    assert_eq!(align_up(1, 512), 512);
    assert_eq!(align_up(512, 512), 512);
    assert_eq!(align_up(513, 512), 1024);
    assert_eq!(align_up(513, 0), 513);
    assert_eq!(align_up(10, 3), 12);
    assert_eq!(SectionDefinitions::allign_to_next_section(0), 0x1000);
    assert_eq!(SectionDefinitions::allign_to_next_section(1), 0x1000);
    assert_eq!(SectionDefinitions::allign_to_next_section(0xFFF), 0x1000);
    assert_eq!(SectionDefinitions::allign_to_next_section(0x1000), 0x2000);
    assert_eq!(SectionDefinitions::VIRTUAL_ADDRESS_ALIGNMENT, 0x1000);
}

#[test]
fn section_heaps_grow_and_tell_their_space() {
    let mut section = heap(".x", 0x5000, &[]);
    assert_eq!(section.add_data(&[1, 2, 3]), 0x5000);
    assert_eq!(section.add_data(&[4]), 0x5003);
    assert_eq!(section.data, vec![1, 2, 3, 4]);
    assert_eq!(section.virtual_size(), 0x1000);
    assert_eq!(section.remaining_section_size(), 0x1000 - 4);
    let mut offsets = heap(".y", 0, &[0; 0x1000]);
    assert_eq!(offsets.add_data(&[1]), 0x1000);
    assert_eq!(offsets.virtual_size(), 0x2000);
    assert_eq!(offsets.remaining_section_size(), 0xFFF);
}

#[test]
fn definitions_resolve_addresses_in_their_own_order() {
    let mut sections = SectionDefinitions::new();
    assert_eq!(sections.next_virtual_address(), 0x1000);
    assert_eq!(sections.count(), 0);
    assert!(sections.find_rva(0x1000).is_none());
    assert!(!sections.has_overlapping_sections());

    sections.reloc = Some(heap(".reloc", 0x3000, &[0; 0x10]));
    sections.text = Some(heap(".text", 0x1000, &[0; 0x1800]));
    sections.other.push(heap("left out", 0, &[0; 0x9000]));
    assert_eq!(sections.add_section(heap("auto", 0, &[1])), 0x4000);
    assert_eq!(sections.add_section(heap("fixed", 0x9000, &[1, 2])), 0x9000);
    assert_eq!(sections.next_virtual_address(), 0xA000);
    assert_eq!(sections.count(), 4);
    let names: Vec<&str> = sections.iter_sections().iter().map(|s| s.name.as_str()).collect();
    assert_eq!(names, vec![".text", ".reloc", "auto", "fixed"]);
    let names: Vec<&str> = sections.all_sections().iter().map(|s| s.name.as_str()).collect();
    assert_eq!(names, vec![".text", ".reloc", "left out", "auto", "fixed"]);

    assert!(sections.find_rva(0).is_none());
    assert_eq!(sections.find_rva(0x1000).unwrap().name, ".text");
    assert_eq!(sections.find_rva(0x27FF).unwrap().name, ".text");
    assert!(sections.find_rva(0x2800).is_none());
    assert_eq!(sections.find_rva(0x9001).unwrap().name, "fixed");
    assert!(sections.find_rva(0x9002).is_none());
    assert!(!sections.has_overlapping_sections());

    sections.data = Some(heap(".data", 0x2000, &[0; 4]));
    assert!(sections.has_overlapping_sections());
    assert_eq!(sections.find_rva(0x2000).unwrap().name, ".text");
}

#[test]
fn a_parsed_image_is_lifted_to_a_definition() {
    let mut def = PEImageDef::new();
    def.optional_header.windows_specific_fields.set_file_alignment(0x200);
    def.file_characteristics =
        ImageFileCharacteristics::from_bits_retain(ImageFileCharacteristics::FILE_DLL);
    def.sections.text = Some(heap(".text", 0x1000, &[1, 2, 3]));
    def.sections.pdata = Some(heap(".pdata", 0x2000, &[4, 5]));
    def.sections.reloc = Some(heap(".reloc", 0x3000, &[6]));
    def.sections.rdata = Some(heap(".rdata", 0x4000, &[7]));
    def.sections.data = Some(heap(".data", 0x5000, &[8]));
    def.sections.other.push(heap(".extra", 0x6000, &[9, 10]));
    def.sections.other.push(heap(".text", 0x7000, &[11]));
    let bytes = def.write_file().unwrap();

    let pe = PEFile::parse(&bytes).unwrap();
    let lifted = PEImageDef::from_pe_file(pe, &bytes);
    assert_eq!(lifted.dos_header, def.dos_header);
    assert_eq!(lifted.file_characteristics, def.file_characteristics);
    assert_eq!(
        lifted.optional_header.windows_specific_fields,
        def.optional_header.windows_specific_fields
    );
    let text = lifted.sections.text.as_ref().unwrap();
    assert_eq!(text.virtual_address, 0x7000);
    assert_eq!(text.data, vec![11]);
    assert_eq!(text.name, ".text");
    assert_eq!(lifted.sections.pdata.as_ref().unwrap().data, vec![4, 5]);
    assert_eq!(lifted.sections.reloc.as_ref().unwrap().data, vec![6]);
    assert_eq!(lifted.sections.rdata.as_ref().unwrap().data, vec![7]);
    assert_eq!(lifted.sections.data.as_ref().unwrap().data, vec![8]);
    assert_eq!(lifted.sections.other.len(), 1);
    assert_eq!(lifted.sections.other[0].name, ".extra");
    assert_eq!(lifted.sections.other[0].data, vec![9, 10]);
    assert_eq!(lifted.sections.other[0].virtual_size, 2);
    assert_eq!(
        lifted.sections.other[0].characteristics.bits(),
        SectionFlags::MEM_READ
    );

    let truncated = &bytes[..bytes.len() - 1];
    let pe = PEFile::parse_minimal(&bytes).unwrap();
    let lifted = PEImageDef::from_pe_file(pe, truncated);
    assert_eq!(lifted.sections.text.as_ref().unwrap().data, Vec::<u8>::new());
    assert_eq!(lifted.sections.other[0].data, vec![9, 10]);
}

#[test]
fn the_checked_writer_writes_what_the_writer_writes() {
    let mut def = PEImageDef::new();
    def.optional_header.windows_specific_fields.set_file_alignment(0x200);
    def.optional_header.windows_specific_fields.set_section_alignment(0x1000);
    def.sections.text = Some(heap(".text", 0x1000, &[0xC3; 0x234]));
    def.sections.other.push(heap(".more", 0x2000, &[1, 2, 3]));
    assert!(def.fix_fits());
    assert!(def.file_fits());
    let mut twin = def.clone();
    let bytes = def.try_write_file().unwrap();
    assert_eq!(bytes, twin.write_file().unwrap());
    assert_eq!(def, twin);
    assert_eq!(def.sections.checked_next_virtual_address(), Some(0x3000));
    assert_eq!(SectionDefinitions::new().checked_next_virtual_address(), Some(0x1000));

    def.optional_header.standard_fields.magic = OptionalHeaderMagic::Other(9);
    match def.try_write_file() {
        Err(PerwError::InvalidImageFormat { .. }) => {}
        other => panic!("unexpected result {:?}", other),
    }
}

#[test]
fn checked_sizes_tell_what_the_machine_cannot_hold() {
    let mut def = PEImageDef::new();
    def.optional_header.windows_specific_fields.set_file_alignment(u32::MAX);
    def.optional_header.windows_specific_fields.set_section_alignment(u32::MAX);
    for i in 0..8u32 {
        def.sections.other.push(heap(".big", 0x1000 * (i + 1), &[0; 1]));
    }
    if usize::BITS == 64 {
        assert!(def.fix_fits());
        assert!(def.file_fits());
    }
    assert_eq!(checked_align_up(5, 4), Some(8));
    assert_eq!(checked_align_up(8, 4), Some(8));
    assert_eq!(checked_align_up(usize::MAX, 0), Some(usize::MAX));
    assert_eq!(checked_align_up(usize::MAX - 1, 4), None);
    assert_eq!(checked_align_up(usize::MAX - 3, 4), Some(usize::MAX - 3));
}
