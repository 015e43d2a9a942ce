use pewter::error::PerwError;
use pewter::io::stream::PEStream;
use pewter::io::{ReadData, WriteData};
use pewter::pe::optional_header::data_directories::{
    DataDirectories, ImageDataDirectory, SectionName,
};
use pewter::pe::optional_header::{
    ImageDllCharacteristics, ImageSubsystem, OptionalHeader, OptionalHeaderMagic,
    OptionalHeaderStandardFields, OptionalHeaderWindowsSpecific,
    OptionalHeaderWindowsSpecificFields, Pe32, Pe32Plus,
};

#[test]
fn optional_opttional_header_magic_is_2_bytes() {
    let buffer = [0u8; OptionalHeaderMagic::SIZE];
    let read_ptr = &mut buffer.as_slice();
    OptionalHeaderMagic::read(read_ptr).unwrap();
    assert!(read_ptr.is_empty());
}

#[test]
fn optional_read_optional_header_magic() {
    assert_eq!(
        OptionalHeaderMagic::read(&mut [0x0B, 0x1u8].as_slice()).unwrap(),
        OptionalHeaderMagic::PE32
    );
    assert_eq!(
        OptionalHeaderMagic::read(&mut [0x0B, 0x2u8].as_slice()).unwrap(),
        OptionalHeaderMagic::PE32Plus
    );
    assert_eq!(
        OptionalHeaderMagic::read(&mut [0x34, 0x12u8].as_slice()).unwrap(),
        OptionalHeaderMagic::Other(0x1234)
    );
}

#[test]
fn optional_optional_header_stand_fields_pe_is_24() {
    let mut buffer = [0u8; OptionalHeaderStandardFields::SIZE_PE];
    buffer[..2].copy_from_slice(&OptionalHeaderMagic::PE32.to_u16().to_le_bytes());
    let read_ptr = &mut buffer.as_slice();
    OptionalHeaderStandardFields::read(read_ptr).unwrap();
    assert!(read_ptr.is_empty());
}

#[test]
fn optional_header_stand_fields_pe_plus_is_28_bytes() {
    let mut buffer = [0u8; OptionalHeaderStandardFields::SIZE_PE_PLUS];
    buffer[..2].copy_from_slice(&OptionalHeaderMagic::PE32Plus.to_u16().to_le_bytes());
    let read_ptr = &mut buffer.as_slice();
    OptionalHeaderStandardFields::read(read_ptr).unwrap();
    assert!(read_ptr.is_empty());
}

#[test]
fn fields_opttional_header_magic_is_2_bytes() {
    let buffer: [u8; OptionalHeaderMagic::SIZE] = 0x10B_u16.to_le_bytes();
    let read_ptr = &mut buffer.as_slice();
    OptionalHeaderMagic::read(read_ptr).unwrap();
    assert!(read_ptr.is_empty());
}

#[test]
fn fields_read_optional_header_magic() {
    assert_eq!(
        OptionalHeaderMagic::read(&mut [0x0B, 0x1u8].as_slice()).unwrap(),
        OptionalHeaderMagic::PE32
    );
    assert_eq!(
        OptionalHeaderMagic::read(&mut [0x0B, 0x2u8].as_slice()).unwrap(),
        OptionalHeaderMagic::PE32Plus
    );
}

#[test]
fn fields_optional_header_stand_fields_pe_is_24() {
    let mut buffer = [0u8; OptionalHeaderStandardFields::SIZE_PE];
    buffer[..2].copy_from_slice(&OptionalHeaderMagic::PE32.to_u16().to_le_bytes());
    let read_ptr = &mut buffer.as_slice();
    OptionalHeaderStandardFields::read(read_ptr).unwrap();
    assert_eq!(read_ptr.len(), 0);
}

#[test]
fn optional_header_standard_fields_pe32_plus_is_28_bytes() {
    let mut buffer = [0u8; OptionalHeaderStandardFields::SIZE_PE_PLUS];
    buffer[..2].copy_from_slice(&OptionalHeaderMagic::PE32Plus.to_u16().to_le_bytes());
    let read_ptr = &mut buffer.as_slice();
    OptionalHeaderStandardFields::read(read_ptr).unwrap();
    assert_eq!(read_ptr.len(), 0);
}

#[test]
fn optional_header_win_specific_pe32_is_68() {
    let buffer = [0u8; OptionalHeaderWindowsSpecificFields::<Pe32>::SIZE];
    let read_ptr = &mut buffer.as_slice();
    OptionalHeaderWindowsSpecificFields::<Pe32>::read(read_ptr).unwrap();
    assert_eq!(read_ptr.len(), 0);
}

#[test]
fn optional_header_win_specific_pe32_plus_is_88() {
    let buffer = [0u8; OptionalHeaderWindowsSpecificFields::<Pe32Plus>::SIZE];
    let read_ptr = &mut buffer.as_slice();
    OptionalHeaderWindowsSpecificFields::<Pe32Plus>::read(read_ptr).unwrap();
    assert_eq!(read_ptr.len(), 0);
}

#[test]
fn optional_header_pe32_is_96() {
    let mut buffer = vec![0u8; OptionalHeader::size_pe32()];
    assert_eq!(buffer.len(), 96);
    buffer[..2].copy_from_slice(&OptionalHeaderMagic::PE32.to_u16().to_le_bytes());
    let read_ptr = &mut buffer.as_slice();
    OptionalHeader::read(read_ptr).unwrap();
    assert_eq!(read_ptr.len(), 0);
}

#[test]
fn optional_header_pe32_plus_is_112() {
    let mut buffer = vec![0u8; OptionalHeader::size_pe32_plus()];
    assert_eq!(buffer.len(), 112);
    buffer[..2].copy_from_slice(&OptionalHeaderMagic::PE32Plus.to_u16().to_le_bytes());
    let read_ptr = &mut buffer.as_slice();
    OptionalHeader::read(read_ptr).unwrap();
    assert_eq!(read_ptr.len(), 0);
}

fn sample_header_pe32(directories: u32) -> OptionalHeader {
    let mut header = OptionalHeader::default();
    header.standard_fields.base_of_data = Some(0x3000);
    header.standard_fields.major_linker_version = 14;
    header.standard_fields.size_of_code = 0x1200;
    header.standard_fields.address_of_entry_point = 0x1010;
    header.windows_specific_fields.set_image_base(0x400000);
    header.windows_specific_fields.set_section_alignment(0x1000);
    header.windows_specific_fields.set_file_alignment(0x200);
    header
        .windows_specific_fields
        .set_subsystem(ImageSubsystem::WindowsCui);
    header
        .windows_specific_fields
        .set_dll_characteristics(ImageDllCharacteristics::from_bits_retain(
            ImageDllCharacteristics::NX_COMPAT | ImageDllCharacteristics::DYNAMIC_BASE,
        ));
    header
        .windows_specific_fields
        .set_number_of_rva_and_sizes(directories);
    header
}

#[test]
fn data_directory_is_8_bytes() {
    let buffer = [1u8, 0, 0, 0, 2, 0, 0, 0, 9];
    let read_ptr = &mut buffer.as_slice();
    let dir = ImageDataDirectory::read(read_ptr).unwrap();
    assert_eq!(dir, ImageDataDirectory { virtual_address: 1, size: 2 });
    assert_eq!(read_ptr.len(), 1);
    assert_eq!(ImageDataDirectory::SIZE, 8);
    assert_eq!(dir.to_bytes().unwrap(), vec![1, 0, 0, 0, 2, 0, 0, 0]);
    assert!(!dir.is_null());
    assert!(ImageDataDirectory::empty().is_null());
    assert!(ImageDataDirectory::default().is_null());
}

#[test]
fn parsing_consumes_exactly_the_declared_directories() {
    for k in 0..=16u32 {
        let mut header = sample_header_pe32(k);
        for i in 0..k as usize {
            header.data_directories.set_directory(
                SectionName::from_index(i).unwrap(),
                ImageDataDirectory { virtual_address: 0x1000 + i as u32, size: 1 + i as u32 },
            );
        }
        let mut bytes = header.to_bytes().unwrap();
        assert_eq!(bytes.len(), 96 + 8 * k as usize);
        assert_eq!(header.size(), bytes.len());
        bytes.extend_from_slice(&[0xEE; 24]);
        let read_ptr = &mut bytes.as_slice();
        let parsed = OptionalHeader::read(read_ptr).unwrap();
        assert_eq!(read_ptr.len(), 24);
        assert_eq!(parsed, header);
        for i in k as usize..16 {
            assert!(parsed
                .data_directories
                .get_directory(SectionName::from_index(i).unwrap())
                .is_null());
        }
    }
}

#[test]
fn directories_beyond_the_count_are_not_written() {
    let mut header = sample_header_pe32(2);
    header.data_directories.debug = ImageDataDirectory { virtual_address: 7, size: 7 };
    let bytes = header.to_bytes().unwrap();
    assert_eq!(bytes.len(), 96 + 16);
    let parsed = OptionalHeader::read(&mut bytes.as_slice()).unwrap();
    assert!(parsed.data_directories.debug.is_null());
}

#[test]
fn more_than_sixteen_directories_are_read_as_sixteen() {
    let header = sample_header_pe32(17);
    let bytes = header.to_bytes().unwrap();
    assert_eq!(bytes.len(), 96 + 16 * 8);
    assert_eq!(header.size(), 96 + 16 * 8);
    let read_ptr = &mut bytes.as_slice();
    let parsed = OptionalHeader::read(read_ptr).unwrap();
    assert_eq!(read_ptr.len(), 0);
    assert_eq!(parsed.windows_specific_fields.number_of_rva_and_sizes(), 17);
}

#[test]
fn truncated_directories_are_an_error() {
    let header = sample_header_pe32(3);
    let bytes = header.to_bytes().unwrap();
    match OptionalHeader::read(&mut &bytes[..bytes.len() - 1]) {
        Err(PerwError::NotEnoughDataLeft { attempted_read }) => assert_eq!(attempted_read, 24),
        other => panic!("unexpected result {:?}", other),
    }
}

#[test]
fn optional_header_pe32_plus_round_trip() {
    let mut windows = OptionalHeaderWindowsSpecificFields::<Pe32Plus>::default();
    windows.image_base = 0x1_4000_0000;
    windows.size_of_stack_reserve = 0x10_0000_0000;
    windows.size_of_heap_commit = 0x1234_5678_9ABC;
    windows.subsystem = ImageSubsystem::Other(77);
    windows.number_of_rva_and_sizes = 16;
    let mut header = OptionalHeader {
        standard_fields: OptionalHeaderStandardFields {
            magic: OptionalHeaderMagic::PE32Plus,
            ..Default::default()
        },
        windows_specific_fields: OptionalHeaderWindowsSpecific::PE32Plus(windows),
        data_directories: DataDirectories::default(),
    };
    header.data_directories.reserved = ImageDataDirectory { virtual_address: 5, size: 6 };
    header.data_directories.export_table = ImageDataDirectory { virtual_address: 1, size: 2 };
    let bytes = header.to_bytes().unwrap();
    assert_eq!(bytes.len(), 112 + 128);
    assert_eq!(&bytes[0..2], &[0x0B, 0x02]);
    assert_eq!(&bytes[24..32], &0x1_4000_0000u64.to_le_bytes());
    assert_eq!(OptionalHeader::read(&mut bytes.as_slice()).unwrap(), header);
}

#[test]
fn magic_and_fields_of_different_shape_do_not_write() {
    let mut header = sample_header_pe32(0);
    header.standard_fields.magic = OptionalHeaderMagic::PE32Plus;
    match header.to_bytes() {
        Err(PerwError::InvalidImageFormat { message }) => assert_eq!(
            message,
            "Mismatching Optiional Header standard_fields.magic value and windows_specific_fields variant."
        ),
        other => panic!("unexpected result {:?}", other),
    }
    header.standard_fields.magic = OptionalHeaderMagic::Other(1);
    assert!(header.to_bytes().is_err());
    let mut sink = [0u8; 512];
    assert!(header.write_to(&mut PEStream::new(sink.as_mut_slice())).is_err());
}

#[test]
fn unknown_magic_is_rejected_by_the_optional_header() {
    let mut buffer = vec![0u8; 200];
    buffer[..2].copy_from_slice(&0x107u16.to_le_bytes());
    match OptionalHeader::read(&mut buffer.as_slice()) {
        Err(PerwError::InvalidImageFormat { message }) => {
            assert_eq!(message, "Bad optional header magic number")
        }
        other => panic!("unexpected result {:?}", other),
    }
    match OptionalHeader::read(&mut &buffer[..2]) {
        Err(PerwError::InvalidImageFormat { .. }) => {}
        other => panic!("unexpected result {:?}", other),
    }
    match OptionalHeader::read(&mut &buffer[..1]) {
        Err(PerwError::NotEnoughDataLeft { attempted_read }) => assert_eq!(attempted_read, 2),
        other => panic!("unexpected result {:?}", other),
    }
}

#[test]
fn standard_fields_write_base_of_data_for_pe32_alone() {
    let pe32 = OptionalHeaderStandardFields {
        magic: OptionalHeaderMagic::PE32,
        base_of_code: 0x1000,
        base_of_data: Some(0x2000),
        ..Default::default()
    };
    let bytes = pe32.to_bytes().unwrap();
    assert_eq!(bytes.len(), 28);
    assert_eq!(&bytes[24..28], &0x2000u32.to_le_bytes());
    assert_eq!(OptionalHeaderStandardFields::read(&mut bytes.as_slice()).unwrap(), pe32);

    let plus = OptionalHeaderStandardFields {
        magic: OptionalHeaderMagic::PE32Plus,
        base_of_code: 0x1000,
        base_of_data: None,
        ..Default::default()
    };
    let bytes = plus.to_bytes().unwrap();
    assert_eq!(bytes.len(), 24);
    assert_eq!(OptionalHeaderStandardFields::read(&mut bytes.as_slice()).unwrap(), plus);

    let missing = OptionalHeaderStandardFields {
        magic: OptionalHeaderMagic::PE32,
        base_of_data: None,
        ..Default::default()
    };
    let bytes = missing.to_bytes().unwrap();
    assert_eq!(&bytes[24..28], &[0, 0, 0, 0]);
}

#[test]
fn subsystem_codes_go_both_ways() {
    let named = [
        (ImageSubsystem::Unknown, 0u16),
        (ImageSubsystem::Native, 1),
        (ImageSubsystem::WindowsGui, 2),
        (ImageSubsystem::WindowsCui, 3),
        (ImageSubsystem::Os2Cui, 5),
        (ImageSubsystem::PosixCui, 7),
        (ImageSubsystem::NativeWindows, 8),
        (ImageSubsystem::WindowsCeGui, 9),
        (ImageSubsystem::EfiApplication, 10),
        (ImageSubsystem::EbiBootServiceDriver, 11),
        (ImageSubsystem::EfiRuntimeDriver, 12),
        (ImageSubsystem::EfiRom, 13),
        (ImageSubsystem::Xbox, 14),
        (ImageSubsystem::WindowsBootApplication, 15),
    ];
    for (subsystem, code) in named {
        assert_eq!(subsystem.to_u16(), code);
        assert_eq!(ImageSubsystem::from_u16(code), subsystem);
    }
    assert_eq!(ImageSubsystem::from_u16(4), ImageSubsystem::Other(4));
    assert_eq!(ImageSubsystem::from_u16(6), ImageSubsystem::Other(6));
    for code in 0..=u16::MAX {
        assert_eq!(ImageSubsystem::from_u16(code).to_u16(), code);
    }
}

#[test]
fn magic_codes_go_both_ways() {
    assert_eq!(OptionalHeaderMagic::PE32.to_u16(), 0x10B);
    assert_eq!(OptionalHeaderMagic::PE32Plus.to_u16(), 0x20B);
    assert_eq!(OptionalHeaderMagic::from_u16(0x10B), OptionalHeaderMagic::PE32);
    assert_eq!(OptionalHeaderMagic::from_u16(0x20B), OptionalHeaderMagic::PE32Plus);
    assert_eq!(OptionalHeaderMagic::from_u16(0x107), OptionalHeaderMagic::Other(0x107));
    assert_eq!(OptionalHeaderMagic::Other(0x107).to_u16(), 0x107);
    assert!(OptionalHeaderMagic::PE32.is_pe32());
    assert!(OptionalHeaderMagic::PE32Plus.is_pe32_plus());
    assert!(!OptionalHeaderMagic::Other(1).is_pe32());
}

#[test]
fn accessors_dispatch_on_the_shape() {
    let mut pe32 = OptionalHeaderWindowsSpecific::default();
    assert!(pe32.is_pe32());
    assert!(!pe32.is_pe32_plus());
    pe32.set_image_base(0x1_2345_6789);
    assert_eq!(pe32.image_base(), 0x2345_6789);
    pe32.set_size_of_stack_reserve(u64::MAX);
    assert_eq!(pe32.size_of_stack_reserve(), 0xFFFF_FFFF);
    pe32.set_size_of_stack_commit(1);
    pe32.set_size_of_heap_reserve(2);
    pe32.set_size_of_heap_commit(3);
    assert_eq!(pe32.size_of_stack_commit(), 1);
    assert_eq!(pe32.size_of_heap_reserve(), 2);
    assert_eq!(pe32.size_of_heap_commit(), 3);

    let mut plus = OptionalHeaderWindowsSpecific::PE32Plus(Default::default());
    assert!(plus.is_pe32_plus());
    plus.set_image_base(0x1_2345_6789);
    assert_eq!(plus.image_base(), 0x1_2345_6789);
    plus.set_section_alignment(4);
    plus.set_file_alignment(5);
    plus.set_major_operating_system_version(6);
    plus.set_minor_operating_system_version(7);
    plus.set_major_image_version(8);
    plus.set_minor_image_version(9);
    plus.set_major_subsystem_version(10);
    plus.set_minor_subsystem_version(11);
    plus.set_win32_version_value(12);
    plus.set_size_of_image(13);
    plus.set_size_of_headers(14);
    plus.set_check_sum(15);
    plus.set_subsystem(ImageSubsystem::Xbox);
    plus.set_dll_characteristics(ImageDllCharacteristics::from_bits_retain(16));
    plus.set_loader_flags(17);
    plus.set_number_of_rva_and_sizes(18);
    assert_eq!(plus.section_alignment(), 4);
    assert_eq!(plus.file_alignment(), 5);
    assert_eq!(plus.major_operating_system_version(), 6);
    assert_eq!(plus.minor_operating_system_version(), 7);
    assert_eq!(plus.major_image_version(), 8);
    assert_eq!(plus.minor_image_version(), 9);
    assert_eq!(plus.major_subsystem_version(), 10);
    assert_eq!(plus.minor_subsystem_version(), 11);
    assert_eq!(plus.win32_version_value(), 12);
    assert_eq!(plus.size_of_image(), 13);
    assert_eq!(plus.size_of_headers(), 14);
    assert_eq!(plus.check_sum(), 15);
    assert_eq!(plus.subsystem(), ImageSubsystem::Xbox);
    assert_eq!(plus.dll_characteristics().bits(), 16);
    assert_eq!(plus.loader_flags(), 17);
    assert_eq!(plus.number_of_rva_and_sizes(), 18);
    assert_eq!(plus.image_base(), 0x1_2345_6789);
}

#[test]
fn directories_are_addressed_by_name_and_by_position() {
    let mut dirs = DataDirectories::default();
    for i in 0..16 {
        let name = SectionName::from_index(i).unwrap();
        assert_eq!(name.index(), i);
        dirs.set_directory(name, ImageDataDirectory { virtual_address: i as u32, size: 100 });
    }
    assert!(SectionName::from_index(16).is_none());
    assert_eq!(dirs.export_table.virtual_address, 0);
    assert_eq!(dirs.import_table.virtual_address, 1);
    assert_eq!(dirs.resource_table.virtual_address, 2);
    assert_eq!(dirs.exception_table.virtual_address, 3);
    assert_eq!(dirs.certificate_table.virtual_address, 4);
    assert_eq!(dirs.base_relocation_table.virtual_address, 5);
    assert_eq!(dirs.debug.virtual_address, 6);
    assert_eq!(dirs.architecture.virtual_address, 7);
    assert_eq!(dirs.global_ptr.virtual_address, 8);
    assert_eq!(dirs.tls_table.virtual_address, 9);
    assert_eq!(dirs.load_config_table.virtual_address, 10);
    assert_eq!(dirs.bound_import.virtual_address, 11);
    assert_eq!(dirs.ita.virtual_address, 12);
    assert_eq!(dirs.delay_import_descriptor.virtual_address, 13);
    assert_eq!(dirs.clr_runtime_header.virtual_address, 14);
    assert_eq!(dirs.reserved.virtual_address, 15);
    assert_eq!(dirs.get_directory(SectionName::ClrRuntimeHeader).virtual_address, 14);
    assert_eq!(dirs.used(), 16);
    assert_eq!(DataDirectories::empty().used(), 0);
    let mut one = DataDirectories::default();
    one.debug.size = 1;
    assert_eq!(one.used(), 7);
}

#[test]
fn a_directory_is_got_only_below_the_count() {
    let mut header = sample_header_pe32(3);
    header.data_directories.resource_table = ImageDataDirectory { virtual_address: 9, size: 9 };
    header.data_directories.exception_table = ImageDataDirectory { virtual_address: 8, size: 8 };
    assert_eq!(
        header.try_get_data_directory(SectionName::ResourceTable),
        Some(ImageDataDirectory { virtual_address: 9, size: 9 })
    );
    assert_eq!(header.try_get_data_directory(SectionName::ExceptionTable), None);
    assert_eq!(
        header.try_get_data_directory(SectionName::ExportTable),
        Some(ImageDataDirectory::default())
    );
}
