use pewter::containers::Table;
use pewter::error::PerwError;
use pewter::io::{ReadData, WriteData};
use pewter::pe::coff::ImageFileMachine;
use pewter::pe::optional_header::data_directories::ImageDataDirectory;
use pewter::pe::optional_header::OptionalHeaderMagic;
use pewter::pe::sections::base_relocation::{
    BaseRelocationBlockHeader, BaseRelocationBlockOffsets, BaseRelocationDataDitectory,
    BaseRelocationType,
};
use pewter::pe::sections::certificate::{
    Certificate, CertificateDataDirectory, CertificateRevision, CertificateType,
};
use pewter::pe::sections::cor20::ImageCor20Header;
use pewter::io::text::read_terminated;
use pewter::pe::sections::edata::{
    ExportAddress, ExportDirectory, ExportName, ExportNamePointer,
    ExportOrtinal, ExportTableDataDirectory,
};
use pewter::pe::sections::idata::{
    ImportDirectoryTable, ImportTableDataDirectory, ImportTableDataDirectoryEntry,
    ImportTableRow,
};
use pewter::pe::sections::pdata::{
    ArmPowerPCSH4WindowsCEExceptionHandlerTable, ExceptionHandlerDataDirectory,
    ExceptionHandlerInstructionLength, Mips32ExceptionHandlerTable, X64ExceptionHandlerTable,
};
use pewter::pe::sections::rsrc::ResourceDataDirectory;
use pewter::pe::sections::{SectionTable, SectionTableRow};

fn one_section(virtual_address: u32, size: u32) -> SectionTable {
    SectionTable(Table(vec![SectionTableRow {
        name: *b".sect\0\0\0",
        virtual_size: size,
        virtual_address,
        size_of_raw_data: size,
        pointer_to_raw_data: 0,
        ..Default::default()
    }]))
}

#[test]
fn a_block_of_8_plus_2n_bytes_has_n_entries() {
    for n in 0..20u32 {
        let mut bytes = Vec::new();
        bytes.extend_from_slice(&0x4000u32.to_le_bytes());
        bytes.extend_from_slice(&(8 + 2 * n).to_le_bytes());
        for i in 0..n {
            bytes.extend_from_slice(&((0x3000 + i) as u16).to_le_bytes());
        }
        bytes.extend_from_slice(&[0xEE; 3]);
        let read_ptr = &mut bytes.as_slice();
        let block = BaseRelocationBlockHeader::read(read_ptr).unwrap();
        assert_eq!(block.table.len(), n as usize);
        assert_eq!(block.block_size, 8 + 2 * n);
        assert_eq!(block.base_rva, 0x4000);
        assert_eq!(read_ptr.len(), 3);
        for (i, entry) in block.table.0.iter().enumerate() {
            assert_eq!(entry.relocation_type, BaseRelocationType::HighLow);
            assert_eq!(entry.offset, i as u16);
        }
    }
}

#[test]
fn block_sizes_off_the_formula_are_errors() {
    let mut odd = Vec::new();
    odd.extend_from_slice(&0x1000u32.to_le_bytes());
    odd.extend_from_slice(&11u32.to_le_bytes());
    odd.extend_from_slice(&[0x04, 0x30, 0xFF]);
    match BaseRelocationBlockHeader::read(&mut odd.as_slice()) {
        Err(PerwError::NotEnoughDataLeft { attempted_read }) => assert_eq!(attempted_read, 2),
        other => panic!("unexpected result {:?}", other),
    }
    for size in 0..8u32 {
        let mut small = Vec::new();
        small.extend_from_slice(&0x1000u32.to_le_bytes());
        small.extend_from_slice(&size.to_le_bytes());
        small.extend_from_slice(&[0; 16]);
        match BaseRelocationBlockHeader::read(&mut small.as_slice()) {
            Err(PerwError::InvalidImageFormat { message }) => {
                assert_eq!(message, "Invalid base relocation block size.")
            }
            other => panic!("unexpected result {:?}", other),
        }
        assert!(BaseRelocationDataDitectory::parse(&small).is_err());
    }
    let mut long = Vec::new();
    long.extend_from_slice(&0x1000u32.to_le_bytes());
    long.extend_from_slice(&u32::MAX.to_le_bytes());
    long.extend_from_slice(&[0; 16]);
    match BaseRelocationBlockHeader::read(&mut long.as_slice()) {
        Err(PerwError::NotEnoughDataLeft { attempted_read }) => {
            assert_eq!(attempted_read, u32::MAX as usize - 8)
        }
        other => panic!("unexpected result {:?}", other),
    }
    match BaseRelocationBlockHeader::read(&mut &long[..7]) {
        Err(PerwError::NotEnoughDataLeft { attempted_read }) => assert_eq!(attempted_read, 8),
        other => panic!("unexpected result {:?}", other),
    }
}

#[test]
fn relocation_blocks_are_read_to_the_end_of_the_directory() {
    let mut bytes = Vec::new();
    bytes.extend_from_slice(&0x1000u32.to_le_bytes());
    bytes.extend_from_slice(&12u32.to_le_bytes());
    bytes.extend_from_slice(&[0x04, 0x30, 0x08, 0xA0]);
    bytes.extend_from_slice(&0x2000u32.to_le_bytes());
    bytes.extend_from_slice(&8u32.to_le_bytes());
    bytes.extend_from_slice(&0x3000u32.to_le_bytes());
    bytes.extend_from_slice(&10u32.to_le_bytes());
    bytes.extend_from_slice(&[0xFF, 0x0F]);
    let table = BaseRelocationDataDitectory::parse(&bytes).unwrap();
    assert_eq!(table.relocations.len(), 3);
    let blocks = &table.relocations.0;
    assert_eq!(blocks[0].base_rva, 0x1000);
    assert_eq!(
        blocks[0].table.0,
        vec![
            BaseRelocationBlockOffsets { relocation_type: BaseRelocationType::HighLow, offset: 4 },
            BaseRelocationBlockOffsets { relocation_type: BaseRelocationType::Dir64, offset: 8 },
        ]
    );
    assert_eq!(blocks[1].table.len(), 0);
    assert_eq!(
        blocks[2].table.0,
        vec![BaseRelocationBlockOffsets {
            relocation_type: BaseRelocationType::Absolute,
            offset: 0xFFF
        }]
    );
    assert_eq!(blocks[0].header_to_bytes(), &bytes[0..8]);
    assert_eq!(BaseRelocationDataDitectory::parse(&[]).unwrap().relocations.len(), 0);
    assert!(BaseRelocationDataDitectory::parse(&bytes[..bytes.len() - 1]).is_err());
}

#[test]
fn relocation_types_and_offsets_use_all_their_bits() {
    let names = [
        BaseRelocationType::Absolute,
        BaseRelocationType::High,
        BaseRelocationType::Low,
        BaseRelocationType::HighLow,
        BaseRelocationType::HighAdj,
        BaseRelocationType::MipsJmpAddrOrArmMove32OrRscvHigh20,
        BaseRelocationType::Reserved,
        BaseRelocationType::ThumbMov32OrRiscVLow121,
        BaseRelocationType::RiscVLow125OtLoongArch32or64MarkLa,
        BaseRelocationType::MipsJmpAddr16,
        BaseRelocationType::Dir64,
    ];
    for (code, name) in names.iter().enumerate() {
        assert_eq!(name.to_u8(), code as u8);
        assert_eq!(BaseRelocationType::from_u8(code as u8).unwrap(), *name);
        for offset in [0u16, 1, 0x800, 0xFFF] {
            let entry = BaseRelocationBlockOffsets { relocation_type: *name, offset };
            assert_eq!(entry.to_u16(), ((code as u16) << 12) | offset);
            let bytes = entry.to_bytes().unwrap();
            assert_eq!(BaseRelocationBlockOffsets::read(&mut bytes.as_slice()).unwrap(), entry);
        }
    }
    for code in 11..=255u8 {
        match BaseRelocationType::from_u8(code) {
            Err(PerwError::InvalidImageFormat { message }) => {
                assert_eq!(message, "Invalid base relcation type..")
            }
            other => panic!("unexpected result {:?}", other),
        }
    }
    for word in [0xB000u16, 0xFFFF] {
        assert!(BaseRelocationBlockOffsets::read(&mut word.to_le_bytes().as_slice()).is_err());
    }
    assert_eq!(
        BaseRelocationBlockOffsets::read(&mut [0xFF, 0xAF].as_slice()).unwrap(),
        BaseRelocationBlockOffsets { relocation_type: BaseRelocationType::Dir64, offset: 0xFFF }
    );
}

fn certificate(length: u32, revision: u16, kind: u16, data: &[u8]) -> Vec<u8> {
    let mut bytes = Vec::new();
    bytes.extend_from_slice(&length.to_le_bytes());
    bytes.extend_from_slice(&revision.to_le_bytes());
    bytes.extend_from_slice(&kind.to_le_bytes());
    bytes.extend_from_slice(data);
    bytes
}

#[test]
fn certificates_start_on_quadword_boundaries() {
    let mut bytes = certificate(12, 0x0200, 0x0002, &[1, 2, 3, 4]);
    bytes.extend_from_slice(&[0; 4]);
    bytes.extend_from_slice(&certificate(9, 0x0100, 0x0001, &[9]));
    bytes.extend_from_slice(&[0; 7]);
    assert_eq!(bytes.len(), 32);
    let table = CertificateDataDirectory::parse(&bytes).unwrap();
    assert_eq!(
        table.certificates.0,
        vec![
            Certificate {
                length: 12,
                revision: CertificateRevision::Revision2_0,
                certificate_type: CertificateType::PkcsSignedData,
                certificate: vec![1, 2, 3, 4],
            },
            Certificate {
                length: 9,
                revision: CertificateRevision::Revision1_0,
                certificate_type: CertificateType::X509,
                certificate: vec![9],
            },
        ]
    );

    match CertificateDataDirectory::parse(&bytes[..31]) {
        Err(PerwError::InvalidImageFormat { message }) => assert_eq!(
            message,
            "Certificate entry runs past the end of the certificate table."
        ),
        other => panic!("unexpected result {:?}", other),
    }
    match CertificateDataDirectory::parse(&bytes[..20]) {
        Err(PerwError::NotEnoughDataLeft { attempted_read }) => assert_eq!(attempted_read, 5),
        other => panic!("unexpected result {:?}", other),
    }
    match CertificateDataDirectory::parse(&[]) {
        Err(PerwError::NotEnoughDataLeft { attempted_read }) => assert_eq!(attempted_read, 4),
        other => panic!("unexpected result {:?}", other),
    }
    let exact = certificate(8, 3, 4, &[]);
    let table = CertificateDataDirectory::parse(&exact).unwrap();
    assert_eq!(table.certificates.0[0].revision, CertificateRevision::Other(3));
    assert_eq!(table.certificates.0[0].certificate_type, CertificateType::TsStackSigned);
    assert_eq!(table.certificates.0[0].certificate, Vec::<u8>::new());
}

#[test]
fn short_certificates_are_errors() {
    for length in 0..8u32 {
        let mut bytes = length.to_le_bytes().to_vec();
        bytes.extend_from_slice(&[0; 12]);
        match Certificate::read(&mut bytes.as_slice()) {
            Err(PerwError::NotEnoughDataLeft { attempted_read }) => assert_eq!(attempted_read, 2),
            other => panic!("unexpected result {:?}", other),
        }
    }
    let read_ptr = &mut [8u8, 0, 0, 0, 0, 1, 3, 0, 0xEE].as_slice();
    let cert = Certificate::read(read_ptr).unwrap();
    assert_eq!(cert.certificate_type, CertificateType::Reserved1);
    assert_eq!(read_ptr.len(), 1);
    assert_eq!(CertificateType::from_u16(5), CertificateType::Other(5));
    assert_eq!(CertificateType::default(), CertificateType::Other(0));
    assert_eq!(CertificateRevision::default(), CertificateRevision::Other(0));
    assert_eq!(CertificateRevision::from_u16(0x0100), CertificateRevision::Revision1_0);
    assert_eq!(CertificateRevision::from_u16(0x0200), CertificateRevision::Revision2_0);
    assert_eq!(CertificateRevision::from_u16(1), CertificateRevision::Other(1));
}

#[test]
fn the_machine_selects_the_exception_table() {
    let mut bytes = Vec::new();
    for value in [0x1000u32, 0x1100, 0x2000, 0x3000, 0x1010] {
        bytes.extend_from_slice(&value.to_le_bytes());
    }
    for machine in [ImageFileMachine::MipsFPU, ImageFileMachine::R4000] {
        assert_eq!(
            ExceptionHandlerDataDirectory::parse(&bytes, machine).unwrap(),
            ExceptionHandlerDataDirectory::Mips32(Mips32ExceptionHandlerTable {
                begin_address: 0x1000,
                end_address: 0x1100,
                exception_hander: 0x2000,
                data_hander: 0x3000,
                prolog_end_address: 0x1010,
            })
        );
    }
    for machine in [ImageFileMachine::Amd64, ImageFileMachine::Arm64, ImageFileMachine::RiscV64] {
        assert_eq!(
            ExceptionHandlerDataDirectory::parse(&bytes, machine).unwrap(),
            ExceptionHandlerDataDirectory::X64(X64ExceptionHandlerTable {
                begin_address: 0x1000,
                end_address: 0x1100,
                unwind_infomation: 0x2000,
            })
        );
        assert!(ExceptionHandlerDataDirectory::parse(&bytes[..11], machine).is_err());
    }
    for machine in [
        ImageFileMachine::Arm,
        ImageFileMachine::PowerPC,
        ImageFileMachine::PowerPCFP,
    ] {
        assert_eq!(
            ExceptionHandlerDataDirectory::parse(&bytes, machine).unwrap(),
            ExceptionHandlerDataDirectory::ArmPowerPCSH4WindowsCE(
                ArmPowerPCSH4WindowsCEExceptionHandlerTable {
                    begin_address: 0x1000,
                    prolog_length: 0,
                    function_length: 0x440,
                    instruction_length: ExceptionHandlerInstructionLength::Is16Bit,
                    exception_hander_exists: false,
                }
            )
        );
    }
    for machine in [
        ImageFileMachine::I386,
        ImageFileMachine::Unknown,
        ImageFileMachine::Sh4,
        ImageFileMachine::Other(0x9999),
    ] {
        assert_eq!(
            ExceptionHandlerDataDirectory::parse(&[], machine).unwrap(),
            ExceptionHandlerDataDirectory::Unsupported
        );
    }
    assert!(ExceptionHandlerDataDirectory::parse(&[], ImageFileMachine::Amd64).is_err());
}

#[test]
fn packed_exception_fields_use_all_their_bits() {
    let cases = [
        (0xFFu8, 0u32, false, false, 0xFF00_0000u32),
        (0, 0x3F_FFFF, false, false, 0x00FF_FFFC),
        (0, 0, true, false, 2),
        (0, 0, false, true, 1),
        (0xFF, 0x3F_FFFF, true, true, 0xFFFF_FFFF),
        (0x12, 0x2A_BCDE, true, false, 0x12AA_F37A),
    ];
    for (prolog_length, function_length, is_32bit, handler, word) in cases {
        let entry = ArmPowerPCSH4WindowsCEExceptionHandlerTable {
            begin_address: 0xCAFE,
            prolog_length,
            function_length,
            instruction_length: if is_32bit {
                ExceptionHandlerInstructionLength::Is32Bit
            } else {
                ExceptionHandlerInstructionLength::Is16Bit
            },
            exception_hander_exists: handler,
        };
        let bytes = entry.to_bytes().unwrap();
        assert_eq!(&bytes[0..4], &0xCAFEu32.to_le_bytes());
        assert_eq!(&bytes[4..8], &word.to_le_bytes());
        assert_eq!(
            ArmPowerPCSH4WindowsCEExceptionHandlerTable::read(&mut bytes.as_slice()).unwrap(),
            entry
        );
    }
    let too_long = ArmPowerPCSH4WindowsCEExceptionHandlerTable {
        function_length: 0x40_0001,
        ..Default::default()
    };
    let bytes = too_long.to_bytes().unwrap();
    assert_eq!(
        ArmPowerPCSH4WindowsCEExceptionHandlerTable::read(&mut bytes.as_slice())
            .unwrap()
            .function_length,
        1
    );
}

#[test]
fn exception_entries_round_trip() {
    let mips = Mips32ExceptionHandlerTable {
        begin_address: 1,
        end_address: 2,
        exception_hander: 3,
        data_hander: 4,
        prolog_end_address: 5,
    };
    let bytes = mips.to_bytes().unwrap();
    assert_eq!(bytes.len(), Mips32ExceptionHandlerTable::SIZE);
    assert_eq!(Mips32ExceptionHandlerTable::read(&mut bytes.as_slice()).unwrap(), mips);
    let x64 = X64ExceptionHandlerTable { begin_address: 1, end_address: 2, unwind_infomation: 3 };
    let bytes = x64.to_bytes().unwrap();
    assert_eq!(bytes, vec![1, 0, 0, 0, 2, 0, 0, 0, 3, 0, 0, 0]);
    assert_eq!(X64ExceptionHandlerTable::read(&mut bytes.as_slice()).unwrap(), x64);
}

#[test]
fn the_clr_header_must_declare_its_own_size() {
    let mut bytes = Vec::new();
    bytes.extend_from_slice(&0x48u32.to_le_bytes());
    bytes.extend_from_slice(&[2, 0, 5, 0]);
    for value in 1..=17u32 {
        bytes.extend_from_slice(&(value * 0x10).to_le_bytes());
    }
    assert_eq!(bytes.len(), 76);
    let header = ImageCor20Header::parse(&bytes).unwrap();
    assert_eq!(
        header,
        ImageCor20Header {
            major_rt_version: 2,
            minor_rt_version: 5,
            metadata: ImageDataDirectory { virtual_address: 0x10, size: 0x20 },
            flags: 0x30,
            entrypoint_token_or_rva: 0x40,
            resources: ImageDataDirectory { virtual_address: 0x50, size: 0x60 },
            strong_name_signature: ImageDataDirectory { virtual_address: 0x70, size: 0x80 },
            code_manager_table: ImageDataDirectory { virtual_address: 0x90, size: 0xA0 },
            vtable_fixups: ImageDataDirectory { virtual_address: 0xB0, size: 0xC0 },
            export_address_table_jumps: ImageDataDirectory { virtual_address: 0xD0, size: 0xE0 },
            managed_native_header: ImageDataDirectory { virtual_address: 0xF0, size: 0x100 },
        }
    );
    assert_eq!(ImageCor20Header::parse(&bytes[..72]).unwrap(), header);
    match ImageCor20Header::parse(&bytes[..71]) {
        Err(PerwError::NotEnoughDataLeft { attempted_read }) => assert_eq!(attempted_read, 68),
        other => panic!("unexpected result {:?}", other),
    }
    match ImageCor20Header::parse(&bytes[..3]) {
        Err(PerwError::NotEnoughDataLeft { attempted_read }) => assert_eq!(attempted_read, 4),
        other => panic!("unexpected result {:?}", other),
    }
    bytes[0] = 0x47;
    match ImageCor20Header::parse(&bytes) {
        Err(PerwError::InvalidImageFormat { message }) => {
            assert_eq!(message, "Invalid IMAGE_COR20_HEADER.cb value")
        }
        other => panic!("unexpected result {:?}", other),
    }
    bytes[0] = 0x49;
    assert!(ImageCor20Header::parse(&bytes).is_ok());
}

#[test]
fn resources_are_passed_through() {
    let table = ResourceDataDirectory::parse(&[1, 2, 3]).unwrap();
    assert_eq!(table.data, vec![1, 2, 3]);
}

#[test]
fn names_end_at_the_first_nul_and_decode_lossily() {
    assert_eq!(read_terminated(b"abc\0def\0"), "abc");
    assert_eq!(read_terminated(b"\0abc"), "");
    assert_eq!(read_terminated(b"abc"), "");
    assert_eq!(read_terminated(b""), "");
    assert_eq!(read_terminated("hé\0".as_bytes()), "hé");
    assert_eq!(read_terminated(&[b'a', 0xFF, b'b', 0]), "a\u{FFFD}b");
    let names = ExportTableDataDirectory::read_names(b"one\0two\0\0four\0tail", 5);
    assert_eq!(
        names.0,
        vec![
            "one".to_string(),
            "two".to_string(),
            "".to_string(),
            "four".to_string(),
            "".to_string()
        ]
    );
    assert_eq!(ExportTableDataDirectory::read_names(b"one\0", 0).len(), 0);
}

#[test]
fn lookup_entries_are_classified_by_their_top_bit() {
    let mut file = vec![0u8; 0x100];
    file[0x20..0x22].copy_from_slice(&[0x34, 0x12]);
    file[0x22..0x27].copy_from_slice(b"Beep\0");
    let sections = one_section(0x1000, 0x100);

    assert_eq!(ImportTableRow::from_u32(&file, &sections, 0).unwrap(), None);
    assert_eq!(ImportTableRow::from_u64(&file, &sections, 0).unwrap(), None);
    assert_eq!(
        ImportTableRow::from_u32(&file, &sections, 0x8000_0000).unwrap(),
        Some(ImportTableRow::Ordinal(0))
    );
    assert_eq!(
        ImportTableRow::from_u32(&file, &sections, 0x8000_FFFF).unwrap(),
        Some(ImportTableRow::Ordinal(0xFFFF))
    );
    assert_eq!(
        ImportTableRow::from_u32(&file, &sections, 0xFFFF_1234).unwrap(),
        Some(ImportTableRow::Ordinal(0x1234))
    );
    assert_eq!(
        ImportTableRow::from_u64(&file, &sections, 0x8000_0000_0000_0042).unwrap(),
        Some(ImportTableRow::Ordinal(0x42))
    );
    let by_name = ImportTableRow::HintName {
        hint: 0x1234,
        name_rva: 0x1020,
        name: "Beep".to_string(),
    };
    assert_eq!(
        ImportTableRow::from_u32(&file, &sections, 0x1020).unwrap(),
        Some(by_name.clone())
    );
    assert_eq!(
        ImportTableRow::from_u64(&file, &sections, 0x1020).unwrap(),
        Some(by_name.clone())
    );
    assert_eq!(
        ImportTableRow::from_u64(&file, &sections, 0x7FFF_FFFF_0000_1020).unwrap(),
        Some(by_name.clone())
    );
    assert!(!by_name.is_null());
    assert!(ImportTableRow::Ordinal(0).is_null());
    assert!(!ImportTableRow::Ordinal(1).is_null());
    assert!(ImportTableRow::default().is_null());

    match ImportTableRow::from_u32(&file, &sections, 0x2000) {
        Err(PerwError::InvalidImageFormat { message }) => {
            assert_eq!(message, "Failed to map \"Hint/Name Table RVA\" inside image")
        }
        other => panic!("unexpected result {:?}", other),
    }
    match ImportTableRow::from_u32(&file, &sections, 0x10FF) {
        Err(PerwError::NotEnoughDataLeft { attempted_read }) => assert_eq!(attempted_read, 2),
        other => panic!("unexpected result {:?}", other),
    }
}

#[test]
fn the_zero_entry_ends_a_lookup_table() {
    let mut file = vec![0u8; 0x100];
    file[0..4].copy_from_slice(&0x8000_0001u32.to_le_bytes());
    file[4..8].copy_from_slice(&0x8000_0002u32.to_le_bytes());
    file[12..16].copy_from_slice(&0x8000_0003u32.to_le_bytes());
    let sections = one_section(0x1000, 0x100);
    let rows = ImportTableDataDirectoryEntry::read_lookup_table(&file, &sections, &file, false)
        .unwrap();
    assert_eq!(rows.0, vec![ImportTableRow::Ordinal(1), ImportTableRow::Ordinal(2)]);
    let rows = ImportTableDataDirectoryEntry::read_lookup_table(&file, &sections, &file[8..], false)
        .unwrap();
    assert_eq!(rows.len(), 0);
    match ImportTableDataDirectoryEntry::read_lookup_table(&file, &sections, &file[..8], false) {
        Err(PerwError::NotEnoughDataLeft { attempted_read }) => assert_eq!(attempted_read, 4),
        other => panic!("unexpected result {:?}", other),
    }
    match ImportTableDataDirectoryEntry::read_lookup_table(&file, &sections, &file[..7], true) {
        Err(PerwError::NotEnoughDataLeft { attempted_read }) => assert_eq!(attempted_read, 8),
        other => panic!("unexpected result {:?}", other),
    }
}

#[test]
fn import_entries_report_what_does_not_resolve() {
    let mut file = vec![0u8; 0x100];
    file[0x40..0x44].copy_from_slice(b"a.d\0");
    let sections = one_section(0x1000, 0x100);
    let directory = ImportDirectoryTable {
        import_lookup_table_rva: 0x1000,
        name_rva: 0x1040,
        ..Default::default()
    };
    let entry = ImportTableDataDirectoryEntry::parse(
        &file,
        directory,
        &sections,
        OptionalHeaderMagic::PE32,
    )
    .unwrap();
    assert_eq!(entry.dll_name, "a.d");
    assert_eq!(entry.import_lookup_table.len(), 0);
    assert_eq!(entry.import_directory_table, directory);

    let cases = [
        (0x5000, 0x1040, "Failed to map import_lookup_table_rva inside image"),
        (0x1000, 0x5000, "Failed to map import_directory_table.name_rva inside image"),
        (0, 0x1040, "Failed to map import_lookup_table_rva inside image"),
    ];
    for (import_lookup_table_rva, name_rva, expected) in cases {
        let directory = ImportDirectoryTable {
            import_lookup_table_rva,
            name_rva,
            ..Default::default()
        };
        match ImportTableDataDirectoryEntry::parse(
            &file,
            directory,
            &sections,
            OptionalHeaderMagic::PE32Plus,
        ) {
            Err(PerwError::InvalidImageFormat { message }) => assert_eq!(message, expected),
            other => panic!("unexpected result {:?}", other),
        }
    }
    match ImportTableDataDirectoryEntry::parse(
        &file,
        directory,
        &sections,
        OptionalHeaderMagic::Other(3),
    ) {
        Err(PerwError::InvalidImageFormat { message }) => {
            assert_eq!(message, "Bad optional header magic number")
        }
        other => panic!("unexpected result {:?}", other),
    }
    assert!(ImportDirectoryTable::default().is_null());
    assert!(!directory.is_null());
    let empty = ImportTableDataDirectory::parse(
        &file,
        &[0u8; 20],
        &sections,
        OptionalHeaderMagic::PE32,
    )
    .unwrap();
    assert_eq!(empty.entries.len(), 0);
    assert!(ImportTableDataDirectory::parse(
        &file,
        &[0u8; 19],
        &sections,
        OptionalHeaderMagic::PE32
    )
    .is_err());
}

#[test]
fn export_tables_report_what_does_not_resolve() {
    let file = vec![0u8; 0x100];
    let sections = one_section(0x1000, 0x100);
    let base = ExportDirectory {
        name_rva: 0x1000,
        export_address_table: 0x1000,
        name_pointer_rva: 0x1000,
        ordinal_table_rva: 0x1000,
        ..Default::default()
    };
    let parsed =
        ExportTableDataDirectory::parse(&file, &base.to_bytes().unwrap(), &sections).unwrap();
    assert_eq!(parsed.export_directory_table, base);
    assert_eq!(parsed.export_address_table.len(), 0);

    let cases = [
        (
            ExportDirectory { export_address_table: 0, ..base },
            "Failed to map export_address_table_data inside image",
        ),
        (
            ExportDirectory { name_pointer_rva: 0x2000, ..base },
            "Failed to map name_pointer_table_data inside image",
        ),
        (
            ExportDirectory { ordinal_table_rva: 0x2000, ..base },
            "Failed to map export_ordinal_table_data inside image",
        ),
        (
            ExportDirectory { name_rva: 0x2000, ..base },
            "Failed to map export_ordinal_table_data inside image",
        ),
    ];
    for (directory, expected) in cases {
        match ExportTableDataDirectory::parse(&file, &directory.to_bytes().unwrap(), &sections) {
            Err(PerwError::InvalidImageFormat { message }) => assert_eq!(message, expected),
            other => panic!("unexpected result {:?}", other),
        }
    }
    let too_many = ExportDirectory { address_table_entries: 0x21, ..base };
    match ExportTableDataDirectory::parse(&file, &too_many.to_bytes().unwrap(), &sections) {
        Err(PerwError::NotEnoughDataLeft { attempted_read }) => assert_eq!(attempted_read, 8),
        other => panic!("unexpected result {:?}", other),
    }
    match ExportTableDataDirectory::parse(&file, &[0; 39], &sections) {
        Err(PerwError::NotEnoughDataLeft { attempted_read }) => assert_eq!(attempted_read, 40),
        other => panic!("unexpected result {:?}", other),
    }
}

#[test]
fn export_records_round_trip() {
    let address = ExportAddress { export_rva: 0x1234, forwarder_rva: 0x5678 };
    let bytes = address.to_bytes().unwrap();
    assert_eq!(bytes, vec![0x34, 0x12, 0, 0, 0x78, 0x56, 0, 0]);
    assert_eq!(ExportAddress::read(&mut bytes.as_slice()).unwrap(), address);
    let pointer = ExportNamePointer(0x01020304);
    let bytes = pointer.to_bytes().unwrap();
    assert_eq!(bytes, vec![4, 3, 2, 1]);
    assert_eq!(ExportNamePointer::read(&mut bytes.as_slice()).unwrap(), pointer);
    let ordinal = ExportOrtinal(0x0102);
    let bytes = ordinal.to_bytes().unwrap();
    assert_eq!(bytes, vec![2, 1]);
    assert_eq!(ExportOrtinal::read(&mut bytes.as_slice()).unwrap(), ordinal);
    let name = ExportName(0x0A0B);
    let bytes = name.to_bytes().unwrap();
    assert_eq!(ExportName::read(&mut bytes.as_slice()).unwrap(), name);
    let directory = ExportDirectory {
        export_flags: 1,
        time_date_stamp: 2,
        major_version: 3,
        minor_version: 4,
        name_rva: 5,
        ordinal_base: 6,
        address_table_entries: 7,
        number_of_name_pointers: 8,
        export_address_table: 9,
        name_pointer_rva: 10,
        ordinal_table_rva: 11,
    };
    let bytes = directory.to_bytes().unwrap();
    assert_eq!(bytes.len(), ExportDirectory::SIZE);
    assert_eq!(ExportDirectory::read(&mut bytes.as_slice()).unwrap(), directory);
    let import = ImportDirectoryTable {
        import_lookup_table_rva: 1,
        time_date_stamp: 2,
        fowarder_chain: 3,
        name_rva: 4,
        import_address_table_rva: 5,
    };
    let bytes = import.to_bytes().unwrap();
    assert_eq!(bytes.len(), ImportDirectoryTable::SIZE);
    assert_eq!(ImportDirectoryTable::read(&mut bytes.as_slice()).unwrap(), import);
}
