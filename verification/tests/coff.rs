use pewter::io::stream::PEStream;
use pewter::io::{ReadData, WriteData};
use pewter::pe::coff::{CoffFileHeader, ImageFileCharacteristics, ImageFileMachine};

#[test]
fn coff_header_is_20_bytes() {
    let buffer = [0u8; CoffFileHeader::SIZE];
    let read_ptr = &mut buffer.as_slice();
    CoffFileHeader::read(read_ptr).unwrap();
    assert_eq!(read_ptr.len(), 0);
}

#[test]
fn read_coff_image_header() {
    let mut dos_bytes = [0u8; 20];
    dos_bytes[0..2].copy_from_slice(&ImageFileMachine::RiscV64.to_u16().to_le_bytes());
    dos_bytes[18..20].copy_from_slice(
        &ImageFileCharacteristics::from_bits_retain(
            ImageFileCharacteristics::FILE_DLL | ImageFileCharacteristics::FOR_32BIT_MACHINE,
        )
        .bits()
        .to_le_bytes(),
    );
    let out_dos = CoffFileHeader::read(&mut dos_bytes.as_slice()).unwrap();
    let expected_dos = CoffFileHeader {
        machine: ImageFileMachine::RiscV64,
        characteristics: ImageFileCharacteristics::from_bits_retain(
            ImageFileCharacteristics::FILE_DLL | ImageFileCharacteristics::FOR_32BIT_MACHINE,
        ),
        ..Default::default()
    };
    assert_eq!(out_dos, expected_dos);
}

#[test]
fn read_write_coff_image_header() {
    let expected_dos = CoffFileHeader {
        machine: ImageFileMachine::Other(0xABCD),
        characteristics: ImageFileCharacteristics::from_bits_retain(
            ImageFileCharacteristics::FILE_DLL | ImageFileCharacteristics::FOR_32BIT_MACHINE,
        ),
        number_of_symbols: 100,
        number_of_sections: 22,
        pointer_to_symbol_table: 33,
        date_time_stamp: 84934,
        size_of_optional_header: 123,
    };
    let mut coff_header = [0u8; 20];
    expected_dos
        .write_to(&mut PEStream::new(coff_header.as_mut_slice()))
        .unwrap();

    let out_dos = CoffFileHeader::read(&mut coff_header.as_slice()).unwrap();
    assert_eq!(out_dos, expected_dos);
}

const MACHINES: [(ImageFileMachine, u16); 28] = [
    (ImageFileMachine::Unknown, 0x0),
    (ImageFileMachine::Alpha, 0x184),
    (ImageFileMachine::Alpha64, 0x284),
    (ImageFileMachine::Am33, 0x1d3),
    (ImageFileMachine::Amd64, 0x8664),
    (ImageFileMachine::Arm, 0x1c0),
    (ImageFileMachine::Arm64, 0xaa64),
    (ImageFileMachine::ArmNT, 0x1c4),
    (ImageFileMachine::Ebc, 0xebc),
    (ImageFileMachine::I386, 0x14c),
    (ImageFileMachine::IA64, 0x200),
    (ImageFileMachine::LoongArchH32, 0x6232),
    (ImageFileMachine::LoongArch64, 0x6264),
    (ImageFileMachine::M32R, 0x9041),
    (ImageFileMachine::Mips16, 0x266),
    (ImageFileMachine::MipsFPU, 0x366),
    (ImageFileMachine::MipsFPU16, 0x466),
    (ImageFileMachine::PowerPC, 0x1f0),
    (ImageFileMachine::PowerPCFP, 0x1f1),
    (ImageFileMachine::R4000, 0x166),
    (ImageFileMachine::RiscV32, 0x5032),
    (ImageFileMachine::RiscV64, 0x5064),
    (ImageFileMachine::RiscV128, 0x5128),
    (ImageFileMachine::Sh3, 0x1a2),
    (ImageFileMachine::Sh4, 0x1a6),
    (ImageFileMachine::Sh5, 0x1a8),
    (ImageFileMachine::Thumb, 0x1c2),
    (ImageFileMachine::WceMipsV2, 0x169),
];

#[test]
fn machine_codes_go_both_ways() {
    for (machine, code) in MACHINES {
        assert_eq!(machine.to_u16(), code);
        assert_eq!(ImageFileMachine::from_u16(code), machine);
    }
}

#[test]
fn every_machine_code_survives_a_round_trip() {
    for code in 0..=u16::MAX {
        assert_eq!(ImageFileMachine::from_u16(code).to_u16(), code);
    }
    assert_eq!(ImageFileMachine::from_u16(0x1234), ImageFileMachine::Other(0x1234));
}

#[test]
fn coff_header_layout_is_bit_exact() {
    let header = CoffFileHeader {
        machine: ImageFileMachine::Amd64,
        number_of_sections: 3,
        date_time_stamp: 0x01020304,
        pointer_to_symbol_table: 0x11121314,
        number_of_symbols: 0x21222324,
        size_of_optional_header: 0xF0,
        characteristics: ImageFileCharacteristics::from_bits_retain(0x2022),
    };
    assert_eq!(
        header.to_bytes().unwrap(),
        vec![
            0x64, 0x86, 3, 0, 4, 3, 2, 1, 0x14, 0x13, 0x12, 0x11, 0x24, 0x23, 0x22, 0x21, 0xF0, 0,
            0x22, 0x20
        ]
    );
}

#[test]
fn characteristics_keep_unknown_bits() {
    let flags = ImageFileCharacteristics::from_bits_retain(0xFFFF);
    assert_eq!(flags.bits(), 0xFFFF);
    assert!(flags.contains(ImageFileCharacteristics::FILE_DLL));
    let dll = ImageFileCharacteristics::from_bits_retain(ImageFileCharacteristics::FILE_DLL);
    assert!(dll.contains(ImageFileCharacteristics::FILE_DLL));
    assert!(!dll.contains(ImageFileCharacteristics::EXECUTABLE_IMAGE));
    assert!(!dll.contains(
        ImageFileCharacteristics::FILE_DLL | ImageFileCharacteristics::EXECUTABLE_IMAGE
    ));
}

#[test]
fn truncated_coff_header_is_an_error() {
    let buffer = [0u8; 19];
    assert!(CoffFileHeader::read(&mut buffer.as_slice()).is_err());
}
