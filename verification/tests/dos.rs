use pewter::io::stream::PEStream;
use pewter::io::{ReadData, WriteData};
use pewter::pe::dos::ImageDosHeader;

#[test]
fn dos_header_is_64_bytes() {
    let buffer = [0u8; ImageDosHeader::SIZE];
    let read_ptr = &mut buffer.as_slice();

    ImageDosHeader::read(read_ptr).unwrap();
    assert!(read_ptr.is_empty());
}

#[test]
fn read_dos_header() {
    let mut dos_bytes = [0u8; ImageDosHeader::SIZE];
    dos_bytes[0..2].copy_from_slice(&ImageDosHeader::MAGIC_CONSTANT.to_le_bytes());
    dos_bytes[60..ImageDosHeader::SIZE].copy_from_slice(&123456u32.to_le_bytes());
    let out_dos = ImageDosHeader::read(&mut dos_bytes.as_slice()).unwrap();
    let expected_dos = ImageDosHeader {
        e_magic: ImageDosHeader::MAGIC_CONSTANT,
        e_lfanew: 123456u32,
        ..Default::default()
    };
    assert_eq!(out_dos, expected_dos);
}

#[test]
fn read_write_dos_header() {
    let expected_dos = ImageDosHeader {
        e_magic: ImageDosHeader::MAGIC_CONSTANT,
        e_cp: 0xAF,
        e_ip: 0xDE,
        e_minalloc: 12,
        e_res2: [0xAA; 10],
        e_lfanew: 123456u32,
        ..Default::default()
    };

    let mut dos_bytes = [0u8; ImageDosHeader::SIZE];
    expected_dos
        .write_to(&mut PEStream::new(dos_bytes.as_mut_slice()))
        .unwrap();

    let out_dos: ImageDosHeader = ImageDosHeader::read(&mut dos_bytes.as_slice()).unwrap();
    assert_eq!(out_dos, expected_dos);
}

#[test]
fn dos_header_layout_is_bit_exact() {
    let header = ImageDosHeader {
        e_magic: ImageDosHeader::MAGIC_CONSTANT,
        e_res: [1, 2, 3, 4],
        e_lfanew: 0xF0,
        ..Default::default()
    };
    let bytes = header.to_bytes().unwrap();
    assert_eq!(bytes.len(), 64);
    assert_eq!(&bytes[0..2], b"MZ");
    assert_eq!(&bytes[28..36], &[1, 0, 2, 0, 3, 0, 4, 0]);
    assert_eq!(&bytes[60..64], &[0xF0, 0, 0, 0]);
}

#[test]
fn truncated_dos_header_is_an_error() {
    let buffer = [0u8; 63];
    let err = ImageDosHeader::read(&mut buffer.as_slice()).unwrap_err();
    match err {
        pewter::error::PerwError::NotEnoughDataLeft { attempted_read } => {
            assert_eq!(attempted_read, 64)
        }
        other => panic!("unexpected error {:?}", other),
    }
}

#[test]
fn default_dos_header_is_all_zero() {
    let header = ImageDosHeader::default();
    assert_eq!(header.to_bytes().unwrap(), vec![0u8; 64]);
}
