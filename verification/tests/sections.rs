use pewter::containers::Table;
use pewter::error::PerwError;
use pewter::io::{ReadData, WriteData};
use pewter::pe::optional_header::data_directories::ImageDataDirectory;
use pewter::pe::sections::{SectionFlags, SectionTable, SectionTableRow};

#[test]
fn section_table_row_is_40_bytes() {
    let buffer = [0u8; SectionTableRow::SIZE];
    let read_ptr = &mut buffer.as_slice();
    SectionTableRow::read(read_ptr).unwrap();
    assert!(read_ptr.is_empty());
}

#[test]
fn get_section_by_name() {
    let section_table = SectionTable(Table(vec![
        SectionTableRow::default(),
        SectionTableRow {
            name: [b'.', b't', b'e', b'x', b't', 0, 0, 0],
            ..Default::default()
        },
    ]));
    let text_section = section_table.get_by_name(".text");
    assert!(text_section.is_some());
    assert_eq!(section_table.get_by_name(".text"), section_table.last())
}

fn row(name: &[u8], virtual_address: u32, virtual_size: u32, pointer: u32, raw: u32) -> SectionTableRow {
    let mut field = [0u8; 8];
    field[..name.len()].copy_from_slice(name);
    SectionTableRow {
        name: field,
        virtual_size,
        virtual_address,
        size_of_raw_data: raw,
        pointer_to_raw_data: pointer,
        ..Default::default()
    }
}

fn table() -> SectionTable {
    SectionTable(Table(vec![
        row(b".text", 0x1000, 0x500, 0x400, 0x600),
        row(b".data", 0x2000, 0x100, 0xA00, 0x200),
        row(b".overlap", 0x2080, 0x1000, 0xC00, 0x200),
        row(b".zero", 0, 0x10, 0xE00, 0x10),
    ]))
}

#[test]
fn an_address_resolves_to_the_section_that_holds_it() {
    let table = table();
    assert_eq!(table.find_rva(0x1000).unwrap().name_str(), ".text");
    assert_eq!(table.find_rva(0x14FF).unwrap().name_str(), ".text");
    assert!(table.find_rva(0x1500).is_none());
    assert!(table.find_rva(0xFFF).is_none());
    assert_eq!(table.find_rva(0x2000).unwrap().name_str(), ".data");
    assert_eq!(table.find_rva(0x20FF).unwrap().name_str(), ".data");
    assert_eq!(table.find_rva(0x2100).unwrap().name_str(), ".overlap");
    assert_eq!(table.find_rva(0x307F).unwrap().name_str(), ".overlap");
    assert!(table.find_rva(0x3080).is_none());
}

#[test]
fn of_two_sections_that_hold_an_address_the_first_resolves_it() {
    let table = table();
    assert_eq!(table.find_rva(0x2080).unwrap().name_str(), ".data");
    assert_eq!(table.find_rva(0x20FF).unwrap().name_str(), ".data");
}

#[test]
fn address_zero_never_resolves() {
    let table = table();
    assert!(table.find_rva(0).is_none());
    assert!(table.find_rva(1).is_some());
    assert_eq!(table.find_rva(1).unwrap().name_str(), ".zero");
    let file = vec![0u8; 0x1000];
    assert!(table.find_rva_data(&file, 0).is_none());
    assert_eq!(
        table
            .find_data_directory_data(&file, &ImageDataDirectory { virtual_address: 0, size: 4 })
            .unwrap(),
        None
    );
}

#[test]
fn resolved_data_run_to_the_end_of_the_raw_data() {
    let table = table();
    let mut file = vec![0u8; 0x1000];
    for (i, byte) in file.iter_mut().enumerate() {
        *byte = (i % 251) as u8;
    }
    let data = table.find_rva_data(&file, 0x1010).unwrap();
    assert_eq!(data.len(), 0x600 - 0x10);
    assert_eq!(data, &file[0x410..0xA00]);
    let dir = ImageDataDirectory { virtual_address: 0x2004, size: 8 };
    let data = table.find_data_directory_data(&file, &dir).unwrap().unwrap();
    assert_eq!(data, &file[0xA04..0xA0C]);
}

#[test]
fn a_directory_longer_than_its_section_is_an_error() {
    let table = table();
    let file = vec![0u8; 0x1000];
    let dir = ImageDataDirectory { virtual_address: 0x2000, size: 0x201 };
    match table.find_data_directory_data(&file, &dir) {
        Err(PerwError::NotEnoughDataLeft { attempted_read }) => assert_eq!(attempted_read, 0x201),
        other => panic!("unexpected result {:?}", other),
    }
    let dir = ImageDataDirectory { virtual_address: 0x2000, size: 0x200 };
    assert_eq!(table.find_data_directory_data(&file, &dir).unwrap().unwrap().len(), 0x200);
}

#[test]
fn a_section_outside_the_file_does_not_resolve_to_data() {
    let table = table();
    let file = vec![0u8; 0xBFF];
    assert!(table.find_rva(0x2000).is_some());
    assert!(table.find_rva_data(&file, 0x2000).is_none());
    assert!(table.find_rva_data(&file, 0x1000).is_some());
    let file = vec![0u8; 0xC00];
    assert_eq!(table.find_rva_data(&file, 0x2000).unwrap().len(), 0x200);
    assert!(table.find_rva_data(&file, 0x3000).is_none());
    let dir = ImageDataDirectory { virtual_address: 0x3000, size: 1 };
    assert_eq!(table.find_data_directory_data(&file, &dir).unwrap(), None);
}

#[test]
fn lookup_by_name_cuts_or_pads_the_name_to_eight_bytes() {
    let table = table();
    assert_eq!(table.get_by_name(".data").unwrap().virtual_address, 0x2000);
    assert_eq!(table.get_by_name(".overlap").unwrap().virtual_address, 0x2080);
    assert_eq!(table.get_by_name(".overlapping").unwrap().virtual_address, 0x2080);
    assert!(table.get_by_name(".dat").is_none());
    assert!(table.get_by_name(".rsrc").is_none());
    assert!(SectionTable::new().get_by_name(".text").is_none());
    assert_eq!(
        SectionTable(Table(vec![SectionTableRow::default()]))
            .get_by_name("")
            .unwrap()
            .name,
        [0u8; 8]
    );
}

#[test]
fn names_are_text_up_to_the_first_nul() {
    assert_eq!(row(b".text", 0, 0, 0, 0).name_str(), ".text");
    assert_eq!(row(b"12345678", 0, 0, 0, 0).name_str(), "12345678");
    assert_eq!(row(b"", 0, 0, 0, 0).name_str(), "");
    assert_eq!(row(b"ab\0cd", 0, 0, 0, 0).name_str(), "ab");
    assert_eq!(row(&[0xFF, 0xFE], 0, 0, 0, 0).name_str(), "");
    assert_eq!(row("é".as_bytes(), 0, 0, 0, 0).name_str(), "é");
}

#[test]
fn section_row_round_trip() {
    let row = SectionTableRow {
        name: *b".rdata\0\0",
        virtual_size: 0x1234,
        virtual_address: 0x4000,
        size_of_raw_data: 0x1400,
        pointer_to_raw_data: 0x2200,
        pointer_to_relocations: 1,
        pointer_to_line_numbers: 2,
        number_of_relocaions: 3,
        number_of_line_numbers: 4,
        characteristics: SectionFlags::from_bits_retain(
            SectionFlags::MEM_READ | SectionFlags::CNT_INITIALIZED_DATA,
        ),
    };
    let bytes = row.to_bytes().unwrap();
    assert_eq!(bytes.len(), 40);
    assert_eq!(&bytes[0..8], b".rdata\0\0");
    assert_eq!(&bytes[8..12], &0x1234u32.to_le_bytes());
    assert_eq!(&bytes[12..16], &0x4000u32.to_le_bytes());
    assert_eq!(&bytes[36..40], &0x40000040u32.to_le_bytes());
    assert_eq!(SectionTableRow::read(&mut bytes.as_slice()).unwrap(), row);
}

#[test]
fn section_table_reads_and_writes_rows_in_order() {
    let table = table();
    let bytes = table.to_bytes().unwrap();
    assert_eq!(bytes.len(), 160);
    let read_ptr = &mut bytes.as_slice();
    let parsed = SectionTable::new_linear(read_ptr, 4).unwrap();
    assert_eq!(parsed, table);
    assert!(read_ptr.is_empty());
    match SectionTable::new_linear(&mut &bytes[..159], 4) {
        Err(PerwError::NotEnoughDataLeft { attempted_read }) => assert_eq!(attempted_read, 40),
        other => panic!("unexpected result {:?}", other),
    }
    assert_eq!(SectionTable::new_linear(&mut bytes.as_slice(), 0).unwrap().len(), 0);
}

#[test]
fn data_ranges_of_a_row() {
    let row = row(b".text", 0x1000, 0x500, 0x400, 0x600);
    assert_eq!(row.get_data_range(0x1010), (0x410, 0xA00));
    let file: Vec<u8> = (0..0x1000).map(|i| (i % 256) as u8).collect();
    assert_eq!(row.get_data(&file, 0x1010), &file[0x410..0xA00]);
    assert_eq!(row.try_get_data(&file, 0x1010).unwrap(), &file[0x410..0xA00]);
    assert!(row.try_get_data(&file, 0xFFF).is_none());
    assert!(row.try_get_data(&file, 0x1600).is_none());
    assert!(row.try_get_data(&file[..0xA00], 0x1010).is_none());
    assert!(row.try_get_data(&file[..0xA01], 0x1010).is_some());
    assert!(row.contains(0x1000));
    assert!(row.contains(0x14FF));
    assert!(!row.contains(0x1500));
    assert!(!row.contains(0xFFF));
}

#[test]
fn tables_grow_and_give_their_records() {
    let mut table: Table<u32> = Table::new();
    assert!(table.is_empty());
    assert_eq!(table.last(), None);
    table.push(4);
    table.push(5);
    assert_eq!(table.len(), 2);
    assert_eq!(table.get(0), Some(&4));
    assert_eq!(table.get(2), None);
    assert_eq!(table.last(), Some(&5));
    assert_eq!(table.as_slice(), &[4, 5]);
    let capacity: Table<u8> = Table::with_capacity(10);
    assert_eq!(capacity.len(), 0);
    let bytes = [1u8, 0, 0, 0, 2, 0, 0, 0, 3];
    let read_ptr = &mut bytes.as_slice();
    let read: Table<u32> = Table::new_linear(read_ptr, 2).unwrap();
    assert_eq!(read.0, vec![1, 2]);
    assert_eq!(read_ptr.len(), 1);
    assert!(Table::<u32>::new_linear(&mut bytes.as_slice(), 3).is_err());
}

#[test]
fn section_flags_keep_unknown_bits() {
    let flags = SectionFlags::from_bits_retain(0xE0000020);
    assert_eq!(flags.bits(), 0xE0000020);
    assert!(flags.contains(SectionFlags::MEM_READ | SectionFlags::MEM_WRITE));
    assert!(flags.contains(SectionFlags::CNT_CODE));
    assert!(!flags.contains(SectionFlags::CNT_INITIALIZED_DATA));
}

#[test]
fn tables_are_read_with_a_reader_of_the_caller() {
    let bytes = [3u8, 1, 2, 3, 1, 9, 0, 5];
    let read_item = |unread: &[u8]| -> Result<(Vec<u8>, usize), PerwError> {
        match unread.first() {
            None => Err(PerwError::not_enough_data(1)),
            Some(len) => {
                let len = *len as usize;
                if unread.len() < 1 + len {
                    Ok((Vec::new(), 1 + len))
                } else {
                    Ok((unread[1..1 + len].to_vec(), 1 + len))
                }
            }
        }
    };
    let read_ptr = &mut &bytes[..];
    let items = Table::new_with_reader(read_ptr, 3, read_item).unwrap();
    assert_eq!(items.0, vec![vec![1, 2, 3], vec![9], vec![]]);
    assert_eq!(*read_ptr, &[5u8][..]);
    match Table::new_with_reader(&mut &bytes[..], 4, read_item) {
        Err(PerwError::NotEnoughDataLeft { attempted_read }) => assert_eq!(attempted_read, 6),
        other => panic!("unexpected result {:?}", other),
    }
    match Table::new_with_reader(&mut &bytes[..7], 5, read_item) {
        Err(PerwError::NotEnoughDataLeft { attempted_read }) => assert_eq!(attempted_read, 1),
        other => panic!("unexpected result {:?}", other),
    }
    assert_eq!(Table::new_with_reader(&mut &bytes[..], 0, read_item).unwrap().len(), 0);

    let rows = table().to_bytes().unwrap();
    let read_row = |unread: &[u8]| -> Result<(SectionTableRow, usize), PerwError> {
        let reader = &mut &unread[..];
        let row = SectionTableRow::read(reader)?;
        Ok((row, SectionTableRow::SIZE))
    };
    let read_ptr = &mut &rows[..];
    let parsed = SectionTable::new_with_reader(read_ptr, 2, read_row).unwrap();
    assert_eq!(parsed.0 .0, table().0 .0[..2].to_vec());
    assert_eq!(read_ptr.len(), 80);
    assert!(SectionTable::new_with_reader(&mut &rows[..], 5, read_row).is_err());
}

#[test]
fn lookups_hand_what_they_find_to_a_function() {
    let table = table();
    let file: Vec<u8> = (0..0x1000).map(|i| (i % 256) as u8).collect();
    let name = table
        .find_rva_map(0x2000, |row: &SectionTableRow| -> Result<String, PerwError> {
            Ok(row.name_str().to_string())
        })
        .unwrap();
    assert_eq!(name, Some(".data".to_string()));
    let missing = table
        .find_rva_map(0x9000, |row: &SectionTableRow| -> Result<String, PerwError> {
            Ok(row.name_str().to_string())
        })
        .unwrap();
    assert_eq!(missing, None);
    let failed = table.find_rva_map(0x2000, |_row: &SectionTableRow| -> Result<u8, PerwError> {
        Err(PerwError::invalid_image_format("no"))
    });
    assert!(failed.is_err());

    let dir = ImageDataDirectory { virtual_address: 0x1002, size: 3 };
    let sum = table
        .find_data_directory_data_map(&file, &dir, |data: &[u8]| -> Result<u32, PerwError> {
            Ok(data.iter().map(|b| *b as u32).sum())
        })
        .unwrap();
    assert_eq!(sum, Some(2 + 3 + 4));
    let absent = ImageDataDirectory { virtual_address: 0, size: 3 };
    let none = table
        .find_data_directory_data_map(&file, &absent, |_data: &[u8]| -> Result<u32, PerwError> {
            Ok(1)
        })
        .unwrap();
    assert_eq!(none, None);
    let long = ImageDataDirectory { virtual_address: 0x1002, size: 0x1000 };
    assert!(table
        .find_data_directory_data_map(&file, &long, |_data: &[u8]| -> Result<u32, PerwError> {
            Ok(1)
        })
        .is_err());
}
