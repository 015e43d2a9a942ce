use pewter::error::PerwError;
use pewter::pe::file::definition::{PEImageDef, SectionHeap};
use pewter::pe::optional_header::data_directories::ImageDataDirectory;
use pewter::pe::options::{Options, ParseSectionFlags};
use pewter::pe::sections::idata::ImportTableRow;
use pewter::pe::sections::SectionFlags;
use pewter::pe::{PEFile, PEImage};

fn put(data: &mut Vec<u8>, at: usize, bytes: &[u8]) {
    if data.len() < at + bytes.len() {
        data.resize(at + bytes.len(), 0);
    }
    data[at..at + bytes.len()].copy_from_slice(bytes);
}

fn put_u32s(data: &mut Vec<u8>, at: usize, values: &[u32]) {
    for (i, value) in values.iter().enumerate() {
        put(data, at + 4 * i, &value.to_le_bytes());
    }
}

fn import_section(rva: u32, wide: bool) -> Vec<u8> {
    let mut data = Vec::new();
    put_u32s(&mut data, 0, &[rva + 0x40, 0x11, 0x22, rva + 0x80, rva + 0x60]);
    put_u32s(&mut data, 20, &[0, 0, 0, 0, 0]);
    if wide {
        put(&mut data, 0x40, &0x8000_0000_0000_0005u64.to_le_bytes());
        put(&mut data, 0x48, &(0x7777_0000_0000u64 | (rva + 0x90) as u64).to_le_bytes());
        put(&mut data, 0x50, &0u64.to_le_bytes());
    } else {
        put_u32s(&mut data, 0x40, &[0x8001_0005, rva + 0x90, 0]);
    }
    put(&mut data, 0x80, b"KERNEL32.dll\0");
    put(&mut data, 0x90, &[7, 0]);
    put(&mut data, 0x92, b"ExitProcess\0ignored");
    data
}

fn export_section(rva: u32) -> Vec<u8> {
    let mut data = Vec::new();
    put_u32s(&mut data, 0, &[0, 0x5000_0000]);
    put(&mut data, 8, &[1, 0, 2, 0]);
    put_u32s(&mut data, 12, &[rva + 0x80, 1, 2, 2, rva + 0x40, rva + 0x60, rva + 0x70]);
    put_u32s(&mut data, 0x40, &[0x1111, 0, 0x2222, 0x3333]);
    put_u32s(&mut data, 0x60, &[rva + 0x8A, rva + 0x8E]);
    put(&mut data, 0x70, &[0, 0, 1, 0]);
    put(&mut data, 0x80, b"mylib.dll\0foo\0bar\0");
    data
}

fn heap(name: &str, virtual_address: u32, data: Vec<u8>) -> SectionHeap {
    SectionHeap {
        name: name.to_string(),
        virtual_address,
        virtual_size: 0,
        characteristics: SectionFlags::from_bits_retain(SectionFlags::MEM_READ),
        data,
    }
}

fn image(wide: bool) -> Vec<u8> {
    let mut def = PEImageDef::new();
    if wide {
        def.optional_header.standard_fields.magic =
            pewter::pe::optional_header::OptionalHeaderMagic::PE32Plus;
        def.optional_header.windows_specific_fields =
            pewter::pe::optional_header::OptionalHeaderWindowsSpecific::PE32Plus(
                Default::default(),
            );
    }
    def.optional_header.windows_specific_fields.set_file_alignment(0x200);
    def.optional_header.windows_specific_fields.set_section_alignment(0x1000);
    def.sections.other.push(heap(".idata", 0x1000, import_section(0x1000, wide)));
    def.sections.other.push(heap(".edata", 0x2000, export_section(0x2000)));
    def.sections.other.push(heap(".rsrc", 0x3000, vec![0xAB; 0x20]));
    let dirs = &mut def.optional_header.data_directories;
    dirs.import_table = ImageDataDirectory { virtual_address: 0x1000, size: 40 };
    dirs.export_table = ImageDataDirectory { virtual_address: 0x2000, size: 40 };
    dirs.resource_table = ImageDataDirectory { virtual_address: 0x3008, size: 0x10 };
    def.write_file().unwrap()
}

#[test]
fn a_whole_image_is_parsed_with_its_special_sections() {
    let bytes = image(false);
    let pe = PEFile::parse(&bytes).unwrap();
    assert_eq!(pe.section_table.len(), 3);
    let special = &pe.special_sections;

    let imports = special.import_table.as_ref().unwrap();
    assert_eq!(imports.entries.len(), 1);
    let entry = &imports.entries.0[0];
    assert_eq!(entry.dll_name, "KERNEL32.dll");
    assert_eq!(entry.import_directory_table.import_lookup_table_rva, 0x1040);
    assert_eq!(entry.import_directory_table.time_date_stamp, 0x11);
    assert_eq!(entry.import_directory_table.fowarder_chain, 0x22);
    assert_eq!(entry.import_directory_table.name_rva, 0x1080);
    assert_eq!(entry.import_directory_table.import_address_table_rva, 0x1060);
    assert_eq!(
        entry.import_lookup_table.0,
        vec![
            ImportTableRow::Ordinal(5),
            ImportTableRow::HintName {
                hint: 7,
                name_rva: 0x1090,
                name: "ExitProcess".to_string()
            },
        ]
    );

    let exports = special.export_table.as_ref().unwrap();
    assert_eq!(exports.export_directory_table.time_date_stamp, 0x5000_0000);
    assert_eq!(exports.export_directory_table.major_version, 1);
    assert_eq!(exports.export_directory_table.minor_version, 2);
    assert_eq!(exports.export_directory_table.ordinal_base, 1);
    assert_eq!(exports.export_address_table.len(), 2);
    assert_eq!(exports.export_address_table.0[0].export_rva, 0x1111);
    assert_eq!(exports.export_address_table.0[1].export_rva, 0x2222);
    assert_eq!(exports.export_address_table.0[1].forwarder_rva, 0x3333);
    assert_eq!(exports.name_pointer_table.0[0].0, 0x208A);
    assert_eq!(exports.name_pointer_table.0[1].0, 0x208E);
    assert_eq!(exports.export_ordinal_table.0[0].0, 0);
    assert_eq!(exports.export_ordinal_table.0[1].0, 1);
    assert_eq!(exports.export_name_table.0, vec!["mylib.dll".to_string(), "foo".to_string()]);

    assert_eq!(special.resource_table.as_ref().unwrap(), &vec![0xAB; 0x10]);
    assert!(special.exception_table.is_none());
    assert!(special.certificate_table.is_none());

    assert_eq!(pe.read_import_table(&bytes).unwrap().as_ref(), special.import_table.as_ref());
    assert_eq!(pe.read_export_table(&bytes).unwrap().as_ref(), special.export_table.as_ref());
    assert_eq!(pe.read_resource_directory(&bytes).unwrap().unwrap().data, vec![0xAB; 0x10]);
    assert_eq!(pe.read_exeption_table(&bytes).unwrap(), None);
    assert_eq!(pe.read_certificate_table(&bytes).unwrap(), None);
    assert_eq!(pe.read_base_relocation_table(&bytes).unwrap(), None);
    assert_eq!(pe.read_clr_runtime_header(&bytes).unwrap(), None);
    assert_eq!(PEFile::from_bytes(&bytes).unwrap(), pe);
    let image = PEImage::parse(&bytes).unwrap();
    assert_eq!(Some(image.optional_header), pe.optional_header);
    assert_eq!(image.section_table, pe.section_table);
    assert_eq!(image.special_sections, pe.special_sections);
}

#[test]
fn lookup_entries_of_pe32_plus_have_64_bits() {
    let bytes = image(true);
    let pe = PEFile::parse(&bytes).unwrap();
    let imports = pe.special_sections.import_table.unwrap();
    assert_eq!(
        imports.entries.0[0].import_lookup_table.0,
        vec![
            ImportTableRow::Ordinal(5),
            ImportTableRow::HintName {
                hint: 7,
                name_rva: 0x1090,
                name: "ExitProcess".to_string()
            },
        ]
    );
}

#[test]
fn unselected_sections_are_not_decoded() {
    let bytes = image(false);
    let minimal = PEFile::parse_minimal(&bytes).unwrap();
    assert!(minimal.special_sections.import_table.is_none());
    assert!(minimal.special_sections.export_table.is_none());
    assert!(minimal.special_sections.resource_table.is_none());
    assert_eq!(
        PEFile::parse_with_options(&bytes, Options::minimal()).unwrap(),
        minimal
    );
    assert_eq!(
        PEFile::parse_with_options(&bytes, Options::default()).unwrap(),
        PEFile::parse(&bytes).unwrap()
    );

    let only_imports = Options {
        parse_special_sections: ParseSectionFlags::from_bits_retain(
            ParseSectionFlags::IMPORT_TABLE,
        ),
    };
    let pe = PEFile::parse_with_options(&bytes, only_imports).unwrap();
    assert!(pe.special_sections.import_table.is_some());
    assert!(pe.special_sections.export_table.is_none());
    assert!(pe.special_sections.resource_table.is_none());

    let exports_and_resources = Options {
        parse_special_sections: ParseSectionFlags::from_bits_retain(
            ParseSectionFlags::EXPORT_TABLE | ParseSectionFlags::RESOURCE_TABLE,
        ),
    };
    let pe = PEFile::parse_with_options(&bytes, exports_and_resources).unwrap();
    assert!(pe.special_sections.import_table.is_none());
    assert!(pe.special_sections.export_table.is_some());
    assert!(pe.special_sections.resource_table.is_some());
    assert!(exports_and_resources
        .parse_special_sections
        .contains(ParseSectionFlags::EXPORT_TABLE));
    assert!(!exports_and_resources
        .parse_special_sections
        .contains(ParseSectionFlags::IMPORT_TABLE));
    assert_eq!(Options::default().parse_special_sections.bits(), ParseSectionFlags::ALL);
    assert!(Options::minimal().parse_special_sections.is_empty());
}

#[test]
fn a_failing_decoder_fails_the_parse_only_when_selected() {
    let mut def = PEImageDef::new();
    def.sections.other.push(heap(".idata", 0x1000, vec![1; 19]));
    def.optional_header.data_directories.import_table =
        ImageDataDirectory { virtual_address: 0x1000, size: 19 };
    let bytes = def.write_file().unwrap();
    match PEFile::parse(&bytes) {
        Err(PerwError::NotEnoughDataLeft { attempted_read }) => assert_eq!(attempted_read, 20),
        other => panic!("unexpected result {:?}", other),
    }
    assert!(PEFile::parse_minimal(&bytes).is_ok());
    let without_imports = Options {
        parse_special_sections: ParseSectionFlags::from_bits_retain(
            ParseSectionFlags::ALL & !ParseSectionFlags::IMPORT_TABLE,
        ),
    };
    assert!(PEFile::parse_with_options(&bytes, without_imports).is_ok());
}

#[test]
fn patching_without_a_change_leaves_the_buffer_as_it_is() {
    let pristine = image(false);
    let mut data = pristine.clone();
    let pe_file = PEFile::parse_minimal(&data).unwrap();
    pe_file.patch(&mut data).unwrap();
    assert_eq!(data, pristine);
    assert_eq!(PEFile::parse_minimal(&data).unwrap(), pe_file);

    let mut wide = image(true);
    let pristine = wide.clone();
    let pe_file = PEFile::parse(&wide).unwrap();
    pe_file.patch(&mut wide).unwrap();
    assert_eq!(wide, pristine);
    assert_eq!(PEFile::parse(&wide).unwrap(), pe_file);
}

#[test]
fn patching_writes_the_headers_back_in_place() {
    let pristine = image(false);
    let mut data = pristine.clone();
    let mut pe_file = PEFile::parse_minimal(&data).unwrap();

    if let Some(optional_header) = &mut pe_file.optional_header {
        optional_header.data_directories.import_table = Default::default();
        optional_header.windows_specific_fields.set_check_sum(0xDEADBEEF);
    }
    pe_file.coff_header.date_time_stamp = 0x600D_CAFE;
    pe_file.dos_header.e_csum = 0xBEEF;

    pe_file.patch(&mut data).unwrap();
    let patched_pe_file = PEFile::parse_minimal(&data).unwrap();

    assert_eq!(patched_pe_file, pe_file);
    assert_eq!(data.len(), pristine.len());
    let headers_end = 64 + 4 + 20 + pe_file.optional_header.unwrap().size();
    assert_eq!(&data[headers_end..], &pristine[headers_end..]);
    assert_ne!(&data[..headers_end], &pristine[..headers_end]);
    assert_eq!(&data[18..20], &[0xEF, 0xBE]);
    assert_eq!(&data[72..76], &0x600D_CAFEu32.to_le_bytes());
    assert!(PEFile::parse(&data).unwrap().special_sections.import_table.is_none());
    assert!(PEFile::parse(&data).unwrap().special_sections.export_table.is_some());
}

#[test]
fn a_buffer_that_shrank_cannot_be_patched() {
    let data = image(false);
    let pe_file = PEFile::parse_minimal(&data).unwrap();
    let size = pe_file.optional_header.unwrap().size();
    let mut short = data[..64 + 4 + 20 + size - 1].to_vec();
    match pe_file.patch(&mut short) {
        Err(PerwError::NotEnoughSpaceLeft { attempted_write }) => assert_eq!(attempted_write, size),
        other => panic!("unexpected result {:?}", other),
    }
    let mut short = data[..63].to_vec();
    match pe_file.patch(&mut short) {
        Err(PerwError::NotEnoughSpaceLeft { attempted_write }) => assert_eq!(attempted_write, 64),
        other => panic!("unexpected result {:?}", other),
    }
    let mut exact = data[..64 + 4 + 20 + size].to_vec();
    pe_file.patch(&mut exact).unwrap();
    assert_eq!(exact, &data[..64 + 4 + 20 + size]);
}

#[test]
fn parse_fails_fast_on_broken_headers() {
    let bytes = image(false);

    match PEFile::parse(&bytes[..63]) {
        Err(PerwError::NotEnoughDataLeft { attempted_read }) => assert_eq!(attempted_read, 64),
        other => panic!("unexpected result {:?}", other),
    }

    let mut far = bytes.clone();
    far[60..64].copy_from_slice(&0x10000u32.to_le_bytes());
    match PEFile::parse(&far) {
        Err(PerwError::NotEnoughDataLeft { attempted_read }) => {
            assert_eq!(attempted_read, 0x10000)
        }
        other => panic!("unexpected result {:?}", other),
    }

    let mut at_the_end = bytes.clone();
    let len = at_the_end.len() as u32;
    at_the_end[60..64].copy_from_slice(&len.to_le_bytes());
    match PEFile::parse(&at_the_end) {
        Err(PerwError::NotEnoughDataLeft { attempted_read }) => assert_eq!(attempted_read, 4),
        other => panic!("unexpected result {:?}", other),
    }

    let mut bad_signature = bytes.clone();
    bad_signature[66] = 1;
    match PEFile::parse(&bad_signature) {
        Err(PerwError::InvalidImageFormat { message }) => assert_eq!(message, "Bad PE signature."),
        other => panic!("unexpected result {:?}", other),
    }

    match PEFile::parse(&bytes[..64 + 4 + 19]) {
        Err(PerwError::NotEnoughDataLeft { attempted_read }) => assert_eq!(attempted_read, 20),
        other => panic!("unexpected result {:?}", other),
    }
    match PEFile::parse(&bytes[..64 + 4 + 20 + 30]) {
        Err(PerwError::NotEnoughDataLeft { attempted_read }) => assert_eq!(attempted_read, 68),
        other => panic!("unexpected result {:?}", other),
    }
    let table_start = 64 + 4 + 20 + 96 + 3 * 8;
    match PEFile::parse(&bytes[..table_start + 3 * 40 - 1]) {
        Err(PerwError::NotEnoughDataLeft { attempted_read }) => assert_eq!(attempted_read, 40),
        other => panic!("unexpected result {:?}", other),
    }

    let mut bad_magic = bytes.clone();
    bad_magic[88] = 7;
    match PEFile::parse(&bad_magic) {
        Err(PerwError::InvalidImageFormat { message }) => {
            assert_eq!(message, "Bad optional header magic number")
        }
        other => panic!("unexpected result {:?}", other),
    }
}

#[test]
fn a_file_without_an_optional_header_is_a_file_but_not_an_image() {
    let mut bytes = image(false);
    bytes[64 + 4 + 16] = 0;
    bytes[64 + 4 + 17] = 0;
    bytes[64 + 4 + 2] = 0;
    bytes[64 + 4 + 3] = 0;
    let pe = PEFile::parse(&bytes).unwrap();
    assert!(pe.optional_header.is_none());
    assert_eq!(pe.section_table.len(), 0);
    assert_eq!(pe.special_sections, Default::default());
    assert_eq!(pe.read_import_table(&bytes).unwrap(), None);
    assert_eq!(pe.read_base_relocation_table(&bytes).unwrap(), None);
    match PEImage::parse(&bytes) {
        Err(PerwError::InvalidImageFormat { .. }) => {}
        other => panic!("unexpected result {:?}", other),
    }
    match PEImage::parse_with_options(&bytes[..10], Options::minimal()) {
        Err(PerwError::NotEnoughDataLeft { .. }) => {}
        other => panic!("unexpected result {:?}", other),
    }
}

/// A small generator of pseudo random numbers, so that the test below is the
/// same on every run.
struct Lcg(u64);

impl Lcg {
    fn next(&mut self) -> u64 {
        self.0 = self.0.wrapping_mul(6364136223846793005).wrapping_add(1442695040888963407);
        self.0 >> 33
    }
}

#[test]
fn damaged_images_parse_or_fail_but_never_panic() {
    let mut random = Lcg(0x5EED);
    let mut parsed = 0;
    for round in 0..4000 {
        let mut data = image(round % 2 == 0);
        let damage = 1 + random.next() % 4;
        for _ in 0..damage {
            let at = (random.next() as usize) % data.len();
            data[at] = random.next() as u8;
        }
        if round % 7 == 0 {
            let keep = (random.next() as usize) % (data.len() + 1);
            data.truncate(keep);
        }
        if let Ok(file) = PEFile::parse(&data) {
            parsed += 1;
            let mut patched = data.clone();
            file.patch(&mut patched).unwrap();
            assert_eq!(patched, data);
            assert_eq!(PEFile::parse(&patched).unwrap(), file);
            let lifted = PEImageDef::from_pe_file(file, &data);
            assert!(lifted.sections.count() <= 0xFFFF);
        }
        let _ = PEFile::parse_minimal(&data);
    }
    assert!(parsed > 0);
}
