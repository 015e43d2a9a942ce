use pewter::error::PerwError;
use pewter::io::stream::PEStream;
use pewter::io::{ReadData, Reader, WriteData, Writer};

#[test]
fn test_too_much_writing() {
    let test_data = [0u8; 10];
    let mut out_buffer = [0u8; 9];

    let mut writer = PEStream::new(out_buffer.as_mut_slice());
    assert!(test_data.write_to(&mut writer).is_err());
}

#[test]
fn test_too_much_reading() {
    let test_data = [0u8; 10];
    let mut reader = PEStream::new(&test_data[..]);
    let read_resp: Result<[u8; 11], PerwError> = <[u8; 11]>::read(&mut reader);
    assert!(read_resp.is_err());
}

#[test]
fn test_read_write_u8() {
    let test_data = [0u8, 1, 2, 3, 4, 5, 6, 7, 8, 9, 10, 11, 12];
    let mut out_buffer = [0u8; 13];

    let mut writer = PEStream::new(out_buffer.as_mut_slice());
    test_data.write_to(&mut writer).unwrap();

    assert_eq!(writer.into_inner(), test_data);
}

#[test]
fn test_read_write_u16() {
    let test_data = [0u8, 1, 2, 3, 4, 5, 6, 7, 8, 9, 10, 11, 12];
    let mut out_buffer = [0u8; 13 * 2];

    {
        let mut writer = PEStream::new(out_buffer.as_mut_slice());
        test_data.write_to(&mut writer).unwrap();
    }

    let mut reader = PEStream::new(&out_buffer[..]);
    assert_eq!(<[u8; 13]>::read(&mut reader).unwrap(), test_data);
}

#[test]
fn test_read_write_u32() {
    let test_data = [0u8, 1, 2, 3, 4, 5, 6, 7, 8, 9, 10, 11, 12];
    let mut out_buffer = [0u8; 13 * 4];

    {
        let mut writer = PEStream::new(out_buffer.as_mut_slice());
        test_data.write_to(&mut writer).unwrap();
    }

    let mut reader = PEStream::new(&out_buffer[..]);
    assert_eq!(<[u8; 13]>::read(&mut reader).unwrap(), test_data);
}

#[test]
fn too_much_writing_reports_the_attempted_size() {
    let test_data = [0u8; 10];
    let mut out_buffer = [0u8; 9];
    let mut writer = PEStream::new(out_buffer.as_mut_slice());
    match writer.write_slice(&test_data) {
        Err(PerwError::NotEnoughSpaceLeft { attempted_write }) => assert_eq!(attempted_write, 10),
        other => panic!("unexpected result {:?}", other),
    }
}

#[test]
fn too_much_reading_reports_the_attempted_size() {
    let test_data = [0u8; 10];
    let mut reader = PEStream::new(&test_data[..]);
    match reader.read_slice(11) {
        Err(PerwError::NotEnoughDataLeft { attempted_read }) => assert_eq!(attempted_read, 11),
        other => panic!("unexpected result {:?}", other),
    }
}

#[test]
fn read_slice_never_returns_a_short_read() {
    let data = [1u8, 2, 3, 4, 5];
    let mut reader = PEStream::new(&data[..]);
    assert_eq!(reader.read_slice(2).unwrap(), &[1u8, 2][..]);
    assert_eq!(reader.get_position(), 2);
    assert!(reader.read_slice(4).is_err());
    assert_eq!(reader.read_slice(3).unwrap(), &[3u8, 4, 5][..]);
    assert_eq!(reader.read_slice(0).unwrap(), &[0u8; 0][..]);
    assert!(reader.read_slice(1).is_err());
}

#[test]
fn slice_reader_advances_by_the_size_of_each_value() {
    let data = [0x34u8, 0x12, 0x78, 0x56, 0x34, 0x12, 1, 2, 3, 4, 5, 6, 7, 8, 9];
    let mut reader: &[u8] = &data;
    assert_eq!(u16::read(&mut reader).unwrap(), 0x1234);
    assert_eq!(reader.len(), 13);
    assert_eq!(u32::read(&mut reader).unwrap(), 0x12345678);
    assert_eq!(reader.len(), 9);
    assert_eq!(u64::read(&mut reader).unwrap(), 0x0807060504030201);
    assert_eq!(u8::read(&mut reader).unwrap(), 9);
    assert!(u8::read(&mut reader).is_err());
}

#[test]
fn integers_are_written_little_endian() {
    let mut sink: Vec<u8> = Vec::new();
    0x1234u16.write_to(&mut sink).unwrap();
    0x12345678u32.write_to(&mut sink).unwrap();
    0x0102030405060708u64.write_to(&mut sink).unwrap();
    0xABu8.write_to(&mut sink).unwrap();
    assert_eq!(
        sink,
        vec![0x34, 0x12, 0x78, 0x56, 0x34, 0x12, 8, 7, 6, 5, 4, 3, 2, 1, 0xAB]
    );
}

#[test]
fn growable_sink_always_takes_the_data() {
    let mut sink: Vec<u8> = vec![9];
    sink.write_slice(&[1, 2, 3]).unwrap();
    assert_eq!(sink, vec![9, 1, 2, 3]);

    let mut stream = PEStream::new(vec![0u8; 2]);
    stream.set_position(1);
    stream.write_slice(&[7, 8, 9]).unwrap();
    assert_eq!(stream.get_position(), 4);
    assert_eq!(stream.into_inner(), vec![0, 7, 8, 9]);
}

#[test]
fn bounded_sink_writes_in_place() {
    let mut buffer = [1u8, 2, 3, 4, 5, 6];
    let mut stream = PEStream::new(buffer.as_mut_slice());
    stream.set_position(2);
    stream.write_slice(&[0xAA, 0xBB]).unwrap();
    assert_eq!(stream.get_position(), 4);
    assert!(stream.write_slice(&[1, 2, 3]).is_err());
    assert_eq!(buffer, [1, 2, 0xAA, 0xBB, 5, 6]);
}

#[test]
fn error_constructors_fill_their_fields() {
    match PerwError::not_enough_data(3) {
        PerwError::NotEnoughDataLeft { attempted_read } => assert_eq!(attempted_read, 3),
        other => panic!("unexpected error {:?}", other),
    }
    match PerwError::not_enough_space(4) {
        PerwError::NotEnoughSpaceLeft { attempted_write } => assert_eq!(attempted_write, 4),
        other => panic!("unexpected error {:?}", other),
    }
    match PerwError::invalid_image_format("bad") {
        PerwError::InvalidImageFormat { message } => assert_eq!(message, "bad"),
        other => panic!("unexpected error {:?}", other),
    }
}
