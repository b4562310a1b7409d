use packet_fields::{ByteView, ExtractError, SequentialFieldReader};

const BYTES: [u8; 10] = [0x7f, 0x00, 0x00, 0x01, 0xde, 0xad, 0xbe, 0xef, 0x12, 0x34];

#[test]
fn view_covers_the_buffer() {
    let view = ByteView::new(&BYTES);
    assert_eq!(view.len(), 10);
    assert_eq!(view.as_slice(), &BYTES[..]);
    assert_eq!(ByteView::new(&[]).len(), 0);
}

#[test]
fn view_with_length() {
    let view = ByteView::with_len(&BYTES, 4).unwrap();
    assert_eq!(view.as_slice(), &[0x7f, 0x00, 0x00, 0x01]);
    assert_eq!(ByteView::with_len(&BYTES, 10).unwrap().len(), 10);
    assert_eq!(ByteView::with_len(&BYTES, 0).unwrap().len(), 0);
    assert!(matches!(ByteView::with_len(&BYTES, 11), Err(ExtractError::OutOfBounds)));
    assert!(matches!(ByteView::with_len(&BYTES, usize::MAX), Err(ExtractError::OutOfBounds)));
}

#[test]
fn sub_view_is_bounds_checked() {
    let view = ByteView::new(&BYTES);
    assert_eq!(view.sub_view(4, 8).unwrap().as_slice(), &[0xde, 0xad, 0xbe, 0xef]);
    assert_eq!(view.sub_view(0, 10).unwrap().as_slice(), &BYTES[..]);
    assert_eq!(view.sub_view(10, 10).unwrap().len(), 0);
    assert_eq!(view.sub_view(3, 3).unwrap().len(), 0);
    assert!(matches!(view.sub_view(0, 11), Err(ExtractError::OutOfBounds)));
    assert!(matches!(view.sub_view(5, 4), Err(ExtractError::OutOfBounds)));
    assert!(matches!(view.sub_view(11, 11), Err(ExtractError::OutOfBounds)));
    let inner = view.sub_view(4, 8).unwrap();
    assert_eq!(inner.sub_view(1, 3).unwrap().as_slice(), &[0xad, 0xbe]);
    assert!(matches!(inner.sub_view(1, 5), Err(ExtractError::OutOfBounds)));
}

#[test]
fn copies_are_bounds_checked() {
    let view = ByteView::new(&BYTES);
    assert_eq!(view.copy4(0), Ok([0x7f, 0x00, 0x00, 0x01]));
    assert_eq!(view.copy4(6), Ok([0xbe, 0xef, 0x12, 0x34]));
    assert_eq!(view.copy4(7), Err(ExtractError::OutOfBounds));
    assert_eq!(view.copy4(usize::MAX), Err(ExtractError::OutOfBounds));
    assert_eq!(view.copy6(0), Ok([0x7f, 0x00, 0x00, 0x01, 0xde, 0xad]));
    assert_eq!(view.copy6(4), Ok([0xde, 0xad, 0xbe, 0xef, 0x12, 0x34]));
    assert_eq!(view.copy6(5), Err(ExtractError::OutOfBounds));
    assert_eq!(view.copy6(usize::MAX - 2), Err(ExtractError::OutOfBounds));
}

#[test]
fn reader_reads_fields_in_sequence() {
    let mut rdr = SequentialFieldReader::new(ByteView::new(&BYTES));
    assert_eq!(rdr.position(), 0);
    assert_eq!(rdr.read_u32_be(), Ok(0x7f00_0001));
    assert_eq!(rdr.position(), 4);
    assert_eq!(rdr.read_u32_be(), Ok(0xdead_beef));
    assert_eq!(rdr.position(), 8);
}

#[test]
fn reader_refuses_a_short_read_and_stays() {
    let mut rdr = SequentialFieldReader::new(ByteView::new(&BYTES));
    assert_eq!(rdr.seek(8), Ok(()));
    assert_eq!(rdr.read_u32_be(), Err(ExtractError::OutOfBounds));
    assert_eq!(rdr.position(), 8);
    assert_eq!(rdr.seek(7), Ok(()));
    assert_eq!(rdr.read_u32_be(), Err(ExtractError::OutOfBounds));
    assert_eq!(rdr.position(), 7);
    assert_eq!(rdr.seek(6), Ok(()));
    assert_eq!(rdr.read_u32_be(), Ok(0xbeef_1234));
    assert_eq!(rdr.position(), 10);
    assert_eq!(rdr.read_u32_be(), Err(ExtractError::OutOfBounds));
    assert_eq!(rdr.position(), 10);
}

#[test]
fn reader_seek_is_bounds_checked() {
    let mut rdr = SequentialFieldReader::new(ByteView::new(&BYTES));
    assert_eq!(rdr.seek(10), Ok(()));
    assert_eq!(rdr.position(), 10);
    assert_eq!(rdr.seek(11), Err(ExtractError::OutOfBounds));
    assert_eq!(rdr.position(), 10);
    assert_eq!(rdr.seek(usize::MAX), Err(ExtractError::OutOfBounds));
    assert_eq!(rdr.position(), 10);
    assert_eq!(rdr.seek(2), Ok(()));
    assert_eq!(rdr.read_u32_be(), Ok(0x0001_dead));
}

#[test]
fn reader_over_an_empty_view() {
    let mut rdr = SequentialFieldReader::new(ByteView::new(&[]));
    assert_eq!(rdr.seek(0), Ok(()));
    assert_eq!(rdr.read_u32_be(), Err(ExtractError::OutOfBounds));
    assert_eq!(rdr.seek(1), Err(ExtractError::OutOfBounds));
    assert_eq!(rdr.position(), 0);
}
