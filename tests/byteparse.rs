use pe_parse::byteparse::{Byteparse, ByteparseHelper};
use pe_parse::pe::{ImageDataDirectory, ImageFileHeader};
use pe_parse::stream::{ByteStream, PeError, PeSource};

fn stream(b: &[u8]) -> ByteStream {
    ByteStream::new(b.to_vec())
}

#[test]
fn u32_little_endian_one() {
    let mut s = stream(&[0x01, 0x00, 0x00, 0x00]);
    assert_eq!(<u32 as Byteparse>::parse(&mut s), Ok(1));
}

#[test]
fn every_unsigned_width() {
    let b: Vec<u8> = (1u8..=16).collect();
    assert_eq!(<u8 as Byteparse>::parse(&mut stream(&b)), Ok(0x01));
    assert_eq!(<u16 as Byteparse>::parse(&mut stream(&b)), Ok(0x0201));
    assert_eq!(<u32 as Byteparse>::parse(&mut stream(&b)), Ok(0x0403_0201));
    assert_eq!(<u64 as Byteparse>::parse(&mut stream(&b)), Ok(0x0807_0605_0403_0201));
    assert_eq!(
        <u128 as Byteparse>::parse(&mut stream(&b)),
        Ok(0x100f_0e0d_0c0b_0a09_0807_0605_0403_0201)
    );
}

#[test]
fn every_signed_width() {
    let b = [0xFEu8; 16];
    assert_eq!(<i8 as Byteparse>::parse(&mut stream(&b)), Ok(-2));
    assert_eq!(<i16 as Byteparse>::parse(&mut stream(&b)), Ok(-258));
    assert_eq!(<i32 as Byteparse>::parse(&mut stream(&b)), Ok(i32::from_le_bytes([0xFE; 4])));
    assert_eq!(<i64 as Byteparse>::parse(&mut stream(&b)), Ok(i64::from_le_bytes([0xFE; 8])));
    assert_eq!(<i128 as Byteparse>::parse(&mut stream(&b)), Ok(i128::from_le_bytes([0xFE; 16])));
    assert_eq!(<i32 as Byteparse>::parse(&mut stream(&[0x01, 0, 0, 0x80])), Ok(i32::MIN + 1));
    assert_eq!(<i16 as Byteparse>::parse(&mut stream(&[0xFF, 0x7F])), Ok(i16::MAX));
}

#[test]
fn short_read_fails() {
    let mut s = stream(&[1, 2, 3]);
    assert_eq!(<u32 as Byteparse>::parse(&mut s), Err(PeError::UnexpectedEof));
    let mut s = stream(&[]);
    assert_eq!(<u8 as Byteparse>::parse(&mut s), Err(PeError::UnexpectedEof));
}

#[test]
fn composite_fields_in_declaration_order() {
    let mut s = stream(&[0x01, 0x00, 0x00, 0x00, 0x02, 0x00, 0x00, 0x00]);
    let d = <ImageDataDirectory as Byteparse>::parse(&mut s).unwrap();
    assert_eq!(d.virtual_address, 1);
    assert_eq!(d.size, 2);
}

#[test]
fn composite_mixed_widths() {
    let mut b = vec![0u8; 20];
    b[0] = 0x64;
    b[1] = 0x86;
    b[2] = 0x02;
    b[16] = 0xF0;
    b[18] = 0x22;
    let h = <ImageFileHeader as Byteparse>::parse(&mut stream(&b)).unwrap();
    assert_eq!(h.machine, 0x8664);
    assert_eq!(h.number_of_sections, 2);
    assert_eq!(h.size_of_optional_header, 0xF0);
    assert_eq!(h.characteristics, 0x22);
    assert_eq!(<ImageFileHeader as Byteparse>::parse(&mut stream(&b[..19])), Err(PeError::UnexpectedEof));
}

#[test]
fn array_elements_in_index_order() {
    let mut s = stream(&[1, 0, 2, 0, 3, 0]);
    assert_eq!(<[u16; 3] as Byteparse>::parse(&mut s), Ok([1, 2, 3]));
    let mut s = stream(&[1, 0, 2]);
    assert_eq!(<[u16; 2] as Byteparse>::parse(&mut s), Err(PeError::UnexpectedEof));
}

#[test]
fn large_array() {
    let b: Vec<u8> = (0..500u32).map(|i| (i % 256) as u8).collect();
    let mut a = [7u8; 500];
    assert_eq!(a.parse_to(&mut stream(&b)), Ok(()));
    assert_eq!(a[499], (499 % 256) as u8);
    assert_eq!(a[0], 0);
}

#[test]
fn parse_to_overwrites_in_place() {
    let mut s = stream(&[9, 0, 0, 0, 7, 0]);
    let mut v: u32 = 5;
    assert_eq!(v.parse_to(&mut s), Ok(()));
    assert_eq!(v, 9);
    let mut w: u16 = 0;
    assert_eq!(w.parse_to(&mut s), Ok(()));
    assert_eq!(w, 7);
}

#[test]
fn stream_reads_until_nul() {
    let mut s = stream(b"ab\0cd");
    assert_eq!(s.read_until_nul(), Ok(b"ab\0".to_vec()));
    assert_eq!(s.read_until_nul(), Err(PeError::UnexpectedEof));
    assert_eq!(s.read_until_nul(), Err(PeError::UnexpectedEof));
    s.seek(1);
    assert_eq!(s.read_exact(2), Ok(b"b\0".to_vec()));
}

#[test]
fn helper_reads_from_stream() {
    let mut s = stream(&[0x34, 0x12, 0xFF]);
    let v: Result<u16, PeError> = s.parse();
    assert_eq!(v, Ok(0x1234));
    let w: Result<u16, PeError> = s.parse();
    assert_eq!(w, Err(PeError::UnexpectedEof));
}

#[test]
fn pointer_sized_integers() {
    let w = std::mem::size_of::<usize>();
    let mut b = vec![0u8; w];
    b[0] = 0x34;
    b[1] = 0x12;
    assert_eq!(<usize as Byteparse>::parse(&mut stream(&b)), Ok(0x1234));
    let m = vec![0xFFu8; w];
    assert_eq!(<usize as Byteparse>::parse(&mut stream(&m)), Ok(usize::MAX));
    assert_eq!(<isize as Byteparse>::parse(&mut stream(&m)), Ok(-1));
    let mut n = vec![0u8; w];
    n[w - 1] = 0x80;
    assert_eq!(<isize as Byteparse>::parse(&mut stream(&n)), Ok(isize::MIN));
    let mut s = stream(&m[..w - 1]);
    assert_eq!(<usize as Byteparse>::parse(&mut s), Err(PeError::UnexpectedEof));
    let mut t = stream(&m);
    assert_eq!(<isize as Byteparse>::parse(&mut t), Ok(-1));
    assert_eq!(<u8 as Byteparse>::parse(&mut t), Err(PeError::UnexpectedEof));
}
