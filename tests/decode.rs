use pe_parse::image::{ExportAddr, ImportFunc, PortableExecutable, Section};
use pe_parse::parser::translate;
use pe_parse::stream::{ByteStream, PeError};

fn put16(b: &mut [u8], at: usize, v: u16) {
    b[at..at + 2].copy_from_slice(&v.to_le_bytes());
}

fn put32(b: &mut [u8], at: usize, v: u32) {
    b[at..at + 4].copy_from_slice(&v.to_le_bytes());
}

fn put64(b: &mut [u8], at: usize, v: u64) {
    b[at..at + 8].copy_from_slice(&v.to_le_bytes());
}

fn put_str(b: &mut [u8], at: usize, s: &[u8]) {
    b[at..at + s.len()].copy_from_slice(s);
}

fn decode(b: Vec<u8>) -> Result<PortableExecutable, PeError> {
    PortableExecutable::parse(ByteStream::new(b))
}

/// File offset of a virtual address inside the one section of `image`.
fn file(rva: u32) -> usize {
    (rva - 0x1000 + 0x400) as usize
}

/// An image with one section (virtual 0x1000..0x2000, raw at 0x400), an
/// export table of three functions and an import table of one module.
fn image() -> Vec<u8> {
    let mut b = vec![0u8; 0x1400];
    put_str(&mut b, 0, b"MZ");
    put32(&mut b, 60, 64);
    put_str(&mut b, 64, b"PE\0\0");
    put16(&mut b, 68, 0x8664);
    put16(&mut b, 70, 1);
    put16(&mut b, 84, 240);
    put16(&mut b, 88, 0x20B);
    // data directories: exports, imports
    put32(&mut b, 200, 0x1000);
    put32(&mut b, 204, 0x100);
    put32(&mut b, 208, 0x1200);
    put32(&mut b, 212, 0x100);
    // section table at 64 + 24 + 240
    put_str(&mut b, 328, b".text");
    put32(&mut b, 336, 0x1000);
    put32(&mut b, 340, 0x1000);
    put32(&mut b, 344, 0x1000);
    put32(&mut b, 348, 0x400);
    put32(&mut b, 364, 0x6000_0020);
    // export directory
    let e = file(0x1000);
    put32(&mut b, e + 16, 5);
    put32(&mut b, e + 20, 3);
    put32(&mut b, e + 24, 1);
    put32(&mut b, e + 28, 0x1100);
    put32(&mut b, e + 32, 0x1120);
    put32(&mut b, e + 36, 0x1130);
    put32(&mut b, file(0x1100), 0x1500);
    put32(&mut b, file(0x1104), 0x1504);
    put32(&mut b, file(0x1108), 0x1080);
    put_str(&mut b, file(0x1080), b"NTDLL.RtlZeroMemory\0");
    put32(&mut b, file(0x1120), 0x1140);
    put16(&mut b, file(0x1130), 1);
    put_str(&mut b, file(0x1140), b"Foo\0");
    // import descriptor, then a zero one
    let d = file(0x1200);
    put32(&mut b, d, 0x1300);
    put32(&mut b, d + 12, 0x1280);
    put32(&mut b, d + 16, 0x1380);
    put_str(&mut b, file(0x1280), b"KERNEL32.dll\0");
    put64(&mut b, file(0x1300), 0x8000_0000_0000_0007);
    put64(&mut b, file(0x1308), 0x1340);
    put_str(&mut b, file(0x1342), b"Foo\0");
    b
}

fn forwarded(a: &ExportAddr) -> Option<(String, String)> {
    match a {
        ExportAddr::Forwarded((m, f)) => Some((m.clone(), f.clone())),
        ExportAddr::Rva(_) => None,
    }
}

#[test]
fn translate_through_first_section() {
    let secs = vec![Section {
        name: String::from("text"),
        virt_addr: 0x1000,
        virt_len: 0x200,
        raw_addr: 0x400,
        raw_len: 0x200,
        flags: 0,
    }];
    assert_eq!(translate(&secs, 0x1050), 0x450);
    assert_eq!(translate(&secs, 0x5000), 0x5000);
    assert_eq!(translate(&secs, 0x1200), 0x1200);
    assert_eq!(translate(&secs, 0x1000), 0x400);
}

#[test]
fn translate_first_match_wins() {
    let s = |v: u32, raw: u32| Section {
        name: String::new(),
        virt_addr: v,
        virt_len: 0x100,
        raw_addr: raw,
        raw_len: 0,
        flags: 0,
    };
    let secs = vec![s(0x1000, 0x400), s(0x1080, 0x9000)];
    assert_eq!(translate(&secs, 0x1090), 0x490);
    assert_eq!(translate(&secs, 0x1150), 0x9000 + 0xD0);
}

#[test]
fn headers_and_sections() {
    let pe = decode(image()).unwrap();
    assert_eq!(pe.dos_header().e_magic, 0x5A4D);
    assert_eq!(pe.dos_header().e_lfanew, 64);
    assert_eq!(pe.nt_header().signature, 0x4550);
    assert_eq!(pe.nt_header().file_header.number_of_sections, 1);
    assert_eq!(pe.nt_header().optional_header.magic, 0x20B);
    let secs = pe.sections();
    assert_eq!(secs.len(), 1);
    assert_eq!(secs[0].name, ".text");
    assert_eq!(secs[0].virt_addr, 0x1000);
    assert_eq!(secs[0].virt_len, 0x1000);
    assert_eq!(secs[0].raw_addr, 0x400);
    assert_eq!(secs[0].raw_len, 0x1000);
    assert_eq!(secs[0].flags, 0x6000_0020);
}

#[test]
fn section_name_of_eight_bytes() {
    let mut b = image();
    put_str(&mut b, 328, b"ABCDEFGH");
    let pe = decode(b).unwrap();
    assert_eq!(pe.sections()[0].name, "ABCDEFGH");
}

#[test]
fn exports_named_and_unnamed() {
    let pe = decode(image()).unwrap();
    let ex = pe.exports();
    assert_eq!(ex.len(), 3);
    assert_eq!(ex[0].name, None);
    assert_eq!(ex[1].name.as_deref(), Some("Foo"));
    assert_eq!(ex[2].name, None);
    assert_eq!(ex[0].ord, 5);
    assert_eq!(ex[1].ord, 6);
    assert_eq!(ex[2].ord, 7);
    assert!(matches!(ex[0].addr, ExportAddr::Rva(0x1500)));
    assert!(matches!(ex[1].addr, ExportAddr::Rva(0x1504)));
}

#[test]
fn forwarded_export() {
    let pe = decode(image()).unwrap();
    assert_eq!(
        forwarded(&pe.exports()[2].addr),
        Some((String::from("NTDLL.dll"), String::from("RtlZeroMemory")))
    );
}

#[test]
fn forwarder_without_separator() {
    let mut b = image();
    put_str(&mut b, file(0x1080), b"NODOT\0");
    let pe = decode(b).unwrap();
    assert_eq!(forwarded(&pe.exports()[2].addr), Some((String::from("NODOT"), String::new())));
}

#[test]
fn forwarder_keeps_existing_extension() {
    let mut b = image();
    put_str(&mut b, file(0x1080), b"a.dll.F\0");
    let pe = decode(b).unwrap();
    assert_eq!(forwarded(&pe.exports()[2].addr), Some((String::from("a.dll"), String::from("dll.F"))));
}

#[test]
fn first_name_position_wins() {
    let mut b = image();
    let e = file(0x1000);
    put32(&mut b, e + 24, 2);
    put32(&mut b, file(0x1124), 0x1150);
    put16(&mut b, file(0x1132), 1);
    put_str(&mut b, file(0x1150), b"Bar\0");
    let pe = decode(b).unwrap();
    assert_eq!(pe.exports()[1].name.as_deref(), Some("Foo"));
    assert_eq!(pe.exports()[0].name, None);
}

#[test]
fn no_export_directory() {
    let mut b = image();
    put32(&mut b, 204, 0);
    let pe = decode(b).unwrap();
    assert_eq!(pe.exports().len(), 0);
    assert_eq!(pe.imports().len(), 1);
}

#[test]
fn imports_by_ordinal_and_name() {
    let pe = decode(image()).unwrap();
    let im = pe.imports();
    assert_eq!(im.len(), 1);
    assert_eq!(im[0].name, "KERNEL32.dll");
    assert_eq!(im[0].funcs.len(), 2);
    assert!(matches!(im[0].funcs[0], ImportFunc::ByOrd(7)));
    match &im[0].funcs[1] {
        ImportFunc::ByName(n) => assert_eq!(n, "Foo"),
        ImportFunc::ByOrd(_) => panic!("expected a name"),
    }
}

#[test]
fn import_uses_first_thunk_when_original_is_zero() {
    let mut b = image();
    let d = file(0x1200);
    put32(&mut b, d, 0);
    put64(&mut b, file(0x1380), 0x8000_0000_0000_0009);
    let pe = decode(b).unwrap();
    assert_eq!(pe.imports()[0].funcs.len(), 1);
    assert!(matches!(pe.imports()[0].funcs[0], ImportFunc::ByOrd(9)));
}

#[test]
fn zero_name_descriptor_ends_walk() {
    let mut b = image();
    put32(&mut b, file(0x1200) + 12, 0);
    let pe = decode(b).unwrap();
    assert_eq!(pe.imports().len(), 0);
}

#[test]
fn invalid_utf8_is_replaced() {
    let mut b = image();
    put_str(&mut b, file(0x1280), b"K\xFFL\0");
    let pe = decode(b).unwrap();
    assert_eq!(pe.imports()[0].name, "K\u{FFFD}L");
}

#[test]
fn bad_dos_magic() {
    let mut b = image();
    put_str(&mut b, 0, b"ZM");
    assert!(matches!(decode(b), Err(PeError::BadDosMagic)));
    let mut z = vec![0u8; 64];
    z[0] = b'M';
    assert!(matches!(decode(z), Err(PeError::BadDosMagic)));
}

#[test]
fn bad_nt_signature() {
    let mut b = image();
    put_str(&mut b, 64, b"NE\0\0");
    assert!(matches!(decode(b), Err(PeError::BadNtSignature)));
}

#[test]
fn truncated_sources() {
    assert!(matches!(decode(b"MZ".to_vec()), Err(PeError::UnexpectedEof)));
    assert!(matches!(decode(Vec::new()), Err(PeError::UnexpectedEof)));
    let b = image();
    assert!(matches!(decode(b[..300].to_vec()), Err(PeError::UnexpectedEof)));
    let mut c = image();
    put32(&mut c, 60, 0xFFFF_FF00);
    assert!(matches!(decode(c), Err(PeError::UnexpectedEof)));
    // a thunk table that runs past the end of the source
    let mut t = image();
    put32(&mut t, file(0x1200), 0x1FF8);
    put64(&mut t, file(0x1FF8), 0x8000_0000_0000_0001);
    assert!(matches!(decode(t), Err(PeError::UnexpectedEof)));
    // a function table entry past the end of the source
    let mut f = image();
    put32(&mut f, file(0x1000) + 28, 0x3000);
    assert!(matches!(decode(f), Err(PeError::UnexpectedEof)));
}

#[test]
fn same_source_decodes_equal() {
    let a = decode(image()).unwrap();
    let b = decode(image()).unwrap();
    assert_eq!(a.dos_header(), b.dos_header());
    assert_eq!(a.nt_header(), b.nt_header());
    assert_eq!(a.sections().len(), b.sections().len());
    assert_eq!(a.sections()[0].name, b.sections()[0].name);
    assert_eq!(a.exports().len(), b.exports().len());
    for (x, y) in a.exports().iter().zip(b.exports()) {
        assert_eq!(x.name, y.name);
        assert_eq!(x.ord, y.ord);
        assert_eq!(forwarded(&x.addr), forwarded(&y.addr));
    }
    assert_eq!(a.imports()[0].name, b.imports()[0].name);
    assert_eq!(a.imports()[0].funcs.len(), b.imports()[0].funcs.len());
}

#[test]
fn export_index_above_16_bits_has_no_name() {
    let mut b = image();
    let e = file(0x1000);
    put32(&mut b, e + 20, 65538);
    put32(&mut b, e + 28, 0x10000);
    b.resize(0x10000 + 65538 * 4, 0);
    let pe = decode(b).unwrap();
    let ex = pe.exports();
    assert_eq!(ex.len(), 65538);
    assert_eq!(ex[1].name.as_deref(), Some("Foo"));
    assert_eq!(ex[65537].name, None);
    assert_eq!(ex[65536].name, None);
    assert_eq!(ex[65537].ord, 6);
}

#[test]
fn string_without_nul_fails() {
    let mut b = image();
    let n = b.len();
    put32(&mut b, file(0x1200) + 12, 0x1FFC);
    put_str(&mut b, n - 4, b"ABCD");
    assert!(matches!(decode(b), Err(PeError::UnexpectedEof)));
    let mut c = image();
    put32(&mut c, file(0x1120), 0x5000);
    assert!(matches!(decode(c), Err(PeError::UnexpectedEof)));
}
