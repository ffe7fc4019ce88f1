//! What decoding an image yields, as a function of the source bytes.
use vstd::prelude::*;
use crate::byteparse::Byteparse;
use crate::image::{ExportAddrView, ExportView, ImageView, ImportFuncView, ImportView, SectionView};
use crate::pe::{ImageDosHeader, ImageExportDirectory, ImageImportDescriptor, ImageNtHeaders64, ImageSectionHeader};
use crate::stream::{has_nul, in_bounds, lemma_le_value_2, nul_index, tail_from, PeError};
use crate::text::{latin1_seq, utf8_lossy};

verus! {

/// "MZ" read as a little-endian 16-bit value.
pub const DOS_MAGIC: u16 = 0x5A4D;

/// "PE\0\0" read as a little-endian 32-bit value.
pub const NT_SIGNATURE: u32 = 0x4550;

/// Whether a section's virtual range holds `rva`.
pub open spec fn section_holds(s: SectionView, rva: u64) -> bool {
    s.virt_addr <= rva < s.virt_addr + s.virt_len
}

/// File offset of `rva` by the first section, from index `i` on, that holds it.
pub open spec fn translate_from(secs: Seq<SectionView>, rva: u64, i: int) -> u64
    decreases secs.len() - i,
{
    if i >= secs.len() || i < 0 {
        rva
    } else if section_holds(secs[i], rva) {
        (rva - secs[i].virt_addr + secs[i].raw_addr) as u64
    } else {
        translate_from(secs, rva, i + 1)
    }
}

/// File offset of `rva`: through the first section that holds it, else `rva`.
pub open spec fn spec_translate(secs: Seq<SectionView>, rva: u64) -> u64 {
    translate_from(secs, rva, 0)
}

/// The bytes of the string at offset `off`: those before the first NUL.
pub open spec fn cstr_bytes(data: Seq<u8>, off: int) -> Seq<u8> {
    tail_from(data, off).take(nul_index(tail_from(data, off)) as int)
}

/// Whether the string at virtual address `rva` ends in a NUL inside the source.
pub open spec fn str_ok(data: Seq<u8>, secs: Seq<SectionView>, rva: u64) -> bool {
    has_nul(data, spec_translate(secs, rva) as int)
}

/// The string at virtual address `rva`.
pub open spec fn str_at(data: Seq<u8>, secs: Seq<SectionView>, rva: u64) -> Seq<char> {
    utf8_lossy(cstr_bytes(data, spec_translate(secs, rva) as int))
}

pub open spec fn dos_of(data: Seq<u8>) -> ImageDosHeader {
    ImageDosHeader::spec_read(data, 0)
}

pub open spec fn nt_offset(data: Seq<u8>) -> int {
    dos_of(data).e_lfanew as int
}

pub open spec fn nt_of(data: Seq<u8>) -> ImageNtHeaders64 {
    ImageNtHeaders64::spec_read(data, nt_offset(data))
}

pub open spec fn section_count(data: Seq<u8>) -> nat {
    nt_of(data).file_header.number_of_sections as nat
}

/// File offset of the section table: after the signature, the file header
/// and the declared optional header.
pub open spec fn section_table_offset(data: Seq<u8>) -> int {
    nt_offset(data) + 20 + nt_of(data).file_header.size_of_optional_header + 4
}

pub open spec fn section_header_at(data: Seq<u8>, i: int) -> ImageSectionHeader {
    ImageSectionHeader::spec_read(data, section_table_offset(data) + 40 * i)
}

pub open spec fn section_of(h: ImageSectionHeader) -> SectionView {
    SectionView {
        name: latin1_seq(h.name@.take(nul_index(h.name@) as int)),
        virt_addr: h.virtual_address,
        virt_len: h.virtual_size,
        raw_addr: h.pointer_to_raw_data,
        raw_len: h.size_of_raw_data,
        flags: h.characteristics,
    }
}

pub open spec fn sections_of(data: Seq<u8>) -> Seq<SectionView> {
    Seq::new(section_count(data), |i: int| section_of(section_header_at(data, i)))
}

pub open spec fn sections_readable(data: Seq<u8>) -> bool {
    in_bounds(data, section_table_offset(data), 40 * section_count(data))
}

/// Whether `j` is the first position of `k` in `s`.
pub open spec fn is_first(s: Seq<u16>, k: u16, j: int) -> bool {
    0 <= j < s.len() && s[j] == k && forall|jj: int| 0 <= jj < j ==> s[jj] != k
}

/// The name table position of table index `i`: the first position of the
/// index in the name ordinals. Ordinals are 16-bit, so an index above 0xFFFF
/// has none.
pub open spec fn name_position(ords: Seq<u16>, i: int) -> Option<int> {
    let k = i as u16;
    if 0 <= i <= 0xFFFF && exists|j: int| is_first(ords, k, j) {
        Some(choose|j: int| is_first(ords, k, j))
    } else {
        None
    }
}

/// Everything the export decoder reads its entries against.
pub struct ExportCtx {
    pub data: Seq<u8>,
    pub secs: Seq<SectionView>,
    pub dir_rva: u64,
    pub dir_len: u64,
    pub edir: ImageExportDirectory,
}

pub open spec fn export_ctx(data: Seq<u8>, secs: Seq<SectionView>, nt: ImageNtHeaders64) -> ExportCtx {
    let dir = nt.optional_header.data_directory[0];
    ExportCtx {
        data,
        secs,
        dir_rva: dir.virtual_address as u64,
        dir_len: dir.size as u64,
        edir: ImageExportDirectory::spec_read(data, spec_translate(secs, dir.virtual_address as u64) as int),
    }
}

pub open spec fn ords_offset(c: ExportCtx) -> int {
    spec_translate(c.secs, c.edir.address_of_name_ordinals as u64) as int
}

pub open spec fn name_ords(c: ExportCtx) -> Seq<u16> {
    Seq::new(c.edir.number_of_names as nat, |j: int| u16::spec_read(c.data, ords_offset(c) + 2 * j))
}

pub open spec fn name_rva_offset(c: ExportCtx, j: int) -> int {
    spec_translate(c.secs, (c.edir.address_of_names + 4 * j) as u64) as int
}

pub open spec fn func_offset(c: ExportCtx, i: int) -> int {
    spec_translate(c.secs, (c.edir.address_of_functions + 4 * i) as u64) as int
}

pub open spec fn func_rva(c: ExportCtx, i: int) -> u64 {
    u32::spec_read(c.data, func_offset(c, i)) as u64
}

/// Index of the first '.' in `s`, or its length when there is none.
pub open spec fn dot_index(s: Seq<u8>) -> nat
    decreases s.len(),
{
    if s.len() == 0 {
        0
    } else if s[0] == 0x2E {
        0
    } else {
        1 + dot_index(s.drop_first())
    }
}

pub proof fn lemma_dot_index_le(s: Seq<u8>)
    ensures
        dot_index(s) <= s.len(),
    decreases s.len(),
{
    if s.len() > 0 {
        lemma_dot_index_le(s.drop_first());
    }
}

pub proof fn lemma_dot_index_step(t: Seq<u8>, k: nat)
    requires
        k < t.len(),
        dot_index(t) >= k,
    ensures
        t[k as int] == 0x2E ==> dot_index(t) == k,
        t[k as int] != 0x2E ==> dot_index(t) >= k + 1,
    decreases k,
{
    if k > 0 {
        lemma_dot_index_step(t.drop_first(), (k - 1) as nat);
    }
}

/// Two first positions of one value are the same position.
pub proof fn lemma_is_first_unique(s: Seq<u16>, k: u16, a: int, b: int)
    requires
        is_first(s, k, a),
        is_first(s, k, b),
    ensures
        a == b,
{
}

pub open spec fn dll_suffix() -> Seq<char> {
    seq!['.', 'd', 'l', 'l']
}

/// A forwarder string split once on '.': the module gets ".dll" appended.
pub open spec fn forwarder_of(s: Seq<u8>) -> ExportAddrView {
    let k = dot_index(s) as int;
    if k < s.len() {
        ExportAddrView::Forwarded(
            utf8_lossy(s.take(k)) + dll_suffix(),
            utf8_lossy(s.skip(k + 1)),
        )
    } else {
        ExportAddrView::Forwarded(utf8_lossy(s), Seq::empty())
    }
}

pub open spec fn is_forwarded(c: ExportCtx, rva: u64) -> bool {
    c.dir_rva <= rva < c.dir_rva + c.dir_len
}

pub open spec fn export_addr_of(c: ExportCtx, rva: u64) -> ExportAddrView {
    if is_forwarded(c, rva) {
        forwarder_of(cstr_bytes(c.data, spec_translate(c.secs, rva) as int))
    } else {
        ExportAddrView::Rva(rva)
    }
}

pub open spec fn export_name_of(c: ExportCtx, i: int) -> Option<Seq<char>> {
    match name_position(name_ords(c), i) {
        Some(j) => Some(str_at(c.data, c.secs, u32::spec_read(c.data, name_rva_offset(c, j)) as u64)),
        None => None,
    }
}

/// The export at function table index `i`; its ordinal is the directory
/// base plus `i`, kept to 16 bits.
pub open spec fn export_at(c: ExportCtx, i: int) -> ExportView {
    ExportView {
        name: export_name_of(c, i),
        addr: export_addr_of(c, func_rva(c, i)),
        ord: ((c.edir.base + i) % 0x1_0000) as u16,
    }
}

/// Whether the reads made for table index `i` stay inside the source.
pub open spec fn export_entry_readable(c: ExportCtx, i: int) -> bool {
    &&& (name_position(name_ords(c), i) matches Some(j) ==> {
        &&& in_bounds(c.data, name_rva_offset(c, j), 4)
        &&& str_ok(c.data, c.secs, u32::spec_read(c.data, name_rva_offset(c, j)) as u64)
    })
    &&& in_bounds(c.data, func_offset(c, i), 4)
    &&& (is_forwarded(c, func_rva(c, i)) ==> str_ok(c.data, c.secs, func_rva(c, i)))
}

pub open spec fn exports_present(nt: ImageNtHeaders64) -> bool {
    let dir = nt.optional_header.data_directory[0];
    dir.virtual_address != 0 && dir.size != 0
}

pub open spec fn exports_readable(data: Seq<u8>, secs: Seq<SectionView>, nt: ImageNtHeaders64) -> bool {
    let c = export_ctx(data, secs, nt);
    exports_present(nt) ==> {
        &&& in_bounds(data, spec_translate(secs, c.dir_rva) as int, 40)
        &&& in_bounds(data, ords_offset(c), 2 * c.edir.number_of_names as nat)
        &&& forall|i: int| 0 <= i < c.edir.number_of_functions ==> export_entry_readable(c, i)
    }
}

pub open spec fn exports_of(data: Seq<u8>, secs: Seq<SectionView>, nt: ImageNtHeaders64) -> Seq<ExportView> {
    let c = export_ctx(data, secs, nt);
    if exports_present(nt) {
        Seq::new(c.edir.number_of_functions as nat, |i: int| export_at(c, i))
    } else {
        Seq::empty()
    }
}

/// Puts `p` in front of a successful walk.
pub open spec fn prepend<T>(p: Seq<T>, r: Result<Seq<T>, PeError>) -> Result<Seq<T>, PeError> {
    match r {
        Ok(s) => Ok(p + s),
        Err(e) => Err(e),
    }
}

/// The function that a non-zero thunk value names.
pub open spec fn thunk_func(data: Seq<u8>, secs: Seq<SectionView>, e: u64) -> ImportFuncView {
    if e >= 0x8000_0000_0000_0000 {
        ImportFuncView::ByOrd((e % 0x1_0000) as u16)
    } else {
        ImportFuncView::ByName(str_at(data, secs, (e + 2) as u64))
    }
}

/// The functions of the thunk table from `addr` up to its zero entry.
pub open spec fn thunk_walk(data: Seq<u8>, secs: Seq<SectionView>, addr: u64) -> Result<Seq<ImportFuncView>, PeError>
    decreases u64::MAX - addr,
{
    let off = spec_translate(secs, addr) as int;
    if !in_bounds(data, off, 8) {
        Err(PeError::UnexpectedEof)
    } else {
        let e = u64::spec_read(data, off);
        if e == 0 {
            Ok(Seq::empty())
        } else if addr > u64::MAX - 8 {
            Err(PeError::UnexpectedEof)
        } else if e < 0x8000_0000_0000_0000 && !str_ok(data, secs, (e + 2) as u64) {
            Err(PeError::UnexpectedEof)
        } else {
            prepend(seq![thunk_func(data, secs, e)], thunk_walk(data, secs, (addr + 8) as u64))
        }
    }
}

pub open spec fn thunk_start(d: ImageImportDescriptor) -> u64 {
    if d.original_first_thunk == 0 {
        d.first_thunk as u64
    } else {
        d.original_first_thunk as u64
    }
}

/// The modules of the descriptor table from `addr` up to its record with a
/// zero name.
pub open spec fn import_walk(data: Seq<u8>, secs: Seq<SectionView>, addr: u64) -> Result<Seq<ImportView>, PeError>
    decreases u64::MAX - addr,
{
    let off = spec_translate(secs, addr) as int;
    if !in_bounds(data, off, 20) {
        Err(PeError::UnexpectedEof)
    } else {
        let d = ImageImportDescriptor::spec_read(data, off);
        if d.name == 0 {
            Ok(Seq::empty())
        } else if addr > u64::MAX - 20 {
            Err(PeError::UnexpectedEof)
        } else if !str_ok(data, secs, d.name as u64) {
            Err(PeError::UnexpectedEof)
        } else {
            match thunk_walk(data, secs, thunk_start(d)) {
                Err(e) => Err(e),
                Ok(funcs) => prepend(
                    seq![ImportView { name: str_at(data, secs, d.name as u64), funcs }],
                    import_walk(data, secs, (addr + 20) as u64),
                ),
            }
        }
    }
}

pub open spec fn imports_of(data: Seq<u8>, secs: Seq<SectionView>, nt: ImageNtHeaders64) -> Result<Seq<ImportView>, PeError> {
    let dir = nt.optional_header.data_directory[1];
    if dir.virtual_address == 0 || dir.size == 0 {
        Ok(Seq::empty())
    } else {
        import_walk(data, secs, dir.virtual_address as u64)
    }
}

/// The outcome of decoding `data` as an image.
pub open spec fn decode(data: Seq<u8>) -> Result<ImageView, PeError> {
    let dos = dos_of(data);
    let nt = nt_of(data);
    if !in_bounds(data, 0, 64) {
        Err(PeError::UnexpectedEof)
    } else if dos.e_magic != DOS_MAGIC {
        Err(PeError::BadDosMagic)
    } else if !(0 <= nt_offset(data) && in_bounds(data, nt_offset(data), 264)) {
        Err(PeError::UnexpectedEof)
    } else if nt.signature != NT_SIGNATURE {
        Err(PeError::BadNtSignature)
    } else if !sections_readable(data) {
        Err(PeError::UnexpectedEof)
    } else {
        let secs = sections_of(data);
        if !exports_readable(data, secs, nt) {
            Err(PeError::UnexpectedEof)
        } else {
            match imports_of(data, secs, nt) {
                Err(e) => Err(e),
                Ok(imports) => Ok(ImageView {
                    dos,
                    nt,
                    secs,
                    exports: exports_of(data, secs, nt),
                    imports,
                }),
            }
        }
    }
}

} // verus!

verus! {

/// Decoding depends on the source bytes alone: two decodes of the same bytes
/// either fail with the same error or give equal images.
pub proof fn lemma_decode_deterministic(a: Seq<u8>, b: Seq<u8>)
    requires
        a == b,
    ensures
        decode(a) == decode(b),
{
}

/// A source of at least a DOS header's length whose first two bytes are not
/// "MZ" is rejected for its magic, whatever follows; no table is consulted.
pub proof fn lemma_bad_dos_magic_rejected(data: Seq<u8>)
    requires
        data.len() >= 64,
        !(data[0] == 0x4D && data[1] == 0x5A),
    ensures
        decode(data) == Err::<ImageView, PeError>(PeError::BadDosMagic),
{
    let s = data.subrange(0, 2);
    lemma_le_value_2(s);
    assert(dos_of(data).e_magic == (s[0] + 256 * s[1]) as u16);
}

/// A source shorter than a DOS header fails to decode.
pub proof fn lemma_short_source_rejected(data: Seq<u8>)
    requires
        data.len() < 64,
    ensures
        decode(data) == Err::<ImageView, PeError>(PeError::UnexpectedEof),
{
}

} // verus!

verus! {

proof fn lemma_first_exists(s: Seq<u16>, k: u16, j: int)
    requires
        0 <= j < s.len(),
        s[j] == k,
    ensures
        exists|f: int| is_first(s, k, f),
    decreases j,
{
    if exists|jj: int| 0 <= jj < j && s[jj] == k {
        let jj = choose|jj: int| 0 <= jj < j && s[jj] == k;
        lemma_first_exists(s, k, jj);
    } else {
        assert(is_first(s, k, j));
    }
}

/// The export list holds one entry per function table index. Entry `i`
/// carries the ordinal base + `i` (kept to 16 bits), and has a name exactly
/// when `i` fits in 16 bits and some name ordinal equals it.
pub proof fn lemma_exports_shape(data: Seq<u8>, secs: Seq<SectionView>, nt: ImageNtHeaders64, i: int)
    requires
        exports_present(nt),
        0 <= i < export_ctx(data, secs, nt).edir.number_of_functions,
    ensures
        exports_of(data, secs, nt).len() == export_ctx(data, secs, nt).edir.number_of_functions,
        exports_of(data, secs, nt)[i].ord == ((export_ctx(data, secs, nt).edir.base + i) % 0x1_0000) as u16,
        exports_of(data, secs, nt)[i].name is Some <==> (i <= 0xFFFF && exists|j: int|
            0 <= j < name_ords(export_ctx(data, secs, nt)).len()
                && name_ords(export_ctx(data, secs, nt))[j] == i as u16),
{
    let c = export_ctx(data, secs, nt);
    let ords = name_ords(c);
    if i <= 0xFFFF && exists|j: int| 0 <= j < ords.len() && ords[j] == i as u16 {
        let j = choose|j: int| 0 <= j < ords.len() && ords[j] == i as u16;
        lemma_first_exists(ords, i as u16, j);
    }
}

proof fn lemma_dot_index_prefix(m: Seq<u8>, rest: Seq<u8>)
    requires
        forall|k: int| 0 <= k < m.len() ==> m[k] != 0x2E,
        rest.len() > 0,
        rest[0] == 0x2E,
    ensures
        dot_index(m + rest) == m.len(),
    decreases m.len(),
{
    if m.len() > 0 {
        assert((m + rest).drop_first() =~= m.drop_first() + rest);
        lemma_dot_index_prefix(m.drop_first(), rest);
    } else {
        assert(m + rest =~= rest);
    }
}

/// A forwarder string "module.function" whose module part has no '.' is
/// split at that '.': the module gets ".dll" appended and the function is
/// the rest.
pub proof fn lemma_forwarder_split(m: Seq<u8>, f: Seq<u8>)
    requires
        forall|k: int| 0 <= k < m.len() ==> m[k] != 0x2E,
    ensures
        forwarder_of(m + seq![0x2Eu8] + f)
            == ExportAddrView::Forwarded(utf8_lossy(m) + dll_suffix(), utf8_lossy(f)),
{
    let s = m + seq![0x2Eu8] + f;
    assert(s =~= m + (seq![0x2Eu8] + f));
    lemma_dot_index_prefix(m, seq![0x2Eu8] + f);
    assert(s.take(m.len() as int) =~= m);
    assert(s.skip(m.len() as int + 1) =~= f);
}

/// A descriptor whose name field is zero ends the import walk and adds no
/// module.
pub proof fn lemma_zero_name_descriptor_ends_walk(data: Seq<u8>, secs: Seq<SectionView>, addr: u64)
    requires
        in_bounds(data, spec_translate(secs, addr) as int, 20),
        ImageImportDescriptor::spec_read(data, spec_translate(secs, addr) as int).name == 0,
    ensures
        import_walk(data, secs, addr) == Ok::<Seq<ImportView>, PeError>(Seq::empty()),
{
}

/// A thunk with bit 63 set names an import by the ordinal in its low 16 bits;
/// any other non-zero thunk names it by the string two bytes past its value.
pub proof fn lemma_thunk_classified(data: Seq<u8>, secs: Seq<SectionView>, e: u64)
    requires
        e != 0,
    ensures
        e >= 0x8000_0000_0000_0000 ==> thunk_func(data, secs, e) == ImportFuncView::ByOrd((e % 0x1_0000) as u16),
        e < 0x8000_0000_0000_0000 ==> thunk_func(data, secs, e) == ImportFuncView::ByName(
            str_at(data, secs, (e + 2) as u64),
        ),
{
}

} // verus!
