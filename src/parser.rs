//! The single decode pass over a byte source.
use vstd::prelude::*;
use crate::byteparse::{Byteparse, ByteparseHelper};
use crate::image::{
    exports_view, funcs_view, imports_view, sections_view, Export, ExportAddr, ImageView, Import,
    ImportFunc, ImportFuncView, ImportView, PortableExecutable, Section, SectionView,
};
use crate::model::{
    cstr_bytes, decode, dll_suffix, dot_index, export_at, export_ctx, export_entry_readable,
    exports_of, exports_present, exports_readable, forwarder_of, import_walk, imports_of, is_first,
    lemma_dot_index_le, lemma_dot_index_step, lemma_is_first_unique, name_ords, name_position,
    nt_of, nt_offset, ords_offset, prepend, section_count, section_header_at, section_of,
    section_table_offset, sections_of, sections_readable, spec_translate, str_at, str_ok, thunk_func,
    thunk_start, thunk_walk, translate_from, ExportCtx, DOS_MAGIC, NT_SIGNATURE,
};
use crate::ordmap::{index_map_entries, index_map_get, index_map_insert_first, index_map_new};
use crate::pe::{
    ImageDosHeader, ImageExportDirectory, ImageImportDescriptor, ImageNtHeaders64, ImageSectionHeader,
};
use crate::stream::{
    in_bounds, lemma_le_value_2, lemma_nul_index_le, lemma_nul_index_step, nul_index, tail_from, PeError,
    PeSource,
};
use crate::text::{decode_lossy, latin1_seq, push_char};
use fnv::FnvHashMap;

verus! {

/// File offset of a virtual address: through the first section (in table
/// order) whose virtual range holds it, else the address itself.
pub fn translate(secs: &[Section], rva: u64) -> (r: u64)
    ensures
        r == spec_translate(sections_view(secs@), rva),
{
    let ghost sv = sections_view(secs@);
    let mut i: usize = 0;
    while i < secs.len()
        invariant
            i <= secs@.len(),
            sv == sections_view(secs@),
            translate_from(sv, rva, 0) == translate_from(sv, rva, i as int),
        decreases secs@.len() - i,
    {
        let s = &secs[i];
        let lo = s.virt_addr as u64;
        let hi = lo + s.virt_len as u64;
        if rva >= lo && rva < hi {
            return rva - lo + s.raw_addr as u64;
        }
        i = i + 1;
    }
    rva
}

/// Copies `b[lo..hi]`.
fn copy_range(b: &Vec<u8>, lo: usize, hi: usize) -> (r: Vec<u8>)
    requires
        lo <= hi <= b@.len(),
    ensures
        r@ == b@.subrange(lo as int, hi as int),
{
    let mut v: Vec<u8> = Vec::new();
    let mut i: usize = lo;
    while i < hi
        invariant
            lo <= i <= hi <= b@.len(),
            v@ == b@.subrange(lo as int, i as int),
        decreases hi - i,
    {
        v.push(b[i]);
        assert(v@ =~= b@.subrange(lo as int, i + 1));
        i = i + 1;
    }
    v
}

/// The section name: the bytes before the first NUL, one character each.
fn section_name(raw: &[u8; 8]) -> (r: String)
    ensures
        r@ == latin1_seq(raw@.take(nul_index(raw@) as int)),
{
    let ghost z = nul_index(raw@);
    let mut s = String::new();
    let mut i: usize = 0;
    while i < 8 && raw[i] != 0
        invariant
            i <= 8,
            raw@.len() == 8,
            z == nul_index(raw@),
            z >= i,
            s@ == latin1_seq(raw@.take(i as int)),
        decreases 8 - i,
    {
        proof { lemma_nul_index_step(raw@, i as nat); }
        push_char(&mut s, raw[i] as char);
        assert(latin1_seq(raw@.take(i + 1)) =~= latin1_seq(raw@.take(i as int)).push(raw@[i as int] as char));
        i = i + 1;
    }
    proof {
        if i < 8 {
            lemma_nul_index_step(raw@, i as nat);
        } else {
            lemma_nul_index_le(raw@);
        }
    }
    s
}

/// Decoder state: the exclusively owned cursor and the sections read so far.
pub struct PortableExecutableParser<S: PeSource> {
    source: S,
    secs: Vec<Section>,
}

impl<S: PeSource> PortableExecutableParser<S> {
    pub closed spec fn data(&self) -> Seq<u8> {
        self.source.bytes()
    }

    pub closed spec fn secs_view(&self) -> Seq<SectionView> {
        sections_view(self.secs@)
    }

    fn conv_rva(&self, rva: u64) -> (r: u64)
        ensures
            r == spec_translate(self.secs_view(), rva),
    {
        translate(self.secs.as_slice(), rva)
    }

    /// Reads a record at a file offset.
    fn at<U: Byteparse + Default>(&mut self, off: u64) -> (r: Result<U, PeError>)
        ensures
            final(self).data() == old(self).data(),
            final(self).secs == old(self).secs,
            r is Ok <==> in_bounds(old(self).data(), off as int, U::byte_len()),
            r matches Ok(v) ==> v == U::spec_read(old(self).data(), off as int),
            r matches Err(e) ==> e == PeError::UnexpectedEof,
    {
        self.source.seek(off);
        self.source.parse()
    }

    /// Reads a record at a virtual address.
    fn at_rva<U: Byteparse + Default>(&mut self, rva: u64) -> (r: Result<U, PeError>)
        ensures
            final(self).data() == old(self).data(),
            final(self).secs == old(self).secs,
            r is Ok <==> in_bounds(old(self).data(), spec_translate(old(self).secs_view(), rva) as int, U::byte_len()),
            r matches Ok(v) ==> v == U::spec_read(old(self).data(), spec_translate(old(self).secs_view(), rva) as int),
            r matches Err(e) ==> e == PeError::UnexpectedEof,
    {
        let off = self.conv_rva(rva);
        self.at(off)
    }

    /// The bytes of the NUL-terminated string at a virtual address.
    fn read_cstr(&mut self, rva: u64) -> (r: Result<Vec<u8>, PeError>)
        ensures
            final(self).data() == old(self).data(),
            final(self).secs == old(self).secs,
            r is Ok <==> str_ok(old(self).data(), old(self).secs_view(), rva),
            r matches Ok(b) ==> b@ == cstr_bytes(old(self).data(), spec_translate(old(self).secs_view(), rva) as int),
            r matches Err(e) ==> e == PeError::UnexpectedEof,
    {
        let off = self.conv_rva(rva);
        self.source.seek(off);
        let mut b = self.source.read_until_nul()?;
        let ghost t = tail_from(self.data(), off as int);
        b.pop();
        assert(b@ =~= t.take(nul_index(t) as int));
        Ok(b)
    }

    /// The NUL-terminated string at a virtual address, decoded permissively.
    fn read_str(&mut self, rva: u64) -> (r: Result<String, PeError>)
        ensures
            final(self).data() == old(self).data(),
            final(self).secs == old(self).secs,
            r is Ok <==> str_ok(old(self).data(), old(self).secs_view(), rva),
            r matches Ok(s) ==> s@ == str_at(old(self).data(), old(self).secs_view(), rva),
            r matches Err(e) ==> e == PeError::UnexpectedEof,
    {
        let b = self.read_cstr(rva)?;
        Ok(decode_lossy(b.as_slice()))
    }

    /// Reads the section table that the NT header declares.
    fn load_sections(&mut self, nt_off: u64, nt: &ImageNtHeaders64) -> (r: Result<(), PeError>)
        requires
            old(self).secs@.len() == 0,
            nt_off == nt_offset(old(self).data()),
            *nt == nt_of(old(self).data()),
            0 <= nt_offset(old(self).data()),
            in_bounds(old(self).data(), nt_offset(old(self).data()), 264),
        ensures
            final(self).data() == old(self).data(),
            r is Ok <==> sections_readable(old(self).data()),
            r is Ok ==> final(self).secs_view() == sections_of(old(self).data()),
            r matches Err(e) ==> e == PeError::UnexpectedEof,
    {
        let ghost d = self.data();
        proof { self.source.lemma_position_range(); }
        let n = nt.file_header.number_of_sections as u64;
        if n == 0 {
            assert(sections_of(d) =~= Seq::<SectionView>::empty());
            return Ok(());
        }
        let table = match nt_off.checked_add(24 + nt.file_header.size_of_optional_header as u64) {
            Some(t) => t,
            None => return Err(PeError::UnexpectedEof),
        };
        let total = self.source.len() as u64;
        if table > total || 40 * n > total - table {
            return Err(PeError::UnexpectedEof);
        }
        let mut secs: Vec<Section> = Vec::new();
        let mut i: u64 = 0;
        while i < n
            invariant
                d == self.data(),
                d == old(self).data(),
                total == d.len(),
                table == section_table_offset(d),
                n == section_count(d),
                i <= n,
                table + 40 * n <= u64::MAX,
                in_bounds(d, table as int, (40 * i) as nat),
                secs@.len() == i,
                sections_view(secs@) =~= sections_of(d).take(i as int),
            decreases n - i,
        {
            let off = table + 40 * i;
            let h: ImageSectionHeader = match self.at(off) {
                Ok(h) => h,
                Err(e) => return Err(e),
            };
            let name = section_name(&h.name);
            let ghost before = secs@;
            secs.push(Section {
                name,
                virt_addr: h.virtual_address,
                virt_len: h.virtual_size,
                raw_addr: h.pointer_to_raw_data,
                raw_len: h.size_of_raw_data,
                flags: h.characteristics,
            });
            proof {
                assert(h == section_header_at(d, i as int));
                assert(secs@[i as int]@ == section_of(h));
                assert(secs@ == before.push(secs@[i as int]));
                assert(sections_view(secs@) =~= sections_of(d).take(i + 1));
            }
            i = i + 1;
        }
        assert(sections_of(d).take(n as int) =~= sections_of(d));
        self.secs = secs;
        Ok(())
    }
}

impl<S: PeSource> PortableExecutableParser<S> {
    /// The export address of a forwarder string at `rva`: split once on '.',
    /// with ".dll" appended to the module part when there was a '.'.
    fn read_forwarder(&mut self, rva: u64) -> (r: Result<ExportAddr, PeError>)
        ensures
            final(self).data() == old(self).data(),
            final(self).secs == old(self).secs,
            r is Ok <==> str_ok(old(self).data(), old(self).secs_view(), rva),
            r matches Ok(a) ==> a@ == forwarder_of(
                cstr_bytes(old(self).data(), spec_translate(old(self).secs_view(), rva) as int),
            ),
            r matches Err(e) ==> e == PeError::UnexpectedEof,
    {
        let b = self.read_cstr(rva)?;
        let mut k: usize = 0;
        while k < b.len() && b[k] != 0x2E
            invariant
                k <= b@.len(),
                dot_index(b@) >= k,
            decreases b@.len() - k,
        {
            proof { lemma_dot_index_step(b@, k as nat); }
            k = k + 1;
        }
        proof {
            if k < b@.len() {
                lemma_dot_index_step(b@, k as nat);
            } else {
                lemma_dot_index_le(b@);
            }
        }
        if k < b.len() {
            let m = copy_range(&b, 0, k);
            let f = copy_range(&b, k + 1, b.len());
            let mut module = decode_lossy(m.as_slice());
            module.append(".dll");
            proof {
                reveal_strlit(".dll");
                assert(".dll"@ =~= dll_suffix());
                assert(m@ =~= b@.take(k as int));
                assert(f@ =~= b@.skip(k + 1));
            }
            Ok(ExportAddr::Forwarded((module, decode_lossy(f.as_slice()))))
        } else {
            Ok(ExportAddr::Forwarded((decode_lossy(b.as_slice()), String::new())))
        }
    }

    /// Reads the name ordinals array in one piece and maps each table index
    /// to the first name table position that refers to it.
    fn read_name_ordinals(&mut self, export: &ImageExportDirectory, Ghost(c): Ghost<ExportCtx>)
        -> (r: Result<FnvHashMap<u16, u64>, PeError>)
        requires
            c.data == old(self).data(),
            c.secs == old(self).secs_view(),
            c.edir == *export,
        ensures
            final(self).data() == old(self).data(),
            final(self).secs == old(self).secs,
            r is Ok <==> in_bounds(c.data, ords_offset(c), 2 * export.number_of_names as nat),
            r matches Ok(m) ==> forall|k: u16| #[trigger] index_map_entries(m).contains_key(k)
                ==> is_first(name_ords(c), k, index_map_entries(m)[k] as int),
            r matches Ok(m) ==> forall|j: int| 0 <= j < name_ords(c).len()
                ==> index_map_entries(m).contains_key(#[trigger] name_ords(c)[j]),
            r matches Err(e) ==> e == PeError::UnexpectedEof,
    {
        let off = self.conv_rva(export.address_of_name_ordinals as u64);
        self.source.seek(off);
        let n = export.number_of_names as u64;
        let buf = self.source.read_exact(n * 2)?;
        let ghost ords = name_ords(c);
        let mut m = index_map_new();
        let mut j: u64 = 0;
        while j < n
            invariant
                ords == name_ords(c),
                ords.len() == n,
                buf@.len() == 2 * n,
                n > 0 ==> buf@ == c.data.subrange(off as int, off + 2 * n),
                n > 0 ==> off + 2 * n <= c.data.len(),
                off == ords_offset(c),
                j <= n,
                forall|k: u16| #[trigger] index_map_entries(m).contains_key(k)
                    ==> index_map_entries(m)[k] < j && is_first(ords, k, index_map_entries(m)[k] as int),
                forall|jj: int| 0 <= jj < j ==> index_map_entries(m).contains_key(#[trigger] ords[jj]),
            decreases n - j,
        {
            let lo = buf[(2 * j) as usize];
            let hi = buf[(2 * j + 1) as usize];
            let key = lo as u16 + hi as u16 * 256;
            proof {
                let s = c.data.subrange(off + 2 * j, off + 2 * j + 2);
                assert(s =~= buf@.subrange(2 * j, 2 * j + 2));
                lemma_le_value_2(s);
                assert(ords[j as int] == key);
                if !index_map_entries(m).contains_key(key) {
                    assert forall|jj: int| 0 <= jj < j implies ords[jj] != key by {
                        if ords[jj] == key {
                            assert(index_map_entries(m).contains_key(ords[jj]));
                        }
                    }
                }
            }
            index_map_insert_first(&mut m, key, j);
            j = j + 1;
        }
        Ok(m)
    }

    /// Decodes the export table that the first data directory names.
    #[verifier::rlimit(60)]
    fn load_exports(&mut self, nt: &ImageNtHeaders64) -> (r: Result<Vec<Export>, PeError>)
        ensures
            final(self).data() == old(self).data(),
            final(self).secs == old(self).secs,
            r is Ok <==> exports_readable(old(self).data(), old(self).secs_view(), *nt),
            r matches Ok(v) ==> exports_view(v@) == exports_of(old(self).data(), old(self).secs_view(), *nt),
            r matches Err(e) ==> e == PeError::UnexpectedEof,
    {
        let ghost d = self.data();
        let ghost sv = self.secs_view();
        let ghost c = export_ctx(d, sv, *nt);
        let dir = nt.optional_header.data_directory[0];
        let dir_rva = dir.virtual_address as u64;
        let dir_len = dir.size as u64;
        if dir_rva == 0 || dir_len == 0 {
            let v: Vec<Export> = Vec::new();
            assert(exports_view(v@) =~= exports_of(d, sv, *nt));
            return Ok(v);
        }
        let export: ImageExportDirectory = self.at_rva(dir_rva)?;
        let names = export.address_of_names as u64;
        let funcs = export.address_of_functions as u64;
        let name_ords_map = self.read_name_ordinals(&export, Ghost(c))?;
        let nf = export.number_of_functions as u64;
        let mut out: Vec<Export> = Vec::new();
        let mut i: u64 = 0;
        while i < nf
            invariant
                d == self.data(),
                d == old(self).data(),
                sv == self.secs_view(),
                sv == old(self).secs_view(),
                self.secs == old(self).secs,
                c == export_ctx(d, sv, *nt),
                exports_present(*nt),
                export == c.edir,
                names == export.address_of_names,
                funcs == export.address_of_functions,
                nf == export.number_of_functions,
                dir_rva == c.dir_rva,
                dir_len == c.dir_len,
                i <= nf,
                forall|k: u16| #[trigger] index_map_entries(name_ords_map).contains_key(k)
                    ==> is_first(name_ords(c), k, index_map_entries(name_ords_map)[k] as int),
                forall|j: int| 0 <= j < name_ords(c).len()
                    ==> index_map_entries(name_ords_map).contains_key(#[trigger] name_ords(c)[j]),
                out@.len() == i,
                forall|k: int| 0 <= k < i ==> (#[trigger] out@[k])@ == export_at(c, k),
                forall|k: int| 0 <= k < i ==> export_entry_readable(c, k),
            decreases nf - i,
        {
            let key = (i % 0x1_0000) as u16;
            let found = if i <= 0xFFFF {
                index_map_get(&name_ords_map, key)
            } else {
                None
            };
            proof {
                let ords = name_ords(c);
                assert(i <= 0xFFFF ==> key == i as u16);
                match found {
                    Some(ni) => {
                        let w = choose|j: int| is_first(ords, key, j);
                        lemma_is_first_unique(ords, key, w, ni as int);
                        assert(name_position(ords, i as int) == Some(ni as int));
                    },
                    None => {
                        if i <= 0xFFFF {
                            assert(!exists|j: int| is_first(ords, key, j));
                        }
                        assert(name_position(ords, i as int) is None);
                    },
                }
            }
            let name = match found {
                Some(ni) => {
                    let name_rva: u32 = match self.at_rva(names + ni * 4) {
                        Ok(v) => v,
                        Err(e) => {
                            assert(!export_entry_readable(c, i as int));
                            return Err(e);
                        },
                    };
                    match self.read_str(name_rva as u64) {
                        Ok(n) => Some(n),
                        Err(e) => {
                            assert(!export_entry_readable(c, i as int));
                            return Err(e);
                        },
                    }
                },
                None => None,
            };
            let func: u32 = match self.at_rva(funcs + i * 4) {
                Ok(v) => v,
                Err(e) => {
                    assert(!export_entry_readable(c, i as int));
                    return Err(e);
                },
            };
            let func = func as u64;
            let addr = if func >= dir_rva && func < dir_rva + dir_len {
                match self.read_forwarder(func) {
                    Ok(a) => a,
                    Err(e) => {
                        assert(!export_entry_readable(c, i as int));
                        return Err(e);
                    },
                }
            } else {
                ExportAddr::Rva(func)
            };
            let ord = ((export.base as u64 + i) % 0x1_0000) as u16;
            let e = Export { name, addr, ord };
            assert(e@ == export_at(c, i as int));
            out.push(e);
            i = i + 1;
        }
        assert(exports_view(out@) =~= exports_of(d, sv, *nt));
        Ok(out)
    }
}

impl<S: PeSource> PortableExecutableParser<S> {
    /// Walks the thunk table at `start` up to its zero entry.
    fn load_thunks(&mut self, start: u64) -> (r: Result<Vec<ImportFunc>, PeError>)
        ensures
            final(self).data() == old(self).data(),
            final(self).secs == old(self).secs,
            match r {
                Ok(v) => thunk_walk(old(self).data(), old(self).secs_view(), start) == Ok::<_, PeError>(funcs_view(v@)),
                Err(e) => thunk_walk(old(self).data(), old(self).secs_view(), start) == Err::<Seq<ImportFuncView>, PeError>(e),
            },
    {
        let ghost d = self.data();
        let ghost sv = self.secs_view();
        let mut acc: Vec<ImportFunc> = Vec::new();
        let mut addr = start;
        assert(funcs_view(acc@) =~= Seq::empty());
        assert(prepend(Seq::empty(), thunk_walk(d, sv, start)) =~= thunk_walk(d, sv, start)) by {
            match thunk_walk(d, sv, start) {
                Ok(w) => assert(Seq::<ImportFuncView>::empty() + w =~= w),
                Err(_) => {},
            }
        }
        loop
            invariant
                d == self.data(),
                d == old(self).data(),
                sv == self.secs_view(),
                sv == old(self).secs_view(),
                self.secs == old(self).secs,
                thunk_walk(d, sv, start) == prepend(funcs_view(acc@), thunk_walk(d, sv, addr)),
            decreases u64::MAX - addr,
        {
            let entry: u64 = match self.at_rva(addr) {
                Ok(v) => v,
                Err(e) => return Err(e),
            };
            if entry == 0 {
                assert(funcs_view(acc@) + Seq::empty() =~= funcs_view(acc@));
                return Ok(acc);
            }
            if addr > u64::MAX - 8 {
                return Err(PeError::UnexpectedEof);
            }
            let f = if entry >= 0x8000_0000_0000_0000 {
                ImportFunc::ByOrd((entry % 0x1_0000) as u16)
            } else {
                ImportFunc::ByName(self.read_str(entry + 2)?)
            };
            assert(f@ == thunk_func(d, sv, entry));
            let ghost before = acc@;
            acc.push(f);
            proof {
                assert(funcs_view(acc@) =~= funcs_view(before).push(f@));
                match thunk_walk(d, sv, (addr + 8) as u64) {
                    Ok(w) => {
                        assert(funcs_view(before) + (seq![f@] + w) =~= funcs_view(acc@) + w);
                    },
                    Err(_) => {},
                }
            }
            addr = addr + 8;
        }
    }

    /// Decodes the import table that the second data directory names.
    fn load_imports(&mut self, nt: &ImageNtHeaders64) -> (r: Result<Vec<Import>, PeError>)
        ensures
            final(self).data() == old(self).data(),
            final(self).secs == old(self).secs,
            match r {
                Ok(v) => imports_of(old(self).data(), old(self).secs_view(), *nt) == Ok::<_, PeError>(imports_view(v@)),
                Err(e) => imports_of(old(self).data(), old(self).secs_view(), *nt) == Err::<Seq<ImportView>, PeError>(e),
            },
    {
        let ghost d = self.data();
        let ghost sv = self.secs_view();
        let dir = nt.optional_header.data_directory[1];
        let mut acc: Vec<Import> = Vec::new();
        assert(imports_view(acc@) =~= Seq::empty());
        if dir.virtual_address == 0 || dir.size == 0 {
            return Ok(acc);
        }
        let start = dir.virtual_address as u64;
        let mut addr = start;
        assert(prepend(Seq::empty(), import_walk(d, sv, start)) =~= import_walk(d, sv, start)) by {
            match import_walk(d, sv, start) {
                Ok(w) => assert(Seq::<ImportView>::empty() + w =~= w),
                Err(_) => {},
            }
        }
        loop
            invariant
                d == self.data(),
                d == old(self).data(),
                sv == self.secs_view(),
                sv == old(self).secs_view(),
                self.secs == old(self).secs,
                imports_of(d, sv, *nt) == import_walk(d, sv, start),
                import_walk(d, sv, start) == prepend(imports_view(acc@), import_walk(d, sv, addr)),
            decreases u64::MAX - addr,
        {
            let desc: ImageImportDescriptor = match self.at_rva(addr) {
                Ok(v) => v,
                Err(e) => return Err(e),
            };
            if desc.name == 0 {
                assert(imports_view(acc@) + Seq::empty() =~= imports_view(acc@));
                return Ok(acc);
            }
            if addr > u64::MAX - 20 {
                return Err(PeError::UnexpectedEof);
            }
            let name = self.read_str(desc.name as u64)?;
            let lookup = if desc.original_first_thunk == 0 {
                desc.first_thunk as u64
            } else {
                desc.original_first_thunk as u64
            };
            assert(lookup == thunk_start(desc));
            let funcs = match self.load_thunks(lookup) {
                Ok(v) => v,
                Err(e) => return Err(e),
            };
            let module = Import { name, funcs };
            let ghost before = acc@;
            acc.push(module);
            proof {
                assert(imports_view(acc@) =~= imports_view(before).push(acc@.last()@));
                match import_walk(d, sv, (addr + 20) as u64) {
                    Ok(w) => {
                        assert(imports_view(before) + (seq![acc@.last()@] + w) =~= imports_view(acc@) + w);
                    },
                    Err(_) => {},
                }
            }
            addr = addr + 20;
        }
    }

    /// Reads and checks the headers, then the section, export and import tables.
    fn parse_self(self) -> (r: Result<PortableExecutable, PeError>)
        requires
            self.secs@.len() == 0,
        ensures
            match r {
                Ok(pe) => decode(self.data()) == Ok::<_, PeError>(pe@),
                Err(e) => decode(self.data()) == Err::<ImageView, _>(e),
            },
    {
        let ghost d = self.data();
        let mut p = self;
        let dos: ImageDosHeader = p.at(0)?;
        if dos.e_magic != DOS_MAGIC {
            return Err(PeError::BadDosMagic);
        }
        if dos.e_lfanew < 0 {
            return Err(PeError::UnexpectedEof);
        }
        let nt_off = dos.e_lfanew as u64;
        let nt: ImageNtHeaders64 = p.at(nt_off)?;
        if nt.signature != NT_SIGNATURE {
            return Err(PeError::BadNtSignature);
        }
        p.load_sections(nt_off, &nt)?;
        let exports = p.load_exports(&nt)?;
        let imports = p.load_imports(&nt)?;
        Ok(PortableExecutable::new(dos, nt, p.secs, exports, imports))
    }

    /// Decodes an image from its bytes in one pass.
    pub fn parse(source: S) -> (r: Result<PortableExecutable, PeError>)
        ensures
            match r {
                Ok(pe) => decode(source.bytes()) == Ok::<_, PeError>(pe@),
                Err(e) => decode(source.bytes()) == Err::<ImageView, _>(e),
            },
    {
        let parser = PortableExecutableParser { source, secs: Vec::new() };
        parser.parse_self()
    }
}

impl PortableExecutable {
    /// Decodes an image from its bytes: the headers are checked before any
    /// table is read, and any failure leaves no partial image.
    pub fn parse<S: PeSource>(source: S) -> (r: Result<PortableExecutable, PeError>)
        ensures
            match r {
                Ok(pe) => decode(source.bytes()) == Ok::<_, PeError>(pe@),
                Err(e) => decode(source.bytes()) == Err::<ImageView, _>(e),
            },
    {
        PortableExecutableParser::parse(source)
    }
}

} // verus!
