//! The decoded image and its parts, with their mathematical views.
use vstd::prelude::*;
use crate::pe::{ImageDosHeader, ImageNtHeaders64};

verus! {

/// Where an export leads: a direct address, or another module's export
/// given as (module, function).
pub enum ExportAddr {
    Rva(u64),
    Forwarded((String, String)),
}

/// One imported function: by name or by ordinal.
pub enum ImportFunc {
    ByName(String),
    ByOrd(u16),
}

/// One exported function.
pub struct Export {
    pub name: Option<String>,
    pub addr: ExportAddr,
    pub ord: u16,
}

/// One imported module with its functions in thunk table order.
pub struct Import {
    pub name: String,
    pub funcs: Vec<ImportFunc>,
}

/// One section of the image.
pub struct Section {
    pub name: String,
    pub virt_addr: u32,
    pub virt_len: u32,
    pub raw_addr: u32,
    pub raw_len: u32,
    pub flags: u32,
}

/// A decoded image; read-only once built.
pub struct PortableExecutable {
    dos: ImageDosHeader,
    nt: ImageNtHeaders64,
    secs: Vec<Section>,
    exports: Vec<Export>,
    imports: Vec<Import>,
}

/// What an export leads to, over strings as character sequences.
pub enum ExportAddrView {
    Rva(u64),
    Forwarded(Seq<char>, Seq<char>),
}

/// An export as a value.
pub struct ExportView {
    pub name: Option<Seq<char>>,
    pub addr: ExportAddrView,
    pub ord: u16,
}

/// An imported function as a value.
pub enum ImportFuncView {
    ByName(Seq<char>),
    ByOrd(u16),
}

/// An imported module as a value.
pub struct ImportView {
    pub name: Seq<char>,
    pub funcs: Seq<ImportFuncView>,
}

/// A section as a value.
pub struct SectionView {
    pub name: Seq<char>,
    pub virt_addr: u32,
    pub virt_len: u32,
    pub raw_addr: u32,
    pub raw_len: u32,
    pub flags: u32,
}

/// A decoded image as a value: its headers and its three tables.
pub struct ImageView {
    pub dos: ImageDosHeader,
    pub nt: ImageNtHeaders64,
    pub secs: Seq<SectionView>,
    pub exports: Seq<ExportView>,
    pub imports: Seq<ImportView>,
}

impl View for ExportAddr {
    type V = ExportAddrView;

    open spec fn view(&self) -> ExportAddrView {
        match self {
            ExportAddr::Rva(a) => ExportAddrView::Rva(*a),
            ExportAddr::Forwarded((m, f)) => ExportAddrView::Forwarded(m@, f@),
        }
    }
}

impl View for Export {
    type V = ExportView;

    open spec fn view(&self) -> ExportView {
        ExportView {
            name: match self.name {
                Some(s) => Some(s@),
                None => None,
            },
            addr: self.addr@,
            ord: self.ord,
        }
    }
}

impl View for ImportFunc {
    type V = ImportFuncView;

    open spec fn view(&self) -> ImportFuncView {
        match self {
            ImportFunc::ByName(s) => ImportFuncView::ByName(s@),
            ImportFunc::ByOrd(o) => ImportFuncView::ByOrd(*o),
        }
    }
}

pub open spec fn funcs_view(v: Seq<ImportFunc>) -> Seq<ImportFuncView> {
    v.map_values(|f: ImportFunc| f@)
}

impl View for Import {
    type V = ImportView;

    open spec fn view(&self) -> ImportView {
        ImportView { name: self.name@, funcs: funcs_view(self.funcs@) }
    }
}

impl View for Section {
    type V = SectionView;

    open spec fn view(&self) -> SectionView {
        SectionView {
            name: self.name@,
            virt_addr: self.virt_addr,
            virt_len: self.virt_len,
            raw_addr: self.raw_addr,
            raw_len: self.raw_len,
            flags: self.flags,
        }
    }
}

pub open spec fn sections_view(v: Seq<Section>) -> Seq<SectionView> {
    v.map_values(|s: Section| s@)
}

pub open spec fn exports_view(v: Seq<Export>) -> Seq<ExportView> {
    v.map_values(|e: Export| e@)
}

pub open spec fn imports_view(v: Seq<Import>) -> Seq<ImportView> {
    v.map_values(|i: Import| i@)
}

impl View for PortableExecutable {
    type V = ImageView;

    closed spec fn view(&self) -> ImageView {
        ImageView {
            dos: self.dos,
            nt: self.nt,
            secs: sections_view(self.secs@),
            exports: exports_view(self.exports@),
            imports: imports_view(self.imports@),
        }
    }
}

impl PortableExecutable {
    pub(crate) fn new(
        dos: ImageDosHeader,
        nt: ImageNtHeaders64,
        secs: Vec<Section>,
        exports: Vec<Export>,
        imports: Vec<Import>,
    ) -> (r: PortableExecutable)
        ensures
            r@ == (ImageView {
                dos,
                nt,
                secs: sections_view(secs@),
                exports: exports_view(exports@),
                imports: imports_view(imports@),
            }),
    {
        PortableExecutable { dos, nt, secs, exports, imports }
    }

    /// The imported modules, in directory order.
    pub fn imports(&self) -> (r: &[Import])
        ensures
            imports_view(r@) == self@.imports,
    {
        self.imports.as_slice()
    }

    /// The exports, one per function table index.
    pub fn exports(&self) -> (r: &[Export])
        ensures
            exports_view(r@) == self@.exports,
    {
        self.exports.as_slice()
    }

    /// The sections, in table order.
    pub fn sections(&self) -> (r: &[Section])
        ensures
            sections_view(r@) == self@.secs,
    {
        self.secs.as_slice()
    }

    pub fn nt_header(&self) -> (r: &ImageNtHeaders64)
        ensures
            *r == self@.nt,
    {
        &self.nt
    }

    pub fn dos_header(&self) -> (r: &ImageDosHeader)
        ensures
            *r == self@.dos,
    {
        &self.dos
    }
}

} // verus!
