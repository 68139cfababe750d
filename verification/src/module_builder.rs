use vstd::prelude::*;

use crate::builtin_func::{lemma_index_of_first_at, lemma_index_of_first_none, BuiltinFunc};
use crate::env::Import;
use crate::wasmtypes::{
    chunk_views, encode_string, function_body, section_from_chunks, section_from_values, spec_function_body,
    spec_section_from_chunks, spec_section_from_values, spec_uleb128, spec_vector, unsigned_leb128, vector,
    numtype_bytes, ExportType, FuncTypeSignature, Numtype, Opcode, SectionType,
};
use vstd::string::StringSliceAdditionalSpecFns;
use vstd::string::StringExecFns;
use vstd::utf8::encode_utf8;

verus! {

/// A value to be exported.
struct Export {
    name: String,
    idx: u32,
    export_type: ExportType,
}

/// The entry of the export section for a name, an index and a kind.
pub open spec fn spec_export(name: Seq<char>, idx: u32, kind: ExportType) -> Seq<u8> {
    spec_vector(encode_utf8(name)) + seq![kind.spec_byte()] + spec_uleb128(idx as nat)
}

impl Export {
    fn new(name: String, idx: u32, export_type: ExportType) -> (e: Export)
        ensures
            e.name@ == name@,
            e.idx == idx,
            e.export_type == export_type,
    {
        Export { name, idx, export_type }
    }

    fn as_export(&self) -> (result: Vec<u8>)
        ensures
            result@ == spec_export(self.name@, self.idx, self.export_type),
    {
        let mut result = encode_string(self.name.as_str());
        result.push(self.export_type.to_byte());
        let mut idx = unsigned_leb128(self.idx);
        result.append(&mut idx);
        result
    }
}

/// A passive data segment: bytes that are not placed in memory when the
/// module starts.
struct DataSegment {
    data: Vec<u8>,
}

/// The entry of the data section for a passive segment.
pub open spec fn spec_data_segment(data: Seq<u8>) -> Seq<u8> {
    seq![0x01u8] + spec_uleb128((data.len() as u32) as nat) + data
}

impl DataSegment {
    fn new(data: Vec<u8>) -> (d: DataSegment)
        ensures
            d.data@ == data@,
    {
        DataSegment { data }
    }

    fn to_bytes(&self) -> (result: Vec<u8>)
        ensures
            result@ == spec_data_segment(self.data@),
    {
        let mut result: Vec<u8> = Vec::new();
        result.push(0x01);
        let mut len = unsigned_leb128(self.data.len() as u32);
        result.append(&mut len);
        let mut i: usize = 0;
        let ghost head = result@;
        while i < self.data.len()
            invariant
                0 <= i <= self.data@.len(),
                result@ == head + self.data@.take(i as int),
            decreases self.data@.len() - i,
        {
            result.push(self.data[i]);
            assert(self.data@.take(i + 1) =~= self.data@.take(i as int).push(self.data@[i as int]));
            i = i + 1;
        }
        assert(self.data@.take(self.data@.len() as int) =~= self.data@);
        result
    }
}

/// A global variable: its type, whether it can be set, and its initial value.
pub struct Global {
    numtype: Numtype,
    mutable: bool,
    initial_value: u32,
}

/// The entry of the global section: type, mutability, and the constant
/// expression of the initial value.
pub open spec fn spec_global(numtype: Numtype, mutable: bool, initial_value: u32) -> Seq<u8> {
    seq![numtype.spec_byte(), if mutable { 1u8 } else { 0u8 }, numtype.spec_const_op().spec_byte()]
        + spec_uleb128(initial_value as nat) + seq![Opcode::End.spec_byte()]
}

impl Global {
    pub closed spec fn numtype(&self) -> Numtype {
        self.numtype
    }

    pub closed spec fn mutable(&self) -> bool {
        self.mutable
    }

    pub closed spec fn initial_value(&self) -> u32 {
        self.initial_value
    }

    /// The bytes of the global's entry.
    pub open spec fn spec_bytes(&self) -> Seq<u8> {
        spec_global(self.numtype(), self.mutable(), self.initial_value())
    }

    /// A global holds a value, so its type is a value type.
    pub fn new(numtype: Numtype, mutable: bool, initial_value: u32) -> (g: Global)
        requires
            numtype != Numtype::Void,
        ensures
            g.numtype() == numtype,
            g.mutable() == mutable,
            g.initial_value() == initial_value,
    {
        Global { numtype, mutable, initial_value }
    }

    fn to_bytes(&self) -> (result: Vec<u8>)
        requires
            self.numtype() != Numtype::Void,
        ensures
            result@ == self.spec_bytes(),
    {
        let mut result: Vec<u8> = Vec::new();
        result.push(self.numtype.to_byte());
        result.push(if self.mutable { 1u8 } else { 0u8 });
        result.push(self.numtype.const_op().to_byte());
        let mut init = unsigned_leb128(self.initial_value);
        result.append(&mut init);
        result.push(Opcode::End.to_byte());
        result
    }
}

/// What tells two signatures apart: their argument and result types.
pub open spec fn sig_key(s: FuncTypeSignature) -> (Seq<Numtype>, Option<Numtype>) {
    (s.args@, s.ret)
}

pub open spec fn sig_keys(sigs: Seq<FuncTypeSignature>) -> Seq<(Seq<Numtype>, Option<Numtype>)> {
    sigs.map_values(|s: FuncTypeSignature| sig_key(s))
}

/// The signatures known after looking each of `keys` up in turn, starting
/// from `known`: every one not known yet is added at the end.
pub open spec fn registered_keys(
    known: Seq<(Seq<Numtype>, Option<Numtype>)>,
    keys: Seq<(Seq<Numtype>, Option<Numtype>)>,
) -> Seq<(Seq<Numtype>, Option<Numtype>)>
    decreases keys.len(),
{
    if keys.len() == 0 {
        known
    } else {
        ModuleBuilder::spec_functype_idx(registered_keys(known, keys.drop_last()), keys.last()).1
    }
}

/// The entry of the element section that puts function `i` in the table.
pub open spec fn spec_elem_segment(i: int, n_imports: int) -> Seq<u8> {
    seq![0x00u8, Opcode::I32Const.spec_byte()] + spec_uleb128((i as u32) as nat) + seq![
        Opcode::End.spec_byte(),
        0x01u8,
    ] + spec_uleb128(((i + n_imports) as u32) as nat)
}

/// The entry of the import section for an import of the given signature
/// index.
pub open spec fn spec_import(module: Seq<char>, field: Seq<char>, ftype: u32) -> Seq<u8> {
    spec_vector(encode_utf8(module)) + spec_vector(encode_utf8(field)) + seq![0x00u8] + spec_uleb128(
        ftype as nat,
    )
}

/// Collects the parts of a WebAssembly module and writes it in the binary
/// format.
pub struct ModuleBuilder {
    /// The type signatures, each at most once.
    pub functypes: Vec<FuncTypeSignature>,
    /// For each defined function, the index of its signature.
    pub funcs: Vec<u32>,
    /// For each defined function, its body.
    pub func_bodies: Vec<Vec<u8>>,
    exports: Vec<Export>,
    data_segments: Vec<DataSegment>,
    globals: Vec<Global>,
    /// The entries of the import section.
    pub imports: Vec<Vec<u8>>,
}

impl ModuleBuilder {
    /// The signatures, by argument and result types.
    pub closed spec fn functype_keys(&self) -> Seq<(Seq<Numtype>, Option<Numtype>)> {
        sig_keys(self.functypes@)
    }

    /// The signature index of each defined function.
    pub closed spec fn funcs_view(&self) -> Seq<u32> {
        self.funcs@
    }

    /// The body of each defined function.
    pub closed spec fn bodies_view(&self) -> Seq<Seq<u8>> {
        chunk_views(self.func_bodies@)
    }

    /// The entries of the import section.
    pub closed spec fn imports_view(&self) -> Seq<Seq<u8>> {
        chunk_views(self.imports@)
    }

    /// The exports, as names, indices and kinds.
    pub closed spec fn exports_view(&self) -> Seq<(Seq<char>, u32, ExportType)> {
        self.exports@.map_values(|e: Export| (e.name@, e.idx, e.export_type))
    }

    /// The passive data segments.
    pub closed spec fn data_view(&self) -> Seq<Seq<u8>> {
        self.data_segments@.map_values(|d: DataSegment| d.data@)
    }

    /// The globals, as types, mutability and initial values.
    pub closed spec fn globals_view(&self) -> Seq<(Numtype, bool, u32)> {
        self.globals@.map_values(|g: Global| (g.numtype, g.mutable, g.initial_value))
    }

    /// Every index fits in 32 bits, each signature and each data segment
    /// occurs once, every function has a body, and every global holds a
    /// value.
    pub closed spec fn wf(&self) -> bool {
        &&& sig_keys(self.functypes@).no_duplicates()
        &&& self.functypes@.len() <= u32::MAX
        &&& self.funcs@.len() == self.func_bodies@.len()
        &&& self.imports@.len() + self.funcs@.len() <= u32::MAX
        &&& self.data_view().no_duplicates()
        &&& self.data_view().len() <= u32::MAX
        &&& self.globals_view().len() <= u32::MAX
        &&& forall|i: int| 0 <= i < self.globals_view().len() ==> (#[trigger] self.globals_view()[i]).0 != Numtype::Void
    }

    /// Everything but the signatures is as in `other`.
    pub closed spec fn same_but_types(&self, other: &ModuleBuilder) -> bool {
        &&& self.funcs@ == other.funcs@
        &&& chunk_views(self.func_bodies@) == chunk_views(other.func_bodies@)
        &&& self.exports_view() == other.exports_view()
        &&& self.data_view() == other.data_view()
        &&& self.globals_view() == other.globals_view()
        &&& chunk_views(self.imports@) == chunk_views(other.imports@)
    }

    /// The index of a signature after it is looked up, and the signatures
    /// after the lookup: an equal signature that is there already, or else a
    /// new last one.
    pub open spec fn spec_functype_idx(
        keys: Seq<(Seq<Numtype>, Option<Numtype>)>,
        key: (Seq<Numtype>, Option<Numtype>),
    ) -> (int, Seq<(Seq<Numtype>, Option<Numtype>)>) {
        match keys.index_of_first(key) {
            Option::Some(i) => (i, keys),
            Option::None => (keys.len() as int, keys.push(key)),
        }
    }

    pub closed spec fn spec_type_section(&self) -> Seq<u8> {
        spec_section_from_chunks(
            SectionType::Type,
            self.functypes@.map_values(|s: FuncTypeSignature| s.spec_functype()),
        )
    }

    pub closed spec fn spec_table_section(&self) -> Seq<u8> {
        spec_section_from_chunks(
            SectionType::Table,
            seq![seq![0x70u8, 0x00u8] + spec_uleb128((self.funcs@.len() as u32) as nat)],
        )
    }

    pub closed spec fn spec_memory_section(&self) -> Seq<u8> {
        spec_section_from_chunks(SectionType::Memory, seq![seq![0x00u8, 0x01u8]])
    }

    pub closed spec fn spec_global_section(&self) -> Seq<u8> {
        spec_section_from_chunks(
            SectionType::Global,
            self.globals_view().map_values(|g: (Numtype, bool, u32)| spec_global(g.0, g.1, g.2)),
        )
    }

    pub closed spec fn spec_export_section(&self) -> Seq<u8> {
        spec_section_from_chunks(
            SectionType::Export,
            self.exports_view().map_values(|e: (Seq<char>, u32, ExportType)| spec_export(e.0, e.1, e.2)),
        )
    }

    pub closed spec fn spec_elem_section(&self) -> Seq<u8> {
        spec_section_from_chunks(
            SectionType::Element,
            Seq::new(self.funcs@.len(), |i: int| spec_elem_segment(i, self.imports@.len() as int)),
        )
    }

    pub closed spec fn spec_data_count_section(&self) -> Seq<u8> {
        seq![SectionType::DataCount.spec_byte()] + spec_vector(
            spec_uleb128((self.data_view().len() as u32) as nat),
        )
    }

    pub closed spec fn spec_data_section(&self) -> Seq<u8> {
        spec_section_from_chunks(
            SectionType::Data,
            self.data_view().map_values(|d: Seq<u8>| spec_data_segment(d)),
        )
    }

    pub closed spec fn spec_import_section(&self) -> Seq<u8> {
        spec_section_from_chunks(SectionType::Import, chunk_views(self.imports@))
    }

    pub closed spec fn spec_function_section(&self) -> Seq<u8> {
        spec_section_from_values(SectionType::Function, self.funcs@)
    }

    pub closed spec fn spec_code_section(&self) -> Seq<u8> {
        spec_section_from_chunks(SectionType::Code, chunk_views(self.func_bodies@))
    }

    /// The module in the binary format: the magic number and version, then
    /// the sections in the order the format asks for, with the data count
    /// before the code.
    pub closed spec fn spec_program(&self) -> Seq<u8> {
        seq![0x00u8, 0x61u8, 0x73u8, 0x6du8] + seq![0x01u8, 0x00u8, 0x00u8, 0x00u8] + self.spec_sections()
    }

    /// The sections of the module, in the order the binary format wants them.
    #[verifier::opaque]
    pub closed spec fn spec_sections(&self) -> Seq<u8> {
        self.spec_type_section()
            + spec_section_from_chunks(SectionType::Import, chunk_views(self.imports@))
            + spec_section_from_values(SectionType::Function, self.funcs@) + self.spec_table_section()
            + self.spec_memory_section() + self.spec_global_section() + self.spec_export_section()
            + self.spec_elem_section() + self.spec_data_count_section()
            + spec_section_from_chunks(SectionType::Code, chunk_views(self.func_bodies@))
            + self.spec_data_section()
    }
}

/// Whether two byte vectors hold the same bytes.
fn same_bytes(a: &Vec<u8>, b: &Vec<u8>) -> (r: bool)
    ensures
        r == (a@ == b@),
{
    if a.len() != b.len() {
        return false;
    }
    let mut i: usize = 0;
    while i < a.len()
        invariant
            a@.len() == b@.len(),
            0 <= i <= a@.len(),
            forall|j: int| 0 <= j < i ==> a@[j] == b@[j],
        decreases a@.len() - i,
    {
        if a[i] != b[i] {
            return false;
        }
        i = i + 1;
    }
    assert(a@ =~= b@);
    true
}

impl ModuleBuilder {
    /// The index of a signature, adding it as a new last signature when no
    /// equal one is there.
    pub fn get_functype_idx(&mut self, ftype: &FuncTypeSignature) -> (r: u32)
        requires
            old(self).wf(),
            old(self).functype_keys().len() < u32::MAX,
        ensures
            final(self).wf(),
            final(self).same_but_types(old(self)),
            (r as int, final(self).functype_keys()) == Self::spec_functype_idx(
                old(self).functype_keys(),
                sig_key(*ftype),
            ),
            r < final(self).functype_keys().len(),
            final(self).functype_keys()[r as int] == sig_key(*ftype),
            old(self).functype_keys().no_duplicates(),
            final(self).functype_keys().no_duplicates(),
    {
        let ghost keys = sig_keys(self.functypes@);
        let mut i: usize = 0;
        while i < self.functypes.len()
            invariant
                self.wf(),
                *self == *old(self),
                keys == sig_keys(self.functypes@),
                0 <= i <= self.functypes@.len(),
                forall|j: int| 0 <= j < i ==> keys[j] != sig_key(*ftype),
            decreases self.functypes@.len() - i,
        {
            if self.functypes[i].same_as(ftype) {
                proof {
                    lemma_index_of_first_at(keys, sig_key(*ftype), i as int);
                }
                return i as u32;
            }
            i = i + 1;
        }
        proof {
            lemma_index_of_first_none(keys, sig_key(*ftype));
        }
        let copy = ftype.duplicate();
        self.functypes.push(copy);
        proof {
            assert(sig_keys(self.functypes@) =~= keys.push(sig_key(*ftype)));
            assert forall|a: int, b: int|
                0 <= a < b < sig_keys(self.functypes@).len() implies sig_keys(self.functypes@)[a] != sig_keys(
                self.functypes@,
            )[b] by {
                if b == keys.len() {
                    assert(keys[a] != sig_key(*ftype));
                } else {
                    assert(keys[a] != keys[b]);
                }
            }
        }
        (self.functypes.len() - 1) as u32
    }

    /// Adds a function with its signature, local types and code, exported
    /// under a name when one is given, and returns its index, which counts
    /// the imports first.
    pub fn add_function(
        &mut self,
        sig: &FuncTypeSignature,
        local_types: Vec<u8>,
        code: Vec<u8>,
        export_name: Option<String>,
    ) -> (r: Result<u32, String>)
        requires
            old(self).wf(),
            old(self).functype_keys().len() < u32::MAX,
        ensures
            final(self).wf(),
            final(self).functype_keys() == Self::spec_functype_idx(old(self).functype_keys(), sig_key(*sig)).1,
            final(self).imports_view() == old(self).imports_view(),
            final(self).data_view() == old(self).data_view(),
            final(self).globals_view() == old(self).globals_view(),
            old(self).imports_view().len() + old(self).funcs_view().len() == u32::MAX ==> {
                &&& r is Err && r->Err_0@ == "too many functions"@
                &&& final(self).funcs_view() == old(self).funcs_view()
                &&& final(self).bodies_view() == old(self).bodies_view()
                &&& final(self).exports_view() == old(self).exports_view()
            },
            old(self).imports_view().len() + old(self).funcs_view().len() < u32::MAX ==> {
                let idx = (old(self).imports_view().len() + old(self).funcs_view().len()) as u32;
                let ftype = Self::spec_functype_idx(old(self).functype_keys(), sig_key(*sig)).0 as u32;
                &&& r == Ok::<u32, String>(idx)
                &&& final(self).funcs_view() == old(self).funcs_view().push(ftype)
                &&& final(self).bodies_view() == old(self).bodies_view().push(
                    spec_function_body(local_types@, code@),
                )
                &&& final(self).exports_view() == match export_name {
                    Option::Some(name) => old(self).exports_view().push((name@, idx, ExportType::Func)),
                    Option::None => old(self).exports_view(),
                }
            },
    {
        let ftype = self.get_functype_idx(sig);
        let func_idx = (self.imports.len() + self.funcs.len()) as u32;
        if func_idx == u32::MAX {
            return Err(String::from_str("too many functions"));
        }
        self.funcs.push(ftype);
        let body = function_body(local_types, code);
        let ghost bodies = self.func_bodies@;
        self.func_bodies.push(body);
        assert(chunk_views(self.func_bodies@) =~= chunk_views(bodies).push(body@));
        match export_name {
            Option::Some(name) => {
                let ghost exports = self.exports@;
                self.exports.push(Export::new(name, func_idx, ExportType::Func));
                assert(self.exports_view() =~= exports.map_values(
                    |e: Export| (e.name@, e.idx, e.export_type),
                ).push((name@, func_idx, ExportType::Func)));
            },
            Option::None => {},
        }
        Ok(func_idx)
    }

    /// The index of a passive data segment with the given bytes, adding one
    /// as the new last segment when none holds them.
    pub fn add_data(&mut self, data: Vec<u8>) -> (r: Result<u32, String>)
        requires
            old(self).wf(),
        ensures
            final(self).wf(),
            final(self).functype_keys() == old(self).functype_keys(),
            final(self).funcs_view() == old(self).funcs_view(),
            final(self).bodies_view() == old(self).bodies_view(),
            final(self).exports_view() == old(self).exports_view(),
            final(self).globals_view() == old(self).globals_view(),
            final(self).imports_view() == old(self).imports_view(),
            match old(self).data_view().index_of_first(data@) {
                Option::Some(i) => r == Ok::<u32, String>(i as u32) && final(self).data_view() == old(
                    self,
                ).data_view(),
                Option::None => if old(self).data_view().len() == u32::MAX {
                    r is Err && r->Err_0@ == "too many data segments"@ && *final(self) == *old(self)
                } else {
                    r == Ok::<u32, String>(old(self).data_view().len() as u32) && final(self).data_view()
                        == old(self).data_view().push(data@)
                },
            },
    {
        let ghost segs = self.data_view();
        let mut i: usize = 0;
        while i < self.data_segments.len()
            invariant
                self.wf(),
                *self == *old(self),
                segs == self.data_view(),
                0 <= i <= segs.len(),
                forall|j: int| 0 <= j < i ==> segs[j] != data@,
            decreases segs.len() - i,
        {
            if same_bytes(&self.data_segments[i].data, &data) {
                proof {
                    assert(segs[i as int] == data@);
                    lemma_index_of_first_at(segs, data@, i as int);
                }
                return Ok(i as u32);
            }
            i = i + 1;
        }
        proof {
            lemma_index_of_first_none(segs, data@);
        }
        let idx = self.data_segments.len() as u32;
        if idx == u32::MAX {
            return Err(String::from_str("too many data segments"));
        }
        let ghost old_segs = self.data_segments@;
        self.data_segments.push(DataSegment::new(data));
        proof {
            assert(self.data_view() =~= segs.push(data@));
            assert forall|a: int, b: int|
                0 <= a < b < self.data_view().len() implies self.data_view()[a] != self.data_view()[b] by {
                if b == segs.len() {
                    assert(segs[a] != data@);
                } else {
                    assert(segs[a] != segs[b]);
                }
            }
        }
        Ok(idx)
    }

    /// Adds an import of a function and returns its index among the imports.
    pub fn add_import(&mut self, import: &Import) -> (r: u32)
        requires
            old(self).wf(),
            old(self).functype_keys().len() < u32::MAX,
            old(self).imports_view().len() + old(self).funcs_view().len() < u32::MAX,
        ensures
            final(self).wf(),
            final(self).functype_keys() == Self::spec_functype_idx(old(self).functype_keys(), sig_key(import.sig)).1,
            final(self).imports_view() == old(self).imports_view().push(
                spec_import(
                    import.module@,
                    import.field@,
                    Self::spec_functype_idx(old(self).functype_keys(), sig_key(import.sig)).0 as u32,
                ),
            ),
            r == old(self).imports_view().len(),
            final(self).funcs_view() == old(self).funcs_view(),
            final(self).bodies_view() == old(self).bodies_view(),
            final(self).exports_view() == old(self).exports_view(),
            final(self).data_view() == old(self).data_view(),
            final(self).globals_view() == old(self).globals_view(),
    {
        let mut bytes = encode_string(import.module);
        let mut field = encode_string(import.field);
        let ftype = self.get_functype_idx(&import.sig);
        let mut ftype_bytes = unsigned_leb128(ftype);
        bytes.append(&mut field);
        bytes.push(0x00);
        bytes.append(&mut ftype_bytes);
        assert(bytes@ =~= spec_import(import.module@, import.field@, ftype));
        let ghost imports = self.imports@;
        self.imports.push(bytes);
        assert(chunk_views(self.imports@) =~= chunk_views(imports).push(bytes@));
        (self.imports.len() - 1) as u32
    }

    /// Adds a builtin function, not exported.
    pub fn add_builtin(&mut self, func: &BuiltinFunc) -> (r: Result<u32, String>)
        requires
            old(self).wf(),
            old(self).functype_keys().len() < u32::MAX,
        ensures
            final(self).wf(),
            final(self).functype_keys() == Self::spec_functype_idx(
                old(self).functype_keys(),
                (func.sig_args(), func.sig_ret()),
            ).1,
            final(self).imports_view() == old(self).imports_view(),
            final(self).data_view() == old(self).data_view(),
            final(self).globals_view() == old(self).globals_view(),
            final(self).exports_view() == old(self).exports_view(),
            old(self).imports_view().len() + old(self).funcs_view().len() == u32::MAX ==> {
                &&& r is Err && r->Err_0@ == "too many functions"@
                &&& final(self).funcs_view() == old(self).funcs_view()
                &&& final(self).bodies_view() == old(self).bodies_view()
            },
            old(self).imports_view().len() + old(self).funcs_view().len() < u32::MAX ==> {
                &&& r == Ok::<u32, String>((old(self).imports_view().len() + old(self).funcs_view().len()) as u32)
                &&& final(self).funcs_view() == old(self).funcs_view().push(
                    Self::spec_functype_idx(old(self).functype_keys(), (func.sig_args(), func.sig_ret())).0 as u32,
                )
                &&& final(self).bodies_view() == old(self).bodies_view().push(
                    spec_function_body(numtype_bytes(func.spec_local_types()), func.code()),
                )
            },
    {
        let code = vstd::slice::slice_to_vec(func.get_bytes());
        self.add_function(func.get_signature(), func.get_local_types(), code, Option::None)
    }

    /// The number of defined functions.
    pub fn n_funcs(&self) -> (n: usize)
        ensures
            n == self.funcs_view().len(),
    {
        self.funcs.len()
    }

    /// The number of imports.
    pub fn n_imports(&self) -> (n: usize)
        ensures
            n == self.imports_view().len(),
    {
        self.imports.len()
    }

    /// Adds a global and returns its index.
    pub fn add_global(&mut self, global: Global) -> (r: u32)
        requires
            old(self).wf(),
            old(self).globals_view().len() < u32::MAX,
            global.numtype() != Numtype::Void,
        ensures
            final(self).wf(),
            final(self).globals_view() == old(self).globals_view().push(
                (global.numtype(), global.mutable(), global.initial_value()),
            ),
            r == old(self).globals_view().len(),
            final(self).functype_keys() == old(self).functype_keys(),
            final(self).funcs_view() == old(self).funcs_view(),
            final(self).bodies_view() == old(self).bodies_view(),
            final(self).exports_view() == old(self).exports_view(),
            final(self).data_view() == old(self).data_view(),
            final(self).imports_view() == old(self).imports_view(),
    {
        let ghost globals = self.globals@;
        self.globals.push(global);
        assert(self.globals_view() =~= globals.map_values(
            |g: Global| (g.numtype, g.mutable, g.initial_value),
        ).push((global.numtype, global.mutable, global.initial_value)));
        (self.globals.len() - 1) as u32
    }
}

impl ModuleBuilder {
    fn type_section(&self) -> (r: Vec<u8>)
        ensures
            r@ == self.spec_type_section(),
    {
        let ghost entries = self.functypes@.map_values(|s: FuncTypeSignature| s.spec_functype());
        let mut chunks: Vec<Vec<u8>> = Vec::new();
        let mut i: usize = 0;
        while i < self.functypes.len()
            invariant
                0 <= i <= self.functypes@.len(),
                entries == self.functypes@.map_values(|s: FuncTypeSignature| s.spec_functype()),
                chunk_views(chunks@) == entries.take(i as int),
            decreases self.functypes@.len() - i,
        {
            let c = self.functypes[i].as_functype();
            let ghost prev = chunks@;
            chunks.push(c);
            assert(chunk_views(chunks@) =~= chunk_views(prev).push(c@));
            assert(entries.take(i + 1) =~= entries.take(i as int).push(entries[i as int]));
            i = i + 1;
        }
        assert(entries.take(self.functypes@.len() as int) =~= entries);
        section_from_chunks(SectionType::Type, chunks.as_slice())
    }

    fn import_section(&self) -> (r: Vec<u8>)
        ensures
            r@ == spec_section_from_chunks(SectionType::Import, chunk_views(self.imports@)),
    {
        section_from_chunks(SectionType::Import, self.imports.as_slice())
    }

    fn func_section(&self) -> (r: Vec<u8>)
        ensures
            r@ == spec_section_from_values(SectionType::Function, self.funcs@),
    {
        section_from_values(SectionType::Function, self.funcs.as_slice())
    }

    /// The function table: function references, with room for at least as
    /// many as there are defined functions (limits flag 0: a minimum and no
    /// maximum), the count in unsigned LEB128.
    fn table_section(&self) -> (r: Vec<u8>)
        ensures
            r@ == self.spec_table_section(),
    {
        let mut entry: Vec<u8> = Vec::new();
        entry.push(0x70);
        entry.push(0x00);
        let mut n_funcs = unsigned_leb128(self.funcs.len() as u32);
        entry.append(&mut n_funcs);
        assert(entry@ =~= seq![0x70u8, 0x00u8] + spec_uleb128((self.funcs@.len() as u32) as nat));
        let mut chunks: Vec<Vec<u8>> = Vec::new();
        chunks.push(entry);
        assert(chunk_views(chunks@) =~= seq![entry@]);
        section_from_chunks(SectionType::Table, chunks.as_slice())
    }

    /// One memory, starting at one page, with no maximum.
    fn memory_section(&self) -> (r: Vec<u8>)
        ensures
            r@ == self.spec_memory_section(),
    {
        let mut entry: Vec<u8> = Vec::new();
        entry.push(0x00);
        entry.push(0x01);
        assert(entry@ =~= seq![0x00u8, 0x01u8]);
        let mut chunks: Vec<Vec<u8>> = Vec::new();
        chunks.push(entry);
        assert(chunk_views(chunks@) =~= seq![entry@]);
        section_from_chunks(SectionType::Memory, chunks.as_slice())
    }

    fn global_section(&self) -> (r: Vec<u8>)
        requires
            self.wf(),
        ensures
            r@ == self.spec_global_section(),
    {
        let ghost entries = self.globals_view().map_values(|g: (Numtype, bool, u32)| spec_global(g.0, g.1, g.2));
        let mut chunks: Vec<Vec<u8>> = Vec::new();
        let mut i: usize = 0;
        while i < self.globals.len()
            invariant
                self.wf(),
                0 <= i <= self.globals@.len(),
                entries == self.globals_view().map_values(|g: (Numtype, bool, u32)| spec_global(g.0, g.1, g.2)),
                chunk_views(chunks@) == entries.take(i as int),
            decreases self.globals@.len() - i,
        {
            assert(self.globals_view()[i as int].0 != Numtype::Void);
            let c = self.globals[i].to_bytes();
            let ghost prev = chunks@;
            chunks.push(c);
            assert(chunk_views(chunks@) =~= chunk_views(prev).push(c@));
            assert(entries.take(i + 1) =~= entries.take(i as int).push(entries[i as int]));
            i = i + 1;
        }
        assert(entries.take(self.globals@.len() as int) =~= entries);
        section_from_chunks(SectionType::Global, chunks.as_slice())
    }

    fn export_section(&self) -> (r: Vec<u8>)
        ensures
            r@ == self.spec_export_section(),
    {
        let ghost entries = self.exports_view().map_values(
            |e: (Seq<char>, u32, ExportType)| spec_export(e.0, e.1, e.2),
        );
        let mut chunks: Vec<Vec<u8>> = Vec::new();
        let mut i: usize = 0;
        while i < self.exports.len()
            invariant
                0 <= i <= self.exports@.len(),
                entries == self.exports_view().map_values(
                    |e: (Seq<char>, u32, ExportType)| spec_export(e.0, e.1, e.2),
                ),
                chunk_views(chunks@) == entries.take(i as int),
            decreases self.exports@.len() - i,
        {
            let c = self.exports[i].as_export();
            let ghost prev = chunks@;
            chunks.push(c);
            assert(chunk_views(chunks@) =~= chunk_views(prev).push(c@));
            assert(entries.take(i + 1) =~= entries.take(i as int).push(entries[i as int]));
            i = i + 1;
        }
        assert(entries.take(self.exports@.len() as int) =~= entries);
        section_from_chunks(SectionType::Export, chunks.as_slice())
    }

    /// One element segment per defined function, putting it in the table at
    /// its position among the defined functions.
    fn elem_section(&self) -> (r: Vec<u8>)
        requires
            self.wf(),
        ensures
            r@ == self.spec_elem_section(),
    {
        let ghost entries = Seq::new(
            self.funcs@.len(),
            |i: int| spec_elem_segment(i, self.imports@.len() as int),
        );
        let mut chunks: Vec<Vec<u8>> = Vec::new();
        let mut i: usize = 0;
        while i < self.funcs.len()
            invariant
                self.wf(),
                0 <= i <= self.funcs@.len(),
                entries == Seq::new(self.funcs@.len(), |i: int| spec_elem_segment(i, self.imports@.len() as int)),
                chunk_views(chunks@) == entries.take(i as int),
            decreases self.funcs@.len() - i,
        {
            let mut c: Vec<u8> = Vec::new();
            c.push(0x00);
            c.push(Opcode::I32Const.to_byte());
            let mut pos = unsigned_leb128(i as u32);
            c.append(&mut pos);
            c.push(Opcode::End.to_byte());
            c.push(0x01);
            let mut idx = unsigned_leb128((i + self.imports.len()) as u32);
            c.append(&mut idx);
            assert(c@ =~= spec_elem_segment(i as int, self.imports@.len() as int));
            let ghost prev = chunks@;
            chunks.push(c);
            assert(chunk_views(chunks@) =~= chunk_views(prev).push(c@));
            assert(entries.take(i + 1) =~= entries.take(i as int).push(entries[i as int]));
            i = i + 1;
        }
        assert(entries.take(self.funcs@.len() as int) =~= entries);
        section_from_chunks(SectionType::Element, chunks.as_slice())
    }

    fn code_section(&self) -> (r: Vec<u8>)
        ensures
            r@ == spec_section_from_chunks(SectionType::Code, chunk_views(self.func_bodies@)),
    {
        section_from_chunks(SectionType::Code, self.func_bodies.as_slice())
    }

    fn data_section(&self) -> (r: Vec<u8>)
        ensures
            r@ == self.spec_data_section(),
    {
        let ghost entries = self.data_view().map_values(|d: Seq<u8>| spec_data_segment(d));
        let mut chunks: Vec<Vec<u8>> = Vec::new();
        let mut i: usize = 0;
        while i < self.data_segments.len()
            invariant
                0 <= i <= self.data_segments@.len(),
                entries == self.data_view().map_values(|d: Seq<u8>| spec_data_segment(d)),
                chunk_views(chunks@) == entries.take(i as int),
            decreases self.data_segments@.len() - i,
        {
            let c = self.data_segments[i].to_bytes();
            let ghost prev = chunks@;
            chunks.push(c);
            assert(chunk_views(chunks@) =~= chunk_views(prev).push(c@));
            assert(entries.take(i + 1) =~= entries.take(i as int).push(entries[i as int]));
            i = i + 1;
        }
        assert(entries.take(self.data_segments@.len() as int) =~= entries);
        section_from_chunks(SectionType::Data, chunks.as_slice())
    }

    fn data_count_section(&self) -> (r: Vec<u8>)
        ensures
            r@ == self.spec_data_count_section(),
    {
        let mut bytes: Vec<u8> = Vec::new();
        bytes.push(SectionType::DataCount.to_byte());
        let mut count = vector(unsigned_leb128(self.data_segments.len() as u32));
        bytes.append(&mut count);
        bytes
    }

    /// The module in the binary format.
    pub fn program(&self) -> (r: Vec<u8>)
        requires
            self.wf(),
        ensures
            r@ == self.spec_program(),
    {
        let mut result: Vec<u8> = Vec::new();
        result.push(0x00);
        result.push(0x61);
        result.push(0x73);
        result.push(0x6d);
        result.push(0x01);
        result.push(0x00);
        result.push(0x00);
        result.push(0x00);
        let ghost head = result@;
        let mut body = self.type_section();
        let mut s2 = self.import_section();
        body.append(&mut s2);
        let mut s3 = self.func_section();
        body.append(&mut s3);
        let mut s4 = self.table_section();
        body.append(&mut s4);
        let mut s5 = self.memory_section();
        body.append(&mut s5);
        let mut s6 = self.global_section();
        body.append(&mut s6);
        let mut s7 = self.export_section();
        body.append(&mut s7);
        let mut s8 = self.elem_section();
        body.append(&mut s8);
        let mut s9 = self.data_count_section();
        body.append(&mut s9);
        let mut s10 = self.code_section();
        body.append(&mut s10);
        let mut s11 = self.data_section();
        body.append(&mut s11);
        assert(body@ == self.spec_sections()) by {
            reveal(ModuleBuilder::spec_sections);
        }
        result.append(&mut body);
        assert(head =~= seq![0x00u8, 0x61u8, 0x73u8, 0x6du8] + seq![0x01u8, 0x00u8, 0x00u8, 0x00u8]);
        result
    }
}

/// Every module begins with the magic number of the binary format and its
/// version, 1.
pub proof fn law_program_header(m: ModuleBuilder)
    ensures
        m.spec_program().len() >= 8,
        m.spec_program().take(8) == seq![0x00u8, 0x61u8, 0x73u8, 0x6du8, 0x01u8, 0x00u8, 0x00u8, 0x00u8],
{
    let head = seq![0x00u8, 0x61u8, 0x73u8, 0x6du8] + seq![0x01u8, 0x00u8, 0x00u8, 0x00u8];
    assert(m.spec_program().take(8) =~= head);
}

/// A module is its header followed by its sections in the order the binary
/// format asks for: types, imports, functions, table, memory, globals,
/// exports, elements, data count, code and data.
pub proof fn law_program_sections(m: ModuleBuilder)
    ensures
        m.spec_program() == seq![0x00u8, 0x61u8, 0x73u8, 0x6du8, 0x01u8, 0x00u8, 0x00u8, 0x00u8]
            + m.spec_type_section()
            + m.spec_import_section()
            + m.spec_function_section()
            + m.spec_table_section()
            + m.spec_memory_section()
            + m.spec_global_section()
            + m.spec_export_section()
            + m.spec_elem_section()
            + m.spec_data_count_section()
            + m.spec_code_section()
            + m.spec_data_section(),
{
    reveal(ModuleBuilder::spec_sections);
    let head = seq![0x00u8, 0x61u8, 0x73u8, 0x6du8] + seq![0x01u8, 0x00u8, 0x00u8, 0x00u8];
    assert(head =~= seq![0x00u8, 0x61u8, 0x73u8, 0x6du8, 0x01u8, 0x00u8, 0x00u8, 0x00u8]);
    assert(m.spec_program() =~= seq![0x00u8, 0x61u8, 0x73u8, 0x6du8, 0x01u8, 0x00u8, 0x00u8, 0x00u8]
            + m.spec_type_section()
            + m.spec_import_section()
            + m.spec_function_section()
            + m.spec_table_section()
            + m.spec_memory_section()
            + m.spec_global_section()
            + m.spec_export_section()
            + m.spec_elem_section()
            + m.spec_data_count_section()
            + m.spec_code_section()
            + m.spec_data_section());
}

/// Looking a signature up twice gives the same index both times, and the
/// second lookup adds nothing; the signature is then found at that index,
/// and no signature occurs twice.
pub proof fn law_functype_idx_idempotent(
    keys: Seq<(Seq<Numtype>, Option<Numtype>)>,
    key: (Seq<Numtype>, Option<Numtype>),
)
    requires
        keys.no_duplicates(),
    ensures
        ({
            let (i, keys1) = ModuleBuilder::spec_functype_idx(keys, key);
            let (j, keys2) = ModuleBuilder::spec_functype_idx(keys1, key);
            &&& i == j
            &&& keys2 == keys1
            &&& 0 <= i < keys1.len()
            &&& keys1[i] == key
            &&& keys1.no_duplicates()
        }),
{
    keys.index_of_first_ensures(key);
    match keys.index_of_first(key) {
        Option::Some(i) => {},
        Option::None => {
            let keys1 = keys.push(key);
            assert forall|j: int| 0 <= j < keys.len() implies keys1[j] != key by {
                assert(keys[j] != key) by {
                    if keys[j] == key {
                        assert(keys.contains(key));
                    }
                }
            }
            lemma_index_of_first_at(keys1, key, keys.len() as int);
            assert forall|a: int, b: int| 0 <= a < b < keys1.len() implies keys1[a] != keys1[b] by {
                if b == keys.len() {
                    assert(keys1[a] != key);
                }
            }
        },
    }
}

/// Adding the same data twice gives the same segment index both times, and
/// the second addition adds no segment.
pub proof fn law_data_idx_idempotent(segs: Seq<Seq<u8>>, data: Seq<u8>)
    requires
        segs.no_duplicates(),
        segs.len() < u32::MAX,
    ensures
        ({
            let segs1 = match segs.index_of_first(data) {
                Option::Some(i) => segs,
                Option::None => segs.push(data),
            };
            let i = match segs.index_of_first(data) {
                Option::Some(i) => i,
                Option::None => segs.len() as int,
            };
            &&& segs1.index_of_first(data) == Option::Some(i)
            &&& segs1.no_duplicates()
        }),
{
    segs.index_of_first_ensures(data);
    match segs.index_of_first(data) {
        Option::Some(i) => {},
        Option::None => {
            let segs1 = segs.push(data);
            assert forall|j: int| 0 <= j < segs.len() implies segs1[j] != data by {
                if segs[j] == data {
                    assert(segs.contains(data));
                }
            }
            lemma_index_of_first_at(segs1, data, segs.len() as int);
            assert forall|a: int, b: int| 0 <= a < b < segs1.len() implies segs1[a] != segs1[b] by {
                if b == segs.len() {
                    assert(segs1[a] != data);
                }
            }
        },
    }
}

/// A lookup keeps where every signature already there is found, and finds
/// the signature looked up at the index it gives.
pub proof fn lemma_functype_idx_keeps(
    keys: Seq<(Seq<Numtype>, Option<Numtype>)>,
    key: (Seq<Numtype>, Option<Numtype>),
    x: (Seq<Numtype>, Option<Numtype>),
)
    requires
        keys.no_duplicates(),
    ensures
        keys.index_of_first(x) is Some ==> ModuleBuilder::spec_functype_idx(keys, key).1.index_of_first(x)
            == keys.index_of_first(x),
        ModuleBuilder::spec_functype_idx(keys, key).1.index_of_first(key) == Option::Some(
            ModuleBuilder::spec_functype_idx(keys, key).0,
        ),
        ModuleBuilder::spec_functype_idx(keys, key).1.len() <= keys.len() + 1,
        ModuleBuilder::spec_functype_idx(keys, key).1.no_duplicates(),
{
    law_functype_idx_idempotent(keys, key);
    keys.index_of_first_ensures(key);
    keys.index_of_first_ensures(x);
    let (i, keys1) = ModuleBuilder::spec_functype_idx(keys, key);
    lemma_index_of_first_at(keys1, key, i);
    if keys.index_of_first(x) is Some {
        let t = keys.index_of_first(x)->0;
        if keys1 != keys {
            assert(keys1 == keys.push(key));
            assert forall|j: int| 0 <= j < t implies keys1[j] != x by {
                assert(keys[j] != x);
            }
            lemma_index_of_first_at(keys1, x, t);
        }
    }
}

/// What a well-formed module builder keeps: distinct signatures, and indices
/// that fit in 32 bits.
pub proof fn lemma_wf_bounds(m: ModuleBuilder)
    requires
        m.wf(),
    ensures
        m.functype_keys().no_duplicates(),
        m.functype_keys().len() <= u32::MAX,
        m.imports_view().len() + m.funcs_view().len() <= u32::MAX,
        m.funcs_view().len() == m.bodies_view().len(),
{
}

impl Default for ModuleBuilder {
    /// A module that exports its memory and has two mutable globals: the
    /// memory pointer, starting at 0, and the memory size, starting at 1.
    fn default() -> (m: ModuleBuilder)
        ensures
            m.wf(),
            m.functype_keys().len() == 0,
            m.funcs_view().len() == 0,
            m.bodies_view().len() == 0,
            m.imports_view().len() == 0,
            m.exports_view() == seq![("memory"@, 0u32, ExportType::Memory)],
            m.data_view().len() == 0,
            m.globals_view() == seq![(Numtype::I32, true, 0u32), (Numtype::I32, true, 1u32)],
    {
        let mem_export = Export::new(String::from_str("memory"), 0, ExportType::Memory);
        let mut exports: Vec<Export> = Vec::new();
        exports.push(mem_export);
        let mut globals: Vec<Global> = Vec::new();
        globals.push(Global::new(Numtype::I32, true, 0));
        globals.push(Global::new(Numtype::I32, true, 1));
        let m = ModuleBuilder {
            functypes: Vec::new(),
            funcs: Vec::new(),
            func_bodies: Vec::new(),
            exports,
            data_segments: Vec::new(),
            globals,
            imports: Vec::new(),
        };
        assert(m.exports_view() =~= seq![("memory"@, 0u32, ExportType::Memory)]);
        assert(m.globals_view() =~= seq![(Numtype::I32, true, 0u32), (Numtype::I32, true, 1u32)]);
        assert(m.data_view() =~= Seq::<Seq<u8>>::empty());
        assert(sig_keys(m.functypes@) =~= Seq::empty());
        m
    }
}

} // verus!
