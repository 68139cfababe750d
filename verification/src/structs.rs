use vstd::prelude::*;

use crate::ast::Type;
use crate::wasmtypes::{Numtype};

verus! {

/// A field of a struct in linear memory: its type and where it starts.
#[derive(Clone, Copy, Debug)]
pub struct StructField {
    pub nt: Numtype,
    pub offset: u32,
}

/// The memory layout of a struct: named fields one after another.
pub struct Struct {
    pub fields: Vec<(String, StructField)>,
    pub size: u32,
}

/// Total size of values of the given types laid out one after another.
pub open spec fn sizes_sum(ts: Seq<Numtype>) -> nat
    decreases ts.len(),
{
    if ts.len() == 0 {
        0
    } else {
        sizes_sum(ts.drop_last()) + ts.last().spec_size() as nat
    }
}

/// The layout of the given fields: each field starts where the one before it
/// ends, and the struct's size is the total of the field sizes.
pub open spec fn is_layout(s: Struct, names: Seq<String>, types: Seq<Numtype>) -> bool {
    &&& s.fields@.len() == names.len() == types.len()
    &&& forall|i: int|
        0 <= i < names.len() ==> {
            &&& (#[trigger] s.fields@[i]).0 == names[i]
            &&& s.fields@[i].1.nt == types[i]
            &&& s.fields@[i].1.offset == sizes_sum(types.take(i))
        }
    &&& s.size == sizes_sum(types)
}

proof fn lemma_sizes_sum_mono(ts: Seq<Numtype>, i: int)
    requires
        0 <= i <= ts.len(),
    ensures
        sizes_sum(ts.take(i)) <= sizes_sum(ts),
    decreases ts.len() - i,
{
    if i < ts.len() {
        lemma_sizes_sum_mono(ts, i + 1);
        assert(ts.take(i + 1).drop_last() =~= ts.take(i));
    } else {
        assert(ts.take(i) =~= ts);
    }
}

impl Struct {
    /// Lays out fields of the given names and types.
    pub fn new(field_names_and_types: Vec<(String, Numtype)>) -> (s: Struct)
        requires
            sizes_sum(field_names_and_types@.map_values(|f: (String, Numtype)| f.1)) <= u32::MAX,
        ensures
            is_layout(
                s,
                field_names_and_types@.map_values(|f: (String, Numtype)| f.0),
                field_names_and_types@.map_values(|f: (String, Numtype)| f.1),
            ),
    {
        let ghost all = field_names_and_types@;
        let mut names: Vec<String> = Vec::new();
        let mut types: Vec<Numtype> = Vec::new();
        let mut i: usize = 0;
        while i < field_names_and_types.len()
            invariant
                0 <= i <= all.len(),
                all == field_names_and_types@,
                names@ == all.take(i as int).map_values(|f: (String, Numtype)| f.0),
                types@ == all.take(i as int).map_values(|f: (String, Numtype)| f.1),
            decreases all.len() - i,
        {
            names.push(field_names_and_types[i].0.clone());
            types.push(field_names_and_types[i].1);
            assert(names@ =~= all.take(i + 1).map_values(|f: (String, Numtype)| f.0));
            assert(types@ =~= all.take(i + 1).map_values(|f: (String, Numtype)| f.1));
            i = i + 1;
        }
        assert(all.take(i as int) =~= all);
        Self::layout(names, types)
    }

    /// Lays out fields of the given language types, each of which must have a
    /// value type.
    pub fn from_ast_types(field_names_and_types: Vec<(String, Type)>) -> (s: Struct)
        requires
            forall|i: int|
                0 <= i < field_names_and_types@.len() ==> #[trigger] Numtype::spec_from_ast_type(
                    field_names_and_types@[i].1,
                ) is Some,
            sizes_sum(
                field_names_and_types@.map_values(
                    |f: (String, Type)| Numtype::spec_from_ast_type(f.1)->0,
                ),
            ) <= u32::MAX,
        ensures
            is_layout(
                s,
                field_names_and_types@.map_values(|f: (String, Type)| f.0),
                field_names_and_types@.map_values(|f: (String, Type)| Numtype::spec_from_ast_type(f.1)->0),
            ),
    {
        let ghost all = field_names_and_types@;
        let mut names: Vec<String> = Vec::new();
        let mut types: Vec<Numtype> = Vec::new();
        let mut i: usize = 0;
        while i < field_names_and_types.len()
            invariant
                0 <= i <= all.len(),
                all == field_names_and_types@,
                forall|k: int| 0 <= k < all.len() ==> #[trigger] Numtype::spec_from_ast_type(all[k].1) is Some,
                names@ == all.take(i as int).map_values(|f: (String, Type)| f.0),
                types@ == all.take(i as int).map_values(|f: (String, Type)| Numtype::spec_from_ast_type(f.1)->0),
            decreases all.len() - i,
        {
            let nt = match Numtype::from_ast_type(&field_names_and_types[i].1) {
                Ok(nt) => nt,
                Err(_) => {
                    assert(Numtype::spec_from_ast_type(all[i as int].1) is Some);
                    Numtype::I32
                },
            };
            names.push(field_names_and_types[i].0.clone());
            types.push(nt);
            assert(names@ =~= all.take(i + 1).map_values(|f: (String, Type)| f.0));
            assert(types@ =~= all.take(i + 1).map_values(|f: (String, Type)| Numtype::spec_from_ast_type(f.1)->0));
            i = i + 1;
        }
        assert(all.take(i as int) =~= all);
        Self::layout(names, types)
    }

    /// Places the fields one after another from offset zero.
    fn layout(names: Vec<String>, types: Vec<Numtype>) -> (s: Struct)
        requires
            names@.len() == types@.len(),
            sizes_sum(types@) <= u32::MAX,
        ensures
            is_layout(s, names@, types@),
    {
        let ghost all_names = names@;
        let mut offset: u32 = 0;
        let mut fields: Vec<(String, StructField)> = Vec::new();
        let count = types.len();
        while fields.len() < count
            invariant
                count == types@.len() == all_names.len(),
                all_names == names@,
                fields@.len() <= count,
                sizes_sum(types@) <= u32::MAX,
                offset == sizes_sum(types@.take(fields@.len() as int)),
                forall|i: int|
                    0 <= i < fields@.len() ==> {
                        &&& (#[trigger] fields@[i]).0 == all_names[i]
                        &&& fields@[i].1.nt == types@[i]
                        &&& fields@[i].1.offset == sizes_sum(types@.take(i))
                    },
            decreases count - fields@.len(),
        {
            let ghost i = fields@.len() as int;
            let n = names[fields.len()].clone();
            let nt = types[fields.len()];
            proof {
                assert(types@.take(i + 1).drop_last() =~= types@.take(i));
                lemma_sizes_sum_mono(types@, i + 1);
            }
            let field = StructField { nt, offset };
            offset = offset + nt.size();
            fields.push((n, field));
        }
        assert(types@.take(count as int) =~= types@);
        Struct { fields, size: offset }
    }
}

} // verus!
