//! Building the intermediate representation from plain source declarations.
use vstd::prelude::*;
use vstd::string::*;

use crate::capture::{captured, is_ident, split_generic, splits, GenericCapture};
use crate::capture::lemma_split_unique;
use crate::ir::{
    IrEnum, IrField, IrFile, IrFunc, IrFuncMode, IrStruct, IrType, IrTypeDelegate,
    IrTypePrimitive, IrVariant, IrVariantKind, TypeModel,
};
use crate::text::{
    count_true, last_index, lemma_count_true_le, lemma_count_true_set, lemma_last_index_bounds,
    str_eq,
};

verus! {

broadcast use vstd::std_specs::vec::group_vec_axioms;

/// A named field of a source declaration, its type written without spaces.
#[derive(Clone, Debug)]
pub struct SrcField {
    pub name: String,
    pub ty: String,
    pub comments: Vec<String>,
}

#[derive(Clone, Debug)]
pub struct SrcStruct {
    pub name: String,
    pub fields: Vec<SrcField>,
}

#[derive(Clone, Debug)]
pub enum SrcVariantKind {
    Value,
    Fields(Vec<SrcField>),
}

#[derive(Clone, Debug)]
pub struct SrcVariant {
    pub name: String,
    pub kind: SrcVariantKind,
}

#[derive(Clone, Debug)]
pub struct SrcEnum {
    pub name: String,
    pub variants: Vec<SrcVariant>,
}

/// Struct and enum declarations of a crate, in the order they were collected.
/// When a name occurs twice, the later declaration wins.
#[derive(Clone, Debug)]
pub struct DeclTables {
    pub structs: Vec<SrcStruct>,
    pub enums: Vec<SrcEnum>,
}

/// A function parameter: `name` is `None` when the binding is not a plain name.
#[derive(Clone, Debug)]
pub struct SrcParam {
    pub name: Option<String>,
    pub ty: String,
    pub comments: Vec<String>,
}

/// An exported source function.
#[derive(Clone, Debug)]
pub struct SrcFn {
    pub name: String,
    pub params: Vec<SrcParam>,
    pub output: Option<String>,
    pub comments: Vec<String>,
}

#[derive(Clone, Debug, PartialEq, Eq)]
pub enum ParseError {
    /// A type signature of no recognised shape.
    UnsupportedType(String),
    /// A struct or enum name without declaration.
    DeclarationNotFound(String),
    /// A parameter whose binding is not a plain name.
    UnsupportedSignature(String),
    /// Two exported functions with one name.
    DuplicateExport(String),
}

pub open spec fn struct_names(t: DeclTables) -> Seq<Seq<char>> {
    t.structs@.map_values(|s: SrcStruct| s.name@)
}

pub open spec fn enum_names(t: DeclTables) -> Seq<Seq<char>> {
    t.enums@.map_values(|e: SrcEnum| e.name@)
}

pub open spec fn prim_of(s: Seq<char>) -> Option<IrTypePrimitive> {
    if s == "u8"@ {
        Some(IrTypePrimitive::U8)
    } else if s == "i8"@ {
        Some(IrTypePrimitive::I8)
    } else if s == "u16"@ {
        Some(IrTypePrimitive::U16)
    } else if s == "i16"@ {
        Some(IrTypePrimitive::I16)
    } else if s == "u32"@ {
        Some(IrTypePrimitive::U32)
    } else if s == "i32"@ {
        Some(IrTypePrimitive::I32)
    } else if s == "u64"@ {
        Some(IrTypePrimitive::U64)
    } else if s == "i64"@ {
        Some(IrTypePrimitive::I64)
    } else if s == "bool"@ {
        Some(IrTypePrimitive::Bool)
    } else if s == "()"@ {
        Some(IrTypePrimitive::Unit)
    } else {
        None
    }
}

fn primitive_of(s: &str) -> (r: Option<IrTypePrimitive>)
    ensures
        r == prim_of(s@),
{
    if str_eq(s, "u8") {
        Some(IrTypePrimitive::U8)
    } else if str_eq(s, "i8") {
        Some(IrTypePrimitive::I8)
    } else if str_eq(s, "u16") {
        Some(IrTypePrimitive::U16)
    } else if str_eq(s, "i16") {
        Some(IrTypePrimitive::I16)
    } else if str_eq(s, "u32") {
        Some(IrTypePrimitive::U32)
    } else if str_eq(s, "i32") {
        Some(IrTypePrimitive::I32)
    } else if str_eq(s, "u64") {
        Some(IrTypePrimitive::U64)
    } else if str_eq(s, "i64") {
        Some(IrTypePrimitive::I64)
    } else if str_eq(s, "bool") {
        Some(IrTypePrimitive::Bool)
    } else if str_eq(s, "()") {
        Some(IrTypePrimitive::Unit)
    } else {
        None
    }
}

/// Outer name and argument of `s` when `s` is `name<arg>`.
pub open spec fn split_of(s: Seq<char>) -> (Seq<char>, Seq<char>) {
    choose|p: (Seq<char>, Seq<char>)| #[trigger] splits(s, p.0, p.1)
}

pub open spec fn is_generic(s: Seq<char>) -> bool {
    exists|p: (Seq<char>, Seq<char>)| #[trigger] splits(s, p.0, p.1)
}

/// The type that the signature `s` denotes, `None` when it has no supported
/// shape or names no declaration.
pub open spec fn resolve_spec(s: Seq<char>, t: DeclTables) -> Option<TypeModel>
    decreases s.len(),
{
    if s == "String"@ {
        Some(TypeModel::Delegate(IrTypeDelegate::String))
    } else if s == "SyncReturn<Vec<u8>>"@ {
        Some(TypeModel::Delegate(IrTypeDelegate::SyncReturnVecU8))
    } else if prim_of(s) is Some {
        Some(TypeModel::Primitive(prim_of(s)->Some_0))
    } else if is_generic(s) {
        let h = split_of(s).0;
        let x = split_of(s).1;
        if x.len() < s.len() {
            if h == "Option"@ {
                match resolve_spec(x, t) {
                    Some(m) => Some(TypeModel::Optional(Box::new(m))),
                    None => None,
                }
            } else if h == "Box"@ {
                match resolve_spec(x, t) {
                    Some(m) => Some(TypeModel::Boxed(Box::new(m))),
                    None => None,
                }
            } else if h == "Vec"@ {
                match resolve_spec(x, t) {
                    Some(TypeModel::Primitive(p)) => Some(TypeModel::PrimitiveList(p)),
                    Some(m) => Some(TypeModel::GeneralList(Box::new(m))),
                    None => None,
                }
            } else {
                None
            }
        } else {
            None
        }
    } else if is_ident(s) {
        if last_index(enum_names(t), s) >= 0 {
            Some(TypeModel::EnumRef(s))
        } else if last_index(struct_names(t), s) >= 0 {
            Some(TypeModel::StructRef(s))
        } else {
            None
        }
    } else {
        None
    }
}

/// A resolved field agrees with its declaration.
pub open spec fn field_matches(f: IrField, d: SrcField, t: DeclTables) -> bool {
    &&& f.name@ == d.name@
    &&& f.comments.deep_view() == d.comments.deep_view()
    &&& resolve_spec(d.ty@, t) == Some(f.ty@)
}

pub open spec fn fields_match(fs: Seq<IrField>, ds: Seq<SrcField>, t: DeclTables) -> bool {
    &&& fs.len() == ds.len()
    &&& forall|j: int| 0 <= j < fs.len() ==> field_matches(#[trigger] fs[j], ds[j], t)
}

pub open spec fn variant_matches(v: IrVariant, d: SrcVariant, t: DeclTables) -> bool {
    &&& v.name@ == d.name@
    &&& match (v.kind, d.kind) {
        (IrVariantKind::Value, SrcVariantKind::Value) => true,
        (IrVariantKind::Fields(fs), SrcVariantKind::Fields(ds)) => fields_match(fs@, ds@, t),
        _ => false,
    }
}

/// A pool struct is the resolution of the declaration that its name selects.
pub open spec fn struct_matches(s: IrStruct, t: DeclTables) -> bool {
    let i = last_index(struct_names(t), s.name@);
    &&& 0 <= i < t.structs.len()
    &&& fields_match(s.fields@, t.structs@[i].fields@, t)
}

pub open spec fn enum_matches(e: IrEnum, t: DeclTables) -> bool {
    let i = last_index(enum_names(t), e.name@);
    &&& 0 <= i < t.enums.len()
    &&& e.variants.len() == t.enums@[i].variants.len()
    &&& forall|j: int|
        0 <= j < e.variants.len() ==> variant_matches(#[trigger] e.variants@[j], t.enums@[i].variants@[j], t)
}

} // verus!

verus! {

/// A resolution error names what failed: a signature of no supported shape,
/// or an identifier without declaration.
pub open spec fn type_error_justified(e: ParseError, t: DeclTables) -> bool {
    match e {
        ParseError::UnsupportedType(x) => resolve_spec(x@, t) is None && !is_ident(x@),
        ParseError::DeclarationNotFound(x) => is_ident(x@) && last_index(struct_names(t), x@) < 0
            && last_index(enum_names(t), x@) < 0,
        _ => false,
    }
}

/// Every struct or enum that `m` names is a member of `sd` / `se` (indices
/// into the struct and enum tables).
pub open spec fn refs_within(m: TypeModel, t: DeclTables, sd: Set<int>, se: Set<int>) -> bool
    decreases m,
{
    match m {
        TypeModel::GeneralList(b) => refs_within(*b, t, sd, se),
        TypeModel::Optional(b) => refs_within(*b, t, sd, se),
        TypeModel::Boxed(b) => refs_within(*b, t, sd, se),
        TypeModel::StructRef(n) => sd.contains(last_index(struct_names(t), n)),
        TypeModel::EnumRef(n) => se.contains(last_index(enum_names(t), n)),
        _ => true,
    }
}

/// `s` resolves, naming only declarations of `sd` / `se`.
pub open spec fn within(s: Seq<char>, t: DeclTables, sd: Set<int>, se: Set<int>) -> bool {
    resolve_spec(s, t) matches Some(m) && refs_within(m, t, sd, se)
}

/// `sd` / `se` are declarations whose field types all resolve and name only
/// members again: a set closed under what resolution visits.
pub open spec fn decls_closed(t: DeclTables, sd: Set<int>, se: Set<int>) -> bool {
    &&& forall|i: int| #[trigger] sd.contains(i) ==> 0 <= i < t.structs.len() && forall|j: int|
        0 <= j < t.structs@[i].fields.len() ==> within((#[trigger] t.structs@[i].fields@[j]).ty@, t, sd, se)
    &&& forall|i: int| #[trigger] se.contains(i) ==> 0 <= i < t.enums.len() && forall|v: int|
        0 <= v < t.enums@[i].variants.len() ==> match (#[trigger] t.enums@[i].variants@[v]).kind {
            SrcVariantKind::Value => true,
            SrcVariantKind::Fields(ds) => forall|j: int| 0 <= j < ds.len() ==> within((#[trigger] ds@[j]).ty@, t, sd, se),
        }
}

fn check_ident(s: &str) -> (r: bool)
    ensures
        r == is_ident(s@),
{
    let n = s.unicode_len();
    if n == 0 {
        return false;
    }
    let c0 = s.get_char(0);
    if '0' <= c0 && c0 <= '9' {
        return false;
    }
    let mut i: usize = 0;
    while i < n
        invariant
            n == s@.len(),
            i <= n,
            forall|j: int| 0 <= j < i ==> crate::capture::ident_char(#[trigger] s@[j]),
        decreases n - i,
    {
        let c = s.get_char(i);
        if !(('a' <= c && c <= 'z') || ('A' <= c && c <= 'Z') || ('0' <= c && c <= '9') || c == '_') {
            return false;
        }
        i = i + 1;
    }
    true
}

fn find_struct(t: &DeclTables, s: &str) -> (r: Option<usize>)
    ensures
        r matches Some(i) ==> i == last_index(struct_names(*t), s@) && i < t.structs.len(),
        r is None ==> last_index(struct_names(*t), s@) < 0,
{
    let mut i: usize = t.structs.len();
    assert(struct_names(*t).subrange(0, i as int) =~= struct_names(*t));
    while i > 0
        invariant
            i <= t.structs.len(),
            last_index(struct_names(*t), s@) == last_index(struct_names(*t).subrange(0, i as int), s@),
        decreases i,
    {
        assert(struct_names(*t).subrange(0, i as int).drop_last() =~= struct_names(*t).subrange(0, i - 1));
        if str_eq(t.structs[i - 1].name.as_str(), s) {
            return Some(i - 1);
        }
        i = i - 1;
    }
    None
}

fn find_enum(t: &DeclTables, s: &str) -> (r: Option<usize>)
    ensures
        r matches Some(i) ==> i == last_index(enum_names(*t), s@) && i < t.enums.len(),
        r is None ==> last_index(enum_names(*t), s@) < 0,
{
    let mut i: usize = t.enums.len();
    assert(enum_names(*t).subrange(0, i as int) =~= enum_names(*t));
    while i > 0
        invariant
            i <= t.enums.len(),
            last_index(enum_names(*t), s@) == last_index(enum_names(*t).subrange(0, i as int), s@),
        decreases i,
    {
        assert(enum_names(*t).subrange(0, i as int).drop_last() =~= enum_names(*t).subrange(0, i - 1));
        if str_eq(t.enums[i - 1].name.as_str(), s) {
            return Some(i - 1);
        }
        i = i - 1;
    }
    None
}

/// Every struct or enum that `m` names has its declaration entered in the marks.
pub open spec fn refs_marked(m: TypeModel, sm: Seq<bool>, em: Seq<bool>, t: DeclTables) -> bool
    decreases m,
{
    match m {
        TypeModel::GeneralList(b) => refs_marked(*b, sm, em, t),
        TypeModel::Optional(b) => refs_marked(*b, sm, em, t),
        TypeModel::Boxed(b) => refs_marked(*b, sm, em, t),
        TypeModel::StructRef(n) => {
            let i = last_index(struct_names(t), n);
            0 <= i < sm.len() && sm[i]
        },
        TypeModel::EnumRef(n) => {
            let i = last_index(enum_names(t), n);
            0 <= i < em.len() && em[i]
        },
        _ => true,
    }
}

pub proof fn lemma_refs_marked_mono(m: TypeModel, sm1: Seq<bool>, em1: Seq<bool>, sm2: Seq<bool>, em2: Seq<bool>, t: DeclTables)
    requires
        refs_marked(m, sm1, em1, t),
        sm1.len() == sm2.len(),
        em1.len() == em2.len(),
        forall|i: int| 0 <= i < sm1.len() && sm1[i] ==> #[trigger] sm2[i],
        forall|i: int| 0 <= i < em1.len() && em1[i] ==> #[trigger] em2[i],
    ensures
        refs_marked(m, sm2, em2, t),
    decreases m,
{
    match m {
        TypeModel::GeneralList(b) => lemma_refs_marked_mono(*b, sm1, em1, sm2, em2, t),
        TypeModel::Optional(b) => lemma_refs_marked_mono(*b, sm1, em1, sm2, em2, t),
        TypeModel::Boxed(b) => lemma_refs_marked_mono(*b, sm1, em1, sm2, em2, t),
        _ => {},
    }
}

/// Every field type of `fs` names only entered declarations.
pub open spec fn fields_marked(fs: Seq<IrField>, sm: Seq<bool>, em: Seq<bool>, t: DeclTables) -> bool {
    forall|j: int| 0 <= j < fs.len() ==> refs_marked((#[trigger] fs[j]).ty@, sm, em, t)
}

pub proof fn lemma_fields_marked_mono(fs: Seq<IrField>, sm1: Seq<bool>, em1: Seq<bool>, sm2: Seq<bool>, em2: Seq<bool>, t: DeclTables)
    requires
        fields_marked(fs, sm1, em1, t),
        sm1.len() == sm2.len(),
        em1.len() == em2.len(),
        forall|i: int| 0 <= i < sm1.len() && sm1[i] ==> #[trigger] sm2[i],
        forall|i: int| 0 <= i < em1.len() && em1[i] ==> #[trigger] em2[i],
    ensures
        fields_marked(fs, sm2, em2, t),
{
    assert forall|j: int| 0 <= j < fs.len() implies refs_marked((#[trigger] fs[j]).ty@, sm2, em2, t) by {
        lemma_refs_marked_mono(fs[j].ty@, sm1, em1, sm2, em2, t);
    }
}

pub open spec fn variants_marked(vs: Seq<IrVariant>, sm: Seq<bool>, em: Seq<bool>, t: DeclTables) -> bool {
    forall|a: int| 0 <= a < vs.len() ==> match (#[trigger] vs[a]).kind {
        IrVariantKind::Value => true,
        IrVariantKind::Fields(fs) => fields_marked(fs@, sm, em, t),
    }
}

pub open spec fn in_struct_pool(pool: Seq<IrStruct>, n: Seq<char>) -> bool {
    exists|k: int| 0 <= k < pool.len() && (#[trigger] pool[k]).name@ == n
}

pub open spec fn in_enum_pool(pool: Seq<IrEnum>, n: Seq<char>) -> bool {
    exists|k: int| 0 <= k < pool.len() && (#[trigger] pool[k]).name@ == n
}

pub proof fn lemma_variants_marked_mono(vs: Seq<IrVariant>, sm1: Seq<bool>, em1: Seq<bool>, sm2: Seq<bool>, em2: Seq<bool>, t: DeclTables)
    requires
        variants_marked(vs, sm1, em1, t),
        sm1.len() == sm2.len(),
        em1.len() == em2.len(),
        forall|i: int| 0 <= i < sm1.len() && sm1[i] ==> #[trigger] sm2[i],
        forall|i: int| 0 <= i < em1.len() && em1[i] ==> #[trigger] em2[i],
    ensures
        variants_marked(vs, sm2, em2, t),
{
    assert forall|a: int| 0 <= a < vs.len() implies match (#[trigger] vs[a]).kind {
        IrVariantKind::Value => true,
        IrVariantKind::Fields(fs) => fields_marked(fs@, sm2, em2, t),
    } by {
        if let IrVariantKind::Fields(fs) = vs[a].kind {
            lemma_fields_marked_mono(fs@, sm1, em1, sm2, em2, t);
        }
    }
}

impl Parser {
    /// Growing marks keep the pool entries' references entered.
    proof fn lemma_pool_marked_mono(a: Parser, b: Parser, t: DeclTables)
        requires
            forall|k: int| 0 <= k < a.struct_pool.len() ==> fields_marked(
                (#[trigger] a.struct_pool@[k]).fields@, a.struct_marks@, a.enum_marks@, t),
            forall|k: int| 0 <= k < a.enum_pool.len() ==> variants_marked(
                (#[trigger] a.enum_pool@[k]).variants@, a.struct_marks@, a.enum_marks@, t),
            a.struct_pool == b.struct_pool,
            a.enum_pool == b.enum_pool,
            a.struct_marks.len() == b.struct_marks.len(),
            a.enum_marks.len() == b.enum_marks.len(),
            forall|i: int| 0 <= i < a.struct_marks.len() && a.struct_marks@[i] ==> #[trigger] b.struct_marks@[i],
            forall|i: int| 0 <= i < a.enum_marks.len() && a.enum_marks@[i] ==> #[trigger] b.enum_marks@[i],
        ensures
            forall|k: int| 0 <= k < b.struct_pool.len() ==> fields_marked(
                (#[trigger] b.struct_pool@[k]).fields@, b.struct_marks@, b.enum_marks@, t),
            forall|k: int| 0 <= k < b.enum_pool.len() ==> variants_marked(
                (#[trigger] b.enum_pool@[k]).variants@, b.struct_marks@, b.enum_marks@, t),
    {
        assert forall|k: int| 0 <= k < b.struct_pool.len() implies fields_marked(
            (#[trigger] b.struct_pool@[k]).fields@, b.struct_marks@, b.enum_marks@, t) by {
            lemma_fields_marked_mono(a.struct_pool@[k].fields@, a.struct_marks@, a.enum_marks@, b.struct_marks@, b.enum_marks@, t);
        }
        assert forall|k: int| 0 <= k < b.enum_pool.len() implies variants_marked(
            (#[trigger] b.enum_pool@[k]).variants@, b.struct_marks@, b.enum_marks@, t) by {
            lemma_variants_marked_mono(a.enum_pool@[k].variants@, a.struct_marks@, a.enum_marks@, b.struct_marks@, b.enum_marks@, t);
        }
    }
}

/// Resolution state: which declarations have been entered, and the pools
/// of finished definitions.
struct Parser {
    struct_marks: Vec<bool>,
    enum_marks: Vec<bool>,
    n_marked: usize,
    struct_pool: Vec<IrStruct>,
    enum_pool: Vec<IrEnum>,
}

impl Parser {
    spec fn wf(&self, t: DeclTables) -> bool {
        &&& self.struct_marks.len() == t.structs.len()
        &&& self.enum_marks.len() == t.enums.len()
        &&& t.structs.len() + t.enums.len() <= usize::MAX
        &&& self.n_marked == count_true(self.struct_marks@) + count_true(self.enum_marks@)
        &&& self.n_marked <= t.structs.len() + t.enums.len()
        &&& crate::ir::struct_names_unique(self.struct_pool@)
        &&& crate::ir::enum_names_unique(self.enum_pool@)
        &&& forall|k: int| 0 <= k < self.struct_pool.len() ==> struct_matches(#[trigger] self.struct_pool@[k], t)
            && self.struct_marks@[last_index(struct_names(t), self.struct_pool@[k].name@)]
        &&& forall|k: int| 0 <= k < self.enum_pool.len() ==> enum_matches(#[trigger] self.enum_pool@[k], t)
            && self.enum_marks@[last_index(enum_names(t), self.enum_pool@[k].name@)]
        &&& forall|k: int| 0 <= k < self.struct_pool.len() ==> fields_marked(
            (#[trigger] self.struct_pool@[k]).fields@,
            self.struct_marks@,
            self.enum_marks@,
            t,
        )
        &&& forall|k: int| 0 <= k < self.enum_pool.len() ==> variants_marked(
            (#[trigger] self.enum_pool@[k]).variants@,
            self.struct_marks@,
            self.enum_marks@,
            t,
        )
    }

    /// Every declaration entered between `a` and `b` has its pool entry in `b`.
    spec fn settled(a: Parser, b: Parser, t: DeclTables) -> bool {
        &&& forall|i: int| 0 <= i < t.structs.len() && b.struct_marks@[i] && !a.struct_marks@[i]
            ==> in_struct_pool(b.struct_pool@, #[trigger] t.structs@[i].name@)
        &&& forall|i: int| 0 <= i < t.enums.len() && b.enum_marks@[i] && !a.enum_marks@[i]
            ==> in_enum_pool(b.enum_pool@, #[trigger] t.enums@[i].name@)
    }

    spec fn measure(&self, t: DeclTables) -> int {
        t.structs.len() + t.enums.len() - self.n_marked
    }

    /// `b` extends `a`: marks only grow, pools only grow, and what was added
    /// was not entered in `a`.
    spec fn grows(a: Parser, b: Parser, t: DeclTables) -> bool {
        &&& forall|i: int| 0 <= i < a.struct_marks.len() && a.struct_marks@[i] ==> #[trigger] b.struct_marks@[i]
        &&& forall|i: int| 0 <= i < a.enum_marks.len() && a.enum_marks@[i] ==> #[trigger] b.enum_marks@[i]
        &&& a.n_marked <= b.n_marked
        &&& a.struct_pool.len() <= b.struct_pool.len()
        &&& forall|k: int| 0 <= k < a.struct_pool.len() ==> #[trigger] b.struct_pool@[k] == a.struct_pool@[k]
        &&& forall|k: int| a.struct_pool.len() <= k < b.struct_pool.len()
            ==> !a.struct_marks@[last_index(struct_names(t), (#[trigger] b.struct_pool@[k]).name@)]
        &&& a.enum_pool.len() <= b.enum_pool.len()
        &&& forall|k: int| 0 <= k < a.enum_pool.len() ==> #[trigger] b.enum_pool@[k] == a.enum_pool@[k]
        &&& forall|k: int| a.enum_pool.len() <= k < b.enum_pool.len()
            ==> !a.enum_marks@[last_index(enum_names(t), (#[trigger] b.enum_pool@[k]).name@)]
    }
}

} // verus!

verus! {

impl Parser {
    /// Resolves a type signature, entering any struct or enum it names
    /// into the pools on first reference.
    fn parse_type(&mut self, s: &str, t: &DeclTables) -> (r: Result<IrType, ParseError>)
        requires
            old(self).wf(*t),
        ensures
            final(self).wf(*t),
            Parser::grows(*old(self), *final(self), *t),
            r matches Ok(ty) ==> resolve_spec(s@, *t) == Some(ty@),
            r matches Ok(ty) ==> refs_marked(ty@, final(self).struct_marks@, final(self).enum_marks@, *t),
            r is Ok ==> Parser::settled(*old(self), *final(self), *t),
            r matches Err(e) ==> type_error_justified(e, *t),
            resolve_spec(s@, *t) is None ==> r is Err,
            forall|sd: Set<int>, se: Set<int>| #[trigger] decls_closed(*t, sd, se) && within(s@, *t, sd, se) ==> r is Ok,
            resolve_spec(s@, *t) matches Some(TypeModel::StructRef(n))
                && old(self).struct_marks@[last_index(struct_names(*t), n)] ==> *final(self) == *old(self),
            resolve_spec(s@, *t) matches Some(TypeModel::EnumRef(n))
                && old(self).enum_marks@[last_index(enum_names(*t), n)] ==> *final(self) == *old(self),
        decreases old(self).measure(*t), s@.len() + 2,
    {
        if str_eq(s, "String") {
            return Ok(IrType::Delegate(IrTypeDelegate::String));
        }
        if str_eq(s, "SyncReturn<Vec<u8>>") {
            return Ok(IrType::Delegate(IrTypeDelegate::SyncReturnVecU8));
        }
        if let Some(p) = primitive_of(s) {
            return Ok(IrType::Primitive(p));
        }
        match split_generic(s) {
            Some((h, x)) => {
                proof {
                    assert(is_generic(s@)) by {
                        let w = (h@, x@);
                        assert(splits(s@, w.0, w.1));
                    }
                    lemma_split_unique(s@, h@, x@, split_of(s@).0, split_of(s@).1);
                    assert(x@.len() < s@.len());
                }
                let is_opt = str_eq(h.as_str(), "Option");
                let is_box = str_eq(h.as_str(), "Box");
                let is_vec = str_eq(h.as_str(), "Vec");
                if !(is_opt || is_box || is_vec) {
                    proof {
                        assert(s@[h@.len() as int] == '<');
                        assert(!crate::capture::ident_char(s@[h@.len() as int]));
                    }
                    return Err(ParseError::UnsupportedType(String::from_str(s)));
                }
                let inner = match self.parse_type(x.as_str(), t) {
                    Ok(inner) => inner,
                    Err(e) => return Err(e),
                };
                if is_opt {
                    Ok(IrType::Optional(Box::new(inner)))
                } else if is_box {
                    Ok(IrType::Boxed(Box::new(inner)))
                } else {
                    match inner {
                        IrType::Primitive(p) => Ok(IrType::PrimitiveList(p)),
                        other => Ok(IrType::GeneralList(Box::new(other))),
                    }
                }
            },
            None => {
                proof {
                    assert(!is_generic(s@));
                }
                if !check_ident(s) {
                    return Err(ParseError::UnsupportedType(String::from_str(s)));
                }
                proof {
                    lemma_last_index_bounds(enum_names(*t), s@);
                    lemma_last_index_bounds(struct_names(*t), s@);
                }
                if let Some(i) = find_enum(t, s) {
                    assert(enum_names(*t)[i as int] == t.enums@[i as int].name@);
                    if !self.enum_marks[i] {
                        match self.resolve_enum(i, t) {
                            Ok(()) => {},
                            Err(e) => return Err(e),
                        }
                    }
                    return Ok(IrType::EnumRef(String::from_str(s)));
                }
                if let Some(i) = find_struct(t, s) {
                    assert(struct_names(*t)[i as int] == t.structs@[i as int].name@);
                    if !self.struct_marks[i] {
                        match self.resolve_struct(i, t) {
                            Ok(()) => {},
                            Err(e) => return Err(e),
                        }
                    }
                    return Ok(IrType::StructRef(String::from_str(s)));
                }
                Err(ParseError::DeclarationNotFound(String::from_str(s)))
            },
        }
    }

    /// Resolves the fields of one declaration, in order.
    fn parse_fields(&mut self, ds: &Vec<SrcField>, t: &DeclTables, Ghost(bound): Ghost<int>) -> (r:
        Result<Vec<IrField>, ParseError>)
        requires
            old(self).wf(*t),
            old(self).measure(*t) < bound,
        ensures
            final(self).wf(*t),
            Parser::grows(*old(self), *final(self), *t),
            r matches Ok(fs) ==> fields_match(fs@, ds@, *t),
            r matches Ok(fs) ==> fields_marked(fs@, final(self).struct_marks@, final(self).enum_marks@, *t),
            r is Ok ==> Parser::settled(*old(self), *final(self), *t),
            r matches Err(e) ==> type_error_justified(e, *t),
            forall|sd: Set<int>, se: Set<int>| #[trigger] decls_closed(*t, sd, se)
                && (forall|j: int| 0 <= j < ds.len() ==> within((#[trigger] ds@[j]).ty@, *t, sd, se)) ==> r is Ok,
        decreases bound, 0nat,
    {
        let ghost start = *self;
        proof {
            assert(self.struct_pool@.subrange(0, self.struct_pool.len() as int) =~= self.struct_pool@);
            assert(self.enum_pool@.subrange(0, self.enum_pool.len() as int) =~= self.enum_pool@);
        }
        let mut fs: Vec<IrField> = Vec::new();
        let mut j: usize = 0;
        while j < ds.len()
            invariant
                self.wf(*t),
                Parser::grows(start, *self, *t),
                start == *old(self),
                start.wf(*t),
                start.measure(*t) < bound,
                j <= ds.len(),
                fs.len() == j,
                forall|k: int| 0 <= k < j ==> field_matches(#[trigger] fs@[k], ds@[k], *t),
                fields_marked(fs@, self.struct_marks@, self.enum_marks@, *t),
                Parser::settled(start, *self, *t),
            decreases ds.len() - j,
        {
            let ghost before = *self;
            let ty = match self.parse_type(ds[j].ty.as_str(), t) {
                Ok(ty) => ty,
                    Err(e) => {
                    proof {
                        Parser::lemma_grows_trans(start, before, *self, *t);
                    }
                    return Err(e);
                },
            };
            let ghost fs0 = fs@;
            fs.push(IrField { name: ds[j].name.clone(), ty, comments: ds[j].comments.clone() });
            proof {
                Parser::lemma_grows_trans(start, before, *self, *t);
                Parser::lemma_settled_trans(start, before, *self, *t);
                lemma_fields_marked_mono(fs0, before.struct_marks@, before.enum_marks@, self.struct_marks@, self.enum_marks@, *t);
                assert forall|k: int| 0 <= k < fs.len() implies refs_marked((#[trigger] fs@[k]).ty@, self.struct_marks@, self.enum_marks@, *t) by {
                    if k < fs0.len() {
                        assert(fs@[k] == fs0[k]);
                    }
                }
            }
            j = j + 1;
        }
        Ok(fs)
    }
}

} // verus!

verus! {

impl Parser {
    proof fn lemma_grows_trans(a: Parser, b: Parser, c: Parser, t: DeclTables)
        requires
            a.wf(t),
            b.wf(t),
            c.wf(t),
            Parser::grows(a, b, t),
            Parser::grows(b, c, t),
        ensures
            Parser::grows(a, c, t),
    {
        assert(c.struct_pool@.subrange(0, a.struct_pool.len() as int) =~= c.struct_pool@.subrange(
            0,
            b.struct_pool.len() as int,
        ).subrange(0, a.struct_pool.len() as int));
        assert(c.enum_pool@.subrange(0, a.enum_pool.len() as int) =~= c.enum_pool@.subrange(
            0,
            b.enum_pool.len() as int,
        ).subrange(0, a.enum_pool.len() as int));
        assert forall|k: int| a.struct_pool.len() <= k < c.struct_pool.len() implies !a.struct_marks@[
            last_index(struct_names(t), (#[trigger] c.struct_pool@[k]).name@)] by {
            if k < b.struct_pool.len() {
                assert(c.struct_pool@[k] == c.struct_pool@.subrange(0, b.struct_pool.len() as int)[k]);
            }
            lemma_last_index_bounds(struct_names(t), c.struct_pool@[k].name@);
        }
        assert forall|k: int| a.enum_pool.len() <= k < c.enum_pool.len() implies !a.enum_marks@[
            last_index(enum_names(t), (#[trigger] c.enum_pool@[k]).name@)] by {
            if k < b.enum_pool.len() {
                assert(c.enum_pool@[k] == c.enum_pool@.subrange(0, b.enum_pool.len() as int)[k]);
            }
            lemma_last_index_bounds(enum_names(t), c.enum_pool@[k].name@);
        }
    }

    proof fn lemma_settled_trans(a: Parser, b: Parser, c: Parser, t: DeclTables)
        requires
            a.wf(t),
            b.wf(t),
            c.wf(t),
            Parser::grows(a, b, t),
            Parser::grows(b, c, t),
            Parser::settled(a, b, t),
            Parser::settled(b, c, t),
        ensures
            Parser::settled(a, c, t),
    {
        assert forall|i: int| 0 <= i < t.structs.len() && c.struct_marks@[i] && !a.struct_marks@[i]
            implies in_struct_pool(c.struct_pool@, #[trigger] t.structs@[i].name@) by {
            if b.struct_marks@[i] {
                let k = choose|k: int| 0 <= k < b.struct_pool.len() && (#[trigger] b.struct_pool@[k]).name@ == t.structs@[i].name@;
                assert(c.struct_pool@[k] == b.struct_pool@[k]);
            }
        }
        assert forall|i: int| 0 <= i < t.enums.len() && c.enum_marks@[i] && !a.enum_marks@[i]
            implies in_enum_pool(c.enum_pool@, #[trigger] t.enums@[i].name@) by {
            if b.enum_marks@[i] {
                let k = choose|k: int| 0 <= k < b.enum_pool.len() && (#[trigger] b.enum_pool@[k]).name@ == t.enums@[i].name@;
                assert(c.enum_pool@[k] == b.enum_pool@[k]);
            }
        }
    }

    /// Enters struct declaration `i`, resolves its fields and adds it to the pool.
    fn resolve_struct(&mut self, i: usize, t: &DeclTables) -> (r: Result<(), ParseError>)
        requires
            old(self).wf(*t),
            i < t.structs.len(),
            !old(self).struct_marks@[i as int],
            i == last_index(struct_names(*t), t.structs@[i as int].name@),
        ensures
            final(self).struct_marks@[i as int],
            final(self).wf(*t),
            Parser::grows(*old(self), *final(self), *t),
            forall|sd: Set<int>, se: Set<int>| #[trigger] decls_closed(*t, sd, se) && sd.contains(i as int) ==> r is Ok,
            r matches Err(e) ==> type_error_justified(e, *t),
            r is Ok ==> Parser::settled(*old(self), *final(self), *t),
        decreases old(self).measure(*t), 1nat,
    {
        let ghost entry = *self;
        proof {
            lemma_count_true_set(self.struct_marks@, i as int);
            lemma_count_true_le(self.struct_marks@.update(i as int, true));
            lemma_count_true_le(self.enum_marks@);
        }
        self.struct_marks.set(i, true);
        self.n_marked = self.n_marked + 1;
        let ghost mid = *self;
        proof {
            Parser::lemma_pool_marked_mono(entry, mid, *t);
        }
        proof {
            assert(self.struct_pool@.subrange(0, entry.struct_pool.len() as int) =~= entry.struct_pool@);
            assert(self.enum_pool@.subrange(0, entry.enum_pool.len() as int) =~= entry.enum_pool@);
        }
        let fs = match self.parse_fields(&t.structs[i].fields, t, Ghost(entry.measure(*t))) {
            Ok(fs) => fs,
            Err(e) => {
                proof {
                    Parser::lemma_grows_trans(entry, mid, *self, *t);
                }
                return Err(e);
            },
        };
        let ghost after = *self;
        proof {
            Parser::lemma_grows_trans(entry, mid, after, *t);
        }
        let n = t.structs[i].name.clone();
        self.struct_pool.push(IrStruct { name: n, fields: fs });
        proof {
            assert(self.struct_pool@[after.struct_pool.len() as int].name@ == t.structs@[i as int].name@);
            assert forall|ii: int| 0 <= ii < t.structs.len() && self.struct_marks@[ii] && !entry.struct_marks@[ii]
                implies in_struct_pool(self.struct_pool@, #[trigger] t.structs@[ii].name@) by {
                if ii != i {
                    assert(!mid.struct_marks@[ii]);
                    let k = choose|k: int| 0 <= k < after.struct_pool.len() && (#[trigger] after.struct_pool@[k]).name@ == t.structs@[ii].name@;
                    assert(self.struct_pool@[k] == after.struct_pool@[k]);
                } else {
                    assert(self.struct_pool@[after.struct_pool.len() as int].name@ == t.structs@[ii].name@);
                }
            }
            assert forall|ii: int| 0 <= ii < t.enums.len() && self.enum_marks@[ii] && !entry.enum_marks@[ii]
                implies in_enum_pool(self.enum_pool@, #[trigger] t.enums@[ii].name@) by {
                assert(!mid.enum_marks@[ii]);
            }
        }
        proof {
            let names = struct_names(*t);
            let len = after.struct_pool.len() as int;
            assert(names[i as int] == t.structs@[i as int].name@);
            assert forall|k: int| 0 <= k < len implies self.struct_pool@[k].name@ != n@ by {
                assert(self.struct_pool@[k] == after.struct_pool@[k]);
                if k < entry.struct_pool.len() {
                    assert(after.struct_pool@[k] == after.struct_pool@.subrange(0, entry.struct_pool.len() as int)[k]);
                }
            }
            assert(self.struct_pool@.subrange(0, entry.struct_pool.len() as int) =~= after.struct_pool@.subrange(
                0,
                entry.struct_pool.len() as int,
            ));
            assert forall|k: int| 0 <= k < self.struct_pool.len() implies struct_matches(
                #[trigger] self.struct_pool@[k],
                *t,
            ) && self.struct_marks@[last_index(struct_names(*t), self.struct_pool@[k].name@)] by {
                if k < len {
                    assert(self.struct_pool@[k] == after.struct_pool@[k]);
                }
            }
            assert forall|k: int| entry.struct_pool.len() <= k < self.struct_pool.len() implies !entry.struct_marks@[
                last_index(struct_names(*t), (#[trigger] self.struct_pool@[k]).name@)] by {
                if k < len {
                    assert(self.struct_pool@[k] == after.struct_pool@[k]);
                }
            }
        }
        Ok(())
    }
}

} // verus!

verus! {

impl Parser {
    /// Enters enum declaration `i`, resolves its variants and adds it to the pool.
    fn resolve_enum(&mut self, i: usize, t: &DeclTables) -> (r: Result<(), ParseError>)
        requires
            old(self).wf(*t),
            i < t.enums.len(),
            !old(self).enum_marks@[i as int],
            i == last_index(enum_names(*t), t.enums@[i as int].name@),
        ensures
            final(self).enum_marks@[i as int],
            final(self).wf(*t),
            Parser::grows(*old(self), *final(self), *t),
            forall|sd: Set<int>, se: Set<int>| #[trigger] decls_closed(*t, sd, se) && se.contains(i as int) ==> r is Ok,
            r matches Err(e) ==> type_error_justified(e, *t),
            r is Ok ==> Parser::settled(*old(self), *final(self), *t),
        decreases old(self).measure(*t), 1nat,
    {
        let ghost entry = *self;
        proof {
            lemma_count_true_set(self.enum_marks@, i as int);
            lemma_count_true_le(self.enum_marks@.update(i as int, true));
            lemma_count_true_le(self.struct_marks@);
        }
        self.enum_marks.set(i, true);
        self.n_marked = self.n_marked + 1;
        let ghost mid = *self;
        proof {
            Parser::lemma_pool_marked_mono(entry, mid, *t);
        }
        proof {
            assert(self.struct_pool@.subrange(0, entry.struct_pool.len() as int) =~= entry.struct_pool@);
            assert(self.enum_pool@.subrange(0, entry.enum_pool.len() as int) =~= entry.enum_pool@);
        }
        let src = &t.enums[i];
        let mut vs: Vec<IrVariant> = Vec::new();
        proof {
            assert(self.struct_pool@.subrange(0, self.struct_pool.len() as int) =~= self.struct_pool@);
            assert(self.enum_pool@.subrange(0, self.enum_pool.len() as int) =~= self.enum_pool@);
        }
        let mut v: usize = 0;
        while v < src.variants.len()
            invariant
                self.wf(*t),
                mid.wf(*t),
                entry.wf(*t),
                entry == *old(self),
                Parser::grows(entry, mid, *t),
                Parser::grows(mid, *self, *t),
                mid.measure(*t) < entry.measure(*t),
                mid.enum_marks@[i as int],
                i < t.enums.len(),
                *src == t.enums@[i as int],
                v <= src.variants.len(),
                vs.len() == v,
                forall|k: int| 0 <= k < v ==> variant_matches(#[trigger] vs@[k], src.variants@[k], *t),
                variants_marked(vs@, self.struct_marks@, self.enum_marks@, *t),
                Parser::settled(mid, *self, *t),
                forall|sd: Set<int>, se: Set<int>| #[trigger] decls_closed(*t, sd, se) && se.contains(i as int)
                    ==> forall|k: int| 0 <= k < src.variants.len() ==> match (#[trigger] src.variants@[k]).kind {
                    SrcVariantKind::Value => true,
                    SrcVariantKind::Fields(ds) => forall|j: int| 0 <= j < ds.len() ==> within((#[trigger] ds@[j]).ty@, *t, sd, se),
                },
            decreases src.variants.len() - v,
        {
            let ghost before = *self;
            let kind = match &src.variants[v].kind {
                SrcVariantKind::Value => IrVariantKind::Value,
                SrcVariantKind::Fields(ds) => {
                    match self.parse_fields(ds, t, Ghost(entry.measure(*t))) {
                        Ok(fs) => IrVariantKind::Fields(fs),
                        Err(e) => {
                            proof {
                                Parser::lemma_grows_trans(mid, before, *self, *t);
                                Parser::lemma_grows_trans(entry, mid, *self, *t);
                                assert(self.enum_marks@[i as int]);
                            }
                            return Err(e);
                        },
                    }
                },
            };
            let ghost vs0 = vs@;
            vs.push(IrVariant { name: src.variants[v].name.clone(), kind });
            proof {
                Parser::lemma_grows_trans(mid, before, *self, *t);
                Parser::lemma_settled_trans(mid, before, *self, *t);
                lemma_variants_marked_mono(vs0, before.struct_marks@, before.enum_marks@, self.struct_marks@, self.enum_marks@, *t);
                assert forall|k: int| 0 <= k < vs.len() implies match (#[trigger] vs@[k]).kind {
                    IrVariantKind::Value => true,
                    IrVariantKind::Fields(fs) => fields_marked(fs@, self.struct_marks@, self.enum_marks@, *t),
                } by {
                    if k < vs0.len() {
                        assert(vs@[k] == vs0[k]);
                    }
                }
            }
            v = v + 1;
        }
        let ghost after = *self;
        proof {
            Parser::lemma_grows_trans(entry, mid, after, *t);
        }
        let n = src.name.clone();
        self.enum_pool.push(IrEnum { name: n, variants: vs });
        proof {
            assert(self.enum_pool@[after.enum_pool.len() as int].name@ == t.enums@[i as int].name@);
            assert forall|ii: int| 0 <= ii < t.enums.len() && self.enum_marks@[ii] && !entry.enum_marks@[ii]
                implies in_enum_pool(self.enum_pool@, #[trigger] t.enums@[ii].name@) by {
                if ii != i {
                    assert(!mid.enum_marks@[ii]);
                    let k = choose|k: int| 0 <= k < after.enum_pool.len() && (#[trigger] after.enum_pool@[k]).name@ == t.enums@[ii].name@;
                    assert(self.enum_pool@[k] == after.enum_pool@[k]);
                } else {
                    assert(self.enum_pool@[after.enum_pool.len() as int].name@ == t.enums@[ii].name@);
                }
            }
            assert forall|ii: int| 0 <= ii < t.structs.len() && self.struct_marks@[ii] && !entry.struct_marks@[ii]
                implies in_struct_pool(self.struct_pool@, #[trigger] t.structs@[ii].name@) by {
                assert(!mid.struct_marks@[ii]);
            }
        }
        proof {
            let len = after.enum_pool.len() as int;
            assert forall|k: int| 0 <= k < len implies self.enum_pool@[k].name@ != n@ by {
                assert(self.enum_pool@[k] == after.enum_pool@[k]);
                if k < entry.enum_pool.len() {
                    assert(after.enum_pool@[k] == after.enum_pool@.subrange(0, entry.enum_pool.len() as int)[k]);
                }
            }
            assert(self.enum_pool@.subrange(0, entry.enum_pool.len() as int) =~= after.enum_pool@.subrange(
                0,
                entry.enum_pool.len() as int,
            ));
            assert forall|k: int| 0 <= k < self.enum_pool.len() implies enum_matches(
                #[trigger] self.enum_pool@[k],
                *t,
            ) && self.enum_marks@[last_index(enum_names(*t), self.enum_pool@[k].name@)] by {
                if k < len {
                    assert(self.enum_pool@[k] == after.enum_pool@[k]);
                }
            }
            assert forall|k: int| entry.enum_pool.len() <= k < self.enum_pool.len() implies !entry.enum_marks@[
                last_index(enum_names(*t), (#[trigger] self.enum_pool@[k]).name@)] by {
                if k < len {
                    assert(self.enum_pool@[k] == after.enum_pool@[k]);
                }
            }
        }
        Ok(())
    }
}

} // verus!

verus! {

/// The parameter's type is `StreamSink<x>`.
pub open spec fn is_sink(p: SrcParam) -> bool {
    exists|x: Seq<char>| captured("StreamSink"@, p.ty@, x)
}

/// The parameters that become inputs: all but the stream sinks, in order.
pub open spec fn input_params(ps: Seq<SrcParam>) -> Seq<SrcParam>
    decreases ps.len(),
{
    if ps.len() == 0 {
        Seq::empty()
    } else if is_sink(ps.last()) {
        input_params(ps.drop_last())
    } else {
        input_params(ps.drop_last()).push(ps.last())
    }
}

pub open spec fn input_matches(f: IrField, p: SrcParam, t: DeclTables) -> bool {
    &&& p.name matches Some(n) && f.name@ == n@
    &&& f.comments.deep_view() == p.comments.deep_view()
    &&& resolve_spec(p.ty@, t) == Some(f.ty@)
}

pub open spec fn has_sink(ps: Seq<SrcParam>) -> bool {
    exists|k: int| 0 <= k < ps.len() && #[trigger] is_sink(ps[k])
}

/// Output, fallibility and mode of a function without stream sink.
pub open spec fn direct_output_matches(func: IrFunc, f: SrcFn, t: DeclTables) -> bool {
    &&& match f.output {
        None => func.output@ == TypeModel::Primitive(IrTypePrimitive::Unit) && !func.fallible,
        Some(o) => if exists|x: Seq<char>| captured("Result"@, o@, x) {
            func.fallible && exists|x: Seq<char>| captured("Result"@, o@, x) && resolve_spec(x, t) == Some(func.output@)
        } else {
            !func.fallible && resolve_spec(o@, t) == Some(func.output@)
        },
    }
    &&& func.mode == (if func.output@ == TypeModel::Delegate(IrTypeDelegate::SyncReturnVecU8) {
        IrFuncMode::Sync
    } else {
        IrFuncMode::Normal
    })
}

/// `func` is the resolution of the source function `f`.
pub open spec fn func_matches(func: IrFunc, f: SrcFn, t: DeclTables) -> bool {
    let ins = input_params(f.params@);
    &&& func.name@ == f.name@
    &&& func.comments.deep_view() == f.comments.deep_view()
    &&& func.inputs.len() == ins.len()
    &&& forall|j: int| 0 <= j < ins.len() ==> input_matches(#[trigger] func.inputs@[j], ins[j], t)
    &&& if has_sink(f.params@) {
        &&& func.mode == IrFuncMode::Stream
        &&& func.fallible
        &&& exists|k: int, x: Seq<char>|
            0 <= k < f.params.len() && #[trigger] captured("StreamSink"@, f.params@[k].ty@, x)
                && resolve_spec(x, t) == Some(func.output@)
    } else {
        direct_output_matches(func, f, t)
    }
}

/// Every parameter of `f` is bound to a plain name.
pub open spec fn plain_params(f: SrcFn) -> bool {
    forall|k: int| 0 <= k < f.params.len() ==> (#[trigger] f.params@[k]).name is Some
}

/// Every type that `f` mentions resolves, naming only declarations of `sd` / `se`.
pub open spec fn resolvable(f: SrcFn, t: DeclTables, sd: Set<int>, se: Set<int>) -> bool {
    &&& forall|k: int| 0 <= k < f.params.len() ==> {
        let ty = (#[trigger] f.params@[k]).ty@;
        &&& !is_sink(f.params@[k]) ==> within(ty, t, sd, se)
        &&& forall|x: Seq<char>| #[trigger] captured("StreamSink"@, ty, x) ==> within(x, t, sd, se)
    }
    &&& match f.output {
        None => true,
        Some(o) => {
            &&& within(o@, t, sd, se) || exists|x: Seq<char>| captured("Result"@, o@, x)
            &&& forall|x: Seq<char>| #[trigger] captured("Result"@, o@, x) ==> within(x, t, sd, se)
        },
    }
}

} // verus!

verus! {

impl Parser {
    /// Resolves one exported function: its inputs, output, fallibility and mode.
    fn parse_function(&mut self, f: &SrcFn, t: &DeclTables) -> (r: Result<IrFunc, ParseError>)
        requires
            old(self).wf(*t),
        ensures
            final(self).wf(*t),
            Parser::grows(*old(self), *final(self), *t),
            r matches Ok(func) ==> func_matches(func, *f, *t),
            r matches Ok(func) ==> Parser::settled(*old(self), *final(self), *t)
                && fields_marked(func.inputs@, final(self).struct_marks@, final(self).enum_marks@, *t)
                && refs_marked(func.output@, final(self).struct_marks@, final(self).enum_marks@, *t),
            r matches Err(e) ==> type_error_justified(e, *t) || (e == ParseError::UnsupportedSignature(f.name)
                && !plain_params(*f)),
            !plain_params(*f) ==> r is Err,
            forall|sd: Set<int>, se: Set<int>| #[trigger] decls_closed(*t, sd, se) && plain_params(*f)
                && resolvable(*f, *t, sd, se) ==> r is Ok,
    {
        proof {
            reveal_strlit("StreamSink");
            reveal_strlit("Result");
            assert(self.struct_pool@.subrange(0, self.struct_pool.len() as int) =~= self.struct_pool@);
        }
        let sink_cap = GenericCapture::new("StreamSink");
        let result_cap = GenericCapture::new("Result");
        let ghost start = *self;
        let ghost ps = f.params@;
        let mut inputs: Vec<IrField> = Vec::new();
        let mut sink_output: Option<IrType> = None;
        let mut i: usize = 0;
        while i < f.params.len()
            invariant
                self.wf(*t),
                start == *old(self),
                start.wf(*t),
                Parser::grows(start, *self, *t),
                ps == f.params@,
                sink_cap.wf(),
                sink_cap.name() == "StreamSink"@,
                i <= ps.len(),
                inputs.len() == input_params(ps.subrange(0, i as int)).len(),
                forall|j: int| 0 <= j < inputs.len() ==> input_matches(
                    #[trigger] inputs@[j],
                    input_params(ps.subrange(0, i as int))[j],
                    *t,
                ),
                sink_output is Some <==> has_sink(ps.subrange(0, i as int)),
                sink_output matches Some(o) ==> exists|k: int, x: Seq<char>|
                    0 <= k < i && #[trigger] captured("StreamSink"@, ps[k].ty@, x) && resolve_spec(x, *t) == Some(o@),
                forall|k: int| 0 <= k < i ==> (#[trigger] ps[k]).name is Some,
                Parser::settled(start, *self, *t),
                fields_marked(inputs@, self.struct_marks@, self.enum_marks@, *t),
                sink_output matches Some(o) ==> refs_marked(o@, self.struct_marks@, self.enum_marks@, *t),
            decreases ps.len() - i,
        {
            let ghost before = *self;
            let ghost sub = ps.subrange(0, i as int);
            let ghost sub1 = ps.subrange(0, i as int + 1);
            proof {
                assert(sub1.drop_last() =~= sub);
                assert(sub1.last() == ps[i as int]);
            }
            let ghost inputs0 = inputs@;
            let ghost sink0 = sink_output;
            let p = &f.params[i];
            let name = match &p.name {
                Some(n) => n,
                None => {
                    return Err(ParseError::UnsupportedSignature(f.name.clone()));
                },
            };
            match sink_cap.captures(p.ty.as_str()) {
                Some(inner) => {
                    proof {
                        assert(is_sink(ps[i as int]));
                        assert(has_sink(sub1)) by {
                            assert(is_sink(sub1[i as int]));
                        }
                    }
                    let o = match self.parse_type(inner.as_str(), t) {
                        Ok(o) => o,
                        Err(e) => {
                            proof {
                                Parser::lemma_grows_trans(start, before, *self, *t);
                            }
                            return Err(e);
                        },
                    };
                    sink_output = Some(o);
                },
                None => {
                    proof {
                        assert(!is_sink(ps[i as int]));
                        assert(has_sink(sub1) == has_sink(sub)) by {
                            if has_sink(sub1) {
                                let k = choose|k: int| 0 <= k < sub1.len() && #[trigger] is_sink(sub1[k]);
                                assert(k < i);
                                assert(sub[k] == sub1[k]);
                            }
                            if has_sink(sub) {
                                let k = choose|k: int| 0 <= k < sub.len() && #[trigger] is_sink(sub[k]);
                                assert(sub1[k] == sub[k]);
                            }
                        }
                    }
                    let ty = match self.parse_type(p.ty.as_str(), t) {
                        Ok(ty) => ty,
                        Err(e) => {
                            proof {
                                Parser::lemma_grows_trans(start, before, *self, *t);
                            }
                            return Err(e);
                        },
                    };
                    inputs.push(IrField { name: name.clone(), ty, comments: p.comments.clone() });
                },
            }
            proof {
                Parser::lemma_grows_trans(start, before, *self, *t);
                Parser::lemma_settled_trans(start, before, *self, *t);
                lemma_fields_marked_mono(inputs0, before.struct_marks@, before.enum_marks@, self.struct_marks@, self.enum_marks@, *t);
                assert forall|k: int| 0 <= k < inputs.len() implies refs_marked((#[trigger] inputs@[k]).ty@, self.struct_marks@, self.enum_marks@, *t) by {
                    if k < inputs0.len() {
                        assert(inputs@[k] == inputs0[k]);
                    }
                }
                if let Some(o0) = sink0 {
                    lemma_refs_marked_mono(o0@, before.struct_marks@, before.enum_marks@, self.struct_marks@, self.enum_marks@, *t);
                }
                if has_sink(sub) {
                    let k = choose|k: int| 0 <= k < sub.len() && #[trigger] is_sink(sub[k]);
                    assert(sub1[k] == sub[k]);
                }
            }
            i = i + 1;
        }
        proof {
            assert(ps.subrange(0, ps.len() as int) =~= ps);
        }
        match sink_output {
            Some(o) => Ok(IrFunc {
                name: f.name.clone(),
                inputs,
                output: o,
                fallible: true,
                mode: IrFuncMode::Stream,
                comments: f.comments.clone(),
            }),
            None => {
                let ghost before = *self;
                let (output, fallible) = match &f.output {
                    None => (IrType::Primitive(IrTypePrimitive::Unit), false),
                    Some(o) => {
                        match result_cap.captures(o.as_str()) {
                            Some(inner) => match self.parse_type(inner.as_str(), t) {
                                Ok(ty) => (ty, true),
                                Err(e) => {
                                    proof {
                                        Parser::lemma_grows_trans(start, before, *self, *t);
                                    }
                                    return Err(e);
                                },
                            },
                            None => match self.parse_type(o.as_str(), t) {
                                Ok(ty) => (ty, false),
                                Err(e) => {
                                    proof {
                                        Parser::lemma_grows_trans(start, before, *self, *t);
                                    }
                                    return Err(e);
                                },
                            },
                        }
                    },
                };
                proof {
                    Parser::lemma_grows_trans(start, before, *self, *t);
                    Parser::lemma_settled_trans(start, before, *self, *t);
                    lemma_fields_marked_mono(inputs@, before.struct_marks@, before.enum_marks@, self.struct_marks@, self.enum_marks@, *t);
                }
                let mode = match output {
                    IrType::Delegate(IrTypeDelegate::SyncReturnVecU8) => IrFuncMode::Sync,
                    _ => IrFuncMode::Normal,
                };
                Ok(IrFunc {
                    name: f.name.clone(),
                    inputs,
                    output,
                    fallible,
                    mode,
                    comments: f.comments.clone(),
                })
            },
        }
    }
}

} // verus!

verus! {

/// Every struct or enum that `m` names has an entry in the pools of `f`.
pub open spec fn refs_pooled(m: TypeModel, f: IrFile) -> bool
    decreases m,
{
    match m {
        TypeModel::GeneralList(b) => refs_pooled(*b, f),
        TypeModel::Optional(b) => refs_pooled(*b, f),
        TypeModel::Boxed(b) => refs_pooled(*b, f),
        TypeModel::StructRef(n) => in_struct_pool(f.struct_pool@, n),
        TypeModel::EnumRef(n) => in_enum_pool(f.enum_pool@, n),
        _ => true,
    }
}

/// No reference of `f` is left unresolved: every struct or enum named by a
/// function's inputs or output, or by a field of a pool entry, has its entry.
pub open spec fn refs_resolved(f: IrFile) -> bool {
    &&& forall|k: int, j: int| 0 <= k < f.funcs.len() && 0 <= j < f.funcs@[k].inputs.len()
        ==> refs_pooled((#[trigger] f.funcs@[k].inputs@[j]).ty@, f)
    &&& forall|k: int| 0 <= k < f.funcs.len() ==> refs_pooled((#[trigger] f.funcs@[k]).output@, f)
    &&& forall|k: int, j: int| 0 <= k < f.struct_pool.len() && 0 <= j < f.struct_pool@[k].fields.len()
        ==> refs_pooled((#[trigger] f.struct_pool@[k].fields@[j]).ty@, f)
    &&& forall|k: int, a: int| 0 <= k < f.enum_pool.len() && 0 <= a < f.enum_pool@[k].variants.len()
        ==> match (#[trigger] f.enum_pool@[k].variants@[a]).kind {
        IrVariantKind::Value => true,
        IrVariantKind::Fields(fs) => forall|j: int| 0 <= j < fs.len() ==> refs_pooled((#[trigger] fs@[j]).ty@, f),
    }
}

proof fn lemma_marked_pooled(m: TypeModel, sm: Seq<bool>, em: Seq<bool>, t: DeclTables, f: IrFile)
    requires
        refs_marked(m, sm, em, t),
        sm.len() == t.structs.len(),
        em.len() == t.enums.len(),
        forall|i: int| 0 <= i < t.structs.len() && sm[i] ==> in_struct_pool(f.struct_pool@, #[trigger] t.structs@[i].name@),
        forall|i: int| 0 <= i < t.enums.len() && em[i] ==> in_enum_pool(f.enum_pool@, #[trigger] t.enums@[i].name@),
    ensures
        refs_pooled(m, f),
    decreases m,
{
    match m {
        TypeModel::GeneralList(b) => lemma_marked_pooled(*b, sm, em, t, f),
        TypeModel::Optional(b) => lemma_marked_pooled(*b, sm, em, t, f),
        TypeModel::Boxed(b) => lemma_marked_pooled(*b, sm, em, t, f),
        TypeModel::StructRef(n) => {
            lemma_last_index_bounds(struct_names(t), n);
            let i = last_index(struct_names(t), n);
            assert(struct_names(t)[i] == t.structs@[i].name@);
        },
        TypeModel::EnumRef(n) => {
            lemma_last_index_bounds(enum_names(t), n);
            let i = last_index(enum_names(t), n);
            assert(enum_names(t)[i] == t.enums@[i].name@);
        },
        _ => {},
    }
}

/// The function names are pairwise distinct.
pub open spec fn names_distinct(fns: Seq<SrcFn>) -> bool {
    forall|i: int, j: int| 0 <= i < j < fns.len() ==> fns[i].name@ != fns[j].name@
}

/// The first name that occurs twice, if any.
fn find_duplicate(fns: &Vec<SrcFn>) -> (r: Option<String>)
    ensures
        r is None ==> names_distinct(fns@),
        r matches Some(n) ==> exists|i: int, j: int| 0 <= i < j < fns.len() && fns@[i].name@ == n@ && fns@[j].name@ == n@,
{
    let mut j: usize = 0;
    while j < fns.len()
        invariant
            j <= fns.len(),
            forall|a: int, b: int| 0 <= a < b < j ==> fns@[a].name@ != fns@[b].name@,
        decreases fns.len() - j,
    {
        let mut i: usize = 0;
        while i < j
            invariant
                i <= j < fns.len(),
                forall|a: int| 0 <= a < i ==> fns@[a].name@ != fns@[j as int].name@,
            decreases j - i,
        {
            if fns[i].name == fns[j].name {
                return Some(fns[j].name.clone());
            }
            i = i + 1;
        }
        j = j + 1;
    }
    None
}

/// `needle` occurs in `hay` starting at `i`.
pub open spec fn occurs_at(hay: Seq<char>, needle: Seq<char>, i: int) -> bool {
    0 <= i && i + needle.len() <= hay.len() && hay.subrange(i, i + needle.len()) == needle
}

pub open spec fn contains(hay: Seq<char>, needle: Seq<char>) -> bool {
    exists|i: int| #[trigger] occurs_at(hay, needle, i)
}

/// Textual search for `needle` in `hay`.
pub fn contains_str(hay: &str, needle: &str) -> (r: bool)
    ensures
        r == contains(hay@, needle@),
{
    let n = hay.unicode_len();
    let m = needle.unicode_len();
    if m > n {
        assert forall|i: int| !occurs_at(hay@, needle@, i) by {}
        return false;
    }
    if m == 0 {
        assert(hay@.subrange(0, 0) =~= needle@);
        assert(occurs_at(hay@, needle@, 0));
        return true;
    }
    let mut i: usize = 0;
    while m <= n - i
        invariant
            n == hay@.len(),
            m == needle@.len(),
            1 <= m <= n,
            i <= n,
            forall|j: int| 0 <= j < i ==> !occurs_at(hay@, needle@, j),
        decreases n - i,
    {
        if str_eq(hay.substring_char(i, i + m), needle) {
            assert(occurs_at(hay@, needle@, i as int));
            return true;
        }
        i = i + 1;
    }
    assert forall|j: int| !occurs_at(hay@, needle@, j) by {
        if 0 <= j && j < i {
        }
    }
    false
}

/// Builds the representation of the exported functions `fns`, resolving the
/// structs and enums they reach through `tables`. `source_rust_content` is
/// the raw source text, searched for a user-defined dispatch handler.
pub fn parse(source_rust_content: &str, fns: &Vec<SrcFn>, tables: &DeclTables) -> (r: Result<IrFile, ParseError>)
    requires
        tables.structs.len() + tables.enums.len() <= usize::MAX,
    ensures
        r matches Ok(file) ==> {
            &&& names_distinct(fns@)
            &&& file.funcs.len() == fns.len()
            &&& forall|k: int| 0 <= k < fns.len() ==> func_matches(#[trigger] file.funcs@[k], fns@[k], *tables)
            &&& crate::ir::struct_names_unique(file.struct_pool@)
            &&& crate::ir::enum_names_unique(file.enum_pool@)
            &&& forall|k: int| 0 <= k < file.struct_pool.len() ==> struct_matches(#[trigger] file.struct_pool@[k], *tables)
            &&& forall|k: int| 0 <= k < file.enum_pool.len() ==> enum_matches(#[trigger] file.enum_pool@[k], *tables)
            &&& file.has_executor == contains(source_rust_content@, crate::generator::handler_name())
            &&& refs_resolved(file)
        },
        r matches Err(e) ==> type_error_justified(e, *tables) || (exists|k: int|
            0 <= k < fns.len() && e == ParseError::UnsupportedSignature(fns@[k].name) && !plain_params(#[trigger] fns@[k]))
            || (e matches ParseError::DuplicateExport(n) && exists|i: int, j: int|
            0 <= i < j < fns.len() && fns@[i].name@ == n@ && fns@[j].name@ == n@),
        (exists|k: int| 0 <= k < fns.len() && !plain_params(#[trigger] fns@[k])) ==> r is Err,
        (exists|sd: Set<int>, se: Set<int>| #[trigger] decls_closed(*tables, sd, se) && forall|k: int|
            0 <= k < fns.len() ==> plain_params(#[trigger] fns@[k]) && resolvable(fns@[k], *tables, sd, se))
            && names_distinct(fns@) ==> r is Ok,
{
    let mut struct_marks: Vec<bool> = Vec::new();
    let mut k: usize = 0;
    while k < tables.structs.len()
        invariant
            k <= tables.structs.len(),
            struct_marks.len() == k,
            forall|j: int| 0 <= j < k ==> !struct_marks@[j],
        decreases tables.structs.len() - k,
    {
        struct_marks.push(false);
        k = k + 1;
    }
    let mut enum_marks: Vec<bool> = Vec::new();
    k = 0;
    while k < tables.enums.len()
        invariant
            k <= tables.enums.len(),
            enum_marks.len() == k,
            forall|j: int| 0 <= j < k ==> !enum_marks@[j],
        decreases tables.enums.len() - k,
    {
        enum_marks.push(false);
        k = k + 1;
    }
    proof {
        lemma_count_none(struct_marks@);
        lemma_count_none(enum_marks@);
    }
    let mut parser = Parser {
        struct_marks,
        enum_marks,
        n_marked: 0,
        struct_pool: Vec::new(),
        enum_pool: Vec::new(),
    };
    let ghost init = parser;
    let mut funcs: Vec<IrFunc> = Vec::new();
    let mut i: usize = 0;
    while i < fns.len()
        invariant
            parser.wf(*tables),
            i <= fns.len(),
            funcs.len() == i,
            forall|j: int| 0 <= j < i ==> func_matches(#[trigger] funcs@[j], fns@[j], *tables),
            forall|j: int| 0 <= j < i ==> plain_params(#[trigger] fns@[j]),
            Parser::settled(init, parser, *tables),
            forall|i: int| 0 <= i < init.struct_marks.len() ==> !init.struct_marks@[i],
            forall|i: int| 0 <= i < init.enum_marks.len() ==> !init.enum_marks@[i],
            forall|k: int| 0 <= k < funcs.len() ==> fields_marked((#[trigger] funcs@[k]).inputs@, parser.struct_marks@, parser.enum_marks@, *tables)
                && refs_marked(funcs@[k].output@, parser.struct_marks@, parser.enum_marks@, *tables),
        decreases fns.len() - i,
    {
        let ghost before = parser;
        let ghost funcs0 = funcs@;
        match parser.parse_function(&fns[i], tables) {
            Ok(func) => {
                funcs.push(func);
                proof {
                    assert forall|ii: int| 0 <= ii < tables.structs.len() && parser.struct_marks@[ii] && !init.struct_marks@[ii]
                        implies in_struct_pool(parser.struct_pool@, #[trigger] tables.structs@[ii].name@) by {
                        if before.struct_marks@[ii] {
                            let k = choose|k: int| 0 <= k < before.struct_pool.len() && (#[trigger] before.struct_pool@[k]).name@ == tables.structs@[ii].name@;
                            assert(parser.struct_pool@[k] == before.struct_pool@[k]);
                        }
                    }
                    assert forall|ii: int| 0 <= ii < tables.enums.len() && parser.enum_marks@[ii] && !init.enum_marks@[ii]
                        implies in_enum_pool(parser.enum_pool@, #[trigger] tables.enums@[ii].name@) by {
                        if before.enum_marks@[ii] {
                            let k = choose|k: int| 0 <= k < before.enum_pool.len() && (#[trigger] before.enum_pool@[k]).name@ == tables.enums@[ii].name@;
                            assert(parser.enum_pool@[k] == before.enum_pool@[k]);
                        }
                    }
                    assert forall|k: int| 0 <= k < funcs.len() implies fields_marked((#[trigger] funcs@[k]).inputs@, parser.struct_marks@, parser.enum_marks@, *tables)
                        && refs_marked(funcs@[k].output@, parser.struct_marks@, parser.enum_marks@, *tables) by {
                        if k < funcs0.len() {
                            assert(funcs@[k] == funcs0[k]);
                            lemma_fields_marked_mono(funcs0[k].inputs@, before.struct_marks@, before.enum_marks@, parser.struct_marks@, parser.enum_marks@, *tables);
                            lemma_refs_marked_mono(funcs0[k].output@, before.struct_marks@, before.enum_marks@, parser.struct_marks@, parser.enum_marks@, *tables);
                        }
                    }
                }
            },
            Err(e) => {
                proof {
                    assert forall|sd: Set<int>, se: Set<int>| #[trigger] decls_closed(*tables, sd, se) implies !(forall|k: int|
                        0 <= k < fns.len() ==> plain_params(#[trigger] fns@[k]) && resolvable(fns@[k], *tables, sd, se)) by {
                        if forall|k: int| 0 <= k < fns.len() ==> plain_params(#[trigger] fns@[k]) && resolvable(fns@[k], *tables, sd, se) {
                            assert(plain_params(fns@[i as int]) && resolvable(fns@[i as int], *tables, sd, se));
                        }
                    }
                }
                return Err(e);
            },
        }
        i = i + 1;
    }
    if let Some(n) = find_duplicate(fns) {
        return Err(ParseError::DuplicateExport(n));
    }
    let has_executor = contains_str(source_rust_content, "FLUTTER_RUST_BRIDGE_HANDLER");
    let ghost p = parser;
    let file = IrFile { funcs, struct_pool: parser.struct_pool, enum_pool: parser.enum_pool, has_executor };
    proof {
        let sm = p.struct_marks@;
        let em = p.enum_marks@;
        assert forall|k: int, j: int| 0 <= k < file.funcs.len() && 0 <= j < file.funcs@[k].inputs.len()
            implies refs_pooled((#[trigger] file.funcs@[k].inputs@[j]).ty@, file) by {
            assert(fields_marked(file.funcs@[k].inputs@, sm, em, *tables));
            lemma_marked_pooled(file.funcs@[k].inputs@[j].ty@, sm, em, *tables, file);
        }
        assert forall|k: int| 0 <= k < file.funcs.len() implies refs_pooled((#[trigger] file.funcs@[k]).output@, file) by {
            lemma_marked_pooled(file.funcs@[k].output@, sm, em, *tables, file);
        }
        assert forall|k: int, j: int| 0 <= k < file.struct_pool.len() && 0 <= j < file.struct_pool@[k].fields.len()
            implies refs_pooled((#[trigger] file.struct_pool@[k].fields@[j]).ty@, file) by {
            assert(fields_marked(p.struct_pool@[k].fields@, sm, em, *tables));
            lemma_marked_pooled(file.struct_pool@[k].fields@[j].ty@, sm, em, *tables, file);
        }
        assert forall|k: int, a: int| 0 <= k < file.enum_pool.len() && 0 <= a < file.enum_pool@[k].variants.len()
            implies match (#[trigger] file.enum_pool@[k].variants@[a]).kind {
            IrVariantKind::Value => true,
            IrVariantKind::Fields(fs) => forall|j: int| 0 <= j < fs.len() ==> refs_pooled((#[trigger] fs@[j]).ty@, file),
        } by {
            assert(variants_marked(p.enum_pool@[k].variants@, sm, em, *tables));
            if let IrVariantKind::Fields(fs) = file.enum_pool@[k].variants@[a].kind {
                assert(fields_marked(fs@, sm, em, *tables));
                assert forall|j: int| 0 <= j < fs.len() implies refs_pooled((#[trigger] fs@[j]).ty@, file) by {
                    lemma_marked_pooled(fs@[j].ty@, sm, em, *tables, file);
                }
            }
        }
    }
    Ok(file)
}

proof fn lemma_count_none(s: Seq<bool>)
    requires
        forall|j: int| 0 <= j < s.len() ==> !s[j],
    ensures
        count_true(s) == 0,
    decreases s.len(),
{
    if s.len() > 0 {
        lemma_count_none(s.drop_last());
    }
}

} // verus!

verus! {

/// Resolution is memoized per name: in a pool built by `parse`, a struct
/// name has exactly one entry, and that entry's fields are the resolutions of
/// the declaration the name selects, however many functions or fields refer
/// to it.
pub proof fn lemma_one_struct_definition_per_name(file: IrFile, t: DeclTables, i: int, j: int)
    requires
        crate::ir::struct_names_unique(file.struct_pool@),
        forall|k: int| 0 <= k < file.struct_pool.len() ==> struct_matches(#[trigger] file.struct_pool@[k], t),
        0 <= i < file.struct_pool.len(),
        0 <= j < file.struct_pool.len(),
        file.struct_pool@[i].name@ == file.struct_pool@[j].name@,
    ensures
        i == j,
        file.struct_pool@[i] == file.struct_pool@[j],
        fields_match(
            file.struct_pool@[i].fields@,
            t.structs@[last_index(struct_names(t), file.struct_pool@[i].name@)].fields@,
            t,
        ),
{
    if i < j {
        assert(file.struct_pool@[i].name@ != file.struct_pool@[j].name@);
    } else if j < i {
        assert(file.struct_pool@[j].name@ != file.struct_pool@[i].name@);
    }
}

/// The same for enums.
pub proof fn lemma_one_enum_definition_per_name(file: IrFile, t: DeclTables, i: int, j: int)
    requires
        crate::ir::enum_names_unique(file.enum_pool@),
        forall|k: int| 0 <= k < file.enum_pool.len() ==> enum_matches(#[trigger] file.enum_pool@[k], t),
        0 <= i < file.enum_pool.len(),
        0 <= j < file.enum_pool.len(),
        file.enum_pool@[i].name@ == file.enum_pool@[j].name@,
    ensures
        i == j,
        enum_matches(file.enum_pool@[i], t),
{
    if i < j {
        assert(file.enum_pool@[i].name@ != file.enum_pool@[j].name@);
    } else if j < i {
        assert(file.enum_pool@[j].name@ != file.enum_pool@[i].name@);
    }
}

} // verus!

verus! {

/// In a representation built by `parse`, a struct that any function or pool
/// field refers to has exactly one pool entry, however often it is referred to.
pub proof fn lemma_referenced_struct_has_one_entry(file: IrFile, n: Seq<char>)
    requires
        crate::ir::struct_names_unique(file.struct_pool@),
        refs_pooled(TypeModel::StructRef(n), file),
    ensures
        exists|k: int| 0 <= k < file.struct_pool.len() && (#[trigger] file.struct_pool@[k]).name@ == n
            && forall|k2: int| 0 <= k2 < file.struct_pool.len() && (#[trigger] file.struct_pool@[k2]).name@ == n ==> k2 == k,
{
    let k = choose|k: int| 0 <= k < file.struct_pool.len() && (#[trigger] file.struct_pool@[k]).name@ == n;
    assert forall|k2: int| 0 <= k2 < file.struct_pool.len() && (#[trigger] file.struct_pool@[k2]).name@ == n implies k2 == k by {
        if k2 < k {
            assert(file.struct_pool@[k2].name@ != file.struct_pool@[k].name@);
        } else if k < k2 {
            assert(file.struct_pool@[k].name@ != file.struct_pool@[k2].name@);
        }
    }
}

/// The same for enums.
pub proof fn lemma_referenced_enum_has_one_entry(file: IrFile, n: Seq<char>)
    requires
        crate::ir::enum_names_unique(file.enum_pool@),
        refs_pooled(TypeModel::EnumRef(n), file),
    ensures
        exists|k: int| 0 <= k < file.enum_pool.len() && (#[trigger] file.enum_pool@[k]).name@ == n
            && forall|k2: int| 0 <= k2 < file.enum_pool.len() && (#[trigger] file.enum_pool@[k2]).name@ == n ==> k2 == k,
{
    let k = choose|k: int| 0 <= k < file.enum_pool.len() && (#[trigger] file.enum_pool@[k]).name@ == n;
    assert forall|k2: int| 0 <= k2 < file.enum_pool.len() && (#[trigger] file.enum_pool@[k2]).name@ == n implies k2 == k by {
        if k2 < k {
            assert(file.enum_pool@[k2].name@ != file.enum_pool@[k].name@);
        } else if k < k2 {
            assert(file.enum_pool@[k].name@ != file.enum_pool@[k2].name@);
        }
    }
}

} // verus!
