//! The intermediate representation: functions, resolved types and the
//! struct and enum pools they refer to.
use vstd::prelude::*;
use vstd::string::*;

verus! {

/// Fixed-width numeric, boolean and unit kinds.
#[derive(Clone, Copy, Debug, PartialEq, Eq, Structural)]
pub enum IrTypePrimitive {
    U8,
    I8,
    U16,
    I16,
    U32,
    I32,
    U64,
    I64,
    Bool,
    Unit,
}

/// Wrapper shapes with a dedicated wire representation.
#[derive(Clone, Copy, Debug, PartialEq, Eq, Structural)]
pub enum IrTypeDelegate {
    String,
    SyncReturnVecU8,
}

/// A resolved type.
#[derive(Debug, PartialEq, Eq)]
pub enum IrType {
    Primitive(IrTypePrimitive),
    Delegate(IrTypeDelegate),
    PrimitiveList(IrTypePrimitive),
    GeneralList(Box<IrType>),
    Optional(Box<IrType>),
    Boxed(Box<IrType>),
    StructRef(String),
    EnumRef(String),
}

/// The mathematical value of an `IrType`: names are character sequences.
pub enum TypeModel {
    Primitive(IrTypePrimitive),
    Delegate(IrTypeDelegate),
    PrimitiveList(IrTypePrimitive),
    GeneralList(Box<TypeModel>),
    Optional(Box<TypeModel>),
    Boxed(Box<TypeModel>),
    StructRef(Seq<char>),
    EnumRef(Seq<char>),
}

pub open spec fn type_model(t: IrType) -> TypeModel
    decreases t,
{
    match t {
        IrType::Primitive(p) => TypeModel::Primitive(p),
        IrType::Delegate(d) => TypeModel::Delegate(d),
        IrType::PrimitiveList(p) => TypeModel::PrimitiveList(p),
        IrType::GeneralList(b) => TypeModel::GeneralList(Box::new(type_model(*b))),
        IrType::Optional(b) => TypeModel::Optional(Box::new(type_model(*b))),
        IrType::Boxed(b) => TypeModel::Boxed(Box::new(type_model(*b))),
        IrType::StructRef(n) => TypeModel::StructRef(n@),
        IrType::EnumRef(n) => TypeModel::EnumRef(n@),
    }
}

impl View for IrType {
    type V = TypeModel;

    open spec fn view(&self) -> TypeModel {
        type_model(*self)
    }
}

/// How a wire function delivers its result.
#[derive(Clone, Copy, Debug, PartialEq, Eq, Structural)]
pub enum IrFuncMode {
    /// Scheduled on the executor, result sent to the call port.
    Normal,
    /// Run inline, result returned as a byte buffer.
    Sync,
    /// Scheduled on the executor, values streamed to the call port.
    Stream,
}

impl IrFuncMode {
    pub open spec fn spec_has_port_argument(self) -> bool {
        self != IrFuncMode::Sync
    }

    #[verifier::when_used_as_spec(spec_has_port_argument)]
    pub fn has_port_argument(self) -> (r: bool)
        ensures
            r == self.spec_has_port_argument(),
    {
        !matches!(self, IrFuncMode::Sync)
    }

    pub open spec fn spec_ffi_call_mode(self) -> Seq<char> {
        match self {
            IrFuncMode::Normal => "Normal"@,
            IrFuncMode::Sync => "Sync"@,
            IrFuncMode::Stream => "Stream"@,
        }
    }

    pub fn ffi_call_mode(self) -> (r: &'static str)
        ensures
            r@ == self.spec_ffi_call_mode(),
    {
        match self {
            IrFuncMode::Normal => "Normal",
            IrFuncMode::Sync => "Sync",
            IrFuncMode::Stream => "Stream",
        }
    }
}

/// A named, typed field with its documentation lines.
#[derive(Debug, PartialEq, Eq)]
pub struct IrField {
    pub name: String,
    pub ty: IrType,
    pub comments: Vec<String>,
}

#[derive(Debug, PartialEq, Eq)]
pub struct IrStruct {
    pub name: String,
    pub fields: Vec<IrField>,
}

/// A variant is unit-like or carries named fields.
#[derive(Debug, PartialEq, Eq)]
pub enum IrVariantKind {
    Value,
    Fields(Vec<IrField>),
}

#[derive(Debug, PartialEq, Eq)]
pub struct IrVariant {
    pub name: String,
    pub kind: IrVariantKind,
}

#[derive(Debug, PartialEq, Eq)]
pub struct IrEnum {
    pub name: String,
    pub variants: Vec<IrVariant>,
}

#[derive(Debug, PartialEq, Eq)]
pub struct IrFunc {
    pub name: String,
    pub inputs: Vec<IrField>,
    pub output: IrType,
    pub fallible: bool,
    pub mode: IrFuncMode,
    pub comments: Vec<String>,
}

/// The whole representation of one API file.
#[derive(Debug, PartialEq, Eq)]
pub struct IrFile {
    pub funcs: Vec<IrFunc>,
    pub struct_pool: Vec<IrStruct>,
    pub enum_pool: Vec<IrEnum>,
    pub has_executor: bool,
}

/// Pool entries have pairwise distinct names.
pub open spec fn struct_names_unique(pool: Seq<IrStruct>) -> bool {
    forall|i: int, j: int| 0 <= i < j < pool.len() ==> pool[i].name@ != pool[j].name@
}

pub open spec fn enum_names_unique(pool: Seq<IrEnum>) -> bool {
    forall|i: int, j: int| 0 <= i < j < pool.len() ==> pool[i].name@ != pool[j].name@
}

pub open spec fn prim_name(p: IrTypePrimitive) -> Seq<char> {
    match p {
        IrTypePrimitive::U8 => "u8"@,
        IrTypePrimitive::I8 => "i8"@,
        IrTypePrimitive::U16 => "u16"@,
        IrTypePrimitive::I16 => "i16"@,
        IrTypePrimitive::U32 => "u32"@,
        IrTypePrimitive::I32 => "i32"@,
        IrTypePrimitive::U64 => "u64"@,
        IrTypePrimitive::I64 => "i64"@,
        IrTypePrimitive::Bool => "bool"@,
        IrTypePrimitive::Unit => "()"@,
    }
}

pub fn primitive_name(p: IrTypePrimitive) -> (r: &'static str)
    ensures
        r@ == prim_name(p),
{
    match p {
        IrTypePrimitive::U8 => "u8",
        IrTypePrimitive::I8 => "i8",
        IrTypePrimitive::U16 => "u16",
        IrTypePrimitive::I16 => "i16",
        IrTypePrimitive::U32 => "u32",
        IrTypePrimitive::I32 => "i32",
        IrTypePrimitive::U64 => "u64",
        IrTypePrimitive::I64 => "i64",
        IrTypePrimitive::Bool => "bool",
        IrTypePrimitive::Unit => "()",
    }
}

/// Identifier form of a primitive kind, used inside generated names.
pub open spec fn prim_ident(p: IrTypePrimitive) -> Seq<char> {
    match p {
        IrTypePrimitive::Unit => "unit"@,
        _ => prim_name(p),
    }
}

pub fn primitive_ident(p: IrTypePrimitive) -> (r: &'static str)
    ensures
        r@ == prim_ident(p),
{
    match p {
        IrTypePrimitive::Unit => "unit",
        _ => primitive_name(p),
    }
}

/// The domain-side spelling of a type.
pub open spec fn api_name(t: TypeModel) -> Seq<char>
    decreases t,
{
    match t {
        TypeModel::Primitive(p) => prim_name(p),
        TypeModel::Delegate(IrTypeDelegate::String) => "String"@,
        TypeModel::Delegate(IrTypeDelegate::SyncReturnVecU8) => "SyncReturn<Vec<u8>>"@,
        TypeModel::PrimitiveList(p) => "Vec<"@ + prim_name(p) + ">"@,
        TypeModel::GeneralList(b) => "Vec<"@ + api_name(*b) + ">"@,
        TypeModel::Optional(b) => "Option<"@ + api_name(*b) + ">"@,
        TypeModel::Boxed(b) => "Box<"@ + api_name(*b) + ">"@,
        TypeModel::StructRef(n) => n,
        TypeModel::EnumRef(n) => n,
    }
}

/// An identifier that names a type uniquely inside generated code.
pub open spec fn safe_ident(t: TypeModel) -> Seq<char>
    decreases t,
{
    match t {
        TypeModel::Primitive(p) => prim_ident(p),
        TypeModel::Delegate(IrTypeDelegate::String) => "String"@,
        TypeModel::Delegate(IrTypeDelegate::SyncReturnVecU8) => "SyncReturnVecU8"@,
        TypeModel::PrimitiveList(p) => "list_"@ + prim_ident(p),
        TypeModel::GeneralList(b) => "list_"@ + safe_ident(*b),
        TypeModel::Optional(b) => "opt_"@ + safe_ident(*b),
        TypeModel::Boxed(b) => "box_"@ + safe_ident(*b),
        TypeModel::StructRef(n) => n,
        TypeModel::EnumRef(n) => n,
    }
}

/// The wire-side spelling of a type, without pointer modifier.
pub open spec fn wire_name(t: TypeModel) -> Seq<char>
    decreases t,
{
    match t {
        TypeModel::Primitive(p) => prim_name(p),
        TypeModel::Delegate(_) => "wire_uint_8_list"@,
        TypeModel::PrimitiveList(p) => "wire_list_"@ + prim_ident(p),
        TypeModel::GeneralList(b) => "wire_list_"@ + safe_ident(*b),
        TypeModel::Optional(b) => wire_name(*b),
        TypeModel::Boxed(b) => wire_name(*b),
        TypeModel::StructRef(n) => "wire_"@ + n,
        TypeModel::EnumRef(n) => "wire_"@ + n,
    }
}

/// Primitives cross the boundary by value, everything else by pointer.
pub open spec fn wire_modifier(t: TypeModel) -> Seq<char> {
    match t {
        TypeModel::Primitive(_) => ""@,
        _ => "*mut "@,
    }
}

/// How an element is held inside a wire array.
pub open spec fn ptr_modifier(t: TypeModel) -> Seq<char> {
    match t {
        TypeModel::Primitive(_) | TypeModel::StructRef(_) | TypeModel::EnumRef(_) => ""@,
        _ => "*mut "@,
    }
}

impl IrType {
    pub fn rust_api_type(&self) -> (r: String)
        ensures
            r@ == api_name(self@),
        decreases self,
    {
        match self {
            IrType::Primitive(p) => String::from_str(primitive_name(*p)),
            IrType::Delegate(IrTypeDelegate::String) => String::from_str("String"),
            IrType::Delegate(IrTypeDelegate::SyncReturnVecU8) => String::from_str("SyncReturn<Vec<u8>>"),
            IrType::PrimitiveList(p) => String::from_str("Vec<").concat(primitive_name(*p)).concat(">"),
            IrType::GeneralList(b) => String::from_str("Vec<").concat(b.rust_api_type().as_str()).concat(">"),
            IrType::Optional(b) => String::from_str("Option<").concat(b.rust_api_type().as_str()).concat(">"),
            IrType::Boxed(b) => String::from_str("Box<").concat(b.rust_api_type().as_str()).concat(">"),
            IrType::StructRef(n) => n.clone(),
            IrType::EnumRef(n) => n.clone(),
        }
    }

    pub fn safe_ident(&self) -> (r: String)
        ensures
            r@ == safe_ident(self@),
        decreases self,
    {
        match self {
            IrType::Primitive(p) => String::from_str(primitive_ident(*p)),
            IrType::Delegate(IrTypeDelegate::String) => String::from_str("String"),
            IrType::Delegate(IrTypeDelegate::SyncReturnVecU8) => String::from_str("SyncReturnVecU8"),
            IrType::PrimitiveList(p) => String::from_str("list_").concat(primitive_ident(*p)),
            IrType::GeneralList(b) => String::from_str("list_").concat(b.safe_ident().as_str()),
            IrType::Optional(b) => String::from_str("opt_").concat(b.safe_ident().as_str()),
            IrType::Boxed(b) => String::from_str("box_").concat(b.safe_ident().as_str()),
            IrType::StructRef(n) => n.clone(),
            IrType::EnumRef(n) => n.clone(),
        }
    }

    pub fn rust_wire_type(&self) -> (r: String)
        ensures
            r@ == wire_name(self@),
        decreases self,
    {
        match self {
            IrType::Primitive(p) => String::from_str(primitive_name(*p)),
            IrType::Delegate(_) => String::from_str("wire_uint_8_list"),
            IrType::PrimitiveList(p) => String::from_str("wire_list_").concat(primitive_ident(*p)),
            IrType::GeneralList(b) => String::from_str("wire_list_").concat(b.safe_ident().as_str()),
            IrType::Optional(b) => b.rust_wire_type(),
            IrType::Boxed(b) => b.rust_wire_type(),
            IrType::StructRef(n) => String::from_str("wire_").concat(n.as_str()),
            IrType::EnumRef(n) => String::from_str("wire_").concat(n.as_str()),
        }
    }

    pub fn rust_wire_modifier(&self) -> (r: &'static str)
        ensures
            r@ == wire_modifier(self@),
    {
        match self {
            IrType::Primitive(_) => "",
            _ => "*mut ",
        }
    }

    pub fn rust_ptr_modifier(&self) -> (r: &'static str)
        ensures
            r@ == ptr_modifier(self@),
    {
        match self {
            IrType::Primitive(_) | IrType::StructRef(_) | IrType::EnumRef(_) => "",
            _ => "*mut ",
        }
    }
}

} // verus!

verus! {

impl IrType {
    /// A copy with the same value.
    pub fn copy(&self) -> (r: IrType)
        ensures
            r@ == self@,
        decreases self,
    {
        match self {
            IrType::Primitive(p) => IrType::Primitive(*p),
            IrType::Delegate(d) => IrType::Delegate(*d),
            IrType::PrimitiveList(p) => IrType::PrimitiveList(*p),
            IrType::GeneralList(b) => IrType::GeneralList(Box::new(b.copy())),
            IrType::Optional(b) => IrType::Optional(Box::new(b.copy())),
            IrType::Boxed(b) => IrType::Boxed(Box::new(b.copy())),
            IrType::StructRef(n) => IrType::StructRef(n.clone()),
            IrType::EnumRef(n) => IrType::EnumRef(n.clone()),
        }
    }

    /// Whether two types have the same value.
    pub fn same(&self, other: &IrType) -> (r: bool)
        ensures
            r == (self@ == other@),
        decreases self,
    {
        match (self, other) {
            (IrType::Primitive(a), IrType::Primitive(b)) => *a == *b,
            (IrType::Delegate(a), IrType::Delegate(b)) => *a == *b,
            (IrType::PrimitiveList(a), IrType::PrimitiveList(b)) => *a == *b,
            (IrType::GeneralList(a), IrType::GeneralList(b)) => a.same(b),
            (IrType::Optional(a), IrType::Optional(b)) => a.same(b),
            (IrType::Boxed(a), IrType::Boxed(b)) => a.same(b),
            (IrType::StructRef(a), IrType::StructRef(b)) => *a == *b,
            (IrType::EnumRef(a), IrType::EnumRef(b)) => *a == *b,
            _ => false,
        }
    }
}

/// Number of constructors in a type.
pub open spec fn tsize(t: TypeModel) -> nat
    decreases t,
{
    match t {
        TypeModel::GeneralList(b) => 1 + tsize(*b),
        TypeModel::Optional(b) => 1 + tsize(*b),
        TypeModel::Boxed(b) => 1 + tsize(*b),
        _ => 1,
    }
}

} // verus!

verus! {

pub open spec fn models(v: Seq<IrType>) -> Seq<TypeModel> {
    v.map_values(|t: IrType| t@)
}

pub open spec fn in_types(v: Seq<IrType>, m: TypeModel) -> bool {
    exists|k: int| 0 <= k < v.len() && (#[trigger] v[k])@ == m
}

pub open spec fn distinct_models(v: Seq<IrType>) -> bool {
    forall|i: int, j: int| 0 <= i < j < v.len() ==> (#[trigger] v[i])@ != (#[trigger] v[j])@
}

pub open spec fn pool_struct_names(f: IrFile) -> Seq<Seq<char>> {
    f.struct_pool@.map_values(|s: IrStruct| s.name@)
}

pub open spec fn pool_enum_names(f: IrFile) -> Seq<Seq<char>> {
    f.enum_pool@.map_values(|e: IrEnum| e.name@)
}

/// Everything that `x` directly refers to is in `v`: the element of a
/// container, the fields of a struct, the variant fields of an enum.
pub open spec fn expanded_in(x: TypeModel, v: Seq<IrType>, f: IrFile) -> bool {
    match x {
        TypeModel::GeneralList(b) => in_types(v, *b),
        TypeModel::Optional(b) => in_types(v, *b),
        TypeModel::Boxed(b) => in_types(v, *b),
        TypeModel::StructRef(n) => {
            let i = crate::text::last_index(pool_struct_names(f), n);
            i >= 0 ==> forall|j: int|
                0 <= j < f.struct_pool@[i].fields.len() ==> in_types(v, (#[trigger] f.struct_pool@[i].fields@[j]).ty@)
        },
        TypeModel::EnumRef(n) => {
            let i = crate::text::last_index(pool_enum_names(f), n);
            i >= 0 ==> forall|a: int|
                0 <= a < f.enum_pool@[i].variants.len() ==> match (#[trigger] f.enum_pool@[i].variants@[a]).kind {
                    IrVariantKind::Value => true,
                    IrVariantKind::Fields(fs) => forall|j: int|
                        0 <= j < fs.len() ==> in_types(v, (#[trigger] fs@[j]).ty@),
                }
        },
        _ => true,
    }
}

/// `v` holds everything reachable from its own elements.
pub open spec fn closed_in(v: Seq<IrType>, f: IrFile) -> bool {
    forall|k: int| 0 <= k < v.len() ==> expanded_in((#[trigger] v[k])@, v, f)
}

/// The root types of the functions: their inputs, their outputs, or both.
pub open spec fn is_root(m: TypeModel, f: IrFile, include_func_inputs: bool, include_func_output: bool) -> bool {
    exists|i: int| 0 <= i < f.funcs.len() && ({
        ||| include_func_inputs && exists|j: int|
            0 <= j < f.funcs@[i].inputs.len() && (#[trigger] f.funcs@[i].inputs@[j]).ty@ == m
        ||| include_func_output && (#[trigger] f.funcs@[i]).output@ == m
    })
}

/// `x` refers directly to `m`: as the element of a container, or as the type
/// of a field of the struct or enum that `x` names.
pub open spec fn refers(x: TypeModel, m: TypeModel, f: IrFile) -> bool {
    match x {
        TypeModel::GeneralList(b) => *b == m,
        TypeModel::Optional(b) => *b == m,
        TypeModel::Boxed(b) => *b == m,
        TypeModel::StructRef(n) => {
            let i = crate::text::last_index(pool_struct_names(f), n);
            i >= 0 && field_type_of(f.struct_pool@[i], m)
        },
        TypeModel::EnumRef(n) => {
            let i = crate::text::last_index(pool_enum_names(f), n);
            i >= 0 && variant_field_type_of(f.enum_pool@[i], m)
        },
        _ => false,
    }
}

/// `m` is the type of a field of `s`.
pub open spec fn field_type_of(s: IrStruct, m: TypeModel) -> bool {
    exists|j: int| 0 <= j < s.fields.len() && (#[trigger] s.fields@[j]).ty@ == m
}

/// `m` is the type of a field of a variant of `e`.
pub open spec fn variant_field_type_of(e: IrEnum, m: TypeModel) -> bool {
    exists|a: int, j: int| 0 <= a < e.variants.len() && #[trigger] variant_field_is(e.variants@[a], j, m)
}

pub open spec fn variant_field_is(v: IrVariant, j: int, m: TypeModel) -> bool {
    match v.kind {
        IrVariantKind::Value => false,
        IrVariantKind::Fields(fs) => 0 <= j < fs.len() && fs@[j].ty@ == m,
    }
}

/// Every element of `v` is a root or is referred to by an earlier element:
/// nothing in `v` is unreachable from the functions.
#[verifier::opaque]
pub open spec fn reached(v: Seq<IrType>, f: IrFile, include_func_inputs: bool, include_func_output: bool) -> bool {
    forall|k: int| 0 <= k < v.len() ==> is_root((#[trigger] v[k])@, f, include_func_inputs, include_func_output)
        || exists|k2: int| 0 <= k2 < k && refers(v[k2]@, v[k]@, f)
}

/// Appending types that an element already present refers to keeps a
/// list reached.
pub proof fn lemma_reached_extend(
    before: Seq<IrType>,
    after: Seq<IrType>,
    j: int,
    f: IrFile,
    include_func_inputs: bool,
    include_func_output: bool,
)
    requires
        reached(before, f, include_func_inputs, include_func_output),
        0 <= j < before.len(),
        before.len() <= after.len(),
        forall|k: int| 0 <= k < before.len() ==> #[trigger] after[k] == before[k],
        forall|k: int| before.len() <= k < after.len() ==> refers(before[j]@, (#[trigger] after[k])@, f),
    ensures
        reached(after, f, include_func_inputs, include_func_output),
{
    reveal(reached);
    assert forall|k: int| 0 <= k < after.len() implies is_root((#[trigger] after[k])@, f, include_func_inputs, include_func_output)
        || exists|k2: int| 0 <= k2 < k && refers(after[k2]@, after[k]@, f) by {
        if k < before.len() {
            if !is_root(before[k]@, f, include_func_inputs, include_func_output) {
                let k2 = choose|k2: int| 0 <= k2 < k && refers(before[k2]@, before[k]@, f);
                assert(after[k2] == before[k2]);
            }
        } else {
            assert(after[j] == before[j]);
        }
    }
}

pub open spec fn sum_sizes(s: Seq<TypeModel>) -> nat
    decreases s.len(),
{
    if s.len() == 0 {
        0
    } else {
        tsize(s[0]) + sum_sizes(s.drop_first())
    }
}

pub proof fn lemma_sum_sizes_push(s: Seq<TypeModel>, x: TypeModel)
    ensures
        sum_sizes(s.push(x)) == sum_sizes(s) + tsize(x),
    decreases s.len(),
{
    if s.len() > 0 {
        assert(s.push(x).drop_first() =~= s.drop_first().push(x));
        lemma_sum_sizes_push(s.drop_first(), x);
        assert(s.push(x)[0] == s[0]);
    } else {
        assert(s.push(x).drop_first() =~= Seq::<TypeModel>::empty());
        assert(sum_sizes(Seq::<TypeModel>::empty()) == 0);
        assert(s.push(x)[0] == x);
    }
}

fn contains_type(v: &Vec<IrType>, t: &IrType) -> (r: bool)
    ensures
        r == in_types(v@, t@),
{
    let mut k: usize = 0;
    while k < v.len()
        invariant
            k <= v.len(),
            forall|j: int| 0 <= j < k ==> (#[trigger] v@[j])@ != t@,
        decreases v.len() - k,
    {
        if v[k].same(t) {
            return true;
        }
        k = k + 1;
    }
    false
}

/// Appends `t` when no equal type is present yet.
fn add_type(v: &mut Vec<IrType>, t: &IrType)
    ensures
        in_types(final(v)@, t@),
        distinct_models(old(v)@) ==> distinct_models(final(v)@),
        final(v)@.len() >= old(v)@.len(),
        forall|k: int| 0 <= k < old(v)@.len() ==> #[trigger] final(v)@[k] == old(v)@[k],
        final(v)@.len() == old(v)@.len() || (final(v)@.len() == old(v)@.len() + 1 && final(v)@.last()@ == t@),
        forall|m: TypeModel| in_types(old(v)@, m) ==> #[trigger] in_types(final(v)@, m),
        forall|m: TypeModel| #[trigger] in_types(final(v)@, m) ==> in_types(old(v)@, m) || m == t@,
{
    if !contains_type(v, t) {
        let ghost before = v@;
        v.push(t.copy());
        proof {
            assert(v@[before.len() as int] == v@.last());
            assert forall|m: TypeModel| in_types(before, m) implies #[trigger] in_types(v@, m) by {
                let k = choose|k: int| 0 <= k < before.len() && (#[trigger] before[k])@ == m;
                assert(v@[k] == before[k]);
            }
            assert forall|m: TypeModel| #[trigger] in_types(v@, m) implies in_types(before, m) || m == t@ by {
                let k = choose|k: int| 0 <= k < v@.len() && (#[trigger] v@[k])@ == m;
                if k < before.len() {
                    assert(v@[k] == before[k]);
                }
            }
        }
    }
}

} // verus!

verus! {

pub proof fn lemma_expanded_mono(x: TypeModel, v1: Seq<IrType>, v2: Seq<IrType>, f: IrFile)
    requires
        expanded_in(x, v1, f),
        forall|m: TypeModel| in_types(v1, m) ==> #[trigger] in_types(v2, m),
    ensures
        expanded_in(x, v2, f),
{
}

/// All field types of enum `e` are in `v`.
pub open spec fn enum_fields_in(e: IrEnum, v: Seq<IrType>) -> bool {
    forall|a: int| 0 <= a < e.variants.len() ==> match (#[trigger] e.variants@[a]).kind {
        IrVariantKind::Value => true,
        IrVariantKind::Fields(fs) => forall|j: int| 0 <= j < fs.len() ==> in_types(v, (#[trigger] fs@[j]).ty@),
    }
}

pub open spec fn struct_fields_in(s: IrStruct, v: Seq<IrType>) -> bool {
    forall|j: int| 0 <= j < s.fields.len() ==> in_types(v, (#[trigger] s.fields@[j]).ty@)
}

pub fn find_pool_struct(f: &IrFile, n: &String) -> (r: Option<usize>)
    ensures
        r matches Some(i) ==> i == crate::text::last_index(pool_struct_names(*f), n@) && i < f.struct_pool.len(),
        r is None ==> crate::text::last_index(pool_struct_names(*f), n@) < 0,
{
    let mut i: usize = f.struct_pool.len();
    assert(pool_struct_names(*f).subrange(0, i as int) =~= pool_struct_names(*f));
    while i > 0
        invariant
            i <= f.struct_pool.len(),
            crate::text::last_index(pool_struct_names(*f), n@) == crate::text::last_index(
                pool_struct_names(*f).subrange(0, i as int),
                n@,
            ),
        decreases i,
    {
        assert(pool_struct_names(*f).subrange(0, i as int).drop_last() =~= pool_struct_names(*f).subrange(0, i - 1));
        if f.struct_pool[i - 1].name == *n {
            return Some(i - 1);
        }
        i = i - 1;
    }
    None
}

pub fn find_pool_enum(f: &IrFile, n: &String) -> (r: Option<usize>)
    ensures
        r matches Some(i) ==> i == crate::text::last_index(pool_enum_names(*f), n@) && i < f.enum_pool.len(),
        r is None ==> crate::text::last_index(pool_enum_names(*f), n@) < 0,
{
    let mut i: usize = f.enum_pool.len();
    assert(pool_enum_names(*f).subrange(0, i as int) =~= pool_enum_names(*f));
    while i > 0
        invariant
            i <= f.enum_pool.len(),
            crate::text::last_index(pool_enum_names(*f), n@) == crate::text::last_index(
                pool_enum_names(*f).subrange(0, i as int),
                n@,
            ),
        decreases i,
    {
        assert(pool_enum_names(*f).subrange(0, i as int).drop_last() =~= pool_enum_names(*f).subrange(0, i - 1));
        if f.enum_pool[i - 1].name == *n {
            return Some(i - 1);
        }
        i = i - 1;
    }
    None
}

/// Adds the field types of struct `s` to `v`.
fn add_struct_fields(v: &mut Vec<IrType>, s: &IrStruct)
    ensures
        forall|k: int| old(v)@.len() <= k < final(v)@.len() ==> field_type_of(*s, (#[trigger] final(v)@[k])@),
        struct_fields_in(*s, final(v)@),
        distinct_models(old(v)@) ==> distinct_models(final(v)@),
        final(v)@.len() >= old(v)@.len(),
        forall|k: int| 0 <= k < old(v)@.len() ==> #[trigger] final(v)@[k] == old(v)@[k],
        forall|m: TypeModel| in_types(old(v)@, m) ==> #[trigger] in_types(final(v)@, m),
{
    let ghost start = v@;
    let mut j: usize = 0;
    while j < s.fields.len()
        invariant
            j <= s.fields.len(),
            forall|jj: int| 0 <= jj < j ==> in_types(v@, (#[trigger] s.fields@[jj]).ty@),
            forall|k: int| start.len() <= k < v@.len() ==> field_type_of(*s, (#[trigger] v@[k])@),
            start == old(v)@,
            distinct_models(start) ==> distinct_models(v@),
            v@.len() >= start.len(),
            forall|k: int| 0 <= k < start.len() ==> #[trigger] v@[k] == start[k],
            forall|m: TypeModel| in_types(start, m) ==> #[trigger] in_types(v@, m),
        decreases s.fields.len() - j,
    {
        let ghost before = v@;
        add_type(v, &s.fields[j].ty);
        proof {
            assert forall|k: int| start.len() <= k < v@.len() implies field_type_of(*s, (#[trigger] v@[k])@) by {
                if k < before.len() {
                    assert(v@[k] == before[k]);
                } else {
                    assert(v@[k]@ == s.fields@[j as int].ty@);
                }
            }
        }
        j = j + 1;
    }
}

/// Adds the variant field types of enum `e` to `v`.
fn add_enum_fields(v: &mut Vec<IrType>, e: &IrEnum)
    ensures
        forall|k: int| old(v)@.len() <= k < final(v)@.len() ==> variant_field_type_of(*e, (#[trigger] final(v)@[k])@),
        enum_fields_in(*e, final(v)@),
        distinct_models(old(v)@) ==> distinct_models(final(v)@),
        final(v)@.len() >= old(v)@.len(),
        forall|k: int| 0 <= k < old(v)@.len() ==> #[trigger] final(v)@[k] == old(v)@[k],
        forall|m: TypeModel| in_types(old(v)@, m) ==> #[trigger] in_types(final(v)@, m),
{
    let ghost start = v@;
    let mut a: usize = 0;
    while a < e.variants.len()
        invariant
            a <= e.variants.len(),
            forall|aa: int| 0 <= aa < a ==> match (#[trigger] e.variants@[aa]).kind {
                IrVariantKind::Value => true,
                IrVariantKind::Fields(fs) => forall|j: int| 0 <= j < fs.len() ==> in_types(v@, (#[trigger] fs@[j]).ty@),
            },
            distinct_models(start) ==> distinct_models(v@),
            v@.len() >= start.len(),
            forall|k: int| 0 <= k < start.len() ==> #[trigger] v@[k] == start[k],
            forall|m: TypeModel| in_types(start, m) ==> #[trigger] in_types(v@, m),
            forall|k: int| start.len() <= k < v@.len() ==> variant_field_type_of(*e, (#[trigger] v@[k])@),
            start == old(v)@,
        decreases e.variants.len() - a,
    {
        match &e.variants[a].kind {
            IrVariantKind::Value => {},
            IrVariantKind::Fields(fs) => {
                let ghost mid = v@;
                let mut j: usize = 0;
                while j < fs.len()
                    invariant
                        j <= fs.len(),
                        forall|jj: int| 0 <= jj < j ==> in_types(v@, (#[trigger] fs@[jj]).ty@),
                        distinct_models(mid) ==> distinct_models(v@),
                        v@.len() >= mid.len(),
                        forall|k: int| 0 <= k < mid.len() ==> #[trigger] v@[k] == mid[k],
                        forall|m: TypeModel| in_types(mid, m) ==> #[trigger] in_types(v@, m),
                        e.variants@[a as int].kind == IrVariantKind::Fields(*fs),
                        a < e.variants.len(),
                        forall|k: int| mid.len() <= k < v@.len() ==> variant_field_type_of(*e, (#[trigger] v@[k])@),
                    decreases fs.len() - j,
                {
                    let ghost before = v@;
                    add_type(v, &fs[j].ty);
                    proof {
                        assert forall|k: int| mid.len() <= k < v@.len() implies variant_field_type_of(*e, (#[trigger] v@[k])@) by {
                            if k < before.len() {
                                assert(v@[k] == before[k]);
                            } else {
                                assert(v@[k]@ == fs@[j as int].ty@);
                                assert(variant_field_is(e.variants@[a as int], j as int, v@[k]@));
                            }
                        }
                    }
                    j = j + 1;
                }
                proof {
                    assert forall|k: int| start.len() <= k < v@.len() implies variant_field_type_of(*e, (#[trigger] v@[k])@) by {
                        if k < mid.len() {
                            assert(v@[k] == mid[k]);
                        }
                    }
                }
            },
        }
        a = a + 1;
    }
}

} // verus!

verus! {

impl IrFile {
    /// The types reachable from the functions' inputs and/or outputs, each
    /// once: containers' elements, struct fields and enum variant fields
    /// included.
    pub fn distinct_types(&self, include_func_inputs: bool, include_func_output: bool) -> (r: Vec<IrType>)
        requires
            self.struct_pool.len() + self.enum_pool.len() <= usize::MAX,
        ensures
            distinct_models(r@),
            closed_in(r@, *self),
            reached(r@, *self, include_func_inputs, include_func_output),
            forall|m: TypeModel| #[trigger] is_root(m, *self, include_func_inputs, include_func_output) ==> in_types(r@, m),
    {
        let mut acc: Vec<IrType> = Vec::new();
        let mut i: usize = 0;
        while i < self.funcs.len()
            invariant
                i <= self.funcs.len(),
                distinct_models(acc@),
                forall|k: int| 0 <= k < acc.len() ==> is_root((#[trigger] acc@[k])@, *self, include_func_inputs, include_func_output),
                forall|m: TypeModel| #[trigger] is_root(m, *self, include_func_inputs, include_func_output)
                    ==> in_types(acc@, m) || exists|ii: int| i <= ii < self.funcs.len() && ({
                    ||| include_func_inputs && exists|j: int|
                        0 <= j < self.funcs@[ii].inputs.len() && (#[trigger] self.funcs@[ii].inputs@[j]).ty@ == m
                    ||| include_func_output && (#[trigger] self.funcs@[ii]).output@ == m
                }),
            decreases self.funcs.len() - i,
        {
            let f = &self.funcs[i];
            if include_func_inputs {
                let mut j: usize = 0;
                while j < f.inputs.len()
                    invariant
                        j <= f.inputs.len(),
                        *f == self.funcs@[i as int],
                        i < self.funcs.len(),
                        include_func_inputs,
                        distinct_models(acc@),
                        forall|k: int| 0 <= k < acc.len() ==> is_root((#[trigger] acc@[k])@, *self, include_func_inputs, include_func_output),
                        forall|jj: int| 0 <= jj < j ==> in_types(acc@, (#[trigger] f.inputs@[jj]).ty@),
                        forall|m: TypeModel| #[trigger] is_root(m, *self, include_func_inputs, include_func_output)
                            ==> in_types(acc@, m) || exists|ii: int| i <= ii < self.funcs.len() && ({
                            ||| include_func_inputs && exists|j: int|
                                0 <= j < self.funcs@[ii].inputs.len() && (#[trigger] self.funcs@[ii].inputs@[j]).ty@ == m
                            ||| include_func_output && (#[trigger] self.funcs@[ii]).output@ == m
                        }),
                    decreases f.inputs.len() - j,
                {
                    let ghost before = acc@;
                    add_type(&mut acc, &f.inputs[j].ty);
                    proof {
                        assert(self.funcs@[i as int].inputs@[j as int].ty@ == f.inputs@[j as int].ty@);
                        assert(is_root(f.inputs@[j as int].ty@, *self, include_func_inputs, include_func_output));
                        assert forall|k: int| 0 <= k < acc.len() implies is_root((#[trigger] acc@[k])@, *self, include_func_inputs, include_func_output) by {
                            if k < before.len() {
                                assert(acc@[k] == before[k]);
                            }
                        }
                    }
                    j = j + 1;
                }
            }
            if include_func_output {
                let ghost before = acc@;
                add_type(&mut acc, &f.output);
                proof {
                    assert(is_root(f.output@, *self, include_func_inputs, include_func_output));
                    assert forall|k: int| 0 <= k < acc.len() implies is_root((#[trigger] acc@[k])@, *self, include_func_inputs, include_func_output) by {
                        if k < before.len() {
                            assert(acc@[k] == before[k]);
                        }
                    }
                }
            }
            proof {
                assert forall|m: TypeModel| #[trigger] is_root(m, *self, include_func_inputs, include_func_output)
                    implies in_types(acc@, m) || exists|ii: int| i + 1 <= ii < self.funcs.len() && ({
                    ||| include_func_inputs && exists|j: int|
                        0 <= j < self.funcs@[ii].inputs.len() && (#[trigger] self.funcs@[ii].inputs@[j]).ty@ == m
                    ||| include_func_output && (#[trigger] self.funcs@[ii]).output@ == m
                }) by {
                    if !in_types(acc@, m) {
                        let ii = choose|ii: int| i <= ii < self.funcs.len() && ({
                            ||| include_func_inputs && exists|j: int|
                                0 <= j < self.funcs@[ii].inputs.len() && (#[trigger] self.funcs@[ii].inputs@[j]).ty@ == m
                            ||| include_func_output && (#[trigger] self.funcs@[ii]).output@ == m
                        });
                        assert(ii != i);
                    }
                }
            }
            i = i + 1;
        }
        let mut struct_marks: Vec<bool> = Vec::new();
        let mut k: usize = 0;
        while k < self.struct_pool.len()
            invariant
                k <= self.struct_pool.len(),
                struct_marks.len() == k,
                forall|j: int| 0 <= j < k ==> !struct_marks@[j],
            decreases self.struct_pool.len() - k,
        {
            struct_marks.push(false);
            k = k + 1;
        }
        let mut enum_marks: Vec<bool> = Vec::new();
        k = 0;
        while k < self.enum_pool.len()
            invariant
                k <= self.enum_pool.len(),
                enum_marks.len() == k,
                forall|j: int| 0 <= j < k ==> !enum_marks@[j],
            decreases self.enum_pool.len() - k,
        {
            enum_marks.push(false);
            k = k + 1;
        }
        proof {
            lemma_no_marks(struct_marks@);
            lemma_no_marks(enum_marks@);
        }
        proof {
            reveal(reached);
        }
        let mut count: usize = 0;
        let ghost total = self.struct_pool.len() + self.enum_pool.len();
        let mut j: usize = 0;
        while j < acc.len()
            invariant
                j <= acc.len(),
                total == self.struct_pool.len() + self.enum_pool.len(),
                total <= usize::MAX,
                distinct_models(acc@),
                forall|m: TypeModel| #[trigger] is_root(m, *self, include_func_inputs, include_func_output) ==> in_types(acc@, m),
                forall|k: int| 0 <= k < j ==> expanded_in((#[trigger] acc@[k])@, acc@, *self),
                reached(acc@, *self, include_func_inputs, include_func_output),
                struct_marks.len() == self.struct_pool.len(),
                enum_marks.len() == self.enum_pool.len(),
                count == crate::text::count_true(struct_marks@) + crate::text::count_true(enum_marks@),
                count <= total,
                forall|i: int| 0 <= i < struct_marks.len() && #[trigger] struct_marks@[i]
                    ==> struct_fields_in(self.struct_pool@[i], acc@),
                forall|i: int| 0 <= i < enum_marks.len() && #[trigger] enum_marks@[i]
                    ==> enum_fields_in(self.enum_pool@[i], acc@),
            decreases total - count, sum_sizes(models(acc@).subrange(j as int, acc.len() as int)),
        {
            let ghost before = acc@;
            let ghost rest = models(acc@).subrange(j as int, acc.len() as int);
            proof {
                assert(rest[0] == acc@[j as int]@);
                assert(rest.drop_first() =~= models(acc@).subrange(j + 1, acc.len() as int));
            }
            let x = acc[j].copy();
            match &x {
                IrType::GeneralList(b) | IrType::Optional(b) | IrType::Boxed(b) => {
                    add_type(&mut acc, b);
                    proof {
                        assert forall|k: int| before.len() <= k < acc.len() implies refers(before[j as int]@, (#[trigger] acc@[k])@, *self) by {
                            assert(acc@[k]@ == b@);
                        }
                        if acc@.len() > before.len() {
                            assert(models(acc@).subrange(j + 1, acc.len() as int) =~= rest.drop_first().push(b@));
                            lemma_sum_sizes_push(rest.drop_first(), b@);
                        } else {
                            assert(models(acc@).subrange(j + 1, acc.len() as int) =~= rest.drop_first());
                        }
                    }
                },
                IrType::StructRef(n) => {
                    match find_pool_struct(self, n) {
                        Some(si) => {
                            if !struct_marks[si] {
                                proof {
                                    crate::text::lemma_count_true_set(struct_marks@, si as int);
                                    crate::text::lemma_count_true_le(struct_marks@.update(si as int, true));
                                    crate::text::lemma_count_true_le(enum_marks@);
                                }
                                struct_marks.set(si, true);
                                count = count + 1;
                                add_struct_fields(&mut acc, &self.struct_pool[si]);
                                assert(x@ == TypeModel::StructRef(n@));
                                assert forall|k: int| before.len() <= k < acc.len() implies refers(before[j as int]@, (#[trigger] acc@[k])@, *self) by {
                                    assert(field_type_of(self.struct_pool@[si as int], acc@[k]@));
                                }
                            }
                        },
                        None => {},
                    }
                    proof {
                        if acc@.len() == before.len() {
                            assert(models(acc@).subrange(j + 1, acc.len() as int) =~= rest.drop_first());
                        }
                    }
                },
                IrType::EnumRef(n) => {
                    match find_pool_enum(self, n) {
                        Some(ei) => {
                            if !enum_marks[ei] {
                                proof {
                                    crate::text::lemma_count_true_set(enum_marks@, ei as int);
                                    crate::text::lemma_count_true_le(enum_marks@.update(ei as int, true));
                                    crate::text::lemma_count_true_le(struct_marks@);
                                }
                                enum_marks.set(ei, true);
                                count = count + 1;
                                add_enum_fields(&mut acc, &self.enum_pool[ei]);
                                assert(x@ == TypeModel::EnumRef(n@));
                                assert forall|k: int| before.len() <= k < acc.len() implies refers(before[j as int]@, (#[trigger] acc@[k])@, *self) by {
                                    assert(variant_field_type_of(self.enum_pool@[ei as int], acc@[k]@));
                                }
                            }
                        },
                        None => {},
                    }
                    proof {
                        if acc@.len() == before.len() {
                            assert(models(acc@).subrange(j + 1, acc.len() as int) =~= rest.drop_first());
                        }
                    }
                },
                _ => {
                    proof {
                        assert(models(acc@).subrange(j + 1, acc.len() as int) =~= rest.drop_first());
                    }
                },
            }
            proof {
                assert forall|k: int| 0 <= k < j + 1 implies expanded_in((#[trigger] acc@[k])@, acc@, *self) by {
                    assert(acc@[k] == before[k]);
                    if k < j {
                        lemma_expanded_mono(before[k]@, before, acc@, *self);
                    }
                }
            }
            proof {
                lemma_reached_extend(before, acc@, j as int, *self, include_func_inputs, include_func_output);
            }
            j = j + 1;
        }
        acc
    }
}

proof fn lemma_no_marks(s: Seq<bool>)
    requires
        forall|j: int| 0 <= j < s.len() ==> !s[j],
    ensures
        crate::text::count_true(s) == 0,
    decreases s.len(),
{
    if s.len() > 0 {
        lemma_no_marks(s.drop_last());
    }
}

} // verus!
