//! Per-category code templates: wire shape, allocation, wire-to-domain
//! conversion, null-default construction and domain-to-runtime conversion.
use vstd::prelude::*;
use vstd::string::*;

use crate::ir::{
    api_name, type_model, pool_enum_names, pool_struct_names, prim_name, ptr_modifier, safe_ident,
    wire_modifier, wire_name, IrEnum, IrField, IrFile, IrStruct, IrType, IrTypeDelegate,
    IrTypePrimitive, IrVariant, IrVariantKind, TypeModel,
};
use crate::text::{decimal, join, join_strings, last_index, to_decimal, views};

verus! {

/// The per-field snippets that the templates use.
#[derive(Clone, Copy, PartialEq, Eq, Structural)]
pub enum FieldPiece {
    /// `name: <wire type>`
    WireDecl,
    /// `name: self.name.wire2api()`
    ConvSelf,
    /// `name: ans.name.wire2api()`
    ConvAns,
    /// `name: <null value>`
    NullValue,
    /// `self.name.into_dart()`
    DartSelf,
    /// `name`
    Name,
    /// `, name.into_dart()`
    DartArg,
}

pub open spec fn null_value(t: TypeModel) -> Seq<char> {
    match t {
        TypeModel::Primitive(_) => "Default::default()"@,
        _ => "core::ptr::null_mut()"@,
    }
}

pub open spec fn field_piece(k: FieldPiece, f: IrField) -> Seq<char> {
    match k {
        FieldPiece::WireDecl => f.name@ + ": "@ + wire_modifier(f.ty@) + wire_name(f.ty@),
        FieldPiece::ConvSelf => f.name@ + ": self."@ + f.name@ + ".wire2api()"@,
        FieldPiece::ConvAns => f.name@ + ": ans."@ + f.name@ + ".wire2api()"@,
        FieldPiece::NullValue => f.name@ + ": "@ + null_value(f.ty@),
        FieldPiece::DartSelf => "self."@ + f.name@ + ".into_dart()"@,
        FieldPiece::Name => f.name@,
        FieldPiece::DartArg => ", "@ + f.name@ + ".into_dart()"@,
    }
}

pub open spec fn field_pieces(k: FieldPiece, fs: Seq<IrField>) -> Seq<Seq<char>> {
    fs.map_values(|f: IrField| field_piece(k, f))
}

fn field_piece_text(k: FieldPiece, f: &IrField) -> (r: String)
    ensures
        r@ == field_piece(k, *f),
{
    let n = f.name.as_str();
    match k {
        FieldPiece::WireDecl => f.name.clone().concat(": ").concat(f.ty.rust_wire_modifier()).concat(
            f.ty.rust_wire_type().as_str(),
        ),
        FieldPiece::ConvSelf => f.name.clone().concat(": self.").concat(n).concat(".wire2api()"),
        FieldPiece::ConvAns => f.name.clone().concat(": ans.").concat(n).concat(".wire2api()"),
        FieldPiece::NullValue => {
            let v = match &f.ty {
                IrType::Primitive(_) => "Default::default()",
                _ => "core::ptr::null_mut()",
            };
            f.name.clone().concat(": ").concat(v)
        },
        FieldPiece::DartSelf => String::from_str("self.").concat(n).concat(".into_dart()"),
        FieldPiece::Name => f.name.clone(),
        FieldPiece::DartArg => String::from_str(", ").concat(n).concat(".into_dart()"),
    }
}

/// The snippets of kind `k` of the fields `fs`, joined by `sep`.
pub fn join_fields(k: FieldPiece, fs: &Vec<IrField>, sep: &str) -> (r: String)
    ensures
        r@ == join(field_pieces(k, fs@), sep@),
{
    let mut v: Vec<String> = Vec::new();
    let mut i: usize = 0;
    while i < fs.len()
        invariant
            i <= fs.len(),
            views(v@) == field_pieces(k, fs@.subrange(0, i as int)),
        decreases fs.len() - i,
    {
        let t = field_piece_text(k, &fs[i]);
        let ghost before = v@;
        v.push(t);
        proof {
            crate::generator::lemma_views_push(before, t);
            assert(field_pieces(k, fs@.subrange(0, i as int + 1)) =~= field_pieces(k, fs@.subrange(0, i as int)).push(
                field_piece(k, fs@[i as int]),
            ));
        }
        i = i + 1;
    }
    assert(fs@.subrange(0, fs.len() as int) =~= fs@);
    join_strings(&v, sep)
}

/// The per-variant snippets that the enum templates use.
#[derive(Clone, Copy, PartialEq, Eq, Structural)]
pub enum VariantPiece {
    UnionMember,
    VariantStruct,
    Wire2ApiArm,
    DartArm,
}

pub open spec fn variant_fields(v: IrVariant) -> Seq<IrField> {
    match v.kind {
        IrVariantKind::Value => Seq::empty(),
        IrVariantKind::Fields(fs) => fs@,
    }
}

pub open spec fn variant_piece(k: VariantPiece, n: Seq<char>, a: nat, v: IrVariant) -> Seq<char> {
    match k {
        VariantPiece::UnionMember => v.name@ + ": *mut wire_"@ + n + "_"@ + v.name@,
        VariantPiece::VariantStruct => "\n#[repr(C)]\n#[derive(Clone)]\npub struct wire_"@ + n + "_"@ + v.name@
            + " {\n"@ + join(field_pieces(FieldPiece::WireDecl, variant_fields(v)), ",\n"@) + "\n}\n"@,
        VariantPiece::Wire2ApiArm => decimal(a) + " => "@ + match v.kind {
            IrVariantKind::Value => n + "::"@ + v.name@,
            IrVariantKind::Fields(fs) => "unsafe {\nlet ans = support::box_from_leak_ptr(wrap.kind);\nlet ans = support::box_from_leak_ptr(ans."@
                + v.name@ + ");\n"@ + n + "::"@ + v.name@ + " {\n"@ + join(field_pieces(FieldPiece::ConvAns, fs@), ",\n"@)
                + "\n}\n}"@,
        },
        VariantPiece::DartArm => "Self::"@ + v.name@ + match v.kind {
            IrVariantKind::Value => ""@,
            IrVariantKind::Fields(fs) => " { "@ + join(field_pieces(FieldPiece::Name, fs@), ", "@) + " }"@,
        } + " => vec!["@ + decimal(a) + ".into_dart()"@ + join(field_pieces(FieldPiece::DartArg, variant_fields(v)), ""@)
            + "]"@,
    }
}

pub open spec fn variant_pieces(k: VariantPiece, n: Seq<char>, vs: Seq<IrVariant>) -> Seq<Seq<char>> {
    Seq::new(vs.len(), |a: int| variant_piece(k, n, a as nat, vs[a]))
}

fn empty_fields() -> (r: Vec<IrField>)
    ensures
        r@ == Seq::<IrField>::empty(),
{
    Vec::new()
}

fn variant_piece_text(k: VariantPiece, n: &String, a: usize, v: &IrVariant) -> (r: String)
    ensures
        r@ == variant_piece(k, n@, a as nat, *v),
{
    let vn = v.name.as_str();
    match k {
        VariantPiece::UnionMember => v.name.clone().concat(": *mut wire_").concat(n.as_str()).concat("_").concat(vn),
        VariantPiece::VariantStruct => {
            let decl = match &v.kind {
                IrVariantKind::Value => join_fields(FieldPiece::WireDecl, &empty_fields(), ",\n"),
                IrVariantKind::Fields(fs) => join_fields(FieldPiece::WireDecl, fs, ",\n"),
            };
            String::from_str("\n#[repr(C)]\n#[derive(Clone)]\npub struct wire_").concat(n.as_str()).concat("_").concat(
                vn,
            ).concat(" {\n").concat(decl.as_str()).concat("\n}\n")
        },
        VariantPiece::Wire2ApiArm => {
            let body = match &v.kind {
                IrVariantKind::Value => n.clone().concat("::").concat(vn),
                IrVariantKind::Fields(fs) => String::from_str(
                    "unsafe {\nlet ans = support::box_from_leak_ptr(wrap.kind);\nlet ans = support::box_from_leak_ptr(ans.",
                ).concat(vn).concat(");\n").concat(n.as_str()).concat("::").concat(vn).concat(" {\n").concat(
                    join_fields(FieldPiece::ConvAns, fs, ",\n").as_str(),
                ).concat("\n}\n}"),
            };
            to_decimal(a).concat(" => ").concat(body.as_str())
        },
        VariantPiece::DartArm => {
            let pat = match &v.kind {
                IrVariantKind::Value => String::from_str(""),
                IrVariantKind::Fields(fs) => String::from_str(" { ").concat(join_fields(FieldPiece::Name, fs, ", ").as_str()).concat(" }"),
            };
            let args = match &v.kind {
                IrVariantKind::Value => join_fields(FieldPiece::DartArg, &empty_fields(), ""),
                IrVariantKind::Fields(fs) => join_fields(FieldPiece::DartArg, fs, ""),
            };
            String::from_str("Self::").concat(vn).concat(pat.as_str()).concat(" => vec![").concat(to_decimal(a).as_str()).concat(
                ".into_dart()",
            ).concat(args.as_str()).concat("]")
        },
    }
}

/// The snippets of kind `k` of the variants `vs` of enum `n`, joined by `sep`.
pub fn join_variants(k: VariantPiece, n: &String, vs: &Vec<IrVariant>, sep: &str) -> (r: String)
    ensures
        r@ == join(variant_pieces(k, n@, vs@), sep@),
{
    let mut v: Vec<String> = Vec::new();
    let mut i: usize = 0;
    while i < vs.len()
        invariant
            i <= vs.len(),
            views(v@) =~= variant_pieces(k, n@, vs@).subrange(0, i as int),
        decreases vs.len() - i,
    {
        let t = variant_piece_text(k, n, i, &vs[i]);
        let ghost before = v@;
        v.push(t);
        proof {
            crate::generator::lemma_views_push(before, t);
        }
        i = i + 1;
    }
    assert(views(v@) =~= variant_pieces(k, n@, vs@));
    join_strings(&v, sep)
}

} // verus!

verus! {

pub open spec fn struct_of(f: IrFile, n: Seq<char>) -> Option<IrStruct> {
    let i = last_index(pool_struct_names(f), n);
    if i >= 0 {
        Some(f.struct_pool@[i])
    } else {
        None
    }
}

pub open spec fn enum_of(f: IrFile, n: Seq<char>) -> Option<IrEnum> {
    let i = last_index(pool_enum_names(f), n);
    if i >= 0 {
        Some(f.enum_pool@[i])
    } else {
        None
    }
}

pub open spec fn list_struct(w: Seq<char>, elem: Seq<char>) -> Seq<char> {
    "\n#[repr(C)]\n#[derive(Clone)]\npub struct "@ + w + " {\nptr: *mut "@ + elem + ",\nlen: i32\n}\n"@
}

/// Declaration of the wire shape of an input type.
pub open spec fn wire_struct_text(t: TypeModel, f: IrFile) -> Seq<char> {
    match t {
        TypeModel::StructRef(n) => match struct_of(f, n) {
            Some(s) => "\n#[repr(C)]\n#[derive(Clone)]\npub struct "@ + wire_name(t) + " {\n"@ + join(
                field_pieces(FieldPiece::WireDecl, s.fields@),
                ",\n"@,
            ) + "\n}\n"@,
            None => ""@,
        },
        TypeModel::PrimitiveList(p) => list_struct(wire_name(t), prim_name(p)),
        TypeModel::GeneralList(b) => list_struct(wire_name(t), ptr_modifier(*b) + wire_name(*b)),
        TypeModel::Delegate(IrTypeDelegate::String) => list_struct("wire_uint_8_list"@, "u8"@),
        _ => ""@,
    }
}

/// Tagged-union declaration of the wire shape of an input enum.
pub open spec fn wire_enum_text(t: TypeModel, f: IrFile) -> Seq<char> {
    match t {
        TypeModel::EnumRef(n) => match enum_of(f, n) {
            Some(e) => "\n#[repr(C)]\n#[derive(Clone)]\npub struct wire_"@ + n + " {\ntag: i32,\nkind: *mut "@ + n
                + "Kind,\n}\n\n#[repr(C)]\npub union "@ + n + "Kind {\n"@ + join(
                variant_pieces(VariantPiece::UnionMember, n, e.variants@),
                ",\n"@,
            ) + "\n}\n"@ + join(variant_pieces(VariantPiece::VariantStruct, n, e.variants@), ""@),
            None => ""@,
        },
        _ => ""@,
    }
}

pub open spec fn impl_wire2api(t: TypeModel, body: Seq<char>) -> Seq<char> {
    "impl Wire2Api<"@ + api_name(t) + "> for "@ + wire_modifier(t) + wire_name(t) + " {\nfn wire2api(self) -> "@
        + api_name(t) + " {\n"@ + body + "\n}\n}\n"@
}

pub open spec fn boxed_body(b: TypeModel) -> Seq<char> {
    "let wrap = unsafe { support::box_from_leak_ptr(self) };\nBox::new("@ + match b {
        TypeModel::Primitive(_) => "*wrap"@,
        _ => "(*wrap).wire2api()"@,
    } + ")"@
}

/// Conversion from the wire shape of an input type to its domain value.
pub open spec fn wire2api_text(t: TypeModel, f: IrFile) -> Seq<char> {
    match t {
        TypeModel::Primitive(_) => impl_wire2api(t, "self"@),
        TypeModel::Delegate(IrTypeDelegate::String) => impl_wire2api(
            t,
            "unsafe {\nlet wrap = support::box_from_leak_ptr(self);\nString::from_utf8_lossy(&support::vec_from_leak_ptr(wrap.ptr, wrap.len)).into_owned()\n}"@,
        ),
        TypeModel::PrimitiveList(_) => impl_wire2api(
            t,
            "unsafe {\nlet wrap = support::box_from_leak_ptr(self);\nsupport::vec_from_leak_ptr(wrap.ptr, wrap.len)\n}"@,
        ),
        TypeModel::GeneralList(_) => impl_wire2api(
            t,
            "let vec = unsafe {\nlet wrap = support::box_from_leak_ptr(self);\nsupport::vec_from_leak_ptr(wrap.ptr, wrap.len)\n};\nvec.into_iter().map(Wire2Api::wire2api).collect()"@,
        ),
        TypeModel::Boxed(b) => impl_wire2api(t, boxed_body(*b)),
        TypeModel::StructRef(n) => match struct_of(f, n) {
            Some(s) => impl_wire2api(t, "let wrap = unsafe { support::box_from_leak_ptr(self) };\n(*wrap).wire2api()"@)
                + "impl Wire2Api<"@ + n + "> for wire_"@ + n + " {\nfn wire2api(self) -> "@ + n + " {\n"@ + n + " {\n"@
                + join(field_pieces(FieldPiece::ConvSelf, s.fields@), ",\n"@) + "\n}\n}\n}\n"@,
            None => ""@,
        },
        TypeModel::EnumRef(n) => match enum_of(f, n) {
            Some(e) => impl_wire2api(
                t,
                "let wrap = unsafe { support::box_from_leak_ptr(self) };\nmatch wrap.tag {\n"@ + join(
                    variant_pieces(VariantPiece::Wire2ApiArm, n, e.variants@),
                    ",\n"@,
                ) + ",\n_ => panic!(\"invalid enum tag\"),\n}"@,
            ),
            None => ""@,
        },
        _ => ""@,
    }
}

/// Null-valued construction of the wire shape of an input type.
pub open spec fn new_with_null_text(t: TypeModel, f: IrFile) -> Seq<char> {
    match t {
        TypeModel::StructRef(n) => match struct_of(f, n) {
            Some(s) => "impl NewWithNullPtr for wire_"@ + n + " {\nfn new_with_null_ptr() -> Self {\nSelf {\n"@ + join(
                field_pieces(FieldPiece::NullValue, s.fields@),
                ",\n"@,
            ) + "\n}\n}\n}\n"@,
            None => ""@,
        },
        TypeModel::EnumRef(n) => match enum_of(f, n) {
            Some(_) => "impl NewWithNullPtr for wire_"@ + n
                + " {\nfn new_with_null_ptr() -> Self {\nSelf {\ntag: -1,\nkind: core::ptr::null_mut(),\n}\n}\n}\n"@,
            None => ""@,
        },
        _ => ""@,
    }
}

/// Conversion of an output value into what the managed runtime accepts.
pub open spec fn into_dart_text(t: TypeModel, f: IrFile) -> Seq<char> {
    match t {
        TypeModel::StructRef(n) => match struct_of(f, n) {
            Some(s) => "impl support::IntoDart for "@ + n + " {\nfn into_dart(self) -> support::DartCObject {\nvec![\n"@
                + join(field_pieces(FieldPiece::DartSelf, s.fields@), ",\n"@)
                + "\n].into_dart()\n}\n}\nimpl support::IntoDartExceptPrimitive for "@ + n + " {}\n"@,
            None => ""@,
        },
        TypeModel::EnumRef(n) => match enum_of(f, n) {
            Some(e) => "impl support::IntoDart for "@ + n + " {\nfn into_dart(self) -> support::DartCObject {\nmatch self {\n"@
                + join(variant_pieces(VariantPiece::DartArm, n, e.variants@), ",\n"@)
                + "\n}.into_dart()\n}\n}\nimpl support::IntoDartExceptPrimitive for "@ + n + " {}\n"@,
            None => ""@,
        },
        _ => ""@,
    }
}

} // verus!

verus! {

fn lookup_struct<'a>(f: &'a IrFile, n: &String) -> (r: Option<&'a IrStruct>)
    ensures
        r matches Some(s) ==> struct_of(*f, n@) == Some(*s),
        r is None ==> struct_of(*f, n@) is None,
{
    match crate::ir::find_pool_struct(f, n) {
        Some(i) => Some(&f.struct_pool[i]),
        None => None,
    }
}

fn lookup_enum<'a>(f: &'a IrFile, n: &String) -> (r: Option<&'a IrEnum>)
    ensures
        r matches Some(e) ==> enum_of(*f, n@) == Some(*e),
        r is None ==> enum_of(*f, n@) is None,
{
    match crate::ir::find_pool_enum(f, n) {
        Some(i) => Some(&f.enum_pool[i]),
        None => None,
    }
}

fn list_struct_decl(w: &str, elem: &str) -> (r: String)
    ensures
        r@ == list_struct(w@, elem@),
{
    String::from_str("\n#[repr(C)]\n#[derive(Clone)]\npub struct ").concat(w).concat(" {\nptr: *mut ").concat(elem).concat(
        ",\nlen: i32\n}\n",
    )
}

pub fn wire_struct(t: &IrType, f: &IrFile) -> (r: String)
    ensures
        r@ == wire_struct_text(t@, *f),
{
    match t {
        IrType::StructRef(n) => match lookup_struct(f, n) {
            Some(s) => String::from_str("\n#[repr(C)]\n#[derive(Clone)]\npub struct ").concat(t.rust_wire_type().as_str()).concat(
                " {\n",
            ).concat(join_fields(FieldPiece::WireDecl, &s.fields, ",\n").as_str()).concat("\n}\n"),
            None => String::from_str(""),
        },
        IrType::PrimitiveList(p) => list_struct_decl(t.rust_wire_type().as_str(), crate::ir::primitive_name(*p)),
        IrType::GeneralList(b) => list_struct_decl(
            t.rust_wire_type().as_str(),
            String::from_str(b.rust_ptr_modifier()).concat(b.rust_wire_type().as_str()).as_str(),
        ),
        IrType::Delegate(IrTypeDelegate::String) => list_struct_decl("wire_uint_8_list", "u8"),
        _ => String::from_str(""),
    }
}

pub fn wire_enum(t: &IrType, f: &IrFile) -> (r: String)
    ensures
        r@ == wire_enum_text(t@, *f),
{
    match t {
        IrType::EnumRef(n) => match lookup_enum(f, n) {
            Some(e) => String::from_str("\n#[repr(C)]\n#[derive(Clone)]\npub struct wire_").concat(n.as_str()).concat(
                " {\ntag: i32,\nkind: *mut ",
            ).concat(n.as_str()).concat("Kind,\n}\n\n#[repr(C)]\npub union ").concat(n.as_str()).concat("Kind {\n").concat(
                join_variants(VariantPiece::UnionMember, n, &e.variants, ",\n").as_str(),
            ).concat("\n}\n").concat(join_variants(VariantPiece::VariantStruct, n, &e.variants, "").as_str()),
            None => String::from_str(""),
        },
        _ => String::from_str(""),
    }
}

fn impl_wire2api_decl(t: &IrType, body: &str) -> (r: String)
    ensures
        r@ == impl_wire2api(t@, body@),
{
    let api = t.rust_api_type();
    String::from_str("impl Wire2Api<").concat(api.as_str()).concat("> for ").concat(t.rust_wire_modifier()).concat(
        t.rust_wire_type().as_str(),
    ).concat(" {\nfn wire2api(self) -> ").concat(api.as_str()).concat(" {\n").concat(body).concat("\n}\n}\n")
}

pub fn wire2api(t: &IrType, f: &IrFile) -> (r: String)
    ensures
        r@ == wire2api_text(t@, *f),
{
    match t {
        IrType::Primitive(_) => impl_wire2api_decl(t, "self"),
        IrType::Delegate(IrTypeDelegate::String) => impl_wire2api_decl(
            t,
            "unsafe {\nlet wrap = support::box_from_leak_ptr(self);\nString::from_utf8_lossy(&support::vec_from_leak_ptr(wrap.ptr, wrap.len)).into_owned()\n}",
        ),
        IrType::PrimitiveList(_) => impl_wire2api_decl(
            t,
            "unsafe {\nlet wrap = support::box_from_leak_ptr(self);\nsupport::vec_from_leak_ptr(wrap.ptr, wrap.len)\n}",
        ),
        IrType::GeneralList(_) => impl_wire2api_decl(
            t,
            "let vec = unsafe {\nlet wrap = support::box_from_leak_ptr(self);\nsupport::vec_from_leak_ptr(wrap.ptr, wrap.len)\n};\nvec.into_iter().map(Wire2Api::wire2api).collect()",
        ),
        IrType::Boxed(b) => {
            let inner = match **b {
                IrType::Primitive(_) => "*wrap",
                _ => "(*wrap).wire2api()",
            };
            let body = String::from_str("let wrap = unsafe { support::box_from_leak_ptr(self) };\nBox::new(").concat(inner).concat(")");
            assert(body@ == boxed_body(b@));
            impl_wire2api_decl(t, body.as_str())
        },
        IrType::StructRef(n) => match lookup_struct(f, n) {
            Some(s) => impl_wire2api_decl(t, "let wrap = unsafe { support::box_from_leak_ptr(self) };\n(*wrap).wire2api()").concat(
                "impl Wire2Api<",
            ).concat(n.as_str()).concat("> for wire_").concat(n.as_str()).concat(" {\nfn wire2api(self) -> ").concat(
                n.as_str(),
            ).concat(" {\n").concat(n.as_str()).concat(" {\n").concat(join_fields(FieldPiece::ConvSelf, &s.fields, ",\n").as_str()).concat(
                "\n}\n}\n}\n",
            ),
            None => String::from_str(""),
        },
        IrType::EnumRef(n) => match lookup_enum(f, n) {
            Some(e) => {
                let body = String::from_str("let wrap = unsafe { support::box_from_leak_ptr(self) };\nmatch wrap.tag {\n").concat(
                    join_variants(VariantPiece::Wire2ApiArm, n, &e.variants, ",\n").as_str(),
                ).concat(",\n_ => panic!(\"invalid enum tag\"),\n}");
                impl_wire2api_decl(t, body.as_str())
            },
            None => String::from_str(""),
        },
        _ => String::from_str(""),
    }
}

pub fn new_with_null(t: &IrType, f: &IrFile) -> (r: String)
    ensures
        r@ == new_with_null_text(t@, *f),
{
    match t {
        IrType::StructRef(n) => match lookup_struct(f, n) {
            Some(s) => String::from_str("impl NewWithNullPtr for wire_").concat(n.as_str()).concat(
                " {\nfn new_with_null_ptr() -> Self {\nSelf {\n",
            ).concat(join_fields(FieldPiece::NullValue, &s.fields, ",\n").as_str()).concat("\n}\n}\n}\n"),
            None => String::from_str(""),
        },
        IrType::EnumRef(n) => match lookup_enum(f, n) {
            Some(_) => String::from_str("impl NewWithNullPtr for wire_").concat(n.as_str()).concat(
                " {\nfn new_with_null_ptr() -> Self {\nSelf {\ntag: -1,\nkind: core::ptr::null_mut(),\n}\n}\n}\n",
            ),
            None => String::from_str(""),
        },
        _ => String::from_str(""),
    }
}

pub fn into_dart(t: &IrType, f: &IrFile) -> (r: String)
    ensures
        r@ == into_dart_text(t@, *f),
{
    match t {
        IrType::StructRef(n) => match lookup_struct(f, n) {
            Some(s) => String::from_str("impl support::IntoDart for ").concat(n.as_str()).concat(
                " {\nfn into_dart(self) -> support::DartCObject {\nvec![\n",
            ).concat(join_fields(FieldPiece::DartSelf, &s.fields, ",\n").as_str()).concat(
                "\n].into_dart()\n}\n}\nimpl support::IntoDartExceptPrimitive for ",
            ).concat(n.as_str()).concat(" {}\n"),
            None => String::from_str(""),
        },
        IrType::EnumRef(n) => match lookup_enum(f, n) {
            Some(e) => String::from_str("impl support::IntoDart for ").concat(n.as_str()).concat(
                " {\nfn into_dart(self) -> support::DartCObject {\nmatch self {\n",
            ).concat(join_variants(VariantPiece::DartArm, n, &e.variants, ",\n").as_str()).concat(
                "\n}.into_dart()\n}\n}\nimpl support::IntoDartExceptPrimitive for ",
            ).concat(n.as_str()).concat(" {}\n"),
            None => String::from_str(""),
        },
        _ => String::from_str(""),
    }
}

} // verus!

verus! {

pub open spec fn list_alloc_body(list_wire: Seq<char>, inner: TypeModel) -> Seq<char> {
    "let wrap = "@ + list_wire + " { ptr: support::new_leak_vec_ptr(<"@ + ptr_modifier(inner) + wire_name(inner)
        + ">::new_with_null_ptr(), len), len };\nsupport::new_leak_box_ptr(wrap)"@
}

/// What an allocation function consists of: name, parameters, return type, body.
pub struct AllocParts {
    pub name: String,
    pub params: Vec<String>,
    pub ret: String,
    pub body: String,
}

pub open spec fn list_alloc(name: Seq<char>, list: TypeModel, inner: TypeModel) -> (Seq<char>, Seq<Seq<char>>, Seq<char>, Seq<char>) {
    (name, seq!["len: i32"@], wire_modifier(list) + wire_name(list), list_alloc_body(wire_name(list), inner))
}

pub open spec fn box_alloc(name: Seq<char>, t: TypeModel) -> (Seq<char>, Seq<Seq<char>>, Seq<char>, Seq<char>) {
    (name, Seq::empty(), "*mut "@ + wire_name(t), "support::new_leak_box_ptr(<"@ + wire_name(t) + ">::new_with_null_ptr())"@)
}

/// The allocation function of an input type whose wire shape is
/// dynamically sized or held behind a pointer, if it needs one.
pub open spec fn alloc_of(t: TypeModel) -> Option<(Seq<char>, Seq<Seq<char>>, Seq<char>, Seq<char>)> {
    let name = "new_"@ + safe_ident(t);
    match t {
        TypeModel::PrimitiveList(p) => Some(list_alloc(name, t, TypeModel::Primitive(p))),
        TypeModel::GeneralList(b) => Some(list_alloc(name, t, *b)),
        TypeModel::Delegate(IrTypeDelegate::String) => Some(
            list_alloc("new_uint_8_list"@, t, TypeModel::Primitive(IrTypePrimitive::U8)),
        ),
        TypeModel::Optional(b) | TypeModel::Boxed(b) => match *b {
            TypeModel::Primitive(p) => Some(
                (name, seq!["value: "@ + prim_name(p)], "*mut "@ + prim_name(p), "support::new_leak_box_ptr(value)"@),
            ),
            TypeModel::StructRef(_) | TypeModel::EnumRef(_) => Some(box_alloc(name, t)),
            _ => None,
        },
        TypeModel::StructRef(_) | TypeModel::EnumRef(_) => Some(box_alloc(name, t)),
        _ => None,
    }
}

pub open spec fn parts_view(p: AllocParts) -> (Seq<char>, Seq<Seq<char>>, Seq<char>, Seq<char>) {
    (p.name@, views(p.params@), p.ret@, p.body@)
}

fn one(s: String) -> (r: Vec<String>)
    ensures
        views(r@) == seq![s@],
{
    let mut v: Vec<String> = Vec::new();
    v.push(s);
    assert(views(v@) =~= seq![s@]);
    v
}

fn list_alloc_parts(name: String, list: &IrType, inner: &IrType) -> (r: AllocParts)
    ensures
        parts_view(r) == list_alloc(name@, list@, inner@),
{
    let w = list.rust_wire_type();
    let body = String::from_str("let wrap = ").concat(w.as_str()).concat(" { ptr: support::new_leak_vec_ptr(<").concat(
        inner.rust_ptr_modifier(),
    ).concat(inner.rust_wire_type().as_str()).concat(">::new_with_null_ptr(), len), len };\nsupport::new_leak_box_ptr(wrap)");
    AllocParts {
        name,
        params: one(String::from_str("len: i32")),
        ret: String::from_str(list.rust_wire_modifier()).concat(w.as_str()),
        body,
    }
}

fn box_alloc_parts(name: String, t: &IrType) -> (r: AllocParts)
    ensures
        parts_view(r) == box_alloc(name@, t@),
{
    let w = t.rust_wire_type();
    let params: Vec<String> = Vec::new();
    assert(views(params@) =~= Seq::<Seq<char>>::empty());
    AllocParts {
        name,
        params,
        ret: String::from_str("*mut ").concat(w.as_str()),
        body: String::from_str("support::new_leak_box_ptr(<").concat(w.as_str()).concat(">::new_with_null_ptr())"),
    }
}

pub fn alloc_parts(t: &IrType) -> (r: Option<AllocParts>)
    ensures
        r matches Some(p) ==> alloc_of(t@) == Some(parts_view(p)),
        r is None ==> alloc_of(t@) is None,
{
    let name = String::from_str("new_").concat(t.safe_ident().as_str());
    match t {
        IrType::PrimitiveList(p) => Some(list_alloc_parts(name, t, &IrType::Primitive(*p))),
        IrType::GeneralList(b) => Some(list_alloc_parts(name, t, b)),
        IrType::Delegate(IrTypeDelegate::String) => Some(
            list_alloc_parts(String::from_str("new_uint_8_list"), t, &IrType::Primitive(IrTypePrimitive::U8)),
        ),
        IrType::Optional(b) | IrType::Boxed(b) => {
            proof {
                assert(b@ == type_model(**b));
            }
            match &**b {
                IrType::Primitive(p) => {
                    let pn = crate::ir::primitive_name(*p);
                    Some(
                        AllocParts {
                            name,
                            params: one(String::from_str("value: ").concat(pn)),
                            ret: String::from_str("*mut ").concat(pn),
                            body: String::from_str("support::new_leak_box_ptr(value)"),
                        },
                    )
                },
                IrType::StructRef(_) | IrType::EnumRef(_) => Some(box_alloc_parts(name, t)),
                IrType::Delegate(_) | IrType::PrimitiveList(_) | IrType::GeneralList(_) | IrType::Optional(_)
                | IrType::Boxed(_) => None,
            }
        },
        IrType::StructRef(_) | IrType::EnumRef(_) => Some(box_alloc_parts(name, t)),
        _ => None,
    }
}

} // verus!
