//! Emission of the wire layer from the intermediate representation.
use vstd::prelude::*;
use vstd::string::*;

use crate::ir::{
    wire_modifier, wire_name,
    IrField, IrFile, IrFunc, IrFuncMode, IrType, TypeModel,
};
use crate::ir::{closed_in, distinct_models, in_types, is_root};
use crate::templates::{
    alloc_of, alloc_parts, into_dart, into_dart_text, new_with_null, new_with_null_text,
    wire2api, wire2api_text, wire_enum, wire_enum_text, wire_struct, wire_struct_text,
};
use crate::text::{join, join_strings, views};

verus! {

/// Name under which the generated code refers to the dispatch handler.
pub const HANDLER_NAME: &'static str = "FLUTTER_RUST_BRIDGE_HANDLER";

pub open spec fn handler_name() -> Seq<char> {
    "FLUTTER_RUST_BRIDGE_HANDLER"@
}

/// The generated text and the exported function names.
pub struct Output {
    pub code: String,
    pub extern_func_names: Vec<String>,
}

/// Text of one exported function.
pub open spec fn extern_func_text(
    name: Seq<char>,
    params: Seq<Seq<char>>,
    ret: Option<Seq<char>>,
    body: Seq<char>,
) -> Seq<char> {
    "\n#[no_mangle]\npub extern \"C\" fn "@ + name + "("@ + join(params, ", "@) + ") "@ + ret_text(ret)
        + " {\n"@ + body + "\n}\n"@
}

pub open spec fn ret_text(ret: Option<Seq<char>>) -> Seq<char> {
    match ret {
        Some(r) => "-> "@ + r,
        None => ""@,
    }
}

pub proof fn lemma_views_push(v: Seq<String>, x: String)
    ensures
        views(v.push(x)) == views(v).push(x@),
{
    assert(views(v.push(x)) =~= views(v).push(x@));
}

/// Records the name of every exported function it emits.
pub struct ExternFuncCollector {
    names: Vec<String>,
}

impl ExternFuncCollector {
    pub closed spec fn names(&self) -> Seq<Seq<char>> {
        views(self.names@)
    }

    pub fn new() -> (r: Self)
        ensures
            r.names() == Seq::<Seq<char>>::empty(),
    {
        let r = ExternFuncCollector { names: Vec::new() };
        assert(r.names() =~= Seq::<Seq<char>>::empty());
        r
    }

    pub fn into_names(self) -> (r: Vec<String>)
        ensures
            views(r@) == self.names(),
    {
        self.names
    }

    /// Emits an exported function and records its name.
    pub fn generate(
        &mut self,
        func_name: &str,
        params: &Vec<String>,
        return_type: Option<&str>,
        body: &str,
    ) -> (r: String)
        ensures
            final(self).names() == old(self).names().push(func_name@),
            r@ == extern_func_text(
                func_name@,
                views(params@),
                match return_type {
                    Some(t) => Some(t@),
                    None => None,
                },
                body@,
            ),
    {
        self.names.push(String::from_str(func_name));
        proof {
            assert(self.names() =~= old(self).names().push(func_name@));
        }
        let ret = match return_type {
            Some(t) => String::from_str("-> ").concat(t),
            None => String::from_str(""),
        };
        String::from_str("\n#[no_mangle]\npub extern \"C\" fn ").concat(func_name).concat("(").concat(
            join_strings(params, ", ").as_str(),
        ).concat(") ").concat(ret.as_str()).concat(" {\n").concat(body).concat("\n}\n")
    }
}

// ---------------------------------------------------------------------------
// Wire functions
// ---------------------------------------------------------------------------

/// No two functions share a name: their exported names would collide.
pub open spec fn func_names_distinct(f: IrFile) -> bool {
    forall|i: int, j: int| 0 <= i < j < f.funcs.len() ==> f.funcs@[i].name@ != f.funcs@[j].name@
}

/// Exported name of the wire function of a domain function.
pub open spec fn wire_func_name(name: Seq<char>) -> Seq<char> {
    "wire_"@ + name
}

pub open spec fn param_text(f: IrField) -> Seq<char> {
    f.name@ + ": "@ + wire_modifier(f.ty@) + wire_name(f.ty@)
}

pub open spec fn port_params(mode: IrFuncMode) -> Seq<Seq<char>> {
    if mode.spec_has_port_argument() {
        seq!["port_: i64"@]
    } else {
        Seq::empty()
    }
}

/// Parameters of the exported function: call port first, then one wire value per input.
pub open spec fn wire_params(func: IrFunc) -> Seq<Seq<char>> {
    port_params(func.mode) + func.inputs@.map_values(|f: IrField| param_text(f))
}

pub open spec fn sink_args(mode: IrFuncMode) -> Seq<Seq<char>> {
    if mode == IrFuncMode::Stream {
        seq!["task_callback.stream_sink()"@]
    } else {
        Seq::empty()
    }
}

/// Arguments of the domain call: the sink when streaming, then the converted inputs.
pub open spec fn inner_args(func: IrFunc) -> Seq<Seq<char>> {
    sink_args(func.mode) + func.inputs@.map_values(|f: IrField| "api_"@ + f.name@)
}

pub open spec fn wrap_info_text(func: IrFunc) -> Seq<char> {
    "WrapInfo{ debug_name: \""@ + func.name@ + "\", port: "@ + (if func.mode.spec_has_port_argument() {
        "Some(port_)"@
    } else {
        "None"@
    }) + ", mode: FfiCallMode::"@ + func.mode.spec_ffi_call_mode() + " }"@
}

pub open spec fn wire2api_stmt(f: IrField) -> Seq<char> {
    "let api_"@ + f.name@ + " = "@ + f.name@ + ".wire2api();"@
}

pub open spec fn wire2api_code(func: IrFunc) -> Seq<char> {
    join(func.inputs@.map_values(|f: IrField| wire2api_stmt(f)), ""@)
}

/// The domain call, lifted into `Ok` when the function cannot fail.
pub open spec fn call_result_text(func: IrFunc) -> Seq<char> {
    let call = func.name@ + "("@ + join(inner_args(func), ", "@) + ")"@;
    if func.fallible {
        call
    } else {
        "Ok("@ + call + ")"@
    }
}

pub open spec fn closure_text(func: IrFunc) -> Seq<char> {
    if func.mode == IrFuncMode::Sync {
        wire2api_code(func) + "\n"@ + call_result_text(func)
    } else {
        wire2api_code(func) + "\nmove |task_callback| "@ + call_result_text(func) + "\n"@
    }
}

pub open spec fn handler_func(mode: IrFuncMode) -> Seq<char> {
    if mode == IrFuncMode::Sync {
        "wrap_sync"@
    } else {
        "wrap"@
    }
}

pub open spec fn wire_return(mode: IrFuncMode) -> Option<Seq<char>> {
    if mode == IrFuncMode::Sync {
        Some("support::WireSyncReturnStruct"@)
    } else {
        None
    }
}

pub open spec fn wire_body(func: IrFunc) -> Seq<char> {
    "\n"@ + handler_name() + "."@ + handler_func(func.mode) + "("@ + wrap_info_text(func)
        + ", move || {\n"@ + closure_text(func) + "\n})\n"@
}

/// The full text of the exported wire function of `func`.
pub open spec fn wire_func_text(func: IrFunc) -> Seq<char> {
    extern_func_text(wire_func_name(func.name@), wire_params(func), wire_return(func.mode), wire_body(func))
}

fn wire_param_list(func: &IrFunc) -> (r: Vec<String>)
    ensures
        views(r@) == wire_params(*func),
{
    let mut r: Vec<String> = Vec::new();
    if func.mode.has_port_argument() {
        r.push(String::from_str("port_: i64"));
    }
    let ghost start = views(r@);
    assert(start == port_params(func.mode)) by {
        assert(views(r@) =~= port_params(func.mode));
    }
    let mut i: usize = 0;
    while i < func.inputs.len()
        invariant
            i <= func.inputs.len(),
            views(r@) == start + func.inputs@.subrange(0, i as int).map_values(|f: IrField| param_text(f)),
        decreases func.inputs.len() - i,
    {
        let f = &func.inputs[i];
        let t = f.name.clone().concat(": ").concat(f.ty.rust_wire_modifier()).concat(
            f.ty.rust_wire_type().as_str(),
        );
        let ghost before = r@;
        r.push(t);
        proof {
            lemma_views_push(before, t);
            assert(func.inputs@.subrange(0, i as int + 1).map_values(|f: IrField| param_text(f))
                =~= func.inputs@.subrange(0, i as int).map_values(|f: IrField| param_text(f)).push(
                param_text(func.inputs@[i as int])));
            assert(views(r@) =~= start + func.inputs@.subrange(0, i as int + 1).map_values(
                |f: IrField| param_text(f),
            ));
        }
        i = i + 1;
    }
    assert(func.inputs@.subrange(0, func.inputs.len() as int) =~= func.inputs@);
    r
}

fn inner_arg_list(func: &IrFunc) -> (r: Vec<String>)
    ensures
        views(r@) == inner_args(*func),
{
    let mut r: Vec<String> = Vec::new();
    if func.mode == IrFuncMode::Stream {
        r.push(String::from_str("task_callback.stream_sink()"));
    }
    let ghost start = views(r@);
    assert(start == sink_args(func.mode)) by {
        assert(views(r@) =~= sink_args(func.mode));
    }
    let mut i: usize = 0;
    while i < func.inputs.len()
        invariant
            i <= func.inputs.len(),
            views(r@) == start + func.inputs@.subrange(0, i as int).map_values(
                |f: IrField| "api_"@ + f.name@,
            ),
        decreases func.inputs.len() - i,
    {
        let t = String::from_str("api_").concat(func.inputs[i].name.as_str());
        let ghost before = r@;
        r.push(t);
        proof {
            lemma_views_push(before, t);
            assert(func.inputs@.subrange(0, i as int + 1).map_values(|f: IrField| "api_"@ + f.name@)
                =~= func.inputs@.subrange(0, i as int).map_values(|f: IrField| "api_"@ + f.name@).push(
                "api_"@ + func.inputs@[i as int].name@));
            assert(views(r@) =~= start + func.inputs@.subrange(0, i as int + 1).map_values(
                |f: IrField| "api_"@ + f.name@,
            ));
        }
        i = i + 1;
    }
    assert(func.inputs@.subrange(0, func.inputs.len() as int) =~= func.inputs@);
    r
}

fn wire2api_stmts(func: &IrFunc) -> (r: String)
    ensures
        r@ == wire2api_code(*func),
{
    let mut v: Vec<String> = Vec::new();
    let mut i: usize = 0;
    while i < func.inputs.len()
        invariant
            i <= func.inputs.len(),
            views(v@) == func.inputs@.subrange(0, i as int).map_values(|f: IrField| wire2api_stmt(f)),
        decreases func.inputs.len() - i,
    {
        let n = func.inputs[i].name.as_str();
        let t = String::from_str("let api_").concat(n).concat(" = ").concat(n).concat(".wire2api();");
        let ghost before = v@;
        v.push(t);
        proof {
            lemma_views_push(before, t);
            assert(func.inputs@.subrange(0, i as int + 1).map_values(|f: IrField| wire2api_stmt(f))
                =~= func.inputs@.subrange(0, i as int).map_values(|f: IrField| wire2api_stmt(f)).push(
                wire2api_stmt(func.inputs@[i as int])));
            assert(views(v@) =~= func.inputs@.subrange(0, i as int + 1).map_values(
                |f: IrField| wire2api_stmt(f),
            ));
        }
        i = i + 1;
    }
    assert(func.inputs@.subrange(0, func.inputs.len() as int) =~= func.inputs@);
    join_strings(&v, "")
}

fn wrap_info(func: &IrFunc) -> (r: String)
    ensures
        r@ == wrap_info_text(*func),
{
    let port = if func.mode.has_port_argument() {
        "Some(port_)"
    } else {
        "None"
    };
    String::from_str("WrapInfo{ debug_name: \"").concat(func.name.as_str()).concat("\", port: ").concat(
        port,
    ).concat(", mode: FfiCallMode::").concat(func.mode.ffi_call_mode()).concat(" }")
}

fn call_result(func: &IrFunc) -> (r: String)
    ensures
        r@ == call_result_text(*func),
{
    let args = inner_arg_list(func);
    let call = func.name.clone().concat("(").concat(join_strings(&args, ", ").as_str()).concat(")");
    if func.fallible {
        call
    } else {
        String::from_str("Ok(").concat(call.as_str()).concat(")")
    }
}

impl Generator {
    /// Emits the exported wire function of `func` and records its name.
    pub fn generate_wire_func(&mut self, func: &IrFunc) -> (r: String)
        ensures
            r@ == wire_func_text(*func),
            final(self).names() == old(self).names().push(wire_func_name(func.name@)),
    {
        let params = wire_param_list(func);
        let code_wire2api = wire2api_stmts(func);
        let code_call = call_result(func);
        let (handler, return_type, closure) = match func.mode {
            IrFuncMode::Sync => (
                "wrap_sync",
                Some("support::WireSyncReturnStruct"),
                code_wire2api.concat("\n").concat(code_call.as_str()),
            ),
            _ => (
                "wrap",
                None,
                code_wire2api.concat("\nmove |task_callback| ").concat(code_call.as_str()).concat("\n"),
            ),
        };
        let body = String::from_str("\n").concat("FLUTTER_RUST_BRIDGE_HANDLER").concat(".").concat(handler).concat("(")
            .concat(wrap_info(func).as_str()).concat(", move || {\n").concat(closure.as_str()).concat(
            "\n})\n",
        );
        let name = String::from_str("wire_").concat(func.name.as_str());
        self.collector.generate(name.as_str(), &params, return_type, body.as_str())
    }
}

/// Generator state: the collector of exported names.
pub struct Generator {
    collector: ExternFuncCollector,
}

impl Generator {
    pub closed spec fn names(&self) -> Seq<Seq<char>> {
        self.collector.names()
    }

    pub fn new() -> (r: Self)
        ensures
            r.names() == Seq::<Seq<char>>::empty(),
    {
        Generator { collector: ExternFuncCollector::new() }
    }
}

} // verus!

verus! {

/// The per-type sections of the generated text.
#[derive(Clone, Copy, PartialEq, Eq, Structural)]
pub enum TypeSection {
    WireStruct,
    WireEnum,
    Allocate,
    Wire2Api,
    NewWithNull,
    IntoDart,
}

pub open spec fn alloc_text(t: TypeModel) -> Seq<char> {
    match alloc_of(t) {
        Some(p) => extern_func_text(p.0, p.1, Some(p.2), p.3),
        None => ""@,
    }
}

pub open spec fn type_section_text(k: TypeSection, t: TypeModel, f: IrFile) -> Seq<char> {
    match k {
        TypeSection::WireStruct => wire_struct_text(t, f),
        TypeSection::WireEnum => wire_enum_text(t, f),
        TypeSection::Allocate => alloc_text(t),
        TypeSection::Wire2Api => wire2api_text(t, f),
        TypeSection::NewWithNull => new_with_null_text(t, f),
        TypeSection::IntoDart => into_dart_text(t, f),
    }
}

pub open spec fn section_texts(k: TypeSection, ts: Seq<IrType>, f: IrFile) -> Seq<Seq<char>> {
    ts.map_values(|t: IrType| type_section_text(k, t@, f))
}

/// Names of the allocation functions of `ts`, in order.
pub open spec fn alloc_names(ts: Seq<IrType>) -> Seq<Seq<char>>
    decreases ts.len(),
{
    if ts.len() == 0 {
        Seq::empty()
    } else {
        match alloc_of(ts.last()@) {
            Some(p) => alloc_names(ts.drop_last()).push(p.0),
            None => alloc_names(ts.drop_last()),
        }
    }
}

pub open spec fn section_names(k: TypeSection, ts: Seq<IrType>) -> Seq<Seq<char>> {
    if k == TypeSection::Allocate {
        alloc_names(ts)
    } else {
        Seq::empty()
    }
}

pub open spec fn type_names(k: TypeSection, t: TypeModel) -> Seq<Seq<char>> {
    if k == TypeSection::Allocate {
        match alloc_of(t) {
            Some(p) => seq![p.0],
            None => Seq::empty(),
        }
    } else {
        Seq::empty()
    }
}

pub open spec fn section_header(name: Seq<char>) -> Seq<char> {
    "// Section: "@ + name + "\n"@
}

pub open spec fn wire2api_misc() -> Seq<char> {
    "pub trait Wire2Api<T> {\nfn wire2api(self) -> T;\n}\n\nimpl<T, S> Wire2Api<Option<T>> for *mut S\nwhere\n*mut S: Wire2Api<T>\n{\nfn wire2api(self) -> Option<T> {\nif self.is_null() {\nNone\n} else {\nSome(self.wire2api())\n}\n}\n}\n"@
}

pub open spec fn new_with_nullptr_misc() -> Seq<char> {
    "pub trait NewWithNullPtr {\nfn new_with_null_ptr() -> Self;\n}\n\nimpl<T> NewWithNullPtr for *mut T {\nfn new_with_null_ptr() -> Self {\ncore::ptr::null_mut()\n}\n}\n"@
}

pub open spec fn executor_text(has_executor: bool) -> Seq<char> {
    if has_executor {
        "/* nothing since executor detected */"@
    } else {
        "support::lazy_static! {\npub static ref FLUTTER_RUST_BRIDGE_HANDLER: support::DefaultHandler = Default::default();\n}\n"@
    }
}

pub open spec fn free_name() -> Seq<char> {
    "free_WireSyncReturnStruct"@
}

pub open spec fn sync_utility_text() -> Seq<char> {
    extern_func_text(
        free_name(),
        seq!["val: support::WireSyncReturnStruct"@],
        None,
        "unsafe { let _ = support::vec_from_leak_ptr(val.ptr, val.len); }"@,
    )
}

pub open spec fn header_line() -> Seq<char> {
    "// Wire layer of the API: edit the API, not this file."@
}

pub open spec fn allow_line() -> Seq<char> {
    "#![allow(non_camel_case_types, unused, clippy::redundant_closure, clippy::useless_conversion, clippy::unit_arg, non_snake_case)]"@
}

/// The lines of the generated text, section by section, for the given
/// deduplicated input and output type lists.
pub open spec fn all_lines(f: IrFile, wire_mod: Seq<char>, ins: Seq<IrType>, outs: Seq<IrType>) -> Seq<Seq<char>> {
    seq![allow_line(), header_line(), ""@, "use crate::"@ + wire_mod + "::*;"@, "use flutter_rust_bridge::*;"@, ""@,
        section_header("imports"@), ""@, section_header("wire functions"@)]
        + f.funcs@.map_values(|g: IrFunc| wire_func_text(g))
        + seq![section_header("wire structs"@)] + section_texts(TypeSection::WireStruct, ins, f)
        + seq![section_header("wire enums"@)] + section_texts(TypeSection::WireEnum, ins, f)
        + seq![section_header("allocate functions"@)] + section_texts(TypeSection::Allocate, ins, f)
        + seq![section_header("impl Wire2Api"@), wire2api_misc()] + section_texts(TypeSection::Wire2Api, ins, f)
        + seq![section_header("impl NewWithNullPtr"@), new_with_nullptr_misc()] + section_texts(TypeSection::NewWithNull, ins, f)
        + seq![section_header("impl IntoDart"@)] + section_texts(TypeSection::IntoDart, outs, f)
        + seq![section_header("executor"@), executor_text(f.has_executor), section_header("sync execution mode utility"@),
        sync_utility_text()]
}

/// The exported names, in emission order.
pub open spec fn all_names(f: IrFile, ins: Seq<IrType>) -> Seq<Seq<char>> {
    f.funcs@.map_values(|g: IrFunc| wire_func_name(g.name@)) + alloc_names(ins) + seq![free_name()]
}

/// `ins` and `outs` are the type lists of the inputs and outputs of `f`:
/// each type once, everything the functions reach, nothing they do not.
#[verifier::opaque]
pub open spec fn type_lists(f: IrFile, ins: Seq<IrType>, outs: Seq<IrType>) -> bool {
    &&& distinct_models(ins)
    &&& closed_in(ins, f)
    &&& crate::ir::reached(ins, f, true, false)
    &&& forall|m: TypeModel| #[trigger] is_root(m, f, true, false) ==> in_types(ins, m)
    &&& distinct_models(outs)
    &&& closed_in(outs, f)
    &&& crate::ir::reached(outs, f, false, true)
    &&& forall|m: TypeModel| #[trigger] is_root(m, f, false, true) ==> in_types(outs, m)
}

/// The input and output type lists of `f`.
fn distinct_type_lists(f: &IrFile) -> (r: (Vec<IrType>, Vec<IrType>))
    requires
        f.struct_pool.len() + f.enum_pool.len() <= usize::MAX,
    ensures
        type_lists(*f, r.0@, r.1@),
{
    let ins = f.distinct_types(true, false);
    let outs = f.distinct_types(false, true);
    proof {
        reveal(type_lists);
    }
    (ins, outs)
}

fn push_line(lines: &mut Vec<String>, s: String)
    ensures
        views(final(lines)@) == views(old(lines)@).push(s@),
{
    let ghost before = lines@;
    lines.push(s);
    proof {
        lemma_views_push(before, s);
    }
}

fn push_str(lines: &mut Vec<String>, s: &str)
    ensures
        views(final(lines)@) == views(old(lines)@).push(s@),
{
    push_line(lines, String::from_str(s));
}

impl Generator {
    fn generate_allocate_funcs(&mut self, t: &IrType) -> (r: String)
        ensures
            r@ == alloc_text(t@),
            final(self).names() == match alloc_of(t@) {
                Some(p) => old(self).names().push(p.0),
                None => old(self).names(),
            },
    {
        match alloc_parts(t) {
            Some(p) => {
                let ret = p.ret.as_str();
                self.collector.generate(p.name.as_str(), &p.params, Some(ret), p.body.as_str())
            },
            None => String::from_str(""),
        }
    }

    fn generate_type_section(&mut self, k: TypeSection, t: &IrType, f: &IrFile) -> (r: String)
        ensures
            r@ == type_section_text(k, t@, *f),
            final(self).names() == old(self).names() + type_names(k, t@),
    {
        proof {
            assert(old(self).names() + Seq::<Seq<char>>::empty() =~= old(self).names());
            if let Some(p) = alloc_of(t@) {
                assert(old(self).names() + seq![p.0] =~= old(self).names().push(p.0));
            }
        }
        match k {
            TypeSection::WireStruct => wire_struct(t, f),
            TypeSection::WireEnum => wire_enum(t, f),
            TypeSection::Allocate => self.generate_allocate_funcs(t),
            TypeSection::Wire2Api => wire2api(t, f),
            TypeSection::NewWithNull => new_with_null(t, f),
            TypeSection::IntoDart => into_dart(t, f),
        }
    }

    /// Appends one section entry per type of `ts`.
    fn push_section(&mut self, lines: &mut Vec<String>, k: TypeSection, ts: &Vec<IrType>, f: &IrFile)
        ensures
            views(final(lines)@) == views(old(lines)@) + section_texts(k, ts@, *f),
            final(self).names() == old(self).names() + section_names(k, ts@),
    {
        let ghost start = views(lines@);
        let ghost names0 = self.names();
        let mut i: usize = 0;
        proof {
            assert(section_texts(k, ts@.subrange(0, 0), *f) =~= Seq::<Seq<char>>::empty());
            assert(start + Seq::<Seq<char>>::empty() =~= start);
            assert(ts@.subrange(0, 0) =~= Seq::<IrType>::empty());
            assert(names0 + Seq::<Seq<char>>::empty() =~= names0);
        }
        while i < ts.len()
            invariant
                i <= ts.len(),
                views(lines@) == start + section_texts(k, ts@.subrange(0, i as int), *f),
                self.names() == names0 + section_names(k, ts@.subrange(0, i as int)),
            decreases ts.len() - i,
        {
            let ghost names1 = self.names();
            let s = self.generate_type_section(k, &ts[i], f);
            push_line(lines, s);
            proof {
                let sub = ts@.subrange(0, i as int);
                let sub1 = ts@.subrange(0, i as int + 1);
                assert(sub1.drop_last() =~= sub);
                assert(sub1.last() == ts@[i as int]);
                assert(section_texts(k, sub1, *f) =~= section_texts(k, sub, *f).push(s@));
                assert(views(lines@) =~= start + section_texts(k, sub1, *f));
                assert(section_names(k, sub1) =~= section_names(k, sub) + type_names(k, ts@[i as int]@));
                assert(self.names() =~= names0 + section_names(k, sub1));
            }
            i = i + 1;
        }
        proof {
            assert(ts@.subrange(0, ts.len() as int) =~= ts@);
        }
    }
}

} // verus!

verus! {

impl Generator {
    /// Emits the whole wire layer for `api_file`, section by section.
    pub fn generate(&mut self, api_file: &IrFile, rust_wire_mod: &str) -> (r: String)
        requires
            api_file.struct_pool.len() + api_file.enum_pool.len() <= usize::MAX,
            func_names_distinct(*api_file),
            crate::parser::refs_resolved(*api_file),
        ensures
            exists|ins: Seq<IrType>, outs: Seq<IrType>| {
                &&& type_lists(*api_file, ins, outs)
                &&& r@ == join(all_lines(*api_file, rust_wire_mod@, ins, outs), "\n"@)
                &&& final(self).names() == old(self).names() + all_names(*api_file, ins)
            },
    {
        let (distinct_input_types, distinct_output_types) = distinct_type_lists(api_file);
        let ghost ins = distinct_input_types@;
        let ghost outs = distinct_output_types@;
        let ghost f = *api_file;
        let ghost names0 = self.names();
        let mut lines: Vec<String> = Vec::new();
        push_str(&mut lines, "#![allow(non_camel_case_types, unused, clippy::redundant_closure, clippy::useless_conversion, clippy::unit_arg, non_snake_case)]");
        push_str(&mut lines, "// Wire layer of the API: edit the API, not this file.");
        push_str(&mut lines, "");
        push_line(&mut lines, String::from_str("use crate::").concat(rust_wire_mod).concat("::*;"));
        push_str(&mut lines, "use flutter_rust_bridge::*;");
        push_str(&mut lines, "");
        push_line(&mut lines, self.section_header_comment("imports"));
        push_str(&mut lines, "");
        push_line(&mut lines, self.section_header_comment("wire functions"));
        let ghost head = seq![allow_line(), header_line(), ""@, "use crate::"@ + rust_wire_mod@ + "::*;"@,
            "use flutter_rust_bridge::*;"@, ""@, section_header("imports"@), ""@, section_header("wire functions"@)];
        assert(views(lines@) =~= head);
        let mut i: usize = 0;
        proof {
            assert(api_file.funcs@.subrange(0, 0).map_values(|g: IrFunc| wire_func_text(g)) =~= Seq::<Seq<char>>::empty());
            assert(api_file.funcs@.subrange(0, 0).map_values(|g: IrFunc| wire_func_name(g.name@)) =~= Seq::<Seq<char>>::empty());
            assert(head + Seq::<Seq<char>>::empty() =~= head);
            assert(names0 + Seq::<Seq<char>>::empty() =~= names0);
        }
        while i < api_file.funcs.len()
            invariant
                i <= api_file.funcs.len(),
                views(lines@) == head + api_file.funcs@.subrange(0, i as int).map_values(|g: IrFunc| wire_func_text(g)),
                self.names() == names0 + api_file.funcs@.subrange(0, i as int).map_values(|g: IrFunc| wire_func_name(g.name@)),
            decreases api_file.funcs.len() - i,
        {
            let s = self.generate_wire_func(&api_file.funcs[i]);
            push_line(&mut lines, s);
            proof {
                assert(api_file.funcs@.subrange(0, i as int + 1).map_values(|g: IrFunc| wire_func_text(g))
                    =~= api_file.funcs@.subrange(0, i as int).map_values(|g: IrFunc| wire_func_text(g)).push(s@));
                assert(api_file.funcs@.subrange(0, i as int + 1).map_values(|g: IrFunc| wire_func_name(g.name@))
                    =~= api_file.funcs@.subrange(0, i as int).map_values(|g: IrFunc| wire_func_name(g.name@)).push(
                    wire_func_name(api_file.funcs@[i as int].name@)));
                assert(views(lines@) =~= head + api_file.funcs@.subrange(0, i as int + 1).map_values(
                    |g: IrFunc| wire_func_text(g),
                ));
                assert(self.names() =~= names0 + api_file.funcs@.subrange(0, i as int + 1).map_values(
                    |g: IrFunc| wire_func_name(g.name@),
                ));
            }
            i = i + 1;
        }
        proof {
            assert(api_file.funcs@.subrange(0, api_file.funcs.len() as int) =~= api_file.funcs@);
        }
        let ghost names1 = self.names();
        push_line(&mut lines, self.section_header_comment("wire structs"));
        self.push_section(&mut lines, TypeSection::WireStruct, &distinct_input_types, api_file);
        push_line(&mut lines, self.section_header_comment("wire enums"));
        self.push_section(&mut lines, TypeSection::WireEnum, &distinct_input_types, api_file);
        push_line(&mut lines, self.section_header_comment("allocate functions"));
        self.push_section(&mut lines, TypeSection::Allocate, &distinct_input_types, api_file);
        let ghost names2 = self.names();
        push_line(&mut lines, self.section_header_comment("impl Wire2Api"));
        push_str(&mut lines, self.generate_wire2api_misc());
        self.push_section(&mut lines, TypeSection::Wire2Api, &distinct_input_types, api_file);
        push_line(&mut lines, self.section_header_comment("impl NewWithNullPtr"));
        push_str(&mut lines, self.generate_new_with_nullptr_misc());
        self.push_section(&mut lines, TypeSection::NewWithNull, &distinct_input_types, api_file);
        push_line(&mut lines, self.section_header_comment("impl IntoDart"));
        self.push_section(&mut lines, TypeSection::IntoDart, &distinct_output_types, api_file);
        push_line(&mut lines, self.section_header_comment("executor"));
        push_str(&mut lines, self.generate_executor(api_file));
        push_line(&mut lines, self.section_header_comment("sync execution mode utility"));
        let sync = self.generate_sync_execution_mode_utility();
        push_line(&mut lines, sync);
        proof {
            let e: Seq<Seq<char>> = Seq::empty();
            assert(section_names(TypeSection::WireStruct, ins) == e);
            assert(names1 + e =~= names1);
            assert(self.names() =~= names0 + all_names(f, ins));
            assert(views(lines@) =~= all_lines(f, rust_wire_mod@, ins, outs));
        }
        let r = join_strings(&lines, "\n");
        proof {
            assert(r@ == join(all_lines(f, rust_wire_mod@, ins, outs), "\n"@));
        }
        r
    }

    fn section_header_comment(&self, section_name: &str) -> (r: String)
        ensures
            r@ == section_header(section_name@),
    {
        String::from_str("// Section: ").concat(section_name).concat("\n")
    }

    fn generate_wire2api_misc(&self) -> (r: &'static str)
        ensures
            r@ == wire2api_misc(),
    {
        "pub trait Wire2Api<T> {\nfn wire2api(self) -> T;\n}\n\nimpl<T, S> Wire2Api<Option<T>> for *mut S\nwhere\n*mut S: Wire2Api<T>\n{\nfn wire2api(self) -> Option<T> {\nif self.is_null() {\nNone\n} else {\nSome(self.wire2api())\n}\n}\n}\n"
    }

    fn generate_new_with_nullptr_misc(&self) -> (r: &'static str)
        ensures
            r@ == new_with_nullptr_misc(),
    {
        "pub trait NewWithNullPtr {\nfn new_with_null_ptr() -> Self;\n}\n\nimpl<T> NewWithNullPtr for *mut T {\nfn new_with_null_ptr() -> Self {\ncore::ptr::null_mut()\n}\n}\n"
    }

    fn generate_executor(&self, api_file: &IrFile) -> (r: &'static str)
        ensures
            r@ == executor_text(api_file.has_executor),
    {
        if api_file.has_executor {
            "/* nothing since executor detected */"
        } else {
            "support::lazy_static! {\npub static ref FLUTTER_RUST_BRIDGE_HANDLER: support::DefaultHandler = Default::default();\n}\n"
        }
    }

    fn generate_sync_execution_mode_utility(&mut self) -> (r: String)
        ensures
            r@ == sync_utility_text(),
            final(self).names() == old(self).names().push(free_name()),
    {
        let mut params: Vec<String> = Vec::new();
        push_str(&mut params, "val: support::WireSyncReturnStruct");
        assert(views(params@) =~= seq!["val: support::WireSyncReturnStruct"@]);
        self.collector.generate(
            "free_WireSyncReturnStruct",
            &params,
            None,
            "unsafe { let _ = support::vec_from_leak_ptr(val.ptr, val.len); }",
        )
    }
}

/// Generates the wire layer for `api_file`: the text, and the name of every
/// exported function in the order of emission. `rust_wire_mod` is the module
/// that holds the API functions.
pub fn generate(api_file: &IrFile, rust_wire_mod: &str) -> (r: Output)
    requires
        api_file.struct_pool.len() + api_file.enum_pool.len() <= usize::MAX,
        func_names_distinct(*api_file),
        crate::parser::refs_resolved(*api_file),
    ensures
        exists|ins: Seq<IrType>, outs: Seq<IrType>| {
            &&& type_lists(*api_file, ins, outs)
            &&& r.code@ == join(all_lines(*api_file, rust_wire_mod@, ins, outs), "\n"@)
            &&& views(r.extern_func_names@) == all_names(*api_file, ins)
        },
{
    let mut generator = Generator::new();
    let code = generator.generate(api_file, rust_wire_mod);
    let names = generator.collector.into_names();
    proof {
        assert forall|ins: Seq<IrType>| Seq::<Seq<char>>::empty() + all_names(*api_file, ins) == all_names(*api_file, ins) by {
            assert(Seq::<Seq<char>>::empty() + all_names(*api_file, ins) =~= all_names(*api_file, ins));
        }
    }
    Output { code, extern_func_names: names }
}

} // verus!

verus! {

/// A type used as input by any number of functions appears exactly once in
/// the input type list, so each of its per-type sections (wire struct,
/// wire-to-domain conversion, null-default constructor) is emitted once.
pub proof fn lemma_input_type_emitted_once(f: IrFile, ins: Seq<IrType>, outs: Seq<IrType>, m: TypeModel)
    requires
        type_lists(f, ins, outs),
        is_root(m, f, true, false),
    ensures
        exists|k: int| 0 <= k < ins.len() && (#[trigger] ins[k])@ == m && forall|k2: int|
            0 <= k2 < ins.len() && (#[trigger] ins[k2])@ == m ==> k2 == k,
{
    reveal(type_lists);
    assert(in_types(ins, m));
    let k = choose|k: int| 0 <= k < ins.len() && (#[trigger] ins[k])@ == m;
    assert forall|k2: int| 0 <= k2 < ins.len() && (#[trigger] ins[k2])@ == m implies k2 == k by {
        if k2 < k {
            assert(ins[k2]@ != ins[k]@);
        } else if k < k2 {
            assert(ins[k]@ != ins[k2]@);
        }
    }
}

/// Distinct function names give distinct exported wire-function names.
pub proof fn lemma_wire_func_names_distinct(f: IrFile)
    requires
        forall|i: int, j: int| 0 <= i < j < f.funcs.len() ==> f.funcs@[i].name@ != f.funcs@[j].name@,
    ensures
        forall|i: int, j: int| 0 <= i < j < f.funcs.len() ==> wire_func_name(f.funcs@[i].name@) != wire_func_name(
            f.funcs@[j].name@,
        ),
{
    assert forall|i: int, j: int| 0 <= i < j < f.funcs.len() implies wire_func_name(f.funcs@[i].name@)
        != wire_func_name(f.funcs@[j].name@) by {
        let a = f.funcs@[i].name@;
        let b = f.funcs@[j].name@;
        let p = "wire_"@;
        if wire_func_name(a) == wire_func_name(b) {
            assert((p + a).subrange(p.len() as int, (p + a).len() as int) =~= a);
            assert((p + b).subrange(p.len() as int, (p + b).len() as int) =~= b);
        }
    }
}

/// The wire-function names lead the exported names of `generate`, one per
/// function in order, so distinct function names give as many distinct
/// exported names.
pub proof fn lemma_exported_names_distinct(f: IrFile, ins: Seq<IrType>)
    requires
        forall|i: int, j: int| 0 <= i < j < f.funcs.len() ==> f.funcs@[i].name@ != f.funcs@[j].name@,
    ensures
        all_names(f, ins).len() >= f.funcs.len(),
        forall|i: int| 0 <= i < f.funcs.len() ==> #[trigger] all_names(f, ins)[i] == wire_func_name(f.funcs@[i].name@),
        forall|i: int, j: int| 0 <= i < j < f.funcs.len() ==> all_names(f, ins)[i] != all_names(f, ins)[j],
{
    lemma_wire_func_names_distinct(f);
}

} // verus!
