use frb_codegen::capture::GenericCapture;
use frb_codegen::generator::{generate, HANDLER_NAME};
use frb_codegen::ir::{IrFile, IrFuncMode, IrType, IrTypeDelegate, IrTypePrimitive, IrVariantKind};
use frb_codegen::parser::{
    contains_str, parse, DeclTables, ParseError, SrcEnum, SrcField, SrcFn, SrcParam, SrcStruct, SrcVariant,
    SrcVariantKind,
};

fn param(name: &str, ty: &str) -> SrcParam {
    SrcParam { name: Some(name.to_string()), ty: ty.to_string(), comments: vec![] }
}

fn func(name: &str, params: Vec<SrcParam>, output: Option<&str>) -> SrcFn {
    SrcFn { name: name.to_string(), params, output: output.map(|s| s.to_string()), comments: vec![] }
}

fn field(name: &str, ty: &str) -> SrcField {
    SrcField { name: name.to_string(), ty: ty.to_string(), comments: vec![] }
}

fn no_decls() -> DeclTables {
    DeclTables { structs: vec![], enums: vec![] }
}

fn config_decls() -> DeclTables {
    DeclTables {
        structs: vec![SrcStruct {
            name: "Config".to_string(),
            fields: vec![field("name", "String"), field("retries", "Option<i32>")],
        }],
        enums: vec![],
    }
}

fn parse_ok(fns: Vec<SrcFn>, decls: &DeclTables) -> IrFile {
    parse("", &fns, decls).expect("parse")
}

fn count(hay: &str, needle: &str) -> usize {
    hay.matches(needle).count()
}

#[test]
fn scenario_add_is_normal_and_infallible() {
    let file = parse_ok(vec![func("add", vec![param("a", "i32"), param("b", "i32")], Some("i32"))], &no_decls());
    let f = &file.funcs[0];
    assert_eq!(f.mode, IrFuncMode::Normal);
    assert!(!f.fallible);
    assert_eq!(f.inputs.len(), 2);
    assert_eq!(f.inputs[0].ty, IrType::Primitive(IrTypePrimitive::I32));
    assert_eq!(f.inputs[1].ty, IrType::Primitive(IrTypePrimitive::I32));
    assert_eq!(f.output, IrType::Primitive(IrTypePrimitive::I32));
    let out = generate(&file, "api");
    assert!(out.code.contains("pub extern \"C\" fn wire_add(port_: i64, a: i32, b: i32)"));
    assert!(out.code.contains("Ok(add(api_a, api_b))"));
    assert!(!out.code.contains("pub struct wire_"));
    assert!(!out.code.contains("pub union"));
    assert_eq!(out.extern_func_names, vec!["wire_add".to_string(), "free_WireSyncReturnStruct".to_string()]);
}

#[test]
fn scenario_load_is_fallible_with_one_wire_struct() {
    let decls = config_decls();
    let file = parse_ok(vec![func("load", vec![param("id", "String")], Some("Result<Config>"))], &decls);
    let f = &file.funcs[0];
    assert!(f.fallible);
    assert_eq!(f.mode, IrFuncMode::Normal);
    assert_eq!(f.output, IrType::StructRef("Config".to_string()));
    assert_eq!(f.inputs[0].ty, IrType::Delegate(IrTypeDelegate::String));
    assert_eq!(file.struct_pool.len(), 1);
    assert_eq!(
        file.struct_pool[0].fields[1].ty,
        IrType::Optional(Box::new(IrType::Primitive(IrTypePrimitive::I32)))
    );
    let out = generate(&file, "api");
    assert!(out.code.contains("load(api_id)"));
    assert!(!out.code.contains("Ok(load("));
    assert!(out.code.contains("impl support::IntoDart for Config"));
}

#[test]
fn scenario_config_input_converts_optional_through_null_rule() {
    let decls = config_decls();
    let file = parse_ok(vec![func("save", vec![param("c", "Config")], None)], &decls);
    let out = generate(&file, "api");
    assert_eq!(count(&out.code, "pub struct wire_Config {"), 1);
    assert_eq!(count(&out.code, "impl Wire2Api<Config> for wire_Config"), 1);
    assert!(out.code.contains("retries: *mut i32"));
    assert!(out.code.contains("retries: self.retries.wire2api()"));
    assert!(out.code.contains("if self.is_null() {\nNone"));
    assert!(out.code.contains("retries: core::ptr::null_mut()"));
}

#[test]
fn scenario_subscribe_is_streaming() {
    let file = parse_ok(vec![func("subscribe", vec![param("sink", "StreamSink<i32>")], None)], &no_decls());
    let f = &file.funcs[0];
    assert_eq!(f.mode, IrFuncMode::Stream);
    assert_eq!(f.output, IrType::Primitive(IrTypePrimitive::I32));
    assert!(f.inputs.is_empty());
    let out = generate(&file, "api");
    assert!(out.code.contains("fn wire_subscribe(port_: i64)"));
    assert!(out.code.contains("subscribe(task_callback.stream_sink())"));
    assert!(out.code.contains("FfiCallMode::Stream"));
}

#[test]
fn scenario_self_referential_node() {
    let decls = DeclTables {
        structs: vec![SrcStruct { name: "Node".to_string(), fields: vec![field("next", "Option<Box<Node>>")] }],
        enums: vec![],
    };
    let file = parse_ok(vec![func("walk", vec![param("n", "Node")], None)], &decls);
    assert_eq!(file.struct_pool.len(), 1);
    assert_eq!(file.struct_pool[0].name, "Node");
    assert_eq!(
        file.struct_pool[0].fields[0].ty,
        IrType::Optional(Box::new(IrType::Boxed(Box::new(IrType::StructRef("Node".to_string())))))
    );
    let out = generate(&file, "api");
    assert_eq!(count(&out.code, "pub struct wire_Node {"), 1);
}

#[test]
fn memoization_gives_one_pool_entry() {
    let decls = config_decls();
    let file = parse_ok(
        vec![
            func("a", vec![param("c", "Config")], None),
            func("b", vec![param("c", "Vec<Config>")], Some("Config")),
        ],
        &decls,
    );
    assert_eq!(file.struct_pool.len(), 1);
    assert_eq!(file.funcs[0].inputs[0].ty, IrType::StructRef("Config".to_string()));
    assert_eq!(
        file.funcs[1].inputs[0].ty,
        IrType::GeneralList(Box::new(IrType::StructRef("Config".to_string())))
    );
}

#[test]
fn deduplication_of_shared_input_struct() {
    let decls = config_decls();
    let file = parse_ok(
        vec![func("a", vec![param("c", "Config")], None), func("b", vec![param("d", "Config")], None)],
        &decls,
    );
    let out = generate(&file, "api");
    assert_eq!(count(&out.code, "pub struct wire_Config {"), 1);
    assert_eq!(count(&out.code, "impl Wire2Api<Config> for wire_Config"), 1);
    assert_eq!(count(&out.code, "impl NewWithNullPtr for wire_Config"), 1);
    assert_eq!(count(&out.code, "fn new_Config()"), 1);
}

#[test]
fn sync_mode_for_byte_buffer_return() {
    let file = parse_ok(vec![func("bytes", vec![], Some("SyncReturn<Vec<u8>>"))], &no_decls());
    assert_eq!(file.funcs[0].mode, IrFuncMode::Sync);
    assert!(!file.funcs[0].fallible);
    let out = generate(&file, "api");
    assert!(out.code.contains("fn wire_bytes() -> support::WireSyncReturnStruct"));
    assert!(out.code.contains("wrap_sync"));
}

#[test]
fn unit_return_is_infallible_normal() {
    let file = parse_ok(vec![func("ping", vec![], None)], &no_decls());
    assert_eq!(file.funcs[0].output, IrType::Primitive(IrTypePrimitive::Unit));
    assert_eq!(file.funcs[0].mode, IrFuncMode::Normal);
    assert!(!file.funcs[0].fallible);
}

#[test]
fn exported_names_are_distinct() {
    let names = ["f1", "f2", "f3", "f4"];
    let fns: Vec<SrcFn> = names.iter().map(|n| func(n, vec![param("x", "Vec<u8>")], None)).collect();
    let file = parse_ok(fns, &no_decls());
    let out = generate(&file, "api");
    for (i, n) in names.iter().enumerate() {
        assert_eq!(out.extern_func_names[i], format!("wire_{}", n));
    }
    let mut sorted = out.extern_func_names.clone();
    sorted.sort();
    sorted.dedup();
    assert_eq!(sorted.len(), out.extern_func_names.len());
    assert!(out.extern_func_names.contains(&"new_list_u8".to_string()));
}

#[test]
fn lists_are_classified_by_element() {
    let decls = config_decls();
    let file = parse_ok(
        vec![func("f", vec![param("a", "Vec<u8>"), param("b", "Vec<String>"), param("c", "Vec<Config>")], None)],
        &decls,
    );
    let ins = &file.funcs[0].inputs;
    assert_eq!(ins[0].ty, IrType::PrimitiveList(IrTypePrimitive::U8));
    assert_eq!(ins[1].ty, IrType::GeneralList(Box::new(IrType::Delegate(IrTypeDelegate::String))));
    assert_eq!(ins[2].ty, IrType::GeneralList(Box::new(IrType::StructRef("Config".to_string()))));
}

#[test]
fn enum_input_is_a_tagged_union() {
    let decls = DeclTables {
        structs: vec![],
        enums: vec![SrcEnum {
            name: "Shape".to_string(),
            variants: vec![
                SrcVariant { name: "Empty".to_string(), kind: SrcVariantKind::Value },
                SrcVariant { name: "Circle".to_string(), kind: SrcVariantKind::Fields(vec![field("r", "i32")]) },
            ],
        }],
    };
    let file = parse_ok(vec![func("draw", vec![param("s", "Shape")], Some("Shape"))], &decls);
    assert_eq!(file.enum_pool.len(), 1);
    assert!(matches!(file.enum_pool[0].variants[0].kind, IrVariantKind::Value));
    let out = generate(&file, "api");
    assert!(out.code.contains("pub union ShapeKind {\nEmpty: *mut wire_Shape_Empty,\nCircle: *mut wire_Shape_Circle\n}"));
    assert!(out.code.contains("0 => Shape::Empty"));
    assert!(out.code.contains("1 => unsafe"));
    assert!(out.code.contains("Self::Circle { r } => vec![1.into_dart(), r.into_dart()]"));
}

#[test]
fn error_unsupported_type() {
    let r = parse("", &vec![func("f", vec![param("a", "(i32,i32)")], None)], &no_decls());
    assert_eq!(r, Err(ParseError::UnsupportedType("(i32,i32)".to_string())));
    let r = parse("", &vec![func("f", vec![param("a", "HashMap<i32>")], None)], &no_decls());
    assert_eq!(r, Err(ParseError::UnsupportedType("HashMap<i32>".to_string())));
}

#[test]
fn error_declaration_not_found() {
    let r = parse("", &vec![func("f", vec![param("a", "Option<Missing>")], None)], &no_decls());
    assert_eq!(r, Err(ParseError::DeclarationNotFound("Missing".to_string())));
}

#[test]
fn error_unsupported_signature() {
    let p = SrcParam { name: None, ty: "i32".to_string(), comments: vec![] };
    let r = parse("", &vec![func("f", vec![p], None)], &no_decls());
    assert_eq!(r, Err(ParseError::UnsupportedSignature("f".to_string())));
}

#[test]
fn later_declaration_wins() {
    let decls = DeclTables {
        structs: vec![
            SrcStruct { name: "A".to_string(), fields: vec![field("x", "i32")] },
            SrcStruct { name: "A".to_string(), fields: vec![field("y", "bool")] },
        ],
        enums: vec![],
    };
    let file = parse_ok(vec![func("f", vec![param("a", "A")], None)], &decls);
    assert_eq!(file.struct_pool.len(), 1);
    assert_eq!(file.struct_pool[0].fields[0].name, "y");
}

#[test]
fn executor_detected_in_source() {
    let src = format!("pub static {}: u8 = 0;", HANDLER_NAME);
    let file = parse(&src, &vec![func("ping", vec![], None)], &no_decls()).unwrap();
    assert!(file.has_executor);
    let out = generate(&file, "api");
    assert!(out.code.contains("/* nothing since executor detected */"));
    let file = parse("", &vec![func("ping", vec![], None)], &no_decls()).unwrap();
    assert!(!file.has_executor);
    assert!(generate(&file, "api").code.contains("support::DefaultHandler"));
}

#[test]
fn capture_generic_argument() {
    let c = GenericCapture::new("Result");
    assert_eq!(c.captures("Result<Tom>"), Some("Tom".to_string()));
    assert_eq!(c.captures("anyhow::Result<Vec<u8>>"), Some("Vec<u8>".to_string()));
    assert_eq!(c.captures("Option<Result<i32>>"), None);
    assert_eq!(c.captures("Result<>"), None);
    assert_eq!(c.captures("Result<a>>"), None);
}

#[test]
fn text_search() {
    assert!(contains_str("abcdef", "cde"));
    assert!(!contains_str("abc", "abcd"));
    assert!(contains_str("abc", ""));
}

#[test]
fn section_order_is_fixed() {
    let file = parse_ok(vec![func("ping", vec![], None)], &no_decls());
    let code = generate(&file, "api").code;
    let order = [
        "// Section: imports",
        "// Section: wire functions",
        "// Section: wire structs",
        "// Section: wire enums",
        "// Section: allocate functions",
        "// Section: impl Wire2Api",
        "// Section: impl NewWithNullPtr",
        "// Section: impl IntoDart",
        "// Section: executor",
        "// Section: sync execution mode utility",
    ];
    let mut last = 0;
    for s in order.iter() {
        let at = code.find(s).expect("section");
        assert!(at >= last);
        last = at;
    }
    assert!(code.starts_with("#![allow("));
    assert!(code.contains("use crate::api::*;"));
}

#[test]
fn type_spellings() {
    let t = IrType::GeneralList(Box::new(IrType::Optional(Box::new(IrType::StructRef("Node".to_string())))));
    assert_eq!(t.rust_api_type(), "Vec<Option<Node>>");
    assert_eq!(t.safe_ident(), "list_opt_Node");
    assert_eq!(t.rust_wire_type(), "wire_list_opt_Node");
    assert_eq!(t.rust_wire_modifier(), "*mut ");
    let p = IrType::Primitive(IrTypePrimitive::Unit);
    assert_eq!(p.rust_api_type(), "()");
    assert_eq!(p.safe_ident(), "unit");
    assert_eq!(p.rust_wire_modifier(), "");
    let b = IrType::Boxed(Box::new(IrType::Primitive(IrTypePrimitive::U64)));
    assert_eq!(b.rust_api_type(), "Box<u64>");
    assert_eq!(b.rust_wire_type(), "u64");
    assert!(b.same(&b.copy()));
    assert!(!b.same(&p));
}

#[test]
fn allocation_functions_for_pointer_shapes() {
    let decls = config_decls();
    let file = parse_ok(
        vec![func("f", vec![param("a", "Option<i32>"), param("b", "Box<Config>"), param("s", "String")], None)],
        &decls,
    );
    let out = generate(&file, "api");
    assert!(out.code.contains("fn new_opt_i32(value: i32) -> *mut i32"));
    assert!(out.code.contains("fn new_box_Config() -> *mut wire_Config"));
    assert!(out.code.contains("fn new_uint_8_list(len: i32) -> *mut wire_uint_8_list"));
    assert!(out.extern_func_names.contains(&"new_Config".to_string()));
}

#[test]
fn error_duplicate_export() {
    let r = parse("", &vec![func("f", vec![], None), func("g", vec![], None), func("f", vec![], None)], &no_decls());
    assert_eq!(r, Err(ParseError::DuplicateExport("f".to_string())));
}

#[test]
fn capture_rejects_several_arguments() {
    let c = GenericCapture::new("Result");
    assert_eq!(c.captures("Result<i32,String>"), None);
}

#[test]
fn mutually_recursive_structs_resolve_once_each() {
    let decls = DeclTables {
        structs: vec![
            SrcStruct { name: "A".to_string(), fields: vec![field("b", "Option<Box<B>>")] },
            SrcStruct { name: "B".to_string(), fields: vec![field("a", "Option<Box<A>>")] },
        ],
        enums: vec![],
    };
    let file = parse_ok(vec![func("f", vec![param("a", "A")], None)], &decls);
    assert_eq!(file.struct_pool.len(), 2);
    let a = file.struct_pool.iter().find(|s| s.name == "A").unwrap();
    let b = file.struct_pool.iter().find(|s| s.name == "B").unwrap();
    assert_eq!(a.fields[0].ty, IrType::Optional(Box::new(IrType::Boxed(Box::new(IrType::StructRef("B".to_string()))))));
    assert_eq!(b.fields[0].ty, IrType::Optional(Box::new(IrType::Boxed(Box::new(IrType::StructRef("A".to_string()))))));
}

#[test]
fn unsupported_field_type_in_reached_struct_aborts() {
    let decls = DeclTables {
        structs: vec![SrcStruct { name: "S".to_string(), fields: vec![field("x", "(i32,i32)")] }],
        enums: vec![],
    };
    let r = parse("", &vec![func("f", vec![param("s", "S")], None)], &decls);
    assert_eq!(r, Err(ParseError::UnsupportedType("(i32,i32)".to_string())));
}
