use near_syn::contract::Contract;
use near_syn::md::{extract_docs, md, methods};
use near_syn::near_syn::{
    FieldDecl, FieldsKind, ImplDecl, Item, MethodDecl, ParamDecl, SourceFile, StructDecl,
    TypeExpr,
};
use near_syn::ts::{ts_sig, TS};

fn named(n: &str) -> TypeExpr {
    TypeExpr::Path(n.to_string(), vec![])
}

fn generic(n: &str, args: Vec<TypeExpr>) -> TypeExpr {
    TypeExpr::Path(n.to_string(), args)
}

fn strings(xs: Vec<&str>) -> Vec<String> {
    xs.into_iter().map(|x| x.to_string()).collect()
}

fn free_fn(name: &str, params: Vec<(&str, TypeExpr)>, ret: Option<TypeExpr>) -> MethodDecl {
    MethodDecl {
        name: name.to_string(),
        attrs: vec![],
        docs: vec![],
        vis_public: true,
        has_receiver: false,
        mut_receiver: false,
        params: params
            .into_iter()
            .map(|(n, t)| ParamDecl { name: n.to_string(), ty: t })
            .collect(),
        ret,
    }
}

#[test]
fn ts_prelude_exports_common_types() {
    let mut ts = TS::new(String::new());
    ts.ts_prelude(
        " on 123".to_string(),
        "near-ts",
        "0.1.0",
        "https://example.com/near-syn",
    );
    assert_eq!(
        ts.buf,
        "// TypeScript bindings generated with near-ts v0.1.0 https://example.com/near-syn on 123\n\n\
         // Exports common NEAR Rust SDK types\n\
         export type U64 = string;\n\
         export type I64 = string;\n\
         export type U128 = string;\n\
         export type I128 = string;\n\
         export type AccountId = string;\n\
         export type ValidAccountId = string;\n\n"
    );
}

#[test]
fn ts_main_type_joins_interfaces() {
    let mut ts = TS::new(String::new());
    ts.name = "Contract".to_string();
    ts.interfaces.push("Self0".to_string());
    ts.ts_main_type();
    assert_eq!(ts.buf, "export type Contract = Self0;\n\n");

    let mut ts = TS::new(String::new());
    ts.name = "Contract".to_string();
    ts.interfaces = strings(vec!["Self0", "I"]);
    ts.ts_main_type();
    assert_eq!(ts.buf, "export type Contract = Self0 & I;\n\n");

    let mut ts = TS::new(String::new());
    ts.interfaces.push("Self0".to_string());
    ts.ts_main_type();
    assert_eq!(ts.buf, "");
}

#[test]
fn ts_contract_methods_lists_both_kinds() {
    let mut ts = TS::new(String::new());
    ts.name = "Contract".to_string();
    ts.view_methods.push("get".to_string());
    ts.change_methods.push("set".to_string());
    ts.change_methods.push("insert".to_string());
    ts.ts_contract_methods();
    assert_eq!(
        ts.buf,
        r#"export const ContractMethods = {
    viewMethods: [
        "get",
    ],
    changeMethods: [
        "set",
        "insert",
    ],
};
"#
    );
}

#[test]
fn ts_contract_methods_keeps_empty_lists() {
    let mut ts = TS::new(String::new());
    ts.name = "Contract".to_string();
    ts.view_methods.push("get".to_string());
    ts.ts_contract_methods();
    assert_eq!(
        ts.buf,
        r#"export const ContractMethods = {
    viewMethods: [
        "get",
    ],
    changeMethods: [
    ],
};
"#
    );
}

#[test]
fn ts_sig_packs_arguments_and_wraps_results() {
    assert_eq!(ts_sig(&free_fn("a", vec![], None)).unwrap(), "a(): Promise<void>;");
    assert_eq!(
        ts_sig(&free_fn("b", vec![("x", named("U128"))], None)).unwrap(),
        "b(args: { x: U128 }): Promise<void>;"
    );
    assert_eq!(
        ts_sig(&free_fn(
            "c",
            vec![("x", named("U128")), ("y", named("String"))],
            Some(generic("Vec", vec![named("Token")])),
        ))
        .unwrap(),
        "c(args: { x: U128, y: string }): Promise<Token[]>;"
    );
    assert_eq!(
        ts_sig(&free_fn(
            "d",
            vec![
                ("x", named("U128")),
                ("y", named("String")),
                ("z", generic("Option", vec![named("U64")])),
            ],
            Some(generic("Vec", vec![named("Token")])),
        ))
        .unwrap(),
        "d(args: { x: U128, y: string, z: U64|null }): Promise<Token[]>;"
    );
    assert_eq!(
        ts_sig(&free_fn("e", vec![("x", named("U128"))], Some(TypeExpr::Tuple(vec![])))).unwrap(),
        "e(args: { x: U128 }): Promise<void>;"
    );
    assert_eq!(
        ts_sig(&free_fn(
            "f",
            vec![("paren", TypeExpr::Paren(Box::new(named("String"))))],
            None,
        ))
        .unwrap(),
        "f(args: { paren: string }): Promise<void>;"
    );
    assert_eq!(
        ts_sig(&free_fn("a", vec![], Some(named("Promise")))).unwrap(),
        "a(): Promise<void>;"
    );
    assert_eq!(
        ts_sig(&free_fn("p", vec![], Some(generic("Promise", vec![named("u32")])))).unwrap(),
        "p(): Promise<void>;"
    );
}

#[test]
fn ts_sig_adds_gas_and_amount_slots() {
    let mut get = free_fn("get", vec![], Some(named("u32")));
    get.has_receiver = true;
    assert_eq!(ts_sig(&get).unwrap(), "get(): Promise<number>;");

    let mut set = free_fn("set", vec![], None);
    set.has_receiver = true;
    set.mut_receiver = true;
    assert_eq!(ts_sig(&set).unwrap(), "set(gas?: any): Promise<void>;");

    let mut set_args = free_fn("set_args", vec![("x", named("u32"))], None);
    set_args.has_receiver = true;
    set_args.mut_receiver = true;
    assert_eq!(
        ts_sig(&set_args).unwrap(),
        "set_args(args: { x: number }, gas?: any): Promise<void>;"
    );

    let mut pay = free_fn("pay", vec![], None);
    pay.has_receiver = true;
    pay.mut_receiver = true;
    pay.attrs = strings(vec!["payable"]);
    assert_eq!(ts_sig(&pay).unwrap(), "pay(gas?: any, amount?: any): Promise<void>;");
}

#[test]
fn ts_sig_shapes_init_methods_as_construction_requests() {
    let mut init_here = free_fn("init_here", vec![("f128", named("U128"))], Some(named("Self")));
    init_here.attrs = strings(vec!["init"]);
    assert_eq!(ts_sig(&init_here).unwrap(), "init_here: { f128: U128 };");
}

#[test]
fn ts_impl_numbers_bare_impl_blocks() {
    let mut get = free_fn("get", vec![], Some(named("u32")));
    get.has_receiver = true;
    let mut set = free_fn("set", vec![], None);
    set.has_receiver = true;
    set.mut_receiver = true;

    let first = ImplDecl {
        attrs: strings(vec!["near_bindgen"]),
        docs: vec![],
        trait_name: None,
        self_ty: named("Contract"),
        items: vec![get],
    };
    let second = ImplDecl {
        attrs: strings(vec!["near_bindgen"]),
        docs: vec![],
        trait_name: None,
        self_ty: named("Contract"),
        items: vec![set],
    };

    let contract = Contract::new();
    let mut ts = TS::new(String::new());
    ts.ts_impl(&first, &contract).unwrap();
    ts.ts_impl(&second, &contract).unwrap();
    ts.ts_main_type();
    assert_eq!(
        ts.buf,
        "/**\n */\nexport interface Self0 {\n    /**\n     */\n    get(): Promise<number>;\n\n}\n\n\
         /**\n */\nexport interface Self1 {\n    /**\n     */\n    set(gas?: any): Promise<void>;\n\n}\n\n\
         export type Contract = Self0 & Self1;\n\n"
    );
    assert_eq!(ts.view_methods, strings(vec!["get"]));
    assert_eq!(ts.change_methods, strings(vec!["set"]));
}

#[test]
fn ts_items_emits_aliases_structs_and_enums() {
    let ast = SourceFile {
        attrs: vec![],
        items: vec![
            Item::Type(near_syn::near_syn::AliasDecl {
                name: "T".to_string(),
                docs: strings(vec![" Doc-comments are translated."]),
                ty: named("u64"),
            }),
            Item::Struct(StructDecl {
                name: "A".to_string(),
                attrs: vec![],
                derives: strings(vec!["Serialize"]),
                docs: vec![],
                fields: FieldsKind::Named(vec![FieldDecl {
                    name: "field".to_string(),
                    docs: vec![],
                    ty: named("u32"),
                }]),
            }),
            Item::Struct(StructDecl {
                name: "P".to_string(),
                attrs: vec![],
                derives: strings(vec!["Deserialize"]),
                docs: vec![],
                fields: FieldsKind::Unnamed(vec![named("String"), named("u32")]),
            }),
        ],
    };
    let mut contract = Contract::new();
    contract.push_ast(ast).unwrap();
    let mut ts = TS::new(String::new());
    ts.ts_items(&contract).unwrap();
    assert_eq!(
        ts.buf,
        "/**\n * Doc-comments are translated.\n */\nexport type T = number;\n\n\
         /**\n */\nexport interface A {\n    /**\n     */\n    field: number;\n\n}\n\n\
         /**\n */\nexport type P = [string, number];\n\n"
    );
}

#[test]
fn bindings_for_multiple_units() {
    let mut get = free_fn("get", vec![], Some(named("u32")));
    get.has_receiver = true;
    let unit1 = SourceFile {
        attrs: vec![],
        items: vec![Item::Struct(StructDecl {
            name: "S".to_string(),
            attrs: vec![],
            derives: strings(vec!["Serialize"]),
            docs: vec![],
            fields: FieldsKind::Named(vec![FieldDecl {
                name: "f".to_string(),
                docs: vec![],
                ty: named("u32"),
            }]),
        })],
    };
    let unit2 = SourceFile {
        attrs: vec![],
        items: vec![Item::Impl(ImplDecl {
            attrs: strings(vec!["near_bindgen"]),
            docs: vec![],
            trait_name: None,
            self_ty: named("S"),
            items: vec![get],
        })],
    };
    let mut contract = Contract::new();
    contract.push_asts(vec![unit1, unit2]).unwrap();
    let mut ts = TS::new(String::new());
    ts.ts_items(&contract).unwrap();
    ts.name = contract.name.clone().unwrap();
    ts.ts_main_type();
    ts.ts_contract_methods();
    assert_eq!(
        ts.buf,
        "/**\n */\nexport interface S {\n    /**\n     */\n    f: number;\n\n}\n\n\
         /**\n */\nexport interface Self0 {\n    /**\n     */\n    get(): Promise<number>;\n\n}\n\n\
         export type S = Self0;\n\n\
         export const SMethods = {\n    viewMethods: [\n        \"get\",\n    ],\n    changeMethods: [\n    ],\n};\n"
    );
}

#[test]
fn declaring_units_keep_their_doc_lines() {
    let unit = SourceFile {
        attrs: strings(vec![" A unit declaring the contract type."]),
        items: vec![Item::Struct(StructDecl {
            name: "C".to_string(),
            attrs: strings(vec!["near_bindgen"]),
            derives: strings(vec!["Serialize"]),
            docs: vec![],
            fields: FieldsKind::Named(vec![]),
        })],
    };
    let mut contract = Contract::new();
    contract.push_ast(unit).unwrap();
    assert_eq!(
        contract.top_level_attrs,
        strings(vec![" A unit declaring the contract type."])
    );
}

#[test]
fn single_component_tuple_structs_become_synonyms() {
    let item_struct = StructDecl {
        name: "T".to_string(),
        attrs: vec![],
        derives: strings(vec!["Serialize"]),
        docs: vec![],
        fields: FieldsKind::Unnamed(vec![named("String")]),
    };
    let mut ts = TS::new(String::new());
    ts.ts_struct(&item_struct).unwrap();
    assert_eq!(ts.buf, "/**\n */\nexport type T = string;\n\n");
}

#[test]
fn extract_docs_trims_each_line() {
    assert_eq!(
        extract_docs(&strings(vec![" one", "   two  ", ""])),
        "one\ntwo\n\n"
    );
}

#[test]
fn md_methods_render_category_emblems() {
    let mut init_here = free_fn("init_here", vec![("f128", named("U128"))], Some(named("Self")));
    init_here.attrs = strings(vec!["init"]);
    init_here.docs = strings(vec![" init doc"]);
    let mut get_f128 = free_fn("get_f128", vec![], Some(named("U128")));
    get_f128.has_receiver = true;
    get_f128.docs = strings(vec![" Line 1"]);
    let mut set_f128 = free_fn("set_f128", vec![("value", named("U128"))], None);
    set_f128.has_receiver = true;
    set_f128.mut_receiver = true;

    let item_impl = ImplDecl {
        attrs: strings(vec!["near_bindgen"]),
        docs: vec![],
        trait_name: None,
        self_ty: named("Contract"),
        items: vec![init_here, get_f128, set_f128],
    };
    assert_eq!(
        methods(&item_impl).unwrap(),
        "\n### :bricks: `init_here` (*constructor*)\n\n\
         ```typescript\ninit_here: { f128: U128 };\n```\n\ninit doc\n\
         \n### :eyeglasses: `get_f128`\n\n\
         ```typescript\nget_f128(): Promise<U128>;\n```\n\nLine 1\n\
         \n### :writing_hand: `set_f128`\n\n\
         ```typescript\nset_f128(args: { value: U128 }, gas?: any): Promise<void>;\n```\n\n"
    );
}

#[test]
fn md_renders_file_docs_and_impl_sections() {
    let mut get = free_fn("get", vec![], Some(named("u32")));
    get.has_receiver = true;
    let syntax = SourceFile {
        attrs: strings(vec![" Top doc"]),
        items: vec![Item::Impl(ImplDecl {
            attrs: strings(vec!["near_bindgen"]),
            docs: vec![],
            trait_name: Some("I".to_string()),
            self_ty: named("C"),
            items: vec![get],
        })],
    };
    assert_eq!(
        md(&syntax).unwrap(),
        "Top doc\n\n## Methods for `I` interface\n\
         \n### :eyeglasses: `get`\n\n```typescript\nget(): Promise<number>;\n```\n\n"
    );
}
