use near_syn::contract::Contract;
use near_syn::near_syn::{
    EnumDecl, FieldsKind, ImplDecl, Item, MethodDecl, ParamDecl, SourceFile, StructDecl,
    TraitDecl, TraitMethodDecl, TypeExpr, VariantDecl,
};
use near_syn::ts::{ts_type, TS};

fn named(n: &str) -> TypeExpr {
    TypeExpr::Path(n.to_string(), vec![])
}

fn generic(n: &str, args: Vec<TypeExpr>) -> TypeExpr {
    TypeExpr::Path(n.to_string(), args)
}

fn strings(xs: Vec<&str>) -> Vec<String> {
    xs.into_iter().map(|x| x.to_string()).collect()
}

fn method(
    name: &str,
    docs: Vec<&str>,
    params: Vec<(&str, TypeExpr)>,
    ret: Option<TypeExpr>,
) -> MethodDecl {
    MethodDecl {
        name: name.to_string(),
        attrs: vec![],
        docs: strings(docs),
        vis_public: true,
        has_receiver: true,
        mut_receiver: false,
        params: params
            .into_iter()
            .map(|(n, t)| ParamDecl { name: n.to_string(), ty: t })
            .collect(),
        ret,
    }
}

#[test]
fn it_should_omit_non_near_sdk_items() {
    let ast = SourceFile {
        attrs: vec![],
        items: vec![
            Item::Mod(vec![]),
            Item::Trait(TraitDecl { name: "A".to_string(), docs: vec![], methods: vec![] }),
        ],
    };
    let mut contract = Contract::new();
    contract.push_ast(ast).unwrap();
    let mut ts = TS::new(String::new());
    ts.ts_items(&contract).unwrap();
    assert_eq!(ts.buf, "");
}

#[test]
fn it_should_forward_trait_comments() {
    let ast = SourceFile {
        attrs: vec![],
        items: vec![
            Item::Trait(TraitDecl {
                name: "IContract".to_string(),
                docs: strings(vec![" doc for IContract"]),
                methods: vec![TraitMethodDecl {
                    name: "get".to_string(),
                    docs: strings(vec![" doc for IContract::get"]),
                }],
            }),
            Item::Impl(ImplDecl {
                attrs: strings(vec!["near_bindgen"]),
                docs: vec![],
                trait_name: Some("IContract".to_string()),
                self_ty: named("Contract"),
                items: vec![method("get", vec![], vec![("f128", named("U128"))], Some(named("U128")))],
            }),
        ],
    };

    let mut contract = Contract::new();
    contract.push_ast(ast).unwrap();
    let mut ts = TS::new(String::new());
    ts.ts_items(&contract).unwrap();
    assert_eq!(
        ts.buf,
        r#"/**
 * doc for IContract
 */
export interface IContract {
    /**
     * doc for IContract::get
     */
    get(args: { f128: U128 }): Promise<U128>;

}

"#
    );
}

#[test]
fn it_should_merge_trait_and_impl_comments() {
    let ast = SourceFile {
        attrs: vec![],
        items: vec![
            Item::Trait(TraitDecl {
                name: "IContract".to_string(),
                docs: strings(vec![" doc for IContract"]),
                methods: vec![TraitMethodDecl {
                    name: "get".to_string(),
                    docs: strings(vec![" doc for IContract::get"]),
                }],
            }),
            Item::Impl(ImplDecl {
                attrs: strings(vec!["near_bindgen"]),
                docs: strings(vec![" doc in Contract"]),
                trait_name: Some("IContract".to_string()),
                self_ty: named("Contract"),
                items: vec![method(
                    "get",
                    vec![" doc in Contract::get"],
                    vec![("f128", named("U128"))],
                    Some(named("U128")),
                )],
            }),
        ],
    };

    let mut contract = Contract::new();
    contract.push_ast(ast).unwrap();
    let mut ts = TS::new(String::new());
    ts.ts_items(&contract).unwrap();
    assert_eq!(
        ts.buf,
        r#"/**
 * doc in Contract
 * doc for IContract
 */
export interface IContract {
    /**
     * doc in Contract::get
     * doc for IContract::get
     */
    get(args: { f128: U128 }): Promise<U128>;

}

"#
    );
}

#[test]
fn it_should_omit_non_bindgen_impls() {
    let item_impl = ImplDecl {
        attrs: strings(vec!["near_bindgen"]),
        docs: vec![],
        trait_name: None,
        self_ty: named("A"),
        items: vec![],
    };
    let mut ts = TS::new(String::new());
    ts.ts_impl(&item_impl, &Contract::new()).unwrap();
    assert_eq!(ts.buf, "");

    let mut private_set = method("set", vec![], vec![], None);
    private_set.attrs = strings(vec!["private"]);
    private_set.mut_receiver = true;
    let item_impl = ImplDecl {
        attrs: strings(vec!["near_bindgen"]),
        docs: vec![],
        trait_name: None,
        self_ty: named("A"),
        items: vec![private_set],
    };
    let mut ts = TS::new(String::new());
    ts.ts_impl(&item_impl, &Contract::new()).unwrap();
    assert_eq!(ts.buf, "");

    let mut pub_set = method("set", vec![], vec![], None);
    pub_set.mut_receiver = true;
    let item_impl = ImplDecl {
        attrs: vec![],
        docs: vec![],
        trait_name: None,
        self_ty: named("A"),
        items: vec![pub_set],
    };
    let mut ts = TS::new(String::new());
    ts.ts_impl(&item_impl, &Contract::new()).unwrap();
    assert_eq!(ts.buf, "");
}

#[test]
fn it_should_omit_non_serde_structs() {
    let item_struct = StructDecl {
        name: "A".to_string(),
        attrs: vec![],
        derives: vec![],
        docs: vec![],
        fields: FieldsKind::Named(vec![]),
    };
    let mut ts = TS::new(String::new());
    ts.ts_struct(&item_struct).unwrap();
    assert_eq!(ts.buf, "");
}

#[test]
fn it_should_omit_non_serde_enums() {
    let item_enum = EnumDecl {
        name: "E".to_string(),
        attrs: vec![],
        derives: vec![],
        docs: vec![],
        variants: vec![VariantDecl { name: "V1".to_string(), docs: vec![] }],
    };
    let mut ts = TS::new(String::new());
    ts.ts_enum(&item_enum);
    assert_eq!(ts.buf, "");
}

#[test]
fn it_should_convert_rust_primitive_types() {
    assert_eq!(ts_type(&named("bool")).unwrap(), "boolean");
    assert_eq!(ts_type(&named("i8")).unwrap(), "number");
    assert_eq!(ts_type(&named("u8")).unwrap(), "number");
    assert_eq!(ts_type(&named("i16")).unwrap(), "number");
    assert_eq!(ts_type(&named("u16")).unwrap(), "number");
    assert_eq!(ts_type(&named("i32")).unwrap(), "number");
    assert_eq!(ts_type(&named("u32")).unwrap(), "number");
    assert_eq!(ts_type(&named("u64")).unwrap(), "number");
    assert_eq!(ts_type(&named("i64")).unwrap(), "number");
    assert_eq!(ts_type(&named("String")).unwrap(), "string");
}

#[test]
fn it_should_convert_rust_unit_type() {
    assert_eq!(ts_type(&TypeExpr::Tuple(vec![])).unwrap(), "void");
}

#[test]
fn it_should_convert_rust_shared_reference_types() {
    assert_eq!(ts_type(&TypeExpr::Reference(Box::new(named("String")))).unwrap(), "string");
    assert_eq!(ts_type(&TypeExpr::Reference(Box::new(named("bool")))).unwrap(), "boolean");
    assert_eq!(ts_type(&TypeExpr::Reference(Box::new(named("u32")))).unwrap(), "number");
    assert_eq!(ts_type(&TypeExpr::Reference(Box::new(named("TokenId")))).unwrap(), "TokenId");
}

#[test]
fn it_should_convert_rust_standard_and_collection_types() {
    assert_eq!(ts_type(&generic("Option", vec![named("U64")])).unwrap(), "U64|null");
    assert_eq!(ts_type(&generic("Option", vec![named("String")])).unwrap(), "string|null");
    assert_eq!(
        ts_type(&generic("Vec", vec![named("ValidAccountId")])).unwrap(),
        "ValidAccountId[]"
    );
    assert_eq!(
        ts_type(&generic("HashSet", vec![named("ValidAccountId")])).unwrap(),
        "ValidAccountId[]"
    );
    assert_eq!(
        ts_type(&generic("BTreeSet", vec![named("ValidAccountId")])).unwrap(),
        "ValidAccountId[]"
    );
    assert_eq!(
        ts_type(&generic("HashMap", vec![named("AccountId"), named("U128")])).unwrap(),
        "Record<AccountId, U128>"
    );
    assert_eq!(
        ts_type(&generic("BTreeMap", vec![named("AccountId"), named("U128")])).unwrap(),
        "Record<AccountId, U128>"
    );
}

#[test]
fn it_should_convert_rust_nested_types() {
    assert_eq!(
        ts_type(&generic(
            "HashMap",
            vec![named("AccountId"), generic("Vec", vec![named("U128")])]
        ))
        .unwrap(),
        "Record<AccountId, U128[]>"
    );
    assert_eq!(
        ts_type(&generic("Vec", vec![generic("Option", vec![named("U128")])])).unwrap(),
        "(U128|null)[]"
    );
    assert_eq!(
        ts_type(&generic("Option", vec![generic("Vec", vec![named("U128")])])).unwrap(),
        "U128[]|null"
    );
    assert_eq!(
        ts_type(&generic("Option", vec![generic("Option", vec![named("U64")])])).unwrap(),
        "U64|null|null"
    );
    assert_eq!(
        ts_type(&generic("Vec", vec![generic("Vec", vec![named("U64")])])).unwrap(),
        "U64[][]"
    );
    assert_eq!(ts_type(&TypeExpr::Paren(Box::new(named("U64")))).unwrap(), "U64");
}

#[test]
fn it_should_convert_rust_tuple_types() {
    assert_eq!(
        ts_type(&TypeExpr::Tuple(vec![
            named("U64"),
            named("String"),
            generic("Vec", vec![named("u32")]),
        ]))
        .unwrap(),
        "[U64, string, number[]]"
    );
}

#[test]
fn it_should_emit_empty_doc_comments() {
    let mut ts = TS::new(String::new());
    ts.ts_doc(&vec![], "");
    assert_eq!(
        ts.buf,
        r#"/**
 */
"#
    );
}

#[test]
fn it_should_emit_single_line_doc_comments() {
    let mut ts = TS::new(String::new());
    ts.ts_doc(&strings(vec![" Doc-comments are translated."]), "");
    assert_eq!(
        ts.buf,
        r#"/**
 * Doc-comments are translated.
 */
"#
    );
}

#[test]
fn it_should_emit_multiple_lines_doc_comments() {
    let mut ts = TS::new(String::new());
    ts.ts_doc(
        &strings(vec![
            " Doc-comments are translated.",
            " Multi-line is also translated.",
            "",
            "Adds a leading space.",
            "    Trims leading spaces.",
        ]),
        "",
    );
    assert_eq!(
        ts.buf,
        "/**\n * Doc-comments are translated.\n * Multi-line is also translated.\n * \n * Adds a leading space.\n * Trims leading spaces.\n */\n"
    );
}
