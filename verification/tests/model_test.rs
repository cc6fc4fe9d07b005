use near_syn::contract::Contract;
use near_syn::near_syn::{
    FieldsKind, ImplDecl, Item, MethodDecl, MethodKind, NearError, NearMethod, ParamDecl,
    SourceFile, StructDecl, TraitDecl, TraitMethodDecl, TypeExpr,
};
use near_syn::near_syn::method_kind;
use near_syn::ts::{ts_type, TS};

fn named(n: &str) -> TypeExpr {
    TypeExpr::Path(n.to_string(), vec![])
}

fn generic(n: &str, args: Vec<TypeExpr>) -> TypeExpr {
    TypeExpr::Path(n.to_string(), args)
}

fn strings(xs: Vec<&str>) -> Vec<String> {
    xs.into_iter().map(|x| x.to_string()).collect()
}

fn plain_method(name: &str) -> MethodDecl {
    MethodDecl {
        name: name.to_string(),
        attrs: vec![],
        docs: vec![],
        vis_public: true,
        has_receiver: true,
        mut_receiver: false,
        params: vec![],
        ret: None,
    }
}

fn bare_impl(self_ty: TypeExpr, items: Vec<MethodDecl>) -> ImplDecl {
    ImplDecl {
        attrs: strings(vec!["near_bindgen"]),
        docs: vec![],
        trait_name: None,
        self_ty,
        items,
    }
}

#[test]
fn new_model_is_empty() {
    let contract = Contract::new();
    assert!(contract.name.is_none());
    assert!(contract.interfaces.is_empty());
    assert!(contract.init_methods.is_empty());
    assert!(contract.view_methods.is_empty());
    assert!(contract.change_methods.is_empty());
    assert!(contract.methods.is_empty());
    assert!(contract.items.is_empty());
}

#[test]
fn pushing_zero_units_keeps_model_empty() {
    let mut contract = Contract::new();
    contract.push_asts(vec![]).unwrap();
    assert!(contract.name.is_none());
    assert!(contract.interfaces.is_empty());
    assert!(contract.init_methods.is_empty());
    assert!(contract.view_methods.is_empty());
    assert!(contract.change_methods.is_empty());
}

#[test]
fn methods_classify_into_init_view_and_change() {
    let mut init_here = plain_method("init_here");
    init_here.attrs = strings(vec!["init"]);
    init_here.mut_receiver = true;
    let mut set = plain_method("set");
    set.mut_receiver = true;
    let get = plain_method("get");

    assert_eq!(method_kind(&init_here), MethodKind::Init);
    assert_eq!(method_kind(&set), MethodKind::Change);
    assert_eq!(method_kind(&get), MethodKind::View);

    let mut contract = Contract::new();
    contract
        .push_items(vec![Item::Impl(bare_impl(named("C"), vec![init_here, set, get]))])
        .unwrap();
    assert_eq!(contract.init_methods, strings(vec!["init_here"]));
    assert_eq!(contract.change_methods, strings(vec!["set"]));
    assert_eq!(contract.view_methods, strings(vec!["get"]));
    assert_eq!(contract.name, Some("C".to_string()));
}

#[test]
fn bare_impls_export_only_public_methods() {
    let mut hidden = plain_method("hidden");
    hidden.vis_public = false;
    let mut contract = Contract::new();
    contract
        .push_items(vec![Item::Impl(bare_impl(named("C"), vec![hidden]))])
        .unwrap();
    assert!(contract.view_methods.is_empty());
    assert!(contract.name.is_none());
}

#[test]
fn trait_impls_export_non_public_methods_unless_private() {
    let mut inherited = plain_method("inherited");
    inherited.vis_public = false;
    let mut secret = plain_method("secret");
    secret.vis_public = false;
    secret.attrs = strings(vec!["private"]);
    let item_impl = ImplDecl {
        attrs: strings(vec!["near_bindgen"]),
        docs: vec![],
        trait_name: Some("IContract".to_string()),
        self_ty: named("C"),
        items: vec![inherited, secret],
    };
    let mut contract = Contract::new();
    contract.push_items(vec![Item::Impl(item_impl)]).unwrap();
    assert_eq!(contract.interfaces, strings(vec!["IContract"]));
    assert_eq!(contract.view_methods, strings(vec!["inherited"]));
}

#[test]
fn marker_names_must_match_exactly() {
    let mut almost = plain_method("almost");
    almost.attrs = strings(vec!["initx"]);
    assert!(!almost.is_init());
    let mut real = plain_method("real");
    real.attrs = strings(vec!["init"]);
    assert!(real.is_init());
}

#[test]
fn latest_registration_of_a_method_name_wins() {
    let first_get = plain_method("get");
    let mut second_get = plain_method("get");
    second_get.params = vec![ParamDecl { name: "key".to_string(), ty: named("U64") }];

    let mut contract = Contract::new();
    contract
        .push_items(vec![Item::Impl(bare_impl(named("C"), vec![first_get]))])
        .unwrap();
    contract
        .push_items(vec![Item::Impl(bare_impl(named("C"), vec![second_get]))])
        .unwrap();

    // The map keeps the most recently pushed declaration ...
    let (m, owner) = contract.get_method(&"get".to_string()).unwrap();
    assert_eq!(m.params.len(), 1);
    assert_eq!(owner.items[0].params.len(), 1);
    // ... while the earlier category entry is not retracted.
    assert_eq!(contract.view_methods, strings(vec!["get", "get"]));
    assert_eq!(contract.methods.len(), 2);
}

#[test]
fn wrapper_arity_is_enforced_for_nullable() {
    assert_eq!(
        ts_type(&generic("Option", vec![])).unwrap_err(),
        NearError::GenericArityMismatch { wrapper: "Option".to_string(), expected: 1, actual: 0 }
    );
    assert_eq!(
        ts_type(&generic("Option", vec![named("String"), named("U128")])).unwrap_err(),
        NearError::GenericArityMismatch { wrapper: "Option".to_string(), expected: 1, actual: 2 }
    );
}

#[test]
fn wrapper_arity_is_enforced_for_sequences() {
    assert_eq!(
        ts_type(&generic("Vec", vec![])).unwrap_err(),
        NearError::GenericArityMismatch { wrapper: "Vec".to_string(), expected: 1, actual: 0 }
    );
    assert_eq!(
        ts_type(&generic("Vec", vec![named("String"), named("U128"), named("u32")])).unwrap_err(),
        NearError::GenericArityMismatch { wrapper: "Vec".to_string(), expected: 1, actual: 3 }
    );
    assert_eq!(
        ts_type(&generic("HashSet", vec![named("a"), named("b")])).unwrap_err(),
        NearError::GenericArityMismatch { wrapper: "Vec".to_string(), expected: 1, actual: 2 }
    );
}

#[test]
fn wrapper_arity_is_enforced_for_maps() {
    assert_eq!(
        ts_type(&generic("HashMap", vec![])).unwrap_err(),
        NearError::GenericArityMismatch { wrapper: "HashMap".to_string(), expected: 2, actual: 0 }
    );
    assert_eq!(
        ts_type(&generic("HashMap", vec![named("U64")])).unwrap_err(),
        NearError::GenericArityMismatch { wrapper: "HashMap".to_string(), expected: 2, actual: 1 }
    );
    assert_eq!(
        ts_type(&generic("BTreeMap", vec![named("U64")])).unwrap_err(),
        NearError::GenericArityMismatch { wrapper: "HashMap".to_string(), expected: 2, actual: 1 }
    );
}

#[test]
fn unrepresented_shapes_are_rejected_with_their_text() {
    assert_eq!(
        ts_type(&TypeExpr::Unsupported("*const u32".to_string())).unwrap_err(),
        NearError::UnsupportedTypeShape("*const u32".to_string())
    );
    let nested_ref = TypeExpr::Reference(Box::new(TypeExpr::Reference(Box::new(named("u32")))));
    assert_eq!(
        ts_type(&nested_ref).unwrap_err(),
        NearError::UnsupportedTypeShape("&&u32".to_string())
    );
    assert_eq!(
        ts_type(&generic("Option", vec![TypeExpr::Unsupported("'a".to_string())])).unwrap_err(),
        NearError::UnsupportedTypeShape("'a".to_string())
    );
}

#[test]
fn serializable_unit_structs_are_rejected() {
    let item_struct = StructDecl {
        name: "A".to_string(),
        attrs: vec![],
        derives: strings(vec!["Serialize"]),
        docs: vec![],
        fields: FieldsKind::Unit,
    };
    let mut ts = TS::new(String::new());
    assert_eq!(ts.ts_struct(&item_struct).unwrap_err(), NearError::UnitStructUnsupported);
    assert_eq!(ts.buf, "");
}

#[test]
fn malformed_owning_types_abort_the_build() {
    let item_impl = ImplDecl {
        attrs: strings(vec!["near_bindgen"]),
        docs: vec![],
        trait_name: None,
        self_ty: TypeExpr::Tuple(vec![named("C"), named("C")]),
        items: vec![plain_method("get")],
    };
    let mut contract = Contract::new();
    assert_eq!(
        contract.push_items(vec![Item::Impl(item_impl)]).unwrap_err(),
        NearError::MalformedSelfType
    );
}

#[test]
fn units_with_malformed_declarations_contribute_nothing() {
    let good = bare_impl(named("C"), vec![plain_method("get")]);
    let bad = ImplDecl {
        attrs: strings(vec!["near_bindgen"]),
        docs: vec![],
        trait_name: None,
        self_ty: TypeExpr::Tuple(vec![named("C"), named("C")]),
        items: vec![plain_method("set")],
    };
    let mut contract = Contract::new();
    let unit = SourceFile { attrs: vec![], items: vec![Item::Impl(good), Item::Impl(bad)] };
    assert_eq!(contract.push_ast(unit).unwrap_err(), NearError::MalformedSelfType);
    assert!(contract.name.is_none());
    assert!(contract.view_methods.is_empty());
    assert!(contract.items.is_empty());
}

#[test]
fn malformed_owning_types_abort_the_emission() {
    let item_impl = ImplDecl {
        attrs: strings(vec!["near_bindgen"]),
        docs: vec![],
        trait_name: None,
        self_ty: TypeExpr::Paren(Box::new(named("C"))),
        items: vec![plain_method("get")],
    };
    let mut ts = TS::new(String::new());
    assert_eq!(
        ts.ts_impl(&item_impl, &Contract::new()).unwrap_err(),
        NearError::MalformedSelfType
    );
    assert_eq!(ts.buf, "");
}

#[test]
fn unknown_interfaces_yield_impl_docs_alone() {
    let item_impl = ImplDecl {
        attrs: strings(vec!["near_bindgen"]),
        docs: strings(vec![" only impl docs"]),
        trait_name: Some("Missing".to_string()),
        self_ty: named("C"),
        items: vec![{
            let mut m = plain_method("get");
            m.docs = strings(vec![" method docs"]);
            m
        }],
    };
    let mut ts = TS::new(String::new());
    ts.ts_impl(&item_impl, &Contract::new()).unwrap();
    assert_eq!(
        ts.buf,
        "/**\n * only impl docs\n */\nexport interface Missing {\n    /**\n     * method docs\n     */\n    get(): Promise<void>;\n\n}\n\n"
    );
}

#[test]
fn reregistering_an_interface_overwrites_the_descriptor() {
    let mut contract = Contract::new();
    contract
        .push_items(vec![
            Item::Trait(TraitDecl {
                name: "I".to_string(),
                docs: vec![],
                methods: vec![TraitMethodDecl {
                    name: "get".to_string(),
                    docs: strings(vec![" old docs"]),
                }],
            }),
            Item::Trait(TraitDecl {
                name: "I".to_string(),
                docs: vec![],
                methods: vec![TraitMethodDecl {
                    name: "get".to_string(),
                    docs: strings(vec![" new docs"]),
                }],
            }),
        ])
        .unwrap();
    let merged = contract.merged_docs(&vec![], &Some("I".to_string()), &"get".to_string());
    assert_eq!(merged, strings(vec![" new docs"]));
}

#[test]
fn interfaces_may_arrive_after_their_implementations() {
    let mut contract = Contract::new();
    contract
        .push_ast(SourceFile {
            attrs: vec![],
            items: vec![Item::Impl(ImplDecl {
                attrs: strings(vec!["near_bindgen"]),
                docs: vec![],
                trait_name: Some("I".to_string()),
                self_ty: named("C"),
                items: vec![plain_method("get")],
            })],
        })
        .unwrap();
    contract
        .push_ast(SourceFile {
            attrs: vec![],
            items: vec![Item::Trait(TraitDecl {
                name: "I".to_string(),
                docs: vec![],
                methods: vec![TraitMethodDecl {
                    name: "get".to_string(),
                    docs: strings(vec![" from the interface"]),
                }],
            })],
        })
        .unwrap();
    let merged = contract.merged_docs(
        &strings(vec![" from the impl"]),
        &Some("I".to_string()),
        &"get".to_string(),
    );
    assert_eq!(merged, strings(vec![" from the impl", " from the interface"]));
}

#[test]
fn inner_modules_are_flattened() {
    let mut contract = Contract::new();
    contract
        .push_items(vec![Item::Mod(vec![Item::Mod(vec![Item::Impl(bare_impl(
            named("C"),
            vec![plain_method("get")],
        ))])])])
        .unwrap();
    assert_eq!(contract.name, Some("C".to_string()));
    assert_eq!(contract.view_methods, strings(vec!["get"]));
}
