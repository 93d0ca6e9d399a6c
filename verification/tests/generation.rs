use lua_bindgen::annotation::ExportConfig;
use lua_bindgen::assemble::process_module;
use lua_bindgen::decl::{Attr, FnDecl, Item, ModuleDecl, Param, TyModel};
use lua_bindgen::errors::GenErrorKind;

fn lua_attr(payload: &str) -> Attr {
    Attr {
        name: "lua".to_string(),
        payload: payload.to_string(),
        text: format!("#[lua({})]", payload),
    }
}

fn exported_fn(name: &str, payload: &str, params: Vec<Param>, ret: Option<TyModel>) -> FnDecl {
    FnDecl {
        attrs: vec![lua_attr(payload)],
        name: name.to_string(),
        generic_param_count: 0,
        is_async: false,
        has_receiver: false,
        params,
        ret,
        text: format!("pub fn {}() {{}}", name),
    }
}

fn result_of(payload: &str, text: &str) -> TyModel {
    TyModel::Path {
        first_segment: "Result".to_string(),
        first_type_arg: Some(payload.to_string()),
        text: text.to_string(),
    }
}

#[test]
fn test() {
    let body = "pub fn test_exported_fn(mesh: &mut HalfEdgeMesh) -> Result<i32> {\n\
                let mut conn = mesh.write_connectivity();\n\
                let f = conn.iter_faces().next().unwrap().0;\n\
                conn.remove_face(f);\n\
                Ok(42)\n\
                }";
    let module = ModuleDecl {
        vis: "pub".to_string(),
        name: "lua_fns".to_string(),
        items: Some(vec![
            Item::Other { text: "use super::*;".to_string() },
            Item::Fn {
                decl: FnDecl {
                    attrs: vec![lua_attr("under = \"Ops\"")],
                    name: "test_exported_fn".to_string(),
                    generic_param_count: 0,
                    is_async: false,
                    has_receiver: false,
                    params: vec![Param {
                        name: "mesh".to_string(),
                        ty: TyModel::Reference {
                            mutable: true,
                            elem_text: "HalfEdgeMesh".to_string(),
                            text: "&mut HalfEdgeMesh".to_string(),
                        },
                    }],
                    ret: Some(result_of("i32", "Result<i32>")),
                    text: body.to_string(),
                },
            },
        ]),
    };
    let out = process_module(&module).unwrap();
    assert!(out.starts_with("pub mod lua_fns {\n"));
    assert!(out.contains("use super::*;"));
    // The original declaration is kept verbatim, its annotation stripped.
    assert!(out.contains(body));
    assert!(!out.contains("#[lua("));
    // The wrapper resolves the handle exclusively and converts the result.
    assert!(out.contains("pub fn __blackjack_export_test_exported_fn_to_lua(lua: &mlua::Lua) {"));
    assert!(out.contains("(mesh): (mlua::AnyUserData)"));
    assert!(out.contains("-> mlua::Result<i32>"));
    assert!(out.contains("let mut mesh = mesh.borrow_mut::<HalfEdgeMesh>()?;"));
    assert!(out.contains("match test_exported_fn(&mut mesh)"));
    assert!(out.contains("mlua::Error::RuntimeError(format!(\"{:?}\", err))"));
    // Registration goes to the "Ops" table, keyed by the original name.
    assert!(out.contains("get::<_, mlua::Table>(\"Ops\")"));
    assert!(out.contains("table.set(\"test_exported_fn\", lua.create_function(__inner).unwrap()).unwrap();"));
    // The aggregate routine calls the one registration entry point.
    assert!(out.contains(
        "pub fn __blackjack_register_lua_fns(lua: &mlua::Lua) {\n    __blackjack_export_test_exported_fn_to_lua(lua);\n}\n}\n"
    ));
}

#[test]
fn non_fallible_owned_params() {
    let module = ModuleDecl {
        vis: String::new(),
        name: "m".to_string(),
        items: Some(vec![Item::Fn {
            decl: exported_fn(
                "add_offsets",
                "",
                vec![
                    Param {
                        name: "a".to_string(),
                        ty: TyModel::Path {
                            first_segment: "i64".to_string(),
                            first_type_arg: None,
                            text: "i64".to_string(),
                        },
                    },
                    Param {
                        name: "b".to_string(),
                        ty: TyModel::Other { text: "i64".to_string() },
                    },
                ],
                Some(TyModel::Other { text: "i64".to_string() }),
            ),
        }]),
    };
    let out = process_module(&module).unwrap();
    assert!(out.starts_with("mod m {\n"));
    // Owned slots keep their declared types; nothing is borrowed.
    assert!(out.contains("(a, b): (i64, i64)"));
    assert!(out.contains("-> mlua::Result<i64>"));
    assert!(!out.contains(".borrow"));
    assert!(out.contains("mlua::Result::Ok(add_offsets(a, b))"));
    // No namespace was named: registration goes to the global namespace.
    assert!(out.contains("lua.globals().set(\"add_offsets\", lua.create_function(__inner).unwrap()).unwrap();"));
    assert!(!out.contains("mlua::Table"));
}

#[test]
fn unit_return_shape() {
    let module = ModuleDecl {
        vis: String::new(),
        name: "m".to_string(),
        items: Some(vec![Item::Fn { decl: exported_fn("ping", "", vec![], None) }]),
    };
    let out = process_module(&module).unwrap();
    assert!(out.contains("-> mlua::Result<()>"));
    assert!(out.contains("mlua::Result::Ok(ping())"));
}

#[test]
fn two_annotations_fail_generation() {
    let mut decl = exported_fn("twice", "under = \"A\"", vec![], None);
    decl.attrs.push(lua_attr("under = \"B\""));
    let module = ModuleDecl {
        vis: String::new(),
        name: "m".to_string(),
        items: Some(vec![Item::Fn { decl }]),
    };
    let err = process_module(&module).unwrap_err();
    assert_eq!(err.kind, GenErrorKind::DuplicateAnnotation);
    assert_eq!(err.decl.as_str(), "twice");
    assert_eq!(
        err.message().as_str(),
        "only one export annotation is supported per function: `twice`"
    );
}

#[test]
fn rejects_generic_suspendable_and_receiver() {
    let mut generic = exported_fn("make", "", vec![], None);
    generic.generic_param_count = 1;
    let mut suspendable = exported_fn("fetch", "", vec![], None);
    suspendable.is_async = true;
    let mut method = exported_fn("touch", "", vec![], None);
    method.has_receiver = true;
    for (decl, kind, name) in [
        (generic, GenErrorKind::GenericParams, "make"),
        (suspendable, GenErrorKind::AsyncFn, "fetch"),
        (method, GenErrorKind::Receiver, "touch"),
    ] {
        let module = ModuleDecl {
            vis: String::new(),
            name: "m".to_string(),
            items: Some(vec![Item::Fn { decl }]),
        };
        let err = process_module(&module).unwrap_err();
        assert_eq!(err.kind, kind);
        assert_eq!(err.decl.as_str(), name);
    }
}

#[test]
fn unexported_declarations_pass_through() {
    let plain = FnDecl {
        attrs: vec![Attr {
            name: "inline".to_string(),
            payload: String::new(),
            text: "#[inline]".to_string(),
        }],
        name: "helper".to_string(),
        generic_param_count: 0,
        is_async: false,
        has_receiver: false,
        params: vec![],
        ret: None,
        text: "fn helper() {}".to_string(),
    };
    let module = ModuleDecl {
        vis: String::new(),
        name: "m".to_string(),
        items: Some(vec![Item::Fn { decl: plain }]),
    };
    let out = process_module(&module).unwrap();
    assert!(out.contains("#[inline]\nfn helper() {}\n"));
    assert!(!out.contains("__blackjack_export_helper_to_lua"));
    // The aggregate routine is still emitted, with no calls.
    assert!(out.contains("pub fn __blackjack_register_lua_fns(lua: &mlua::Lua) {\n}\n"));
}

#[test]
fn impl_member_fails_generation() {
    let module = ModuleDecl {
        vis: String::new(),
        name: "m".to_string(),
        items: Some(vec![Item::ImplBlock { text: "impl Foo { }".to_string() }]),
    };
    let err = process_module(&module).unwrap_err();
    assert_eq!(err.kind, GenErrorKind::UnsupportedImplMember);
    assert_eq!(err.decl.as_str(), "m");
}

#[test]
fn missing_body_fails_generation() {
    let module = ModuleDecl { vis: String::new(), name: "m".to_string(), items: None };
    let err = process_module(&module).unwrap_err();
    assert_eq!(err.kind, GenErrorKind::MissingModuleBody);
    assert_eq!(err.decl.as_str(), "m");
}

#[test]
fn aggregate_calls_three_wrappers_in_order() {
    let module = ModuleDecl {
        vis: "pub".to_string(),
        name: "ops".to_string(),
        items: Some(vec![
            Item::Fn { decl: exported_fn("alpha", "under = \"Ops\"", vec![], None) },
            Item::Fn { decl: exported_fn("beta", "under = \"Ops\"", vec![], None) },
            Item::Fn { decl: exported_fn("gamma", "under = \"Ops\"", vec![], None) },
        ]),
    };
    let out = process_module(&module).unwrap();
    let aggregate = "pub fn __blackjack_register_lua_fns(lua: &mlua::Lua) {\n    \
                     __blackjack_export_alpha_to_lua(lua);\n    \
                     __blackjack_export_beta_to_lua(lua);\n    \
                     __blackjack_export_gamma_to_lua(lua);\n}\n}\n";
    assert!(out.ends_with(aggregate));
    assert_eq!(out.matches("__blackjack_export_alpha_to_lua(lua);").count(), 1);
    assert_eq!(out.matches("__blackjack_export_beta_to_lua(lua);").count(), 1);
    assert_eq!(out.matches("__blackjack_export_gamma_to_lua(lua);").count(), 1);
}

#[test]
fn shared_reference_parameter_borrows() {
    let module = ModuleDecl {
        vis: String::new(),
        name: "m".to_string(),
        items: Some(vec![Item::Fn {
            decl: exported_fn(
                "face_count",
                "under = \"Ops\"",
                vec![Param {
                    name: "mesh".to_string(),
                    ty: TyModel::Reference {
                        mutable: false,
                        elem_text: "Mesh".to_string(),
                        text: "&Mesh".to_string(),
                    },
                }],
                Some(TyModel::Other { text: "usize".to_string() }),
            ),
        }]),
    };
    let out = process_module(&module).unwrap();
    assert!(out.contains("let mesh = mesh.borrow::<Mesh>()?;"));
    assert!(out.contains("mlua::Result::Ok(face_count(&mesh))"));
    // A namespace table missing at registration time is created on demand.
    assert!(out.contains("let table = lua.create_table().unwrap();"));
    assert!(out.contains("lua.globals().set(\"Ops\", table.clone()).unwrap();"));
}

#[test]
fn export_config_default_namespace() {
    let cfg = ExportConfig { under: None };
    assert!(cfg.under.is_none());
}
