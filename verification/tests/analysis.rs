use lua_bindgen::analyze::{analyze_fn, return_shape, unwrap_result, AccessMode};
use lua_bindgen::annotation::ExportConfig;
use lua_bindgen::decl::{FnDecl, Param, TyModel};
use lua_bindgen::synth::{slot_types, synthesize};

fn plain_path(text: &str) -> TyModel {
    TyModel::Path {
        first_segment: text.to_string(),
        first_type_arg: None,
        text: text.to_string(),
    }
}

#[test]
fn fallible_wrapper_is_unwrapped() {
    let ty = TyModel::Path {
        first_segment: "Result".to_string(),
        first_type_arg: Some("i32".to_string()),
        text: "Result<i32, Error>".to_string(),
    };
    assert_eq!(unwrap_result(&ty).as_deref(), Some("i32"));
}

#[test]
fn plain_path_is_not_fallible() {
    assert!(unwrap_result(&plain_path("Vec<u8>")).is_none());
    let shape = return_shape(&Some(plain_path("Vec<u8>")));
    assert!(!shape.fallible);
    assert_eq!(shape.payload_type.as_str(), "Vec<u8>");
}

#[test]
fn absent_return_type_is_unit() {
    let shape = return_shape(&None);
    assert!(!shape.fallible);
    assert_eq!(shape.payload_type.as_str(), "()");
}

#[test]
fn result_without_type_argument_is_not_unwrapped() {
    let ty = TyModel::Path {
        first_segment: "Result".to_string(),
        first_type_arg: None,
        text: "Result".to_string(),
    };
    assert!(unwrap_result(&ty).is_none());
}

#[test]
fn access_modes_follow_type_shape() {
    let decl = FnDecl {
        attrs: vec![],
        name: "blend".to_string(),
        generic_param_count: 0,
        is_async: false,
        has_receiver: false,
        params: vec![
            Param { name: "weight".to_string(), ty: plain_path("i64") },
            Param {
                name: "src".to_string(),
                ty: TyModel::Reference {
                    mutable: false,
                    elem_text: "Mesh".to_string(),
                    text: "&Mesh".to_string(),
                },
            },
            Param {
                name: "dst".to_string(),
                ty: TyModel::Reference {
                    mutable: true,
                    elem_text: "Mesh".to_string(),
                    text: "&mut Mesh".to_string(),
                },
            },
        ],
        ret: None,
        text: "fn blend(weight: i64, src: &Mesh, dst: &mut Mesh) {}".to_string(),
    };
    let d = analyze_fn(&decl, ExportConfig { under: None }).unwrap();
    assert_eq!(d.original_name.as_str(), "blend");
    assert_eq!(d.params.len(), 3);
    assert_eq!(d.params[0].mode, AccessMode::Owned);
    assert_eq!(d.params[0].declared_type.as_str(), "i64");
    assert_eq!(d.params[1].mode, AccessMode::SharedRef);
    assert_eq!(d.params[1].declared_type.as_str(), "Mesh");
    assert_eq!(d.params[2].mode, AccessMode::ExclusiveRef);
    assert_eq!(d.params[2].declared_type.as_str(), "Mesh");

    // One wrapper slot per original parameter: owned slots keep their type,
    // borrowed slots take the opaque handle type.
    let slots = slot_types(&d.params);
    assert_eq!(slots.len(), 3);
    assert_eq!(slots[0].as_str(), "i64");
    assert_eq!(slots[1].as_str(), "mlua::AnyUserData");
    assert_eq!(slots[2].as_str(), "mlua::AnyUserData");

    let unit = synthesize(&d);
    assert_eq!(unit.register_fn_ident.as_str(), "__blackjack_export_blend_to_lua");
    assert!(unit.code.contains("(weight, src, dst): (i64, mlua::AnyUserData, mlua::AnyUserData)"));
    assert!(unit.code.contains("blend(weight, &src, &mut dst)"));
}
