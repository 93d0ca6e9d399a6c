use lua_bindgen::analyze::{AccessMode, FunctionDescriptor, ParamBinding, ReturnShape};
use lua_bindgen::annotation::ExportConfig;
use lua_bindgen::runtime::{
    invoke_wrapper, resolve_exclusive, resolve_shared, BorrowState, CallArg, CallResult, Handle,
    NativeOutcome, RuntimeError,
};

fn handle(native_type: &str) -> Handle {
    Handle { native_type: native_type.to_string(), state: BorrowState::Unborrowed }
}

fn binding(name: &str, native_type: &str, mode: AccessMode) -> ParamBinding {
    ParamBinding { name: name.to_string(), declared_type: native_type.to_string(), mode }
}

fn descriptor(name: &str, params: Vec<ParamBinding>, fallible: bool) -> FunctionDescriptor {
    FunctionDescriptor {
        original_name: name.to_string(),
        params,
        ret: ReturnShape { payload_type: "i32".to_string(), fallible },
        config: ExportConfig { under: Some("Ops".to_string()) },
    }
}

#[test]
fn exclusive_then_exclusive_is_refused() {
    let mut h = handle("Mesh");
    assert!(matches!(resolve_exclusive(&mut h, "Mesh"), Ok(())));
    assert!(matches!(
        resolve_exclusive(&mut h, "Mesh"),
        Err(RuntimeError::BorrowViolation)
    ));
}

#[test]
fn shared_then_exclusive_is_refused() {
    let mut h = handle("Mesh");
    assert!(matches!(resolve_shared(&mut h, "Mesh"), Ok(())));
    assert!(matches!(
        resolve_exclusive(&mut h, "Mesh"),
        Err(RuntimeError::BorrowViolation)
    ));
}

#[test]
fn exclusive_then_shared_is_refused() {
    let mut h = handle("Mesh");
    assert!(matches!(resolve_exclusive(&mut h, "Mesh"), Ok(())));
    assert!(matches!(resolve_shared(&mut h, "Mesh"), Err(RuntimeError::BorrowViolation)));
}

#[test]
fn shared_then_shared_is_granted() {
    let mut h = handle("Mesh");
    assert!(matches!(resolve_shared(&mut h, "Mesh"), Ok(())));
    assert!(matches!(resolve_shared(&mut h, "Mesh"), Ok(())));
}

#[test]
fn wrong_native_type_is_a_type_mismatch() {
    let mut h = handle("Curve");
    assert!(matches!(
        resolve_exclusive(&mut h, "Mesh"),
        Err(RuntimeError::TypeMismatch)
    ));
    assert!(matches!(h.state, BorrowState::Unborrowed));
}

#[test]
fn infallible_invocation_yields_a_value() {
    let d = descriptor(
        "face_count",
        vec![binding("mesh", "Mesh", AccessMode::SharedRef)],
        false,
    );
    let mut store = vec![handle("Mesh")];
    let args = vec![CallArg::Handle { index: 0 }];
    let r = invoke_wrapper(&d, &args, &mut store, &NativeOutcome::Success);
    assert!(matches!(r, CallResult::Value));
    // Every borrow taken for the call is released again.
    assert!(matches!(store[0].state, BorrowState::Unborrowed));
}

#[test]
fn fallible_success_yields_the_payload() {
    let d = descriptor(
        "remove_first_face",
        vec![binding("mesh", "Mesh", AccessMode::ExclusiveRef)],
        true,
    );
    let mut store = vec![handle("Mesh")];
    let args = vec![CallArg::Handle { index: 0 }];
    let r = invoke_wrapper(&d, &args, &mut store, &NativeOutcome::Success);
    assert!(matches!(r, CallResult::Value));
    assert!(matches!(store[0].state, BorrowState::Unborrowed));
}

#[test]
fn fallible_failure_carries_the_rendered_description() {
    let d = descriptor(
        "remove_first_face",
        vec![binding("mesh", "Mesh", AccessMode::ExclusiveRef)],
        true,
    );
    let mut store = vec![handle("Mesh")];
    let args = vec![CallArg::Handle { index: 0 }];
    let outcome = NativeOutcome::Failure { message: "EmptyMesh".to_string() };
    match invoke_wrapper(&d, &args, &mut store, &outcome) {
        CallResult::RuntimeFailure { error: RuntimeError::NativeFailure { message } } => {
            assert_eq!(message.as_str(), "EmptyMesh");
        },
        _ => panic!("expected the native failure to become a runtime error"),
    }
}

#[test]
fn wrong_typed_handle_fails_cleanly() {
    let d = descriptor(
        "remove_first_face",
        vec![binding("mesh", "Mesh", AccessMode::ExclusiveRef)],
        true,
    );
    let mut store = vec![handle("Curve")];
    let args = vec![CallArg::Handle { index: 0 }];
    let r = invoke_wrapper(&d, &args, &mut store, &NativeOutcome::Success);
    assert!(matches!(
        r,
        CallResult::RuntimeFailure { error: RuntimeError::TypeMismatch }
    ));
    assert!(matches!(store[0].state, BorrowState::Unborrowed));
}

#[test]
fn one_handle_in_two_exclusive_slots_is_refused() {
    let d = descriptor(
        "weld",
        vec![
            binding("a", "Mesh", AccessMode::ExclusiveRef),
            binding("b", "Mesh", AccessMode::ExclusiveRef),
        ],
        false,
    );
    let mut store = vec![handle("Mesh")];
    let args = vec![CallArg::Handle { index: 0 }, CallArg::Handle { index: 0 }];
    let r = invoke_wrapper(&d, &args, &mut store, &NativeOutcome::Success);
    assert!(matches!(
        r,
        CallResult::RuntimeFailure { error: RuntimeError::BorrowViolation }
    ));
    // The first borrow was rolled back when the call failed.
    assert!(matches!(store[0].state, BorrowState::Unborrowed));
}

#[test]
fn one_handle_in_two_shared_slots_is_granted() {
    let d = descriptor(
        "compare",
        vec![
            binding("a", "Mesh", AccessMode::SharedRef),
            binding("b", "Mesh", AccessMode::SharedRef),
        ],
        false,
    );
    let mut store = vec![handle("Mesh")];
    let args = vec![CallArg::Handle { index: 0 }, CallArg::Handle { index: 0 }];
    let r = invoke_wrapper(&d, &args, &mut store, &NativeOutcome::Success);
    assert!(matches!(r, CallResult::Value));
    assert!(matches!(store[0].state, BorrowState::Unborrowed));
}

#[test]
fn owned_slots_need_no_handle() {
    let d = descriptor("scale", vec![binding("factor", "i64", AccessMode::Owned)], false);
    let mut store: Vec<Handle> = vec![];
    let args = vec![CallArg::Owned];
    let r = invoke_wrapper(&d, &args, &mut store, &NativeOutcome::Success);
    assert!(matches!(r, CallResult::Value));
}
