use vstd::prelude::*;

use crate::annotation::ExportConfig;
use crate::decl::{FnDecl, FnDeclV, ParamV, TyModel, TyModelV};
use crate::decl::spec_ty_text;
use crate::errors::{GenError, GenErrorKind};

verus! {

/// How one parameter is handed to the original function, derived structurally
/// from its declared type: a plain type is owned, a read-only reference is a
/// shared borrow, a mutable reference is an exclusive borrow.
#[derive(Clone, Copy, Debug, PartialEq, Eq, Structural)]
pub enum AccessMode {
    Owned,
    SharedRef,
    ExclusiveRef,
}

/// One native parameter as the synthesizer sees it. For reference modes,
/// `declared_type` is the pointee type, which is what must be recovered from
/// the opaque handle.
#[derive(Debug)]
pub struct ParamBinding {
    pub name: String,
    pub declared_type: String,
    pub mode: AccessMode,
}

/// Mathematical view of a [`ParamBinding`].
#[verifier::ext_equal]
pub struct ParamBindingV {
    pub name: Seq<char>,
    pub declared_type: Seq<char>,
    pub mode: AccessMode,
}

impl View for ParamBinding {
    type V = ParamBindingV;

    open spec fn view(&self) -> ParamBindingV {
        ParamBindingV { name: self.name@, declared_type: self.declared_type@, mode: self.mode }
    }
}

/// The shape of a declared return type: its success payload's rendered text
/// and whether the declared type is the fallible wrapper.
#[derive(Debug)]
pub struct ReturnShape {
    pub payload_type: String,
    pub fallible: bool,
}

/// Everything the synthesizer needs to know about one exported declaration.
#[derive(Debug)]
pub struct FunctionDescriptor {
    pub original_name: String,
    pub params: Vec<ParamBinding>,
    pub ret: ReturnShape,
    pub config: ExportConfig,
}

/// Mathematical view of a [`FunctionDescriptor`].
#[verifier::ext_equal]
pub struct DescriptorV {
    pub original_name: Seq<char>,
    pub params: Seq<ParamBindingV>,
    pub payload_type: Seq<char>,
    pub fallible: bool,
    pub under: Option<Seq<char>>,
}

impl View for FunctionDescriptor {
    type V = DescriptorV;

    open spec fn view(&self) -> DescriptorV {
        DescriptorV {
            original_name: self.original_name@,
            params: self.params@.map_values(|p: ParamBinding| p@),
            payload_type: self.ret.payload_type@,
            fallible: self.ret.fallible,
            under: self.config@,
        }
    }
}

/// The access mode a declared type's shape dictates.
pub open spec fn spec_mode_of(t: TyModelV) -> AccessMode {
    match t {
        TyModelV::Reference { mutable, .. } => if mutable {
            AccessMode::ExclusiveRef
        } else {
            AccessMode::SharedRef
        },
        _ => AccessMode::Owned,
    }
}

/// The type the wrapper must hand to the original function: the pointee for
/// reference modes, the declared type itself otherwise.
pub open spec fn spec_declared_type_of(t: TyModelV) -> Seq<char> {
    match t {
        TyModelV::Reference { elem_text, .. } => elem_text,
        TyModelV::Path { text, .. } => text,
        TyModelV::Other { text } => text,
    }
}

/// The success payload of a declared type, when that type is the fallible
/// wrapper: a path type whose first segment is named `Result` and carries an
/// angle-bracketed argument list whose first argument is a type.
pub open spec fn spec_unwrap_result(t: TyModelV) -> Option<Seq<char>> {
    match t {
        TyModelV::Path { first_segment, first_type_arg, .. } => if first_segment == "Result"@ {
            first_type_arg
        } else {
            None
        },
        _ => None,
    }
}

/// Whether a declared return type (or its absence) is fallible.
pub open spec fn spec_ret_fallible(ret: Option<TyModelV>) -> bool {
    match ret {
        None => false,
        Some(t) => spec_unwrap_result(t) is Some,
    }
}

/// The rendered success payload of a declared return type: the unwrapped
/// payload for the fallible wrapper, the unit marker when there is no return
/// type, the declared type verbatim otherwise.
pub open spec fn spec_ret_payload(ret: Option<TyModelV>) -> Seq<char> {
    match ret {
        None => "()"@,
        Some(t) => match spec_unwrap_result(t) {
            Some(p) => p,
            None => spec_ty_text(t),
        },
    }
}

/// The binding derived from one declared parameter.
pub open spec fn spec_binding_of(p: ParamV) -> ParamBindingV {
    ParamBindingV {
        name: p.name,
        declared_type: spec_declared_type_of(p.ty),
        mode: spec_mode_of(p.ty),
    }
}

/// Whether a declaration is accepted by the analyzer: no generic parameters,
/// not suspendable, no receiver.
pub open spec fn spec_accepted(d: FnDeclV) -> bool {
    d.generic_param_count == 0 && !d.is_async && !d.has_receiver
}

/// Which error a rejected declaration is reported with, checked in this
/// order: generic parameters, suspendability, receiver.
pub open spec fn spec_reject_kind(d: FnDeclV) -> GenErrorKind {
    if d.generic_param_count > 0 {
        GenErrorKind::GenericParams
    } else if d.is_async {
        GenErrorKind::AsyncFn
    } else {
        GenErrorKind::Receiver
    }
}

/// The descriptor an accepted declaration analyzes to, given the destination
/// namespace of its export annotation.
pub open spec fn spec_descriptor_of(d: FnDeclV, under: Option<Seq<char>>) -> DescriptorV {
    DescriptorV {
        original_name: d.name,
        params: d.params.map_values(|p: ParamV| spec_binding_of(p)),
        payload_type: spec_ret_payload(d.ret),
        fallible: spec_ret_fallible(d.ret),
        under,
    }
}

/// The success payload of a declared type, when that type is the fallible
/// wrapper.
pub fn unwrap_result(t: &TyModel) -> (r: Option<String>)
    ensures
        match r {
            Some(p) => spec_unwrap_result(t@) == Some(p@),
            None => spec_unwrap_result(t@) is None,
        },
{
    match t {
        TyModel::Path { first_segment, first_type_arg, .. } => {
            let result_name: String = "Result".to_owned();
            if first_segment.eq(&result_name) {
                match first_type_arg {
                    Some(p) => Some(p.clone()),
                    None => None,
                }
            } else {
                None
            }
        },
        _ => None,
    }
}

/// The shape of a declared return type.
pub fn return_shape(ret: &Option<TyModel>) -> (r: ReturnShape)
    ensures
        r.fallible == spec_ret_fallible(match ret {
            Some(t) => Some(t@),
            None => None,
        }),
        r.payload_type@ == spec_ret_payload(match ret {
            Some(t) => Some(t@),
            None => None,
        }),
{
    match ret {
        None => ReturnShape { payload_type: "()".to_owned(), fallible: false },
        Some(t) => match unwrap_result(t) {
            Some(p) => ReturnShape { payload_type: p, fallible: true },
            None => {
                let text: String = match t {
                    TyModel::Reference { text, .. } => text.clone(),
                    TyModel::Path { text, .. } => text.clone(),
                    TyModel::Other { text } => text.clone(),
                };
                ReturnShape { payload_type: text, fallible: false }
            },
        },
    }
}

/// The binding derived from one declared parameter.
fn binding_of(p: &crate::decl::Param) -> (r: ParamBinding)
    ensures
        r@ == spec_binding_of(p@),
{
    match &p.ty {
        TyModel::Reference { mutable, elem_text, .. } => ParamBinding {
            name: p.name.clone(),
            declared_type: elem_text.clone(),
            mode: if *mutable {
                AccessMode::ExclusiveRef
            } else {
                AccessMode::SharedRef
            },
        },
        TyModel::Path { text, .. } => ParamBinding {
            name: p.name.clone(),
            declared_type: text.clone(),
            mode: AccessMode::Owned,
        },
        TyModel::Other { text } => ParamBinding {
            name: p.name.clone(),
            declared_type: text.clone(),
            mode: AccessMode::Owned,
        },
    }
}

/// The bindings of all declared parameters, in declaration order.
fn bindings_of(params: &Vec<crate::decl::Param>) -> (r: Vec<ParamBinding>)
    ensures
        r@.map_values(|b: ParamBinding| b@) =~= params@.map_values(|p: crate::decl::Param| p@)
            .map_values(|p: ParamV| spec_binding_of(p)),
{
    let mut r: Vec<ParamBinding> = Vec::new();
    let mut i: usize = 0;
    while i < params.len()
        invariant
            i <= params.len(),
            r@.len() == i,
            forall|j: int| 0 <= j < i ==> r@[j]@ == spec_binding_of(params@[j]@),
        decreases params.len() - i,
    {
        let b = binding_of(&params[i]);
        r.push(b);
        i = i + 1;
    }
    r
}

/// Analyze one exported declaration into a descriptor, or reject it.
///
/// A declaration is rejected, with an error naming it, exactly when it has
/// generic parameters, is suspendable, or has a receiver parameter; nothing is
/// produced for a rejected declaration.
pub fn analyze_fn(decl: &FnDecl, config: ExportConfig) -> (r: Result<FunctionDescriptor, GenError>)
    ensures
        r is Ok <==> spec_accepted(decl@),
        r matches Err(e) ==> e.kind == spec_reject_kind(decl@) && e.decl@ == decl@.name,
        r matches Ok(d) ==> d@ =~= spec_descriptor_of(decl@, config@),
{
    if decl.generic_param_count > 0 {
        return Err(GenError { kind: GenErrorKind::GenericParams, decl: decl.name.clone() });
    }
    if decl.is_async {
        return Err(GenError { kind: GenErrorKind::AsyncFn, decl: decl.name.clone() });
    }
    if decl.has_receiver {
        return Err(GenError { kind: GenErrorKind::Receiver, decl: decl.name.clone() });
    }
    let params = bindings_of(&decl.params);
    let ret = return_shape(&decl.ret);
    Ok(FunctionDescriptor { original_name: decl.name.clone(), params, ret, config })
}

} // verus!
