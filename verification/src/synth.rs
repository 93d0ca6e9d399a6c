use vstd::prelude::*;
use vstd::string::StringExecFns;

use crate::analyze::{AccessMode, DescriptorV, FunctionDescriptor, ParamBinding, ParamBindingV};

verus! {

/// The generated artifact for one exported declaration: the name of its
/// registration entry point and the code of that entry point.
#[derive(Debug)]
pub struct WrapperUnit {
    pub register_fn_ident: String,
    pub code: String,
}

/// Mathematical view of a [`WrapperUnit`].
#[verifier::ext_equal]
pub struct WrapperUnitV {
    pub register_fn_ident: Seq<char>,
    pub code: Seq<char>,
}

impl View for WrapperUnit {
    type V = WrapperUnitV;

    open spec fn view(&self) -> WrapperUnitV {
        WrapperUnitV { register_fn_ident: self.register_fn_ident@, code: self.code@ }
    }
}

/// The name of the registration entry point generated for one declaration.
pub open spec fn spec_register_ident(name: Seq<char>) -> Seq<char> {
    "__blackjack_export_"@ + name + "_to_lua"@
}

/// The wrapper-level type of one parameter slot: the declared type for an
/// owned parameter, the opaque dynamic-runtime handle type for a borrowed one.
pub open spec fn spec_slot_type(p: ParamBindingV) -> Seq<char> {
    if p.mode is Owned {
        p.declared_type
    } else {
        "mlua::AnyUserData"@
    }
}

/// The wrapper-level types of all parameter slots, in declaration order.
pub open spec fn spec_slot_types(ps: Seq<ParamBindingV>) -> Seq<Seq<char>> {
    ps.map_values(|p: ParamBindingV| spec_slot_type(p))
}

/// The wrapper-level parameter names, in declaration order.
pub open spec fn spec_param_names(ps: Seq<ParamBindingV>) -> Seq<Seq<char>> {
    ps.map_values(|p: ParamBindingV| p.name)
}

/// The expression that forwards one parameter to the original function.
pub open spec fn spec_invoke_arg(p: ParamBindingV) -> Seq<char> {
    match p.mode {
        AccessMode::Owned => p.name,
        AccessMode::SharedRef => "&"@ + p.name,
        AccessMode::ExclusiveRef => "&mut "@ + p.name,
    }
}

/// The forwarding expressions of all parameters, in declaration order.
pub open spec fn spec_invoke_args(ps: Seq<ParamBindingV>) -> Seq<Seq<char>> {
    ps.map_values(|p: ParamBindingV| spec_invoke_arg(p))
}

/// The tail of a separated list: separator and element for each index from
/// `i` on.
pub open spec fn spec_join_tail(xs: Seq<Seq<char>>, sep: Seq<char>, i: int) -> Seq<char>
    decreases xs.len() - i,
{
    if 0 <= i < xs.len() {
        sep + xs[i] + spec_join_tail(xs, sep, i + 1)
    } else {
        Seq::empty()
    }
}

/// The elements of `xs` joined by `sep`.
pub open spec fn spec_join(xs: Seq<Seq<char>>, sep: Seq<char>) -> Seq<char> {
    if xs.len() == 0 {
        Seq::empty()
    } else {
        xs[0] + spec_join_tail(xs, sep, 1)
    }
}

/// The wrapper's own parameter list: the names as a tuple pattern, the slot
/// types as a tuple type.
pub open spec fn spec_signature(ps: Seq<ParamBindingV>) -> Seq<char> {
    "("@ + spec_join(spec_param_names(ps), ", "@) + "): ("@ + spec_join(
        spec_slot_types(ps),
        ", "@,
    ) + ")"@
}

/// The borrow statement generated for one parameter: nothing for an owned
/// one, a shared resolution for a read-only reference, an exclusive
/// resolution for a mutable one.
pub open spec fn spec_borrow_line(p: ParamBindingV) -> Seq<char> {
    match p.mode {
        AccessMode::Owned => Seq::empty(),
        AccessMode::SharedRef => "        let "@ + p.name + " = "@ + p.name + ".borrow::<"@
            + p.declared_type + ">()?;\n"@,
        AccessMode::ExclusiveRef => "        let mut "@ + p.name + " = "@ + p.name
            + ".borrow_mut::<"@ + p.declared_type + ">()?;\n"@,
    }
}

/// The borrow statements for every parameter from `i` on, in order.
pub open spec fn spec_borrows_from(ps: Seq<ParamBindingV>, i: int) -> Seq<char>
    decreases ps.len() - i,
{
    if 0 <= i < ps.len() {
        spec_borrow_line(ps[i]) + spec_borrows_from(ps, i + 1)
    } else {
        Seq::empty()
    }
}

/// The statement that invokes the original function and converts its result:
/// a fallible result is matched, its failure rendered into a runtime error;
/// a plain result is forwarded as the successful value.
pub open spec fn spec_call_text(d: DescriptorV) -> Seq<char> {
    if d.fallible {
        "        match "@ + d.original_name + "("@ + spec_join(spec_invoke_args(d.params), ", "@)
            + ") {\n            Ok(val) => mlua::Result::Ok(val),\n            Err(err) => mlua::Result::Err(mlua::Error::RuntimeError(format!(\"{:?}\", err))),\n        }\n"@
    } else {
        "        mlua::Result::Ok("@ + d.original_name + "("@ + spec_join(
            spec_invoke_args(d.params),
            ", "@,
        ) + "))\n"@
    }
}

/// The inner callable the dynamic runtime will invoke: its header, the borrow
/// preamble, and the forwarding call.
pub open spec fn spec_inner_fn(d: DescriptorV) -> Seq<char> {
    "    fn __inner(lua: &mlua::Lua, "@ + spec_signature(d.params) + ") -> mlua::Result<"@
        + d.payload_type + "> {\n"@ + spec_borrows_from(d.params, 0) + spec_call_text(d)
        + "    }\n"@
}

/// The registration statements: the wrapper is stored under the destination
/// namespace table, created on demand when absent, or directly in the global
/// namespace when no destination was named; the key is the original name.
pub open spec fn spec_registration(d: DescriptorV) -> Seq<char> {
    match d.under {
        Some(ns) => "    let table = match lua.globals().get::<_, mlua::Table>(\""@ + ns
            + "\") {\n        Ok(table) => table,\n        Err(_) => {\n            let table = lua.create_table().unwrap();\n            lua.globals().set(\""@
            + ns
            + "\", table.clone()).unwrap();\n            table\n        }\n    };\n    table.set(\""@
            + d.original_name + "\", lua.create_function(__inner).unwrap()).unwrap();\n"@,
        None => "    lua.globals().set(\""@ + d.original_name
            + "\", lua.create_function(__inner).unwrap()).unwrap();\n"@,
    }
}

/// The full code of the registration entry point generated for one
/// declaration.
pub open spec fn spec_wrapper_code(d: DescriptorV) -> Seq<char> {
    "pub fn "@ + spec_register_ident(d.original_name) + "(lua: &mlua::Lua) {\n"@ + spec_inner_fn(d)
        + spec_registration(d) + "}\n"@
}

/// The wrapper's parameter list mirrors the original one-for-one: same
/// length, the declared type kept for every owned slot, the opaque handle
/// type for every borrowed slot.
pub proof fn lemma_wrapper_parameter_correspondence(ps: Seq<ParamBindingV>)
    ensures
        spec_slot_types(ps).len() == ps.len(),
        forall|i: int| 0 <= i < ps.len() && ps[i].mode is Owned ==> spec_slot_types(ps)[i]
            == ps[i].declared_type,
        forall|i: int| 0 <= i < ps.len() && !(ps[i].mode is Owned) ==> spec_slot_types(ps)[i]
            == "mlua::AnyUserData"@,
{
}

/// The name of the registration entry point generated for one declaration.
pub fn register_ident(name: &str) -> (r: String)
    ensures
        r@ == spec_register_ident(name@),
{
    let mut s: String = "__blackjack_export_".to_owned();
    s.append(name);
    s.append("_to_lua");
    s
}

/// The wrapper-level types of all parameter slots, in declaration order.
pub fn slot_types(params: &Vec<ParamBinding>) -> (r: Vec<String>)
    ensures
        r@.map_values(|s: String| s@) =~= spec_slot_types(
            params@.map_values(|p: ParamBinding| p@),
        ),
{
    let mut r: Vec<String> = Vec::new();
    let mut i: usize = 0;
    while i < params.len()
        invariant
            i <= params.len(),
            r@.len() == i,
            forall|j: int| 0 <= j < i ==> r@[j]@ == spec_slot_type(params@[j]@),
        decreases params.len() - i,
    {
        let t: String = match params[i].mode {
            AccessMode::Owned => params[i].declared_type.clone(),
            _ => "mlua::AnyUserData".to_owned(),
        };
        r.push(t);
        i = i + 1;
    }
    r
}

/// The wrapper-level parameter names, in declaration order.
fn param_names(params: &Vec<ParamBinding>) -> (r: Vec<String>)
    ensures
        r@.map_values(|s: String| s@) =~= spec_param_names(
            params@.map_values(|p: ParamBinding| p@),
        ),
{
    let mut r: Vec<String> = Vec::new();
    let mut i: usize = 0;
    while i < params.len()
        invariant
            i <= params.len(),
            r@.len() == i,
            forall|j: int| 0 <= j < i ==> r@[j]@ == params@[j]@.name,
        decreases params.len() - i,
    {
        r.push(params[i].name.clone());
        i = i + 1;
    }
    r
}

/// The forwarding expressions of all parameters, in declaration order.
fn invoke_args(params: &Vec<ParamBinding>) -> (r: Vec<String>)
    ensures
        r@.map_values(|s: String| s@) =~= spec_invoke_args(
            params@.map_values(|p: ParamBinding| p@),
        ),
{
    let mut r: Vec<String> = Vec::new();
    let mut i: usize = 0;
    while i < params.len()
        invariant
            i <= params.len(),
            r@.len() == i,
            forall|j: int| 0 <= j < i ==> r@[j]@ == spec_invoke_arg(params@[j]@),
        decreases params.len() - i,
    {
        let a: String = match params[i].mode {
            AccessMode::Owned => params[i].name.clone(),
            AccessMode::SharedRef => {
                let mut s: String = "&".to_owned();
                s.append(params[i].name.as_str());
                s
            },
            AccessMode::ExclusiveRef => {
                let mut s: String = "&mut ".to_owned();
                s.append(params[i].name.as_str());
                s
            },
        };
        r.push(a);
        i = i + 1;
    }
    r
}

/// The tail of a separated list, from index `i` on.
fn join_tail(items: &Vec<String>, sep: &str, i: usize) -> (r: String)
    requires
        i <= items.len(),
    ensures
        r@ == spec_join_tail(items@.map_values(|s: String| s@), sep@, i as int),
    decreases items.len() - i,
{
    if i == items.len() {
        String::new()
    } else {
        let mut s: String = sep.to_owned();
        s.append(items[i].as_str());
        let rest = join_tail(items, sep, i + 1);
        s.append(rest.as_str());
        s
    }
}

/// The elements of `items` joined by `sep`.
fn join(items: &Vec<String>, sep: &str) -> (r: String)
    ensures
        r@ == spec_join(items@.map_values(|s: String| s@), sep@),
{
    if items.len() == 0 {
        String::new()
    } else {
        let mut s: String = items[0].clone();
        let rest = join_tail(items, sep, 1);
        s.append(rest.as_str());
        s
    }
}

/// The wrapper's own parameter list, rendered.
fn signature_text(params: &Vec<ParamBinding>) -> (r: String)
    ensures
        r@ == spec_signature(params@.map_values(|p: ParamBinding| p@)),
{
    let names = param_names(params);
    let types = slot_types(params);
    let mut s: String = "(".to_owned();
    let joined_names = join(&names, ", ");
    s.append(joined_names.as_str());
    s.append("): (");
    let joined_types = join(&types, ", ");
    s.append(joined_types.as_str());
    s.append(")");
    s
}

/// The borrow statement generated for one parameter.
fn borrow_line(p: &ParamBinding) -> (r: String)
    ensures
        r@ == spec_borrow_line(p@),
{
    match p.mode {
        AccessMode::Owned => String::new(),
        AccessMode::SharedRef => {
            let mut s: String = "        let ".to_owned();
            s.append(p.name.as_str());
            s.append(" = ");
            s.append(p.name.as_str());
            s.append(".borrow::<");
            s.append(p.declared_type.as_str());
            s.append(">()?;\n");
            s
        },
        AccessMode::ExclusiveRef => {
            let mut s: String = "        let mut ".to_owned();
            s.append(p.name.as_str());
            s.append(" = ");
            s.append(p.name.as_str());
            s.append(".borrow_mut::<");
            s.append(p.declared_type.as_str());
            s.append(">()?;\n");
            s
        },
    }
}

/// The borrow statements for every parameter from `i` on, in order.
fn borrows_from(params: &Vec<ParamBinding>, i: usize) -> (r: String)
    requires
        i <= params.len(),
    ensures
        r@ == spec_borrows_from(params@.map_values(|p: ParamBinding| p@), i as int),
    decreases params.len() - i,
{
    if i == params.len() {
        String::new()
    } else {
        let mut s = borrow_line(&params[i]);
        let rest = borrows_from(params, i + 1);
        s.append(rest.as_str());
        s
    }
}

/// The statement that invokes the original function and converts its result.
fn call_text(d: &FunctionDescriptor) -> (r: String)
    ensures
        r@ == spec_call_text(d@),
{
    let args = invoke_args(&d.params);
    let joined = join(&args, ", ");
    if d.ret.fallible {
        let mut s: String = "        match ".to_owned();
        s.append(d.original_name.as_str());
        s.append("(");
        s.append(joined.as_str());
        s.append(
            ") {\n            Ok(val) => mlua::Result::Ok(val),\n            Err(err) => mlua::Result::Err(mlua::Error::RuntimeError(format!(\"{:?}\", err))),\n        }\n",
        );
        s
    } else {
        let mut s: String = "        mlua::Result::Ok(".to_owned();
        s.append(d.original_name.as_str());
        s.append("(");
        s.append(joined.as_str());
        s.append("))\n");
        s
    }
}

/// The inner callable the dynamic runtime will invoke.
fn inner_fn_text(d: &FunctionDescriptor) -> (r: String)
    ensures
        r@ == spec_inner_fn(d@),
{
    let mut s: String = "    fn __inner(lua: &mlua::Lua, ".to_owned();
    let sig = signature_text(&d.params);
    s.append(sig.as_str());
    s.append(") -> mlua::Result<");
    s.append(d.ret.payload_type.as_str());
    s.append("> {\n");
    let borrows = borrows_from(&d.params, 0);
    s.append(borrows.as_str());
    let call = call_text(d);
    s.append(call.as_str());
    s.append("    }\n");
    s
}

/// The registration statements for one wrapper.
fn registration_text(d: &FunctionDescriptor) -> (r: String)
    ensures
        r@ == spec_registration(d@),
{
    match &d.config.under {
        Some(ns) => {
            let mut s: String = "    let table = match lua.globals().get::<_, mlua::Table>(\""
                .to_owned();
            s.append(ns.as_str());
            s.append(
                "\") {\n        Ok(table) => table,\n        Err(_) => {\n            let table = lua.create_table().unwrap();\n            lua.globals().set(\"",
            );
            s.append(ns.as_str());
            s.append(
                "\", table.clone()).unwrap();\n            table\n        }\n    };\n    table.set(\"",
            );
            s.append(d.original_name.as_str());
            s.append("\", lua.create_function(__inner).unwrap()).unwrap();\n");
            s
        },
        None => {
            let mut s: String = "    lua.globals().set(\"".to_owned();
            s.append(d.original_name.as_str());
            s.append("\", lua.create_function(__inner).unwrap()).unwrap();\n");
            s
        },
    }
}

/// Synthesize the wrapper for one analyzed declaration: the registration
/// entry point's name and its full code.
pub fn synthesize(d: &FunctionDescriptor) -> (u: WrapperUnit)
    ensures
        u.register_fn_ident@ == spec_register_ident(d@.original_name),
        u.code@ == spec_wrapper_code(d@),
{
    let ident = register_ident(d.original_name.as_str());
    let mut code: String = "pub fn ".to_owned();
    code.append(ident.as_str());
    code.append("(lua: &mlua::Lua) {\n");
    let inner = inner_fn_text(d);
    code.append(inner.as_str());
    let reg = registration_text(d);
    code.append(reg.as_str());
    code.append("}\n");
    WrapperUnit { register_fn_ident: ident, code }
}

} // verus!
