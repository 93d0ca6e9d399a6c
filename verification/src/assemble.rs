use vstd::prelude::*;
use vstd::string::StringExecFns;

use crate::analyze::{analyze_fn, spec_accepted, spec_descriptor_of, spec_reject_kind};
use crate::annotation::{parse_export_config, spec_ann_error, spec_ann_under, ExportConfig};
use crate::decl::{Attr, AttrV, FnDecl, FnDeclV, Item, ItemV, ModuleDecl, ModuleDeclV};
use crate::errors::{GenError, GenErrorKind};
use crate::synth::{spec_register_ident, spec_wrapper_code, synthesize};

verus! {

/// Whether an attribute is the export annotation.
pub open spec fn spec_is_lua(a: AttrV) -> bool {
    a.name == "lua"@
}

/// The attributes that are not export annotations, from `i` on, in order.
pub open spec fn spec_kept_attrs(attrs: Seq<AttrV>, i: int) -> Seq<AttrV>
    decreases attrs.len() - i,
{
    if 0 <= i < attrs.len() {
        if spec_is_lua(attrs[i]) {
            spec_kept_attrs(attrs, i + 1)
        } else {
            seq![attrs[i]] + spec_kept_attrs(attrs, i + 1)
        }
    } else {
        Seq::empty()
    }
}

/// The error of the first export annotation from `i` on whose payload is
/// rejected, if any.
pub open spec fn spec_lua_err(attrs: Seq<AttrV>, i: int) -> Option<GenErrorKind>
    decreases attrs.len() - i,
{
    if 0 <= i < attrs.len() {
        if spec_is_lua(attrs[i]) {
            match spec_ann_error(attrs[i].payload) {
                Some(k) => Some(k),
                None => spec_lua_err(attrs, i + 1),
            }
        } else {
            spec_lua_err(attrs, i + 1)
        }
    } else {
        None
    }
}

/// How many export annotations stand from `i` on.
pub open spec fn spec_lua_count(attrs: Seq<AttrV>, i: int) -> int
    decreases attrs.len() - i,
{
    if 0 <= i < attrs.len() {
        (if spec_is_lua(attrs[i]) {
            1int
        } else {
            0int
        }) + spec_lua_count(attrs, i + 1)
    } else {
        0
    }
}

/// The namespace named by the first export annotation from `i` on.
pub open spec fn spec_first_under(attrs: Seq<AttrV>, i: int) -> Option<Seq<char>>
    decreases attrs.len() - i,
{
    if 0 <= i < attrs.len() {
        if spec_is_lua(attrs[i]) {
            spec_ann_under(attrs[i].payload)
        } else {
            spec_first_under(attrs, i + 1)
        }
    } else {
        None
    }
}

/// The error collecting a declaration's export annotations fails with, if
/// any: a rejected payload first, then more than one annotation.
pub open spec fn spec_collect_err(d: FnDeclV) -> Option<GenErrorKind> {
    match spec_lua_err(d.attrs, 0) {
        Some(k) => Some(k),
        None => if spec_lua_count(d.attrs, 0) > 1 {
            Some(GenErrorKind::DuplicateAnnotation)
        } else {
            None
        },
    }
}

/// Whether an attribute is the export annotation.
fn is_lua(a: &Attr) -> (r: bool)
    ensures
        r == spec_is_lua(a@),
{
    let lua_name: String = "lua".to_owned();
    a.name.eq(&lua_name)
}

/// Walk a declaration's attributes from `i` on: the non-annotation attributes
/// kept in order, how many export annotations were seen, and the
/// configuration of the first one.
fn collect_from(decl: &FnDecl, i: usize) -> (r: Result<
    (Vec<Attr>, usize, Option<ExportConfig>),
    GenError,
>)
    requires
        i <= decl.attrs.len(),
    ensures
        r is Ok <==> spec_lua_err(decl@.attrs, i as int) is None,
        r matches Err(e) ==> Some(e.kind) == spec_lua_err(decl@.attrs, i as int) && e.decl@
            == decl@.name,
        r matches Ok(t) ==> {
            &&& t.0@.map_values(|a: Attr| a@) =~= spec_kept_attrs(decl@.attrs, i as int)
            &&& t.1 as int == spec_lua_count(decl@.attrs, i as int)
            &&& (match t.2 {
                Some(c) => spec_lua_count(decl@.attrs, i as int) > 0 && c@ == spec_first_under(
                    decl@.attrs,
                    i as int,
                ),
                None => spec_lua_count(decl@.attrs, i as int) == 0,
            })
        },
        r matches Ok(t) ==> t.1 <= decl.attrs.len() - i,
    decreases decl.attrs.len() - i,
{
    if i == decl.attrs.len() {
        Ok((Vec::new(), 0, None))
    } else {
        let a = &decl.attrs[i];
        if is_lua(a) {
            let cfg = match parse_export_config(a.payload.as_str(), decl.name.as_str()) {
                Ok(c) => c,
                Err(e) => {
                    return Err(e);
                },
            };
            match collect_from(decl, i + 1) {
                Ok((kept, count, _)) => Ok((kept, count + 1, Some(cfg))),
                Err(e) => Err(e),
            }
        } else {
            match collect_from(decl, i + 1) {
                Ok((kept, count, first)) => {
                    let mut kept = kept;
                    kept.insert(
                        0,
                        Attr {
                            name: a.name.clone(),
                            payload: a.payload.clone(),
                            text: a.text.clone(),
                        },
                    );
                    assert(kept@.map_values(|x: Attr| x@) =~= seq![a@] + spec_kept_attrs(
                        decl@.attrs,
                        i + 1,
                    ));
                    Ok((kept, count, first))
                },
                Err(e) => Err(e),
            }
        }
    }
}

/// Collect a declaration's export annotations: the remaining attributes and
/// the configuration of the single annotation, if one is attached.
///
/// Fails when an annotation's payload is rejected, or when more than one
/// export annotation stands on the declaration.
pub fn collect_export_annotation(decl: &FnDecl) -> (r: Result<
    (Vec<Attr>, Option<ExportConfig>),
    GenError,
>)
    ensures
        r is Ok <==> spec_collect_err(decl@) is None,
        r matches Err(e) ==> Some(e.kind) == spec_collect_err(decl@) && e.decl@ == decl@.name,
        r matches Ok(t) ==> {
            &&& t.0@.map_values(|a: Attr| a@) =~= spec_kept_attrs(decl@.attrs, 0)
            &&& (match t.1 {
                Some(c) => spec_lua_count(decl@.attrs, 0) == 1 && c@ == spec_first_under(
                    decl@.attrs,
                    0,
                ),
                None => spec_lua_count(decl@.attrs, 0) == 0,
            })
        },
{
    match collect_from(decl, 0) {
        Err(e) => Err(e),
        Ok((kept, count, first)) => {
            if count > 1 {
                Err(
                    GenError {
                        kind: GenErrorKind::DuplicateAnnotation,
                        decl: decl.name.clone(),
                    },
                )
            } else {
                Ok((kept, first))
            }
        },
    }
}

/// The rendered attributes of a declaration, each on its own line, from `i`
/// on.
pub open spec fn spec_attr_texts(attrs: Seq<AttrV>, i: int) -> Seq<char>
    decreases attrs.len() - i,
{
    if 0 <= i < attrs.len() {
        attrs[i].text + "\n"@ + spec_attr_texts(attrs, i + 1)
    } else {
        Seq::empty()
    }
}

/// How a function-shaped member is emitted into the output: its kept
/// attributes, then its declaration, unchanged.
pub open spec fn spec_fn_emitted(d: FnDeclV) -> Seq<char> {
    spec_attr_texts(spec_kept_attrs(d.attrs, 0), 0) + d.text + "\n"@
}

/// One invocation line of the aggregate registration routine.
pub open spec fn spec_call_line(ident: Seq<char>) -> Seq<char> {
    "    "@ + ident + "(lua);\n"@
}

/// The rendered attributes from `i` on, each on its own line.
fn attr_texts(attrs: &Vec<Attr>, i: usize) -> (r: String)
    requires
        i <= attrs.len(),
    ensures
        r@ == spec_attr_texts(attrs@.map_values(|a: Attr| a@), i as int),
    decreases attrs.len() - i,
{
    if i == attrs.len() {
        String::new()
    } else {
        let mut s: String = attrs[i].text.clone();
        s.append("\n");
        let rest = attr_texts(attrs, i + 1);
        s.append(rest.as_str());
        s
    }
}

/// The first generation-time error the members from `i` on are rejected
/// with, if any: an associated-type member, a rejected or duplicated
/// annotation, or an exported declaration the analyzer rejects.
pub open spec fn spec_scan_err(items: Seq<ItemV>, mod_name: Seq<char>, i: int) -> Option<
    (GenErrorKind, Seq<char>),
>
    decreases items.len() - i,
{
    if 0 <= i < items.len() {
        match items[i] {
            ItemV::ImplBlock { .. } => Some((GenErrorKind::UnsupportedImplMember, mod_name)),
            ItemV::Other { .. } => spec_scan_err(items, mod_name, i + 1),
            ItemV::Fn { decl } => match spec_collect_err(decl) {
                Some(k) => Some((k, decl.name)),
                None => if spec_lua_count(decl.attrs, 0) == 0 {
                    spec_scan_err(items, mod_name, i + 1)
                } else if !spec_accepted(decl) {
                    Some((spec_reject_kind(decl), decl.name))
                } else {
                    spec_scan_err(items, mod_name, i + 1)
                },
            },
        }
    } else {
        None
    }
}

/// The three text blocks the members from `i` on contribute, when none is
/// rejected: the members as given, the generated wrappers, and the aggregate
/// routine's invocation lines, each in declaration order.
pub open spec fn spec_scan_texts(items: Seq<ItemV>, i: int) -> (Seq<char>, Seq<char>, Seq<char>)
    decreases items.len() - i,
{
    if 0 <= i < items.len() {
        let rest = spec_scan_texts(items, i + 1);
        match items[i] {
            ItemV::ImplBlock { text } => (text + "\n"@ + rest.0, rest.1, rest.2),
            ItemV::Other { text } => (text + "\n"@ + rest.0, rest.1, rest.2),
            ItemV::Fn { decl } => if spec_lua_count(decl.attrs, 0) == 0 {
                (spec_fn_emitted(decl) + rest.0, rest.1, rest.2)
            } else {
                let desc = spec_descriptor_of(decl, spec_first_under(decl.attrs, 0));
                (
                    spec_fn_emitted(decl) + rest.0,
                    spec_wrapper_code(desc) + rest.1,
                    spec_call_line(spec_register_ident(decl.name)) + rest.2,
                )
            },
        }
    } else {
        (Seq::empty(), Seq::empty(), Seq::empty())
    }
}

/// The three text blocks of a scanned grouping.
struct ScanOut {
    emitted: String,
    wrappers: String,
    calls: String,
}

/// Scan the members from `i` on, collecting the emitted members, the
/// generated wrappers and the aggregate invocation lines.
fn scan_items(items: &Vec<Item>, mod_name: &str, i: usize) -> (r: Result<ScanOut, GenError>)
    requires
        i <= items.len(),
    ensures
        r is Ok <==> spec_scan_err(items@.map_values(|it: Item| it@), mod_name@, i as int) is None,
        r matches Err(e) ==> Some((e.kind, e.decl@)) == spec_scan_err(
            items@.map_values(|it: Item| it@),
            mod_name@,
            i as int,
        ),
        r matches Ok(t) ==> {
            let texts = spec_scan_texts(items@.map_values(|it: Item| it@), i as int);
            t.emitted@ == texts.0 && t.wrappers@ == texts.1 && t.calls@ == texts.2
        },
    decreases items.len() - i,
{
    if i == items.len() {
        Ok(ScanOut { emitted: String::new(), wrappers: String::new(), calls: String::new() })
    } else {
        match &items[i] {
            Item::ImplBlock { .. } => Err(
                GenError {
                    kind: GenErrorKind::UnsupportedImplMember,
                    decl: mod_name.to_owned(),
                },
            ),
            Item::Other { text } => {
                let rest = match scan_items(items, mod_name, i + 1) {
                    Ok(t) => t,
                    Err(e) => {
                        return Err(e);
                    },
                };
                let mut emitted: String = text.clone();
                emitted.append("\n");
                emitted.append(rest.emitted.as_str());
                Ok(ScanOut { emitted, wrappers: rest.wrappers, calls: rest.calls })
            },
            Item::Fn { decl } => {
                let (kept, cfg) = match collect_export_annotation(decl) {
                    Ok(p) => p,
                    Err(e) => {
                        return Err(e);
                    },
                };
                match cfg {
                    None => {
                        let rest = match scan_items(items, mod_name, i + 1) {
                            Ok(t) => t,
                            Err(e) => {
                                return Err(e);
                            },
                        };
                        let mut emitted = attr_texts(&kept, 0);
                        emitted.append(decl.text.as_str());
                        emitted.append("\n");
                        emitted.append(rest.emitted.as_str());
                        Ok(ScanOut { emitted, wrappers: rest.wrappers, calls: rest.calls })
                    },
                    Some(config) => {
                        let desc = match analyze_fn(decl, config) {
                            Ok(d) => d,
                            Err(e) => {
                                return Err(e);
                            },
                        };
                        let unit = synthesize(&desc);
                        let rest = match scan_items(items, mod_name, i + 1) {
                            Ok(t) => t,
                            Err(e) => {
                                return Err(e);
                            },
                        };
                        let mut emitted = attr_texts(&kept, 0);
                        emitted.append(decl.text.as_str());
                        emitted.append("\n");
                        emitted.append(rest.emitted.as_str());
                        let mut wrappers: String = unit.code;
                        wrappers.append(rest.wrappers.as_str());
                        let mut calls: String = "    ".to_owned();
                        calls.append(unit.register_fn_ident.as_str());
                        calls.append("(lua);\n");
                        calls.append(rest.calls.as_str());
                        Ok(ScanOut { emitted, wrappers, calls })
                    },
                }
            },
        }
    }
}

/// The error a grouping is rejected with, if any: a missing body, or the
/// first member-level error.
pub open spec fn spec_module_err(m: ModuleDeclV) -> Option<(GenErrorKind, Seq<char>)> {
    match m.items {
        None => Some((GenErrorKind::MissingModuleBody, m.name)),
        Some(items) => spec_scan_err(items, m.name, 0),
    }
}

/// A grouping whose exported declaration has generic parameters, is
/// suspendable, or has a receiver parameter is rejected at generation time
/// with the error naming that declaration, and no output is produced for it:
/// [`process_module`] returns an error, never generated code.
pub proof fn lemma_rejection_set(vis: Seq<char>, name: Seq<char>, d: FnDeclV)
    requires
        spec_collect_err(d) is None,
        spec_lua_count(d.attrs, 0) > 0,
        !spec_accepted(d),
    ensures
        spec_module_err(ModuleDeclV { vis, name, items: Some(seq![ItemV::Fn { decl: d }]) })
            == Some((spec_reject_kind(d), d.name)),
{
}

/// The visibility prefix of the emitted grouping.
pub open spec fn spec_vis_prefix(vis: Seq<char>) -> Seq<char> {
    if vis.len() == 0 {
        Seq::empty()
    } else {
        vis + " "@
    }
}

/// The whole output of an accepted grouping: the original members unchanged,
/// then every generated wrapper, then one aggregate registration routine that
/// invokes each wrapper's registration entry point once, in declaration
/// order.
pub open spec fn spec_module_text(m: ModuleDeclV) -> Seq<char> {
    match m.items {
        None => Seq::empty(),
        Some(items) => {
            let texts = spec_scan_texts(items, 0);
            spec_vis_prefix(m.vis) + "mod "@ + m.name + " {\n"@ + texts.0 + texts.1
                + "pub fn __blackjack_register_lua_fns(lua: &mlua::Lua) {\n"@ + texts.2 + "}\n"@
                + "}\n"@
        },
    }
}

/// Process one grouping: emit its members unchanged, append one registration
/// entry point per exported declaration and one aggregate routine that calls
/// each of them once, in declaration order; or fail with the grouping's
/// first generation-time error, emitting nothing.
pub fn process_module(m: &ModuleDecl) -> (r: Result<String, GenError>)
    ensures
        r is Ok <==> spec_module_err(m@) is None,
        r matches Err(e) ==> Some((e.kind, e.decl@)) == spec_module_err(m@),
        r matches Ok(s) ==> s@ == spec_module_text(m@),
{
    let items = match &m.items {
        None => {
            return Err(GenError { kind: GenErrorKind::MissingModuleBody, decl: m.name.clone() });
        },
        Some(items) => items,
    };
    let scanned = match scan_items(items, m.name.as_str(), 0) {
        Ok(t) => t,
        Err(e) => {
            return Err(e);
        },
    };
    let mut out: String = if m.vis.as_str().is_empty() {
        String::new()
    } else {
        let mut v = m.vis.clone();
        v.append(" ");
        v
    };
    out.append("mod ");
    out.append(m.name.as_str());
    out.append(" {\n");
    out.append(scanned.emitted.as_str());
    out.append(scanned.wrappers.as_str());
    out.append("pub fn __blackjack_register_lua_fns(lua: &mlua::Lua) {\n");
    out.append(scanned.calls.as_str());
    out.append("}\n");
    out.append("}\n");
    Ok(out)
}

} // verus!
