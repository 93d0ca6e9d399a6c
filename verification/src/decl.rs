use vstd::prelude::*;

verus! {

/// One attribute attached to a declaration: the attribute path's rendered
/// name, the tokens inside its parentheses, and its full source text.
#[derive(Debug)]
pub struct Attr {
    pub name: String,
    pub payload: String,
    pub text: String,
}

/// Mathematical view of an [`Attr`].
#[verifier::ext_equal]
pub struct AttrV {
    pub name: Seq<char>,
    pub payload: Seq<char>,
    pub text: Seq<char>,
}

impl View for Attr {
    type V = AttrV;

    open spec fn view(&self) -> AttrV {
        AttrV { name: self.name@, payload: self.payload@, text: self.text@ }
    }
}

/// The shape of a declared type, as far as the generator inspects it.
///
/// `Reference` records the mutability, the rendered pointee type and the full
/// rendered text; `Path` records the first segment's identifier, the rendered
/// first angle-bracketed type argument of that segment (when there is one) and
/// the full rendered text; every other shape keeps only its rendered text.
#[derive(Debug)]
pub enum TyModel {
    Reference { mutable: bool, elem_text: String, text: String },
    Path { first_segment: String, first_type_arg: Option<String>, text: String },
    Other { text: String },
}

/// Mathematical view of a [`TyModel`].
#[verifier::ext_equal]
pub enum TyModelV {
    Reference { mutable: bool, elem_text: Seq<char>, text: Seq<char> },
    Path { first_segment: Seq<char>, first_type_arg: Option<Seq<char>>, text: Seq<char> },
    Other { text: Seq<char> },
}

impl View for TyModel {
    type V = TyModelV;

    open spec fn view(&self) -> TyModelV {
        match self {
            TyModel::Reference { mutable, elem_text, text } => TyModelV::Reference {
                mutable: *mutable,
                elem_text: elem_text@,
                text: text@,
            },
            TyModel::Path { first_segment, first_type_arg, text } => TyModelV::Path {
                first_segment: first_segment@,
                first_type_arg: match first_type_arg {
                    Some(s) => Some(s@),
                    None => None,
                },
                text: text@,
            },
            TyModel::Other { text } => TyModelV::Other { text: text@ },
        }
    }
}

/// The full rendered text of a declared type.
pub open spec fn spec_ty_text(t: TyModelV) -> Seq<char> {
    match t {
        TyModelV::Reference { text, .. } => text,
        TyModelV::Path { text, .. } => text,
        TyModelV::Other { text } => text,
    }
}

/// One parameter of a declaration: its binding name and declared type.
#[derive(Debug)]
pub struct Param {
    pub name: String,
    pub ty: TyModel,
}

/// Mathematical view of a [`Param`].
#[verifier::ext_equal]
pub struct ParamV {
    pub name: Seq<char>,
    pub ty: TyModelV,
}

impl View for Param {
    type V = ParamV;

    open spec fn view(&self) -> ParamV {
        ParamV { name: self.name@, ty: self.ty@ }
    }
}

/// One function declaration of a grouping, together with its attributes.
/// `text` is the declaration rendered without any of its attributes.
#[derive(Debug)]
pub struct FnDecl {
    pub attrs: Vec<Attr>,
    pub name: String,
    pub generic_param_count: usize,
    pub is_async: bool,
    pub has_receiver: bool,
    pub params: Vec<Param>,
    pub ret: Option<TyModel>,
    pub text: String,
}

/// Mathematical view of a [`FnDecl`].
#[verifier::ext_equal]
pub struct FnDeclV {
    pub attrs: Seq<AttrV>,
    pub name: Seq<char>,
    pub generic_param_count: nat,
    pub is_async: bool,
    pub has_receiver: bool,
    pub params: Seq<ParamV>,
    pub ret: Option<TyModelV>,
    pub text: Seq<char>,
}

impl View for FnDecl {
    type V = FnDeclV;

    open spec fn view(&self) -> FnDeclV {
        FnDeclV {
            attrs: self.attrs@.map_values(|a: Attr| a@),
            name: self.name@,
            generic_param_count: self.generic_param_count as nat,
            is_async: self.is_async,
            has_receiver: self.has_receiver,
            params: self.params@.map_values(|p: Param| p@),
            ret: match &self.ret {
                Some(t) => Some(t@),
                None => None,
            },
            text: self.text@,
        }
    }
}

/// One member of a grouping. Only function-shaped members are scanned for
/// export annotations; an associated-type block is unsupported and makes
/// generation fail; everything else passes through unchanged.
#[derive(Debug)]
pub enum Item {
    Fn { decl: FnDecl },
    ImplBlock { text: String },
    Other { text: String },
}

/// Mathematical view of an [`Item`].
#[verifier::ext_equal]
pub enum ItemV {
    Fn { decl: FnDeclV },
    ImplBlock { text: Seq<char> },
    Other { text: Seq<char> },
}

impl View for Item {
    type V = ItemV;

    open spec fn view(&self) -> ItemV {
        match self {
            Item::Fn { decl } => ItemV::Fn { decl: decl@ },
            Item::ImplBlock { text } => ItemV::ImplBlock { text: text@ },
            Item::Other { text } => ItemV::Other { text: text@ },
        }
    }
}

/// An ordered grouping of declarations. `items` is `None` when the grouping's
/// body is not available for inspection, which is a generation-time error.
#[derive(Debug)]
pub struct ModuleDecl {
    pub vis: String,
    pub name: String,
    pub items: Option<Vec<Item>>,
}

/// Mathematical view of a [`ModuleDecl`].
#[verifier::ext_equal]
pub struct ModuleDeclV {
    pub vis: Seq<char>,
    pub name: Seq<char>,
    pub items: Option<Seq<ItemV>>,
}

impl View for ModuleDecl {
    type V = ModuleDeclV;

    open spec fn view(&self) -> ModuleDeclV {
        ModuleDeclV {
            vis: self.vis@,
            name: self.name@,
            items: match &self.items {
                Some(v) => Some(v@.map_values(|it: Item| it@)),
                None => None,
            },
        }
    }
}

} // verus!
