use vstd::prelude::*;
use vstd::string::StringExecFns;

verus! {

/// The reasons code generation can fail for a declaration or a grouping.
#[derive(Clone, Copy, Debug, PartialEq, Eq, Structural)]
pub enum GenErrorKind {
    /// The declaration has generic parameters.
    GenericParams,
    /// The declaration is marked asynchronous.
    AsyncFn,
    /// The declaration has a receiver (`self`) parameter.
    Receiver,
    /// More than one export annotation is attached to one declaration.
    DuplicateAnnotation,
    /// The export annotation does not follow the `key = value` grammar.
    MalformedAnnotation,
    /// The value given for `under` is not a string literal.
    UnderNotString,
    /// The grouping contains an associated-type member, which cannot be scanned.
    UnsupportedImplMember,
    /// The grouping's body is not available for inspection.
    MissingModuleBody,
}

/// A fatal generation-time error, tied to the name of the offending
/// declaration or grouping.
#[derive(Debug)]
pub struct GenError {
    pub kind: GenErrorKind,
    pub decl: String,
}

/// The phrase a generation-time error is reported with.
pub open spec fn spec_kind_phrase(k: GenErrorKind) -> Seq<char> {
    match k {
        GenErrorKind::GenericParams => "functions exported to the scripting runtime cannot have generic parameters"@,
        GenErrorKind::AsyncFn => "functions exported to the scripting runtime cannot be suspendable"@,
        GenErrorKind::Receiver => "only free functions can be exported; a receiver parameter is not supported"@,
        GenErrorKind::DuplicateAnnotation => "only one export annotation is supported per function"@,
        GenErrorKind::MalformedAnnotation => "the export annotation must be a comma-separated list of key = value pairs"@,
        GenErrorKind::UnderNotString => "value for 'under' must be a string"@,
        GenErrorKind::UnsupportedImplMember => "associated-type members cannot be scanned for exports"@,
        GenErrorKind::MissingModuleBody => "only groupings with an inline body are supported"@,
    }
}

/// The phrase a generation-time error is reported with.
fn kind_phrase(k: GenErrorKind) -> (r: &'static str)
    ensures
        r@ == spec_kind_phrase(k),
{
    match k {
        GenErrorKind::GenericParams => "functions exported to the scripting runtime cannot have generic parameters",
        GenErrorKind::AsyncFn => "functions exported to the scripting runtime cannot be suspendable",
        GenErrorKind::Receiver => "only free functions can be exported; a receiver parameter is not supported",
        GenErrorKind::DuplicateAnnotation => "only one export annotation is supported per function",
        GenErrorKind::MalformedAnnotation => "the export annotation must be a comma-separated list of key = value pairs",
        GenErrorKind::UnderNotString => "value for 'under' must be a string",
        GenErrorKind::UnsupportedImplMember => "associated-type members cannot be scanned for exports",
        GenErrorKind::MissingModuleBody => "only groupings with an inline body are supported",
    }
}

impl GenError {
    /// The error rendered for the build log: its phrase, then the offending
    /// declaration's name.
    pub fn message(&self) -> (r: String)
        ensures
            r@ == spec_kind_phrase(self.kind) + ": `"@ + self.decl@ + "`"@,
    {
        let mut s: String = kind_phrase(self.kind).to_owned();
        s.append(": `");
        s.append(self.decl.as_str());
        s.append("`");
        s
    }
}

} // verus!
