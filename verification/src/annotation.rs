use vstd::prelude::*;
use vstd::string::StrSliceExecFns;

use crate::errors::{GenError, GenErrorKind};

verus! {

/// Configuration extracted from one export annotation. `under` is the
/// destination namespace table name; `None` means the default namespace.
#[derive(Debug)]
pub struct ExportConfig {
    pub under: Option<String>,
}

impl View for ExportConfig {
    type V = Option<Seq<char>>;

    open spec fn view(&self) -> Option<Seq<char>> {
        match &self.under {
            Some(s) => Some(s@),
            None => None,
        }
    }
}

/// Whether a character is blank space between annotation tokens.
pub open spec fn spec_is_ws(c: char) -> bool {
    c == ' ' || c == '\t' || c == '\n' || c == '\r'
}

/// Whether a character can start an annotation key.
pub open spec fn spec_ident_start(c: char) -> bool {
    ('a' <= c && c <= 'z') || ('A' <= c && c <= 'Z') || c == '_'
}

/// Whether a character can continue an annotation key.
pub open spec fn spec_ident_cont(c: char) -> bool {
    spec_ident_start(c) || ('0' <= c && c <= '9')
}

/// Whether a character opens a bracketed group.
pub open spec fn spec_is_open(c: char) -> bool {
    c == '(' || c == '[' || c == '{'
}

/// Whether a character closes a bracketed group.
pub open spec fn spec_is_close(c: char) -> bool {
    c == ')' || c == ']' || c == '}'
}

/// Where the annotation scanner stands between two characters.
#[derive(Clone, Copy, Debug)]
pub enum ParseMode {
    /// Before a key (or at the very start, or after a comma).
    BeforeKey,
    /// Inside a key identifier.
    InKey,
    /// After a key, before its `=`.
    AfterKey,
    /// After `=`, before the value's first character.
    BeforeVal,
    /// Inside a string-literal value.
    InLit { esc: bool },
    /// After a completed string-literal value.
    AfterVal,
    /// Inside a value that is not a string literal.
    InBare,
    /// Inside a string literal nested in a non-literal value.
    InBareStr { esc: bool },
    /// The annotation is rejected; the scanner stays here.
    Failed { kind: GenErrorKind },
}

/// The scanner's full state: its mode, the key and literal gathered so far,
/// the bracket depth inside a non-literal value, and the last value seen for
/// `under`.
pub struct ParseState {
    pub mode: ParseMode,
    pub key: Vec<char>,
    pub lit: Vec<char>,
    pub depth: usize,
    pub under: Option<Vec<char>>,
}

/// Mathematical view of a [`ParseState`].
#[verifier::ext_equal]
pub struct ParseStateV {
    pub mode: ParseMode,
    pub key: Seq<char>,
    pub lit: Seq<char>,
    pub depth: int,
    pub under: Option<Seq<char>>,
}

impl View for ParseState {
    type V = ParseStateV;

    open spec fn view(&self) -> ParseStateV {
        ParseStateV {
            mode: self.mode,
            key: self.key@,
            lit: self.lit@,
            depth: self.depth as int,
            under: match &self.under {
                Some(v) => Some(v@),
                None => None,
            },
        }
    }
}

/// The scanner's state before any character is read.
pub open spec fn spec_init() -> ParseStateV {
    ParseStateV {
        mode: ParseMode::BeforeKey,
        key: Seq::empty(),
        lit: Seq::empty(),
        depth: 0,
        under: None,
    }
}

/// One step of the annotation scanner.
///
/// The grammar is a comma-separated list of `key = value` pairs. A value is
/// either a string literal or any other bracket-balanced run of characters;
/// only the key `under` is recognized, and its value must be a string
/// literal, kept with its escape sequences as written. The last `under` pair
/// wins when several are given; unrecognized keys are accepted and ignored.
pub open spec fn spec_step(st: ParseStateV, c: char) -> ParseStateV {
    match st.mode {
        ParseMode::BeforeKey => if spec_is_ws(c) {
            st
        } else if spec_ident_start(c) {
            ParseStateV { mode: ParseMode::InKey, key: seq![c], ..st }
        } else {
            ParseStateV { mode: ParseMode::Failed { kind: GenErrorKind::MalformedAnnotation }, ..st }
        },
        ParseMode::InKey => if spec_ident_cont(c) {
            ParseStateV { key: st.key.push(c), ..st }
        } else if spec_is_ws(c) {
            ParseStateV { mode: ParseMode::AfterKey, ..st }
        } else if c == '=' {
            ParseStateV { mode: ParseMode::BeforeVal, ..st }
        } else {
            ParseStateV { mode: ParseMode::Failed { kind: GenErrorKind::MalformedAnnotation }, ..st }
        },
        ParseMode::AfterKey => if spec_is_ws(c) {
            st
        } else if c == '=' {
            ParseStateV { mode: ParseMode::BeforeVal, ..st }
        } else {
            ParseStateV { mode: ParseMode::Failed { kind: GenErrorKind::MalformedAnnotation }, ..st }
        },
        ParseMode::BeforeVal => if spec_is_ws(c) {
            st
        } else if c == '"' {
            ParseStateV { mode: ParseMode::InLit { esc: false }, lit: Seq::empty(), ..st }
        } else if c == ',' || spec_is_close(c) {
            ParseStateV { mode: ParseMode::Failed { kind: GenErrorKind::MalformedAnnotation }, ..st }
        } else if st.key == "under"@ {
            ParseStateV { mode: ParseMode::Failed { kind: GenErrorKind::UnderNotString }, ..st }
        } else if spec_is_open(c) {
            ParseStateV { mode: ParseMode::InBare, depth: 1, ..st }
        } else {
            ParseStateV { mode: ParseMode::InBare, depth: 0, ..st }
        },
        ParseMode::InLit { esc } => if esc {
            ParseStateV { mode: ParseMode::InLit { esc: false }, lit: st.lit.push(c), ..st }
        } else if c == '"' {
            ParseStateV {
                mode: ParseMode::AfterVal,
                under: if st.key == "under"@ {
                    Some(st.lit)
                } else {
                    st.under
                },
                ..st
            }
        } else if c == '\\' {
            ParseStateV { mode: ParseMode::InLit { esc: true }, lit: st.lit.push(c), ..st }
        } else {
            ParseStateV { lit: st.lit.push(c), ..st }
        },
        ParseMode::AfterVal => if spec_is_ws(c) {
            st
        } else if c == ',' {
            ParseStateV { mode: ParseMode::BeforeKey, ..st }
        } else {
            ParseStateV { mode: ParseMode::Failed { kind: GenErrorKind::MalformedAnnotation }, ..st }
        },
        ParseMode::InBare => if st.depth == 0 && c == ',' {
            ParseStateV { mode: ParseMode::BeforeKey, ..st }
        } else if spec_is_open(c) {
            ParseStateV { depth: st.depth + 1, ..st }
        } else if spec_is_close(c) {
            if st.depth == 0 {
                ParseStateV {
                    mode: ParseMode::Failed { kind: GenErrorKind::MalformedAnnotation },
                    ..st
                }
            } else {
                ParseStateV { depth: st.depth - 1, ..st }
            }
        } else if c == '"' {
            ParseStateV { mode: ParseMode::InBareStr { esc: false }, ..st }
        } else {
            st
        },
        ParseMode::InBareStr { esc } => if esc {
            ParseStateV { mode: ParseMode::InBareStr { esc: false }, ..st }
        } else if c == '"' {
            ParseStateV { mode: ParseMode::InBare, ..st }
        } else if c == '\\' {
            ParseStateV { mode: ParseMode::InBareStr { esc: true }, ..st }
        } else {
            st
        },
        ParseMode::Failed { .. } => st,
    }
}

/// The scanner's state after reading the characters of `s` from `i` on.
pub open spec fn spec_run(s: Seq<char>, i: int, st: ParseStateV) -> ParseStateV
    decreases s.len() - i,
{
    if 0 <= i < s.len() {
        spec_run(s, i + 1, spec_step(st, s[i]))
    } else {
        st
    }
}

/// The scanner's state after a whole annotation payload.
pub open spec fn spec_parse_final(s: Seq<char>) -> ParseStateV {
    spec_run(s, 0, spec_init())
}

/// The error an annotation payload is rejected with, if any: a scanner
/// failure, or an end of input in the middle of a pair.
pub open spec fn spec_ann_error(s: Seq<char>) -> Option<GenErrorKind> {
    match spec_parse_final(s).mode {
        ParseMode::Failed { kind } => Some(kind),
        ParseMode::BeforeKey => None,
        ParseMode::AfterVal => None,
        ParseMode::InBare => if spec_parse_final(s).depth == 0 {
            None
        } else {
            Some(GenErrorKind::MalformedAnnotation)
        },
        _ => Some(GenErrorKind::MalformedAnnotation),
    }
}

/// The namespace an accepted annotation payload names, if any.
pub open spec fn spec_ann_under(s: Seq<char>) -> Option<Seq<char>> {
    spec_parse_final(s).under
}

/// Relies on `String`'s `FromIterator` over characters: the collected string
/// holds exactly the characters of the vector, in order.
#[verifier::external_body]
fn chars_to_string(v: &Vec<char>) -> (r: String)
    ensures
        r@ == v@,
{
    v.iter().collect()
}

/// The characters of a string slice, in order.
fn str_to_chars(s: &str) -> (v: Vec<char>)
    ensures
        v@ == s@,
{
    let len = s.unicode_len();
    let mut v: Vec<char> = Vec::new();
    let mut i: usize = 0;
    while i < len
        invariant
            len == s@.len(),
            i <= len,
            v@ =~= s@.take(i as int),
        decreases len - i,
    {
        v.push(s.get_char(i));
        assert(v@ =~= s@.take(i + 1));
        i = i + 1;
    }
    assert(v@ =~= s@);
    v
}

/// Whether the gathered key is exactly `under`.
fn is_under(key: &Vec<char>) -> (r: bool)
    ensures
        r == (key@ == "under"@),
{
    proof {
        reveal_strlit("under");
    }
    if key.len() != 5 {
        return false;
    }
    let r = key[0] == 'u' && key[1] == 'n' && key[2] == 'd' && key[3] == 'e' && key[4] == 'r';
    proof {
        if r {
            assert(key@ =~= "under"@);
        }
    }
    r
}

/// Whether a character is blank space between annotation tokens.
fn is_ws(c: char) -> (r: bool)
    ensures
        r == spec_is_ws(c),
{
    c == ' ' || c == '\t' || c == '\n' || c == '\r'
}

/// Whether a character can start an annotation key.
fn ident_start(c: char) -> (r: bool)
    ensures
        r == spec_ident_start(c),
{
    ('a' <= c && c <= 'z') || ('A' <= c && c <= 'Z') || c == '_'
}

/// Whether a character can continue an annotation key.
fn ident_cont(c: char) -> (r: bool)
    ensures
        r == spec_ident_cont(c),
{
    ident_start(c) || ('0' <= c && c <= '9')
}

/// Whether a character opens a bracketed group.
fn is_open(c: char) -> (r: bool)
    ensures
        r == spec_is_open(c),
{
    c == '(' || c == '[' || c == '{'
}

/// Whether a character closes a bracketed group.
fn is_close(c: char) -> (r: bool)
    ensures
        r == spec_is_close(c),
{
    c == ')' || c == ']' || c == '}'
}

/// One step of the annotation scanner.
fn step(st: ParseState, c: char) -> (r: ParseState)
    requires
        st.depth < usize::MAX,
    ensures
        r@ == spec_step(st@, c),
        r@.depth <= st@.depth + 1,
{
    match st.mode {
        ParseMode::BeforeKey => {
            if is_ws(c) {
                st
            } else if ident_start(c) {
                let mut key: Vec<char> = Vec::new();
                key.push(c);
                assert(key@ =~= seq![c]);
                ParseState { mode: ParseMode::InKey, key, ..st }
            } else {
                ParseState {
                    mode: ParseMode::Failed { kind: GenErrorKind::MalformedAnnotation },
                    ..st
                }
            }
        },
        ParseMode::InKey => {
            if ident_cont(c) {
                let mut key = st.key;
                key.push(c);
                ParseState { key, ..st }
            } else if is_ws(c) {
                ParseState { mode: ParseMode::AfterKey, ..st }
            } else if c == '=' {
                ParseState { mode: ParseMode::BeforeVal, ..st }
            } else {
                ParseState {
                    mode: ParseMode::Failed { kind: GenErrorKind::MalformedAnnotation },
                    ..st
                }
            }
        },
        ParseMode::AfterKey => {
            if is_ws(c) {
                st
            } else if c == '=' {
                ParseState { mode: ParseMode::BeforeVal, ..st }
            } else {
                ParseState {
                    mode: ParseMode::Failed { kind: GenErrorKind::MalformedAnnotation },
                    ..st
                }
            }
        },
        ParseMode::BeforeVal => {
            if is_ws(c) {
                st
            } else if c == '"' {
                ParseState { mode: ParseMode::InLit { esc: false }, lit: Vec::new(), ..st }
            } else if c == ',' || is_close(c) {
                ParseState {
                    mode: ParseMode::Failed { kind: GenErrorKind::MalformedAnnotation },
                    ..st
                }
            } else if is_under(&st.key) {
                ParseState { mode: ParseMode::Failed { kind: GenErrorKind::UnderNotString }, ..st }
            } else if is_open(c) {
                ParseState { mode: ParseMode::InBare, depth: 1, ..st }
            } else {
                ParseState { mode: ParseMode::InBare, depth: 0, ..st }
            }
        },
        ParseMode::InLit { esc } => {
            if esc {
                let mut lit = st.lit;
                lit.push(c);
                ParseState { mode: ParseMode::InLit { esc: false }, lit, ..st }
            } else if c == '"' {
                let u = is_under(&st.key);
                if u {
                    let under = Some(st.lit.clone());
                    ParseState { mode: ParseMode::AfterVal, under, ..st }
                } else {
                    ParseState { mode: ParseMode::AfterVal, ..st }
                }
            } else if c == '\\' {
                let mut lit = st.lit;
                lit.push(c);
                ParseState { mode: ParseMode::InLit { esc: true }, lit, ..st }
            } else {
                let mut lit = st.lit;
                lit.push(c);
                ParseState { lit, ..st }
            }
        },
        ParseMode::AfterVal => {
            if is_ws(c) {
                st
            } else if c == ',' {
                ParseState { mode: ParseMode::BeforeKey, ..st }
            } else {
                ParseState {
                    mode: ParseMode::Failed { kind: GenErrorKind::MalformedAnnotation },
                    ..st
                }
            }
        },
        ParseMode::InBare => {
            if st.depth == 0 && c == ',' {
                ParseState { mode: ParseMode::BeforeKey, ..st }
            } else if is_open(c) {
                let depth = st.depth + 1;
                ParseState { depth, ..st }
            } else if is_close(c) {
                if st.depth == 0 {
                    ParseState {
                        mode: ParseMode::Failed { kind: GenErrorKind::MalformedAnnotation },
                        ..st
                    }
                } else {
                    let depth = st.depth - 1;
                    ParseState { depth, ..st }
                }
            } else if c == '"' {
                ParseState { mode: ParseMode::InBareStr { esc: false }, ..st }
            } else {
                st
            }
        },
        ParseMode::InBareStr { esc } => {
            if esc {
                ParseState { mode: ParseMode::InBareStr { esc: false }, ..st }
            } else if c == '"' {
                ParseState { mode: ParseMode::InBare, ..st }
            } else if c == '\\' {
                ParseState { mode: ParseMode::InBareStr { esc: true }, ..st }
            } else {
                st
            }
        },
        ParseMode::Failed { .. } => st,
    }
}

/// Parse one declaration's annotation payload into an export configuration,
/// or fail with the error the payload is rejected with; a generated error
/// names the annotated declaration.
pub fn parse_export_config(payload: &str, decl_name: &str) -> (r: Result<ExportConfig, GenError>)
    ensures
        r is Ok <==> spec_ann_error(payload@) is None,
        r matches Ok(c) ==> c@ == spec_ann_under(payload@),
        r matches Err(e) ==> Some(e.kind) == spec_ann_error(payload@) && e.decl@ == decl_name@,
{
    let chars = str_to_chars(payload);
    let mut st = ParseState {
        mode: ParseMode::BeforeKey,
        key: Vec::new(),
        lit: Vec::new(),
        depth: 0,
        under: None,
    };
    assert(st@ =~= spec_init());
    let mut i: usize = 0;
    while i < chars.len()
        invariant
            i <= chars.len(),
            chars@ == payload@,
            st@.depth <= i,
            spec_run(chars@, i as int, st@) == spec_parse_final(payload@),
        decreases chars.len() - i,
    {
        let c = chars[i];
        st = step(st, c);
        i = i + 1;
    }
    let fin: ParseState = st;
    assert(fin@ == spec_parse_final(payload@));
    let failed_kind: Option<GenErrorKind> = match &fin.mode {
        ParseMode::Failed { kind } => Some(*kind),
        ParseMode::BeforeKey => None,
        ParseMode::AfterVal => None,
        ParseMode::InBare => if fin.depth == 0 {
            None
        } else {
            Some(GenErrorKind::MalformedAnnotation)
        },
        _ => Some(GenErrorKind::MalformedAnnotation),
    };
    match failed_kind {
        Some(kind) => Err(GenError { kind, decl: decl_name.to_owned() }),
        None => {
            let under: Option<String> = match &fin.under {
                Some(v) => Some(chars_to_string(v)),
                None => None,
            };
            Ok(ExportConfig { under })
        },
    }
}

} // verus!
