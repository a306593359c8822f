//! The template grammar, stated as specification functions.
//!
//! ```text
//! template   := (text | expr)*
//! expr       := '{' ws? 'self' path (ws? '|' ws? call)* ws? '}'
//! path       := ('.' segment)*
//! segment    := ident | uint_literal
//! ident      := [A-Za-z_][A-Za-z0-9_]*
//! call       := fname '(' ws? (arg (ws? ',' ws? arg)*)? ws? ')'
//! fname      := [A-Za-z_][A-Za-z0-9_:]*
//! arg        := quoted_string | 'true' | 'false'
//!             | ('-'? digits 'int') | (digits 'uint')
//! ```
//!
//! Every specification parser takes the remaining input and yields the
//! parsed item together with the input left over, or the exact error the
//! grammar assigns to the deviation.  The executable parsers elsewhere in
//! this module are proved to return precisely what these functions say.

use vstd::prelude::*;

use crate::text::{
    spec_is_digit, spec_scan, spec_parse_unsigned, spec_parse_signed, IntParseError,
    lemma_scan_bounds, ws_pred, digit_pred, ident_pred, fname_pred, number_pred, not_open_pred,
    spec_skip_ws, lemma_skip_ws_le, spec_starts_with,
};

verus! {

// ---------------------------------------------------------------------------
// The parsed shapes.
// ---------------------------------------------------------------------------

/// One path segment: a named field or an unsigned index.
pub enum SpecField {
    Named(Seq<char>),
    Index(int),
}

/// One literal argument of a function call.
pub enum SpecArg {
    String(Seq<char>),
    Bool(bool),
    UInt(u128),
    Int(i128),
}

/// One function call of a pipeline: a name and its literal arguments.
pub struct SpecCall {
    pub name: Seq<char>,
    pub args: Seq<SpecArg>,
}

/// One expression: a field path and its pipeline of calls.
pub struct SpecFieldRead {
    pub path: Seq<SpecField>,
    pub calls: Seq<SpecCall>,
}

/// One token of a parsed template.
pub enum SpecToken {
    Text(Seq<char>),
    Expression(SpecFieldRead),
}

/// What the grammar reports when the input deviates from it.
pub enum SpecParseError {
    /// A numeric span failed to read as an integer.
    ParseInt(IntParseError),
    /// A function name is missing or starts with a digit.
    WrongFunctionName,
    /// A field name is missing or starts with a digit.
    WrongFieldName,
    /// A fixed token was expected; carries the token and the remaining input.
    ExpectedToken(Seq<char>, Seq<char>),
    /// The remaining input fits no production.
    UnexpectedInput(Seq<char>),
    /// The whole template has no tokens at all.
    TemplateIsEmpty,
    /// An argument fits no literal shape; carries the consumed span and the
    /// remaining input.
    InvalidArgumentTemplate(Seq<char>, Seq<char>),
}

// ---------------------------------------------------------------------------
// Names and path segments.
// ---------------------------------------------------------------------------

/// A field identifier: not digit-led, at least one identifier character.
pub open spec fn spec_parse_field_name(s: Seq<char>) -> Result<(Seq<char>, Seq<char>), SpecParseError> {
    if s.len() > 0 && spec_is_digit(s[0]) {
        Err(SpecParseError::WrongFieldName)
    } else {
        let n: int = spec_scan(s, ident_pred());
        if n == 0 {
            Err(SpecParseError::WrongFieldName)
        } else {
            Ok((s.subrange(0, n), s.skip(n)))
        }
    }
}

pub proof fn lemma_parse_field_name_lt(s: Seq<char>)
    ensures
        spec_parse_field_name(s) matches Ok(p) ==> p.1.len() < s.len(),
{
    lemma_scan_bounds(s, ident_pred());
}

/// A path segment: a decimal index when digit-led, else an identifier.
pub open spec fn spec_parse_field(s: Seq<char>) -> Result<(SpecField, Seq<char>), SpecParseError> {
    if s.len() == 0 {
        Err(SpecParseError::WrongFieldName)
    } else if spec_is_digit(s[0]) {
        let n: int = spec_scan(s, digit_pred());
        match spec_parse_unsigned(s.subrange(0, n), usize::MAX as nat) {
            Ok(v) => Ok((SpecField::Index(v as int), s.skip(n))),
            Err(e) => Err(SpecParseError::ParseInt(e)),
        }
    } else {
        match spec_parse_field_name(s) {
            Ok((nm, r)) => Ok((SpecField::Named(nm), r)),
            Err(e) => Err(e),
        }
    }
}

pub proof fn lemma_parse_field_lt(s: Seq<char>)
    ensures
        spec_parse_field(s) matches Ok(p) ==> p.1.len() < s.len(),
{
    lemma_scan_bounds(s, digit_pred());
    lemma_parse_field_name_lt(s);
}

/// A field path: any number of `.`-introduced segments.
pub open spec fn spec_parse_path(s: Seq<char>) -> Result<(Seq<SpecField>, Seq<char>), SpecParseError>
    decreases s.len(),
        via check_spec_parse_path
{
    if s.len() > 0 && s[0] == '.' {
        match spec_parse_field(s.skip(1)) {
            Ok((f, r)) => match spec_parse_path(r) {
                Ok((fs, r2)) => Ok((seq![f] + fs, r2)),
                Err(e) => Err(e),
            },
            Err(e) => Err(e),
        }
    } else {
        Ok((seq![], s))
    }
}

#[via_fn]
proof fn check_spec_parse_path(s: Seq<char>) {
    if s.len() > 0 && s[0] == '.' {
        lemma_parse_field_lt(s.skip(1));
    }
}

pub proof fn lemma_parse_path_le(s: Seq<char>)
    ensures
        spec_parse_path(s) matches Ok(p) ==> p.1.len() <= s.len(),
    decreases s.len(),
{
    if s.len() > 0 && s[0] == '.' {
        lemma_parse_field_lt(s.skip(1));
        if let Ok((f, r)) = spec_parse_field(s.skip(1)) {
            lemma_parse_path_le(r);
        }
    }
}

/// A function name: not digit-led, at least one name character.
pub open spec fn spec_parse_function_name(s: Seq<char>) -> Result<(Seq<char>, Seq<char>), SpecParseError> {
    if s.len() > 0 && spec_is_digit(s[0]) {
        Err(SpecParseError::WrongFunctionName)
    } else {
        let n: int = spec_scan(s, fname_pred());
        if n == 0 {
            Err(SpecParseError::WrongFunctionName)
        } else {
            Ok((s.subrange(0, n), s.skip(n)))
        }
    }
}

pub proof fn lemma_parse_function_name_lt(s: Seq<char>)
    ensures
        spec_parse_function_name(s) matches Ok(p) ==> p.1.len() < s.len(),
{
    lemma_scan_bounds(s, fname_pred());
}

// ---------------------------------------------------------------------------
// Literal arguments.
// ---------------------------------------------------------------------------

/// The body of a quoted string, after the opening quote: characters up to
/// an unescaped closing quote, where `\'` stands for a literal quote and a
/// backslash before anything else stands for itself.  `None` when the
/// input ends before the string closes.
pub open spec fn spec_scan_quoted(t: Seq<char>) -> Option<(Seq<char>, Seq<char>)>
    decreases t.len(),
{
    if t.len() == 0 {
        None
    } else if t[0] == '\'' {
        Some((seq![], t.skip(1)))
    } else if t[0] == '\\' && t.len() >= 2 && t[1] == '\'' {
        match spec_scan_quoted(t.skip(2)) {
            Some((c, r)) => Some((seq!['\''] + c, r)),
            None => None,
        }
    } else {
        match spec_scan_quoted(t.skip(1)) {
            Some((c, r)) => Some((seq![t[0]] + c, r)),
            None => None,
        }
    }
}

pub proof fn lemma_scan_quoted_lt(t: Seq<char>)
    ensures
        spec_scan_quoted(t) matches Some(p) ==> p.1.len() < t.len(),
    decreases t.len(),
{
    if t.len() == 0 {
    } else if t[0] == '\'' {
    } else if t[0] == '\\' && t.len() >= 2 && t[1] == '\'' {
        lemma_scan_quoted_lt(t.skip(2));
    } else {
        lemma_scan_quoted_lt(t.skip(1));
    }
}

/// One literal argument: a quoted string, `true`, `false`, or a numeric
/// span with a mandatory `uint` or `int` suffix.
pub open spec fn spec_parse_argument(s: Seq<char>) -> Result<(SpecArg, Seq<char>), SpecParseError> {
    if s.len() > 0 && s[0] == '\'' {
        match spec_scan_quoted(s.skip(1)) {
            Some((content, r)) => Ok((SpecArg::String(content), r)),
            None => Err(SpecParseError::UnexpectedInput(s.skip(1))),
        }
    } else if spec_starts_with(s, seq!['t', 'r', 'u', 'e']) {
        Ok((SpecArg::Bool(true), s.skip(4)))
    } else if spec_starts_with(s, seq!['f', 'a', 'l', 's', 'e']) {
        Ok((SpecArg::Bool(false), s.skip(5)))
    } else {
        let n: int = spec_scan(s, number_pred());
        let num: Seq<char> = s.subrange(0, n);
        let rest: Seq<char> = s.skip(n);
        if spec_starts_with(rest, seq!['u', 'i', 'n', 't']) {
            match spec_parse_unsigned(num, u128::MAX as nat) {
                Ok(v) => Ok((SpecArg::UInt(v as u128), rest.skip(4))),
                Err(e) => Err(SpecParseError::ParseInt(e)),
            }
        } else if spec_starts_with(rest, seq!['i', 'n', 't']) {
            match spec_parse_signed(num) {
                Ok(v) => Ok((SpecArg::Int(v as i128), rest.skip(3))),
                Err(e) => Err(SpecParseError::ParseInt(e)),
            }
        } else {
            Err(SpecParseError::InvalidArgumentTemplate(num, rest))
        }
    }
}

pub proof fn lemma_parse_argument_lt(s: Seq<char>)
    ensures
        spec_parse_argument(s) matches Ok(p) ==> p.1.len() < s.len(),
{
    if s.len() > 0 && s[0] == '\'' {
        lemma_scan_quoted_lt(s.skip(1));
    }
    lemma_scan_bounds(s, number_pred());
}

// ---------------------------------------------------------------------------
// Function calls.
// ---------------------------------------------------------------------------

/// The argument list after the opening parenthesis, closing parenthesis
/// included; trailing whitespace after the close is consumed.
pub open spec fn spec_parse_args(s: Seq<char>) -> Result<(Seq<SpecArg>, Seq<char>), SpecParseError>
    decreases s.len(),
        via check_spec_parse_args
{
    let s1: Seq<char> = spec_skip_ws(s);
    if s1.len() > 0 && s1[0] == ')' {
        Ok((seq![], spec_skip_ws(s1.skip(1))))
    } else {
        match spec_parse_argument(s1) {
            Ok((a, s2)) => {
                let s3: Seq<char> = spec_skip_ws(s2);
                if s3.len() > 0 && s3[0] == ')' {
                    Ok((seq![a], spec_skip_ws(s3.skip(1))))
                } else if s3.len() > 0 && s3[0] == ',' {
                    match spec_parse_args(s3.skip(1)) {
                        Ok((more, r)) => Ok((seq![a] + more, r)),
                        Err(e) => Err(e),
                    }
                } else {
                    Err(SpecParseError::ExpectedToken(seq![','], s3))
                }
            },
            Err(e) => Err(e),
        }
    }
}

#[via_fn]
proof fn check_spec_parse_args(s: Seq<char>) {
    lemma_skip_ws_le(s);
    lemma_parse_argument_lt(spec_skip_ws(s));
    if let Ok((a, s2)) = spec_parse_argument(spec_skip_ws(s)) {
        lemma_skip_ws_le(s2);
    }
}

pub proof fn lemma_parse_args_le(s: Seq<char>)
    ensures
        spec_parse_args(s) matches Ok(p) ==> p.1.len() <= s.len(),
    decreases s.len(),
{
    let s1: Seq<char> = spec_skip_ws(s);
    lemma_skip_ws_le(s);
    if s1.len() > 0 && s1[0] == ')' {
        lemma_skip_ws_le(s1.skip(1));
    } else {
        lemma_parse_argument_lt(s1);
        if let Ok((a, s2)) = spec_parse_argument(s1) {
            let s3: Seq<char> = spec_skip_ws(s2);
            lemma_skip_ws_le(s2);
            if s3.len() > 0 && s3[0] == ')' {
                lemma_skip_ws_le(s3.skip(1));
            } else if s3.len() > 0 && s3[0] == ',' {
                lemma_parse_args_le(s3.skip(1));
            }
        }
    }
}

/// One pipeline stage: whitespace, a function name, whitespace, and the
/// parenthesised argument list.
pub open spec fn spec_parse_call(s: Seq<char>) -> Result<(SpecCall, Seq<char>), SpecParseError> {
    let s1: Seq<char> = spec_skip_ws(s);
    match spec_parse_function_name(s1) {
        Ok((name, s2)) => {
            let s3: Seq<char> = spec_skip_ws(s2);
            if s3.len() > 0 && s3[0] == '(' {
                match spec_parse_args(s3.skip(1)) {
                    Ok((args, r)) => Ok((SpecCall { name, args }, r)),
                    Err(e) => Err(e),
                }
            } else {
                Err(SpecParseError::ExpectedToken(seq!['('], s3))
            }
        },
        Err(e) => Err(e),
    }
}

pub proof fn lemma_parse_call_lt(s: Seq<char>)
    ensures
        spec_parse_call(s) matches Ok(p) ==> p.1.len() < s.len(),
{
    let s1: Seq<char> = spec_skip_ws(s);
    lemma_skip_ws_le(s);
    lemma_parse_function_name_lt(s1);
    if let Ok((name, s2)) = spec_parse_function_name(s1) {
        let s3: Seq<char> = spec_skip_ws(s2);
        lemma_skip_ws_le(s2);
        if s3.len() > 0 && s3[0] == '(' {
            lemma_parse_args_le(s3.skip(1));
        }
    }
}

/// The pipeline: any number of `|`-introduced calls.
pub open spec fn spec_parse_calls(s: Seq<char>) -> Result<(Seq<SpecCall>, Seq<char>), SpecParseError>
    decreases s.len(),
        via check_spec_parse_calls
{
    if s.len() > 0 && s[0] == '|' {
        match spec_parse_call(s.skip(1)) {
            Ok((c, r)) => match spec_parse_calls(r) {
                Ok((cs, r2)) => Ok((seq![c] + cs, r2)),
                Err(e) => Err(e),
            },
            Err(e) => Err(e),
        }
    } else {
        Ok((seq![], s))
    }
}

#[via_fn]
proof fn check_spec_parse_calls(s: Seq<char>) {
    if s.len() > 0 && s[0] == '|' {
        lemma_parse_call_lt(s.skip(1));
    }
}

pub proof fn lemma_parse_calls_le(s: Seq<char>)
    ensures
        spec_parse_calls(s) matches Ok(p) ==> p.1.len() <= s.len(),
    decreases s.len(),
{
    if s.len() > 0 && s[0] == '|' {
        lemma_parse_call_lt(s.skip(1));
        if let Ok((c, r)) = spec_parse_call(s.skip(1)) {
            lemma_parse_calls_le(r);
        }
    }
}

// ---------------------------------------------------------------------------
// Expressions and whole templates.
// ---------------------------------------------------------------------------

/// What follows `self` inside an expression: the path, the pipeline, and
/// the closing brace.
pub open spec fn spec_parse_field_read(s: Seq<char>) -> Result<(SpecFieldRead, Seq<char>), SpecParseError> {
    match spec_parse_path(s) {
        Ok((path, s2)) => {
            let s3: Seq<char> = spec_skip_ws(s2);
            match spec_parse_calls(s3) {
                Ok((calls, s4)) => {
                    let s5: Seq<char> = spec_skip_ws(s4);
                    if s5.len() > 0 && s5[0] == '}' {
                        Ok((SpecFieldRead { path, calls }, s5.skip(1)))
                    } else {
                        Err(SpecParseError::ExpectedToken(seq!['}'], s5))
                    }
                },
                Err(e) => Err(e),
            }
        },
        Err(e) => Err(e),
    }
}

pub proof fn lemma_parse_field_read_le(s: Seq<char>)
    ensures
        spec_parse_field_read(s) matches Ok(p) ==> p.1.len() <= s.len(),
{
    lemma_parse_path_le(s);
    if let Ok((path, s2)) = spec_parse_path(s) {
        let s3: Seq<char> = spec_skip_ws(s2);
        lemma_skip_ws_le(s2);
        lemma_parse_calls_le(s3);
        if let Ok((calls, s4)) = spec_parse_calls(s3) {
            lemma_skip_ws_le(s4);
        }
    }
}

/// One bracketed expression: `{`, optional whitespace, the word `self`,
/// then the field read.
pub open spec fn spec_parse_template_token(s: Seq<char>) -> Result<(SpecFieldRead, Seq<char>), SpecParseError> {
    if !(s.len() > 0 && s[0] == '{') {
        Err(SpecParseError::ExpectedToken(seq!['{'], s))
    } else {
        let s1: Seq<char> = spec_skip_ws(s.skip(1));
        if spec_starts_with(s1, seq!['s', 'e', 'l', 'f']) {
            spec_parse_field_read(s1.skip(4))
        } else {
            Err(SpecParseError::UnexpectedInput(s1))
        }
    }
}

pub proof fn lemma_parse_template_token_lt(s: Seq<char>)
    ensures
        spec_parse_template_token(s) matches Ok(p) ==> p.1.len() < s.len(),
{
    if s.len() > 0 && s[0] == '{' {
        let s1: Seq<char> = spec_skip_ws(s.skip(1));
        lemma_skip_ws_le(s.skip(1));
        if spec_starts_with(s1, seq!['s', 'e', 'l', 'f']) {
            lemma_parse_field_read_le(s1.skip(4));
        }
    }
}

/// The token sequence of the whole input: literal text up to each `{`,
/// then the expression it opens, until the input is exhausted.
pub open spec fn spec_parse_tokens(s: Seq<char>) -> Result<Seq<SpecToken>, SpecParseError>
    decreases s.len(),
        via check_spec_parse_tokens
{
    let n: int = spec_scan(s, not_open_pred());
    if n == s.len() {
        if s.len() > 0 {
            Ok(seq![SpecToken::Text(s)])
        } else {
            Ok(seq![])
        }
    } else {
        match spec_parse_template_token(s.skip(n)) {
            Ok((tt, r)) => match spec_parse_tokens(r) {
                Ok(ts) => Ok(
                    (if n > 0 {
                        seq![SpecToken::Text(s.subrange(0, n))]
                    } else {
                        Seq::<SpecToken>::empty()
                    }) + seq![SpecToken::Expression(tt)] + ts,
                ),
                Err(e) => Err(e),
            },
            Err(e) => Err(e),
        }
    }
}

#[via_fn]
proof fn check_spec_parse_tokens(s: Seq<char>) {
    lemma_scan_bounds(s, not_open_pred());
    let n: int = spec_scan(s, not_open_pred());
    if n != s.len() {
        lemma_parse_template_token_lt(s.skip(n));
    }
}

/// A whole template: its token sequence, which must not be empty.
pub open spec fn spec_parse_syntax(s: Seq<char>) -> Result<Seq<SpecToken>, SpecParseError> {
    match spec_parse_tokens(s) {
        Ok(ts) => if ts.len() == 0 {
            Err(SpecParseError::TemplateIsEmpty)
        } else {
            Ok(ts)
        },
        Err(e) => Err(e),
    }
}

} // verus!
