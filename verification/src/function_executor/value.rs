//! The runtime value model: a tagged scalar union with checked accessors.

use vstd::prelude::*;

use crate::function_executor::function_error::{FunctionError, SpecFunctionError};
use crate::text::{i128_to_dec, spec_idec, spec_udec, u128_to_dec};

verus! {

/// The shape of a runtime value.
#[verifier::ext_equal]
pub enum SpecValue {
    String(Seq<char>),
    Bool(bool),
    Bytes(Seq<u8>),
    Char(char),
    Option(Option<Box<SpecValue>>),
    UInt(u128),
    Int(i128),
    /// A 64-bit floating-point value, carried as its IEEE-754 bit pattern.
    Float(u64),
}

/// The value resolved from a field or returned by a function.
///
/// A value converts to output text as follows: `String`, `Char`, `UInt`
/// and `Int` stringify directly; `Bytes` decodes as UTF-8 or fails; for
/// `Bool`, `Option` and `Float` the conversion is refused, and a function
/// such as `bool:to_string` or `string:unwrap_or` must come first.
pub enum Value {
    /// A string.
    String(String),
    /// A boolean.
    Bool(bool),
    /// A byte sequence.
    Bytes(Vec<u8>),
    /// A single character.
    Char(char),
    /// A value that may be absent; may nest.
    Option(Option<Box<Value>>),
    /// An unsigned 128-bit integer.
    UInt(u128),
    /// A signed 128-bit integer.
    Int(i128),
    /// A 64-bit floating-point value, carried as its IEEE-754 bit pattern;
    /// the engine itself never interprets the bits.
    Float(u64),
}

impl View for Value {
    type V = SpecValue;

    open spec fn view(&self) -> SpecValue
        decreases self,
    {
        match self {
            Value::String(s) => SpecValue::String(s@),
            Value::Bool(b) => SpecValue::Bool(*b),
            Value::Bytes(bs) => SpecValue::Bytes(bs@),
            Value::Char(c) => SpecValue::Char(*c),
            Value::Option(o) => SpecValue::Option(
                match o {
                    Some(inner) => Some(Box::new((**inner)@)),
                    None => None,
                },
            ),
            Value::UInt(n) => SpecValue::UInt(*n),
            Value::Int(n) => SpecValue::Int(*n),
            Value::Float(bits) => SpecValue::Float(*bits),
        }
    }
}

// ---------------------------------------------------------------------------
// The debug text of a value, as cast errors embed it.
// ---------------------------------------------------------------------------

/// One string character in debug form: quote, backslash and the common
/// control characters are escaped, everything else stands for itself.
pub open spec fn spec_escaped_char(c: char) -> Seq<char> {
    if c == '"' {
        seq!['\\', '"']
    } else if c == '\\' {
        seq!['\\', '\\']
    } else if c == '\n' {
        seq!['\\', 'n']
    } else if c == '\r' {
        seq!['\\', 'r']
    } else if c == '\t' {
        seq!['\\', 't']
    } else {
        seq![c]
    }
}

/// One character in single-quoted debug form.
pub open spec fn spec_escaped_char_sq(c: char) -> Seq<char> {
    if c == '\'' {
        seq!['\\', '\'']
    } else if c == '\\' {
        seq!['\\', '\\']
    } else if c == '\n' {
        seq!['\\', 'n']
    } else if c == '\r' {
        seq!['\\', 'r']
    } else if c == '\t' {
        seq!['\\', 't']
    } else {
        seq![c]
    }
}

/// A string's characters in debug form.
pub open spec fn spec_escaped(s: Seq<char>) -> Seq<char>
    decreases s.len(),
{
    if s.len() == 0 {
        Seq::empty()
    } else {
        spec_escaped_char(s[0]) + spec_escaped(s.skip(1))
    }
}

/// Bytes as a bracketless decimal list, comma-and-space separated.
pub open spec fn spec_bytes_list(bs: Seq<u8>) -> Seq<char>
    decreases bs.len(),
{
    if bs.len() == 0 {
        Seq::empty()
    } else if bs.len() == 1 {
        spec_udec(bs[0] as nat)
    } else {
        spec_udec(bs[0] as nat) + seq![',', ' '] + spec_bytes_list(bs.skip(1))
    }
}

/// The debug text of a value: its tag and its content, as the cast errors
/// embed it.  A float's bits are not interpreted, so its content is
/// elided.
pub open spec fn spec_value_debug(v: SpecValue) -> Seq<char>
    decreases v,
{
    match v {
        SpecValue::String(s) => "String(\""@ + spec_escaped(s) + "\")"@,
        SpecValue::Bool(b) => if b {
            "Bool(true)"@
        } else {
            "Bool(false)"@
        },
        SpecValue::Bytes(bs) => "Bytes(["@ + spec_bytes_list(bs) + "])"@,
        SpecValue::Char(c) => "Char('"@ + spec_escaped_char_sq(c) + "')"@,
        SpecValue::Option(o) => match o {
            Some(inner) => "Option(Some("@ + spec_value_debug(*inner) + "))"@,
            None => "Option(None)"@,
        },
        SpecValue::UInt(n) => "UInt("@ + spec_udec(n as nat) + ")"@,
        SpecValue::Int(n) => "Int("@ + spec_idec(n as int) + ")"@,
        SpecValue::Float(bits) => "Float(..)"@,
    }
}

/// The report of a failed cast: the value's debug text and the requested
/// type's name.
pub open spec fn spec_cast_error(v: SpecValue, requested: Seq<char>) -> SpecFunctionError {
    SpecFunctionError {
        display: "Trying to cast "@ + spec_value_debug(v) + " as "@ + requested,
        debug: "Trying to cast "@ + spec_value_debug(v) + " as "@ + requested,
    }
}

fn push_escaped_char(out: &mut String, c: char)
    ensures
        final(out)@ == old(out)@ + spec_escaped_char(c),
{
    if c == '"' {
        out.push_str("\\\"");
        proof {
            reveal_strlit("\\\"");
            assert("\\\""@ =~= seq!['\\', '"']);
        }
    } else if c == '\\' {
        out.push_str("\\\\");
        proof {
            reveal_strlit("\\\\");
            assert("\\\\"@ =~= seq!['\\', '\\']);
        }
    } else if c == '\n' {
        out.push_str("\\n");
        proof {
            reveal_strlit("\\n");
            assert("\\n"@ =~= seq!['\\', 'n']);
        }
    } else if c == '\r' {
        out.push_str("\\r");
        proof {
            reveal_strlit("\\r");
            assert("\\r"@ =~= seq!['\\', 'r']);
        }
    } else if c == '\t' {
        out.push_str("\\t");
        proof {
            reveal_strlit("\\t");
            assert("\\t"@ =~= seq!['\\', 't']);
        }
    } else {
        out.push(c);
        proof {
            assert(old(out)@.push(c) =~= old(out)@ + seq![c]);
        }
    }
}

fn push_escaped_char_sq(out: &mut String, c: char)
    ensures
        final(out)@ == old(out)@ + spec_escaped_char_sq(c),
{
    if c == '\'' {
        out.push_str("\\'");
        proof {
            reveal_strlit("\\'");
            assert("\\'"@ =~= seq!['\\', '\'']);
        }
    } else if c == '\\' {
        out.push_str("\\\\");
        proof {
            reveal_strlit("\\\\");
            assert("\\\\"@ =~= seq!['\\', '\\']);
        }
    } else if c == '\n' {
        out.push_str("\\n");
        proof {
            reveal_strlit("\\n");
            assert("\\n"@ =~= seq!['\\', 'n']);
        }
    } else if c == '\r' {
        out.push_str("\\r");
        proof {
            reveal_strlit("\\r");
            assert("\\r"@ =~= seq!['\\', 'r']);
        }
    } else if c == '\t' {
        out.push_str("\\t");
        proof {
            reveal_strlit("\\t");
            assert("\\t"@ =~= seq!['\\', 't']);
        }
    } else {
        out.push(c);
        proof {
            assert(old(out)@.push(c) =~= old(out)@ + seq![c]);
        }
    }
}

fn push_escaped(out: &mut String, s: &String)
    ensures
        final(out)@ == old(out)@ + spec_escaped(s@),
{
    let chars = crate::text::string_to_chars(s.as_str());
    let mut i: usize = 0;
    while i < chars.len()
        invariant
            0 <= i <= chars@.len(),
            chars@ == s@,
            out@ == old(out)@ + spec_escaped(s@.subrange(0, i as int)),
        decreases chars@.len() - i,
    {
        push_escaped_char(out, chars[i]);
        i = i + 1;
        proof {
            lemma_escaped_snoc(s@.subrange(0, i as int));
            assert(s@.subrange(0, i as int).drop_last() =~= s@.subrange(0, i - 1));
            assert(s@.subrange(0, i as int).last() == s@[i - 1]);
        }
    }
    proof {
        assert(s@.subrange(0, s@.len() as int) =~= s@);
    }
}

/// Escaping one more character appends that character's escape.
proof fn lemma_escaped_snoc(s: Seq<char>)
    requires
        s.len() > 0,
    ensures
        spec_escaped(s) == spec_escaped(s.drop_last()) + spec_escaped_char(s.last()),
    decreases s.len(),
{
    if s.len() == 1 {
        assert(s.drop_last() =~= Seq::<char>::empty());
        assert(s.skip(1) =~= Seq::<char>::empty());
        assert(spec_escaped(s.drop_last()) + spec_escaped_char(s.last()) =~= spec_escaped_char(
            s[0],
        ));
        assert(spec_escaped(s) =~= spec_escaped_char(s[0]));
    } else {
        lemma_escaped_snoc(s.skip(1));
        assert(s.skip(1).drop_last() =~= s.drop_last().skip(1));
        assert(s.skip(1).last() == s.last());
        assert(s.drop_last()[0] == s[0]);
        assert(s.drop_last().len() > 0);
        assert(spec_escaped(s.drop_last()) == spec_escaped_char(s[0]) + spec_escaped(
            s.drop_last().skip(1),
        ));
        assert(spec_escaped_char(s[0]) + (spec_escaped(s.skip(1).drop_last())
            + spec_escaped_char(s.last())) =~= (spec_escaped_char(s[0]) + spec_escaped(
            s.drop_last().skip(1),
        )) + spec_escaped_char(s.last()));
    }
}

/// Appending one more byte appends its decimal and a separator.
proof fn lemma_bytes_list_snoc(bs: Seq<u8>)
    requires
        bs.len() > 1,
    ensures
        spec_bytes_list(bs) == spec_bytes_list(bs.drop_last()) + seq![',', ' '] + spec_udec(
            bs.last() as nat,
        ),
    decreases bs.len(),
{
    if bs.len() == 2 {
        assert(bs.skip(1) =~= seq![bs[1]]);
        assert(bs.drop_last() =~= seq![bs[0]]);
        assert(spec_bytes_list(seq![bs[1]]) == spec_udec(bs[1] as nat));
        assert(spec_bytes_list(seq![bs[0]]) == spec_udec(bs[0] as nat));
        assert(spec_bytes_list(bs) =~= spec_bytes_list(bs.drop_last()) + seq![',', ' ']
            + spec_udec(bs.last() as nat));
    } else {
        lemma_bytes_list_snoc(bs.skip(1));
        assert(bs.skip(1).drop_last() =~= bs.drop_last().skip(1));
        assert(bs.skip(1).last() == bs.last());
        assert(bs.drop_last()[0] == bs[0]);
        assert(bs.drop_last().len() > 1);
        assert(spec_bytes_list(bs.drop_last()) == spec_udec(bs[0] as nat) + seq![',', ' ']
            + spec_bytes_list(bs.drop_last().skip(1)));
        assert((spec_udec(bs[0] as nat) + seq![',', ' ']) + (spec_bytes_list(bs.skip(1).drop_last())
            + seq![',', ' '] + spec_udec(bs.last() as nat)) =~= ((spec_udec(bs[0] as nat) + seq![
            ',',
            ' ',
        ]) + spec_bytes_list(bs.drop_last().skip(1))) + seq![',', ' '] + spec_udec(
            bs.last() as nat,
        ));
        assert(spec_bytes_list(bs) =~= spec_udec(bs[0] as nat) + seq![',', ' ']
            + spec_bytes_list(bs.skip(1)));
        assert(spec_udec(bs[0] as nat) + seq![',', ' '] + (spec_bytes_list(bs.skip(1).drop_last())
            + seq![',', ' '] + spec_udec(bs.last() as nat)) =~= (spec_udec(bs[0] as nat) + seq![
            ',',
            ' ',
        ] + spec_bytes_list(bs.drop_last().skip(1))) + seq![',', ' '] + spec_udec(
            bs.last() as nat,
        ));
    }
}

fn push_bytes_list(out: &mut String, bs: &Vec<u8>)
    ensures
        final(out)@ == old(out)@ + spec_bytes_list(bs@),
{
    if bs.len() == 0 {
        proof {
            assert(old(out)@ + spec_bytes_list(bs@) =~= old(out)@);
        }
        return ;
    }
    let first = u128_to_dec(bs[0] as u128);
    out.push_str(first.as_str());
    let mut i: usize = 1;
    while i < bs.len()
        invariant
            1 <= i <= bs@.len(),
            out@ == old(out)@ + spec_bytes_list(bs@.subrange(0, i as int)),
        decreases bs@.len() - i,
    {
        out.push_str(", ");
        let piece = u128_to_dec(bs[i] as u128);
        out.push_str(piece.as_str());
        i = i + 1;
        proof {
            reveal_strlit(", ");
            assert(", "@ =~= seq![',', ' ']);
            lemma_bytes_list_snoc(bs@.subrange(0, i as int));
            assert(bs@.subrange(0, i as int).drop_last() =~= bs@.subrange(0, i - 1));
            assert(bs@.subrange(0, i as int).last() == bs@[i - 1]);
        }
    }
    proof {
        assert(bs@.subrange(0, 1int) =~= seq![bs@[0]]);
        assert(spec_bytes_list(seq![bs@[0]]) == spec_udec(bs@[0] as nat));
        assert(bs@.subrange(0, bs@.len() as int) =~= bs@);
    }
}

fn push_value_debug(out: &mut String, v: &Value)
    ensures
        final(out)@ == old(out)@ + spec_value_debug(v@),
    decreases v,
{
    match v {
        Value::String(s) => {
            out.push_str("String(\"");
            push_escaped(out, s);
            out.push_str("\")");
        },
        Value::Bool(b) => {
            if *b {
                out.push_str("Bool(true)");
            } else {
                out.push_str("Bool(false)");
            }
        },
        Value::Bytes(bs) => {
            out.push_str("Bytes([");
            push_bytes_list(out, bs);
            out.push_str("])");
        },
        Value::Char(c) => {
            out.push_str("Char('");
            push_escaped_char_sq(out, *c);
            out.push_str("')");
        },
        Value::Option(o) => {
            match o {
                Some(inner) => {
                    out.push_str("Option(Some(");
                    push_value_debug(out, inner);
                    out.push_str("))");
                },
                None => {
                    out.push_str("Option(None)");
                },
            }
        },
        Value::UInt(n) => {
            out.push_str("UInt(");
            let text = u128_to_dec(*n);
            out.push_str(text.as_str());
            out.push_str(")");
        },
        Value::Int(n) => {
            out.push_str("Int(");
            let text = i128_to_dec(*n);
            out.push_str(text.as_str());
            out.push_str(")");
        },
        Value::Float(bits) => {
            out.push_str("Float(..)");
        },
    }
}

impl Value {
    /// The value's debug text: its tag and its content.
    pub fn debug_string(&self) -> (r: String)
        ensures
            r@ == spec_value_debug(self@),
    {
        let mut out = String::new();
        push_value_debug(&mut out, self);
        out
    }

    fn cast_error(&self, requested: &str) -> (r: FunctionError)
        ensures
            r@ == spec_cast_error(self@, requested@),
    {
        let mut m = String::new();
        m.push_str("Trying to cast ");
        push_value_debug(&mut m, self);
        m.push_str(" as ");
        m.push_str(requested);
        FunctionError::msg(m)
    }

    /// The string inside, or a cast error naming this value and `string`.
    pub fn as_string(&self) -> (r: Result<&String, FunctionError>)
        ensures
            match r {
                Ok(v) => self@ == SpecValue::String(v@),
                Err(e) => !(self@ is String) && e@ == spec_cast_error(self@, "string"@),
            },
    {
        if let Value::String(ref value) = self {
            return Ok(value);
        }
        Err(self.cast_error("string"))
    }

    /// The string inside, owned, or a cast error.
    pub fn into_string(self) -> (r: Result<String, FunctionError>)
        ensures
            match r {
                Ok(v) => self@ == SpecValue::String(v@),
                Err(e) => !(self@ is String) && e@ == spec_cast_error(self@, "string"@),
            },
    {
        if let Value::String(value) = self {
            return Ok(value);
        }
        Err(self.cast_error("string"))
    }

    /// The boolean inside, or a cast error naming this value and `bool`.
    pub fn as_bool(&self) -> (r: Result<&bool, FunctionError>)
        ensures
            match r {
                Ok(v) => self@ == SpecValue::Bool(*v),
                Err(e) => !(self@ is Bool) && e@ == spec_cast_error(self@, "bool"@),
            },
    {
        if let Value::Bool(ref value) = self {
            return Ok(value);
        }
        Err(self.cast_error("bool"))
    }

    /// The boolean inside, owned, or a cast error.
    pub fn into_bool(self) -> (r: Result<bool, FunctionError>)
        ensures
            match r {
                Ok(v) => self@ == SpecValue::Bool(v),
                Err(e) => !(self@ is Bool) && e@ == spec_cast_error(self@, "bool"@),
            },
    {
        if let Value::Bool(value) = self {
            return Ok(value);
        }
        Err(self.cast_error("bool"))
    }

    /// The bytes inside, or a cast error naming this value and `bytes`.
    pub fn as_bytes(&self) -> (r: Result<&Vec<u8>, FunctionError>)
        ensures
            match r {
                Ok(v) => self@ == SpecValue::Bytes(v@),
                Err(e) => !(self@ is Bytes) && e@ == spec_cast_error(self@, "bytes"@),
            },
    {
        if let Value::Bytes(ref value) = self {
            return Ok(value);
        }
        Err(self.cast_error("bytes"))
    }

    /// The bytes inside, owned, or a cast error.
    pub fn into_bytes(self) -> (r: Result<Vec<u8>, FunctionError>)
        ensures
            match r {
                Ok(v) => self@ == SpecValue::Bytes(v@),
                Err(e) => !(self@ is Bytes) && e@ == spec_cast_error(self@, "bytes"@),
            },
    {
        if let Value::Bytes(value) = self {
            return Ok(value);
        }
        Err(self.cast_error("bytes"))
    }

    /// The character inside, or a cast error naming this value and `char`.
    pub fn as_char(&self) -> (r: Result<&char, FunctionError>)
        ensures
            match r {
                Ok(v) => self@ == SpecValue::Char(*v),
                Err(e) => !(self@ is Char) && e@ == spec_cast_error(self@, "char"@),
            },
    {
        if let Value::Char(ref value) = self {
            return Ok(value);
        }
        Err(self.cast_error("char"))
    }

    /// One level of the option inside, or a cast error naming this value
    /// and `option`.
    pub fn as_option(&self) -> (r: Result<Option<&Value>, FunctionError>)
        ensures
            match r {
                Ok(v) => match v {
                    Some(inner) => self@ == SpecValue::Option(Some(Box::new(inner@))),
                    None => self@ == SpecValue::Option(None::<Box<SpecValue>>),
                },
                Err(e) => !(self@ is Option) && e@ == spec_cast_error(self@, "option"@),
            },
    {
        if let Value::Option(ref value) = self {
            let inner = match value {
                Some(b) => Some(&**b),
                None => None,
            };
            return Ok(inner);
        }
        Err(self.cast_error("option"))
    }

    /// One level of the option inside, owned, or a cast error.
    pub fn into_option(self) -> (r: Result<Option<Value>, FunctionError>)
        ensures
            match r {
                Ok(v) => match v {
                    Some(inner) => self@ == SpecValue::Option(Some(Box::new(inner@))),
                    None => self@ == SpecValue::Option(None::<Box<SpecValue>>),
                },
                Err(e) => !(self@ is Option) && e@ == spec_cast_error(self@, "option"@),
            },
    {
        match self {
            Value::Option(value) => {
                let inner = match value {
                    Some(b) => Some(*b),
                    None => None,
                };
                Ok(inner)
            },
            other => {
                let e = other.cast_error("option");
                Err(e)
            },
        }
    }

    /// The unsigned integer inside, or a cast error naming this value and
    /// `uint`.
    pub fn as_uint(&self) -> (r: Result<&u128, FunctionError>)
        ensures
            match r {
                Ok(v) => self@ == SpecValue::UInt(*v),
                Err(e) => !(self@ is UInt) && e@ == spec_cast_error(self@, "uint"@),
            },
    {
        if let Value::UInt(ref value) = self {
            return Ok(value);
        }
        Err(self.cast_error("uint"))
    }

    /// The unsigned integer inside, owned, or a cast error.
    pub fn into_uint(self) -> (r: Result<u128, FunctionError>)
        ensures
            match r {
                Ok(v) => self@ == SpecValue::UInt(v),
                Err(e) => !(self@ is UInt) && e@ == spec_cast_error(self@, "uint"@),
            },
    {
        if let Value::UInt(value) = self {
            return Ok(value);
        }
        Err(self.cast_error("uint"))
    }

    /// The signed integer inside, or a cast error naming this value and
    /// `int`.
    pub fn as_int(&self) -> (r: Result<&i128, FunctionError>)
        ensures
            match r {
                Ok(v) => self@ == SpecValue::Int(*v),
                Err(e) => !(self@ is Int) && e@ == spec_cast_error(self@, "int"@),
            },
    {
        if let Value::Int(ref value) = self {
            return Ok(value);
        }
        Err(self.cast_error("int"))
    }

    /// The signed integer inside, owned, or a cast error.
    pub fn into_int(self) -> (r: Result<i128, FunctionError>)
        ensures
            match r {
                Ok(v) => self@ == SpecValue::Int(v),
                Err(e) => !(self@ is Int) && e@ == spec_cast_error(self@, "int"@),
            },
    {
        if let Value::Int(value) = self {
            return Ok(value);
        }
        Err(self.cast_error("int"))
    }

    /// The float's bit pattern, or a cast error naming this value and
    /// `float`.
    pub fn as_float(&self) -> (r: Result<&u64, FunctionError>)
        ensures
            match r {
                Ok(v) => self@ == SpecValue::Float(*v),
                Err(e) => !(self@ is Float) && e@ == spec_cast_error(self@, "float"@),
            },
    {
        if let Value::Float(ref value) = self {
            return Ok(value);
        }
        Err(self.cast_error("float"))
    }
}

} // verus!
