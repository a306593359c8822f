//! Conversion of a resolved tree node into a runtime value.

use vstd::prelude::*;

use crate::document::Document;
use crate::function_executor::value::{SpecValue, Value};
use crate::template::syntax::field_path::FieldPath;
use crate::template::template_error::{SpecTemplateError, TemplateError};

verus! {

/// Whether every element of a sequence node is an eight-bit number.
pub open spec fn spec_all_bytes(items: Seq<Document>) -> bool {
    forall|i: int| 0 <= i < items.len() ==> items[i] is Byte
}

/// The bytes of a sequence node whose elements are all eight-bit numbers.
pub open spec fn spec_bytes_of(items: Seq<Document>) -> Seq<u8> {
    Seq::new(items.len(), |i: int| items[i]->Byte_0)
}

/// The runtime value a resolved node converts to, or the error that stops
/// the render; `path` is the path's display text, which the errors carry.
///
/// Nothing and null resolve to a path-not-found report; scalars convert
/// to their tags, an eight-bit number widening to an unsigned value; a
/// sequence node converts to a byte string exactly when every element is
/// an eight-bit number; associative and other non-scalar shapes are
/// refused; an option node converts one level and recurs.
pub open spec fn spec_convert_document(doc: Document, path: Seq<char>) -> Result<
    SpecValue,
    SpecTemplateError,
>
    decreases doc,
{
    match doc {
        Document::Unassigned => Err(SpecTemplateError::PathNotFound(path)),
        Document::Null => Err(SpecTemplateError::PathNotFound(path)),
        Document::Bool(b) => Ok(SpecValue::Bool(b)),
        Document::Byte(b) => Ok(SpecValue::UInt(b as u128)),
        Document::UInt(n) => Ok(SpecValue::UInt(n)),
        Document::Int(n) => Ok(SpecValue::Int(n)),
        Document::Float(bits) => Ok(SpecValue::Float(bits)),
        Document::String(s) => Ok(SpecValue::String(s@)),
        Document::Char(c) => Ok(SpecValue::Char(c)),
        Document::Bytes(bs) => Ok(SpecValue::Bytes(bs@)),
        Document::Sequence(items) => if spec_all_bytes(items@) {
            Ok(SpecValue::Bytes(spec_bytes_of(items@)))
        } else {
            Err(SpecTemplateError::PathContainsSeq(path))
        },
        Document::Mapping(entries) => Err(SpecTemplateError::PathContainsMap(path)),
        Document::Option(o) => match o {
            Some(inner) => match spec_convert_document(*inner, path) {
                Ok(v) => Ok(SpecValue::Option(Some(Box::new(v)))),
                Err(e) => Err(e),
            },
            None => Ok(SpecValue::Option(None::<Box<SpecValue>>)),
        },
        Document::Newtype(inner) => Err(SpecTemplateError::PathContainsUnknownType(path)),
        Document::ErrorValue => Err(SpecTemplateError::PathContainsUnknownErrorType(path)),
        Document::Other => Err(SpecTemplateError::PathContainsUnknownType(path)),
    }
}

/// Converts the node a path resolved to into the runtime value that
/// enters the pipeline; on failure the error carries the path's text.
pub fn convert_document(document: &Document, path: &FieldPath) -> (r: Result<Value, TemplateError>)
    ensures
        match r {
            Ok(v) => spec_convert_document(*document, crate::template::syntax::field_path::spec_path_display(path@))
                == Ok::<_, SpecTemplateError>(v@),
            Err(e) => spec_convert_document(*document, crate::template::syntax::field_path::spec_path_display(path@))
                == Err::<SpecValue, _>(e@),
        },
    decreases *document,
{
    match document {
        Document::Unassigned => Err(TemplateError::PathNotFound(path.path_string())),
        Document::Null => Err(TemplateError::PathNotFound(path.path_string())),
        Document::Bool(b) => Ok(Value::Bool(*b)),
        Document::Byte(b) => Ok(Value::UInt(*b as u128)),
        Document::UInt(n) => Ok(Value::UInt(*n)),
        Document::Int(n) => Ok(Value::Int(*n)),
        Document::Float(bits) => Ok(Value::Float(*bits)),
        Document::String(s) => Ok(Value::String(s.clone())),
        Document::Char(c) => Ok(Value::Char(*c)),
        Document::Bytes(bs) => {
            let mut data: Vec<u8> = Vec::new();
            let mut i: usize = 0;
            while i < bs.len()
                invariant
                    0 <= i <= bs@.len(),
                    data@ == bs@.subrange(0, i as int),
                decreases bs@.len() - i,
            {
                data.push(bs[i]);
                i = i + 1;
                proof {
                    assert(bs@.subrange(0, i as int) =~= bs@.subrange(0, i - 1).push(bs@[i - 1]));
                }
            }
            proof {
                assert(bs@.subrange(0, bs@.len() as int) =~= bs@);
            }
            Ok(Value::Bytes(data))
        },
        Document::Sequence(items) => {
            let mut data: Vec<u8> = Vec::new();
            let mut i: usize = 0;
            while i < items.len()
                invariant
                    0 <= i <= items@.len(),
                    document is Sequence,
                    document->Sequence_0 == *items,
                    forall|j: int| 0 <= j < i ==> items@[j] is Byte,
                    data@.len() == i,
                    forall|j: int| 0 <= j < i ==> data@[j] == items@[j]->Byte_0,
                decreases items@.len() - i,
            {
                match &items[i] {
                    Document::Byte(b) => {
                        data.push(*b);
                    },
                    _ => {
                        return Err(TemplateError::PathContainsSeq(path.path_string()));
                    },
                }
                i = i + 1;
            }
            proof {
                assert(spec_all_bytes(items@));
                assert(data@ =~= spec_bytes_of(items@));
            }
            Ok(Value::Bytes(data))
        },
        Document::Mapping(entries) => Err(TemplateError::PathContainsMap(path.path_string())),
        Document::Option(o) => {
            match o {
                Some(inner) => match convert_document(inner, path) {
                    Ok(v) => Ok(Value::Option(Some(Box::new(v)))),
                    Err(e) => Err(e),
                },
                None => Ok(Value::Option(None)),
            }
        },
        Document::Newtype(inner) => Err(TemplateError::PathContainsUnknownType(path.path_string())),
        Document::ErrorValue => Err(
            TemplateError::PathContainsUnknownErrorType(path.path_string()),
        ),
        Document::Other => Err(TemplateError::PathContainsUnknownType(path.path_string())),
    }
}

} // verus!
