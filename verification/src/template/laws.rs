//! Properties that hold of every template, stated and proved once.

use vstd::prelude::*;

use crate::document::{spec_resolve, Document};
use crate::function_executor::function_executor::FunctionExecutor;
use crate::template::syntax::field_path::spec_path_display;
use crate::template::syntax::grammar::{spec_parse_syntax, SpecParseError, SpecToken};
use crate::template::template::{
    spec_convert_document, spec_execute_function, spec_render_tokens, spec_run_pipeline,
    spec_value_to_string, Template,
};
use crate::template::template_builder::{
    lemma_validate_calls_ok, lemma_validate_tokens_ok, spec_validate_call, spec_validate_calls,
    spec_validate_tokens,
};
use crate::template::template_error::SpecTemplateError;

verus! {

// ---------------------------------------------------------------------------
// A template without pipelines is literal substitution.
// ---------------------------------------------------------------------------

/// Whether no expression of the token sequence carries a function call.
pub open spec fn spec_no_pipeline(tokens: Seq<SpecToken>) -> bool {
    forall|k: int|
        0 <= k < tokens.len() ==> (#[trigger] tokens[k] matches SpecToken::Expression(fr)
            ==> fr.calls.len() == 0)
}

/// What a token sequence renders to when no functions take part: literal
/// text verbatim, and each path replaced by the canonical text of the
/// scalar it resolves to.
pub open spec fn spec_literal_render(tokens: Seq<SpecToken>, doc: Document) -> Result<
    Seq<char>,
    SpecTemplateError,
>
    decreases tokens.len(),
{
    if tokens.len() == 0 {
        Ok(Seq::empty())
    } else {
        let head = match tokens[0] {
            SpecToken::Text(s) => Ok(s),
            SpecToken::Expression(fr) => match spec_convert_document(
                spec_resolve(doc, fr.path),
                spec_path_display(fr.path),
            ) {
                Ok(v) => spec_value_to_string(v),
                Err(e) => Err(e),
            },
        };
        match head {
            Ok(s) => match spec_literal_render(tokens.skip(1), doc) {
                Ok(rest) => Ok(s + rest),
                Err(e) => Err(e),
            },
            Err(e) => Err(e),
        }
    }
}

/// For a template with no function pipeline, the output is the literal
/// text with each path replaced by the canonical form of the scalar it
/// resolves to — whatever functions are registered.
pub proof fn lemma_no_pipeline_render_is_literal<E: FunctionExecutor>(
    functions: Seq<(String, E)>,
    tokens: Seq<SpecToken>,
    doc: Document,
)
    requires
        spec_no_pipeline(tokens),
    ensures
        spec_render_tokens(functions, tokens, doc) == spec_literal_render(tokens, doc),
    decreases tokens.len(),
{
    if tokens.len() > 0 {
        assert(tokens[0] matches SpecToken::Expression(fr) ==> fr.calls.len() == 0);
        assert forall|k: int|
            0 <= k < tokens.skip(1).len() implies (#[trigger] tokens.skip(1)[k] matches
            SpecToken::Expression(fr) ==> fr.calls.len() == 0) by {
            assert(tokens.skip(1)[k] == tokens[k + 1]);
        }
        lemma_no_pipeline_render_is_literal(functions, tokens.skip(1), doc);
    }
}

/// The template-level form: rendering a template whose expressions carry
/// no calls is literal substitution.
pub proof fn lemma_template_literal_render<E: FunctionExecutor>(t: Template<E>, doc: Document)
    requires
        spec_no_pipeline(t.spec_syntax()),
    ensures
        t.spec_render(doc) == spec_literal_render(t.spec_syntax(), doc),
{
    lemma_no_pipeline_render_is_literal(t.spec_functions(), t.spec_syntax(), doc);
}

// ---------------------------------------------------------------------------
// Building and rendering are deterministic.
// ---------------------------------------------------------------------------

/// Identical format text yields structurally equal templates, and equal
/// templates render equal documents to equal output.
pub proof fn lemma_render_deterministic<E: FunctionExecutor>(
    t1: Template<E>,
    t2: Template<E>,
    text: Seq<char>,
    doc: Document,
)
    requires
        spec_parse_syntax(text) == Ok::<_, SpecParseError>(t1.spec_syntax()),
        spec_parse_syntax(text) == Ok::<_, SpecParseError>(t2.spec_syntax()),
        t1.spec_functions() == t2.spec_functions(),
    ensures
        t1.spec_syntax() == t2.spec_syntax(),
        t1.spec_render(doc) == t2.spec_render(doc),
{
}

// ---------------------------------------------------------------------------
// Name errors are a build-time matter, never a render-time one.
// ---------------------------------------------------------------------------

/// Running one validated call never misses its function.
pub proof fn lemma_execute_validated_call_found<E: FunctionExecutor>(
    functions: Seq<(String, E)>,
    call: crate::template::syntax::grammar::SpecCall,
    input: crate::function_executor::value::SpecValue,
)
    requires
        spec_validate_call(functions, call) is Ok,
    ensures
        spec_execute_function(functions, call, input) matches Err(e) ==> !(e is FunctionNotFound),
{
}

/// Running a validated pipeline never misses a function.
pub proof fn lemma_pipeline_validated_found<E: FunctionExecutor>(
    functions: Seq<(String, E)>,
    calls: Seq<crate::template::syntax::grammar::SpecCall>,
    input: crate::function_executor::value::SpecValue,
)
    requires
        spec_validate_calls(functions, calls) is Ok,
    ensures
        spec_run_pipeline(functions, calls, input) matches Err(e) ==> !(e is FunctionNotFound),
    decreases calls.len(),
{
    if calls.len() > 0 {
        lemma_validate_calls_ok(functions, calls);
        lemma_execute_validated_call_found(functions, calls[0], input);
        match spec_execute_function(functions, calls[0], input) {
            Ok(v) => {
                assert forall|j: int|
                    0 <= j < calls.skip(1).len() implies spec_validate_call(
                    functions,
                    #[trigger] calls.skip(1)[j],
                ) is Ok by {
                    assert(calls.skip(1)[j] == calls[j + 1]);
                }
                lemma_pipeline_validated_found(functions, calls.skip(1), v);
            },
            Err(e) => {},
        }
    }
}

/// Converting a resolved node reports path shapes, never a missing
/// function.
proof fn lemma_convert_never_misses_function(doc: Document, path: Seq<char>)
    ensures
        spec_convert_document(doc, path) matches Err(e) ==> !(e is FunctionNotFound),
    decreases doc,
{
    match doc {
        Document::Option(o) => match o {
            Some(inner) => {
                lemma_convert_never_misses_function(*inner, path);
            },
            None => {},
        },
        _ => {},
    }
}

/// Every name, arity and literal-type error of an embedded call is
/// caught when a template is built, so a validated token sequence never
/// fails a render for want of a function, whatever the document.
pub proof fn lemma_tokens_validated_found<E: FunctionExecutor>(
    functions: Seq<(String, E)>,
    tokens: Seq<SpecToken>,
    doc: Document,
)
    requires
        spec_validate_tokens(functions, tokens) is Ok,
    ensures
        spec_render_tokens(functions, tokens, doc) matches Err(e) ==> !(e is FunctionNotFound),
    decreases tokens.len(),
{
    if tokens.len() > 0 {
        lemma_validate_tokens_ok(functions, tokens);
        match tokens[0] {
            SpecToken::Text(s) => {},
            SpecToken::Expression(fr) => {
                let node = spec_resolve(doc, fr.path);
                lemma_convert_never_misses_function(node, spec_path_display(fr.path));
                match spec_convert_document(node, spec_path_display(fr.path)) {
                    Ok(v) => {
                        lemma_pipeline_validated_found(functions, fr.calls, v);
                    },
                    Err(e) => {},
                }
            },
        }
        lemma_tokens_validated_found(functions, tokens.skip(1), doc);
    }
}

} // verus!
