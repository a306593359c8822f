//! The built template and its render engine.

use vstd::prelude::*;

use crate::document::{spec_resolve, Document};
use crate::function_executor::function_executor::{spec_values_view, FunctionExecutor};
use crate::function_executor::value::{SpecValue, Value};
use crate::template::syntax::field_path::spec_path_display;
use crate::template::syntax::field_read_token::{spec_calls_view, FieldReadToken};
use crate::template::syntax::function_call_token::FunctionCallToken;
use crate::template::syntax::grammar::{SpecCall, SpecFieldRead, SpecToken};
use crate::template::syntax::syntax::Syntax;
use crate::template::syntax::token::Token;
use crate::template::template_error::{SpecTemplateError, TemplateError};

mod convert_document;
mod convert_function_argument;
mod convert_value_to_string;

pub use self::convert_document::convert_document;
pub use self::convert_document::spec_convert_document;
pub use self::convert_function_argument::convert_function_argument;
pub use self::convert_function_argument::{spec_arg_value, spec_arg_values};
pub use self::convert_value_to_string::convert_value_to_string;
pub use self::convert_value_to_string::spec_value_to_string;

use crate::template::template_builder::{
    spec_validate_call, spec_validate_calls, spec_validate_tokens,
};

verus! {

// ---------------------------------------------------------------------------
// The registry: name-keyed executors, the last registration winning.
// ---------------------------------------------------------------------------

/// The position of the function a name refers to: the last entry
/// registered under that name.
pub open spec fn spec_lookup<E: FunctionExecutor>(
    functions: Seq<(String, E)>,
    name: Seq<char>,
) -> Option<int>
    decreases functions.len(),
{
    if functions.len() == 0 {
        None
    } else if functions.last().0@ == name {
        Some(functions.len() - 1)
    } else {
        spec_lookup(functions.drop_last(), name)
    }
}

/// A found entry lies inside the registry and carries the name looked up.
pub proof fn lemma_lookup_in_range<E: FunctionExecutor>(functions: Seq<(String, E)>, name: Seq<char>)
    ensures
        spec_lookup(functions, name) matches Some(i) ==> 0 <= i < functions.len()
            && functions[i].0@ == name,
    decreases functions.len(),
{
    if functions.len() > 0 && !(functions.last().0@ == name) {
        lemma_lookup_in_range(functions.drop_last(), name);
        if let Some(i) = spec_lookup(functions.drop_last(), name) {
            assert(functions.drop_last()[i] == functions[i]);
        }
    }
}

/// Finds the executor a name refers to.
pub(crate) fn lookup_function<'a, E: FunctionExecutor>(functions: &'a Vec<(String, E)>, name: &String) -> (r:
    Option<&'a E>)
    ensures
        match r {
            Some(e) => spec_lookup(functions@, name@) matches Some(i) && *e == functions@[i].1,
            None => spec_lookup(functions@, name@) is None,
        },
{
    let ghost all = functions@;
    let mut i: usize = functions.len();
    proof {
        assert(all.subrange(0, all.len() as int) =~= all);
    }
    while i > 0
        invariant
            0 <= i <= all.len(),
            all == functions@,
            spec_lookup(all, name@) == spec_lookup(all.subrange(0, i as int), name@),
        decreases i,
    {
        i = i - 1;
        proof {
            assert(all.subrange(0, i + 1).last() == all[i as int]);
            assert(all.subrange(0, i + 1).drop_last() =~= all.subrange(0, i as int));
        }
        if crate::text::str_eq(functions[i].0.as_str(), name.as_str()) {
            return Some(&functions[i].1);
        }
    }
    proof {
        assert(all.subrange(0, 0) =~= Seq::<(String, E)>::empty());
    }
    None
}

// ---------------------------------------------------------------------------
// What a render returns, stage by stage.
// ---------------------------------------------------------------------------

/// What running one call of a pipeline returns: the named executor's
/// result, or the failure that stops the render.
pub open spec fn spec_execute_function<E: FunctionExecutor>(
    functions: Seq<(String, E)>,
    call: SpecCall,
    input: SpecValue,
) -> Result<SpecValue, SpecTemplateError> {
    match spec_lookup(functions, call.name) {
        None => Err(SpecTemplateError::FunctionNotFound(call.name)),
        Some(i) => match functions[i].1.spec_call(input, spec_arg_values(call.args)) {
            Ok(v) => Ok(v),
            Err(fe) => Err(SpecTemplateError::FunctionError(fe)),
        },
    }
}

/// What a pipeline returns: the calls threaded left to right.
pub open spec fn spec_run_pipeline<E: FunctionExecutor>(
    functions: Seq<(String, E)>,
    calls: Seq<SpecCall>,
    input: SpecValue,
) -> Result<SpecValue, SpecTemplateError>
    decreases calls.len(),
{
    if calls.len() == 0 {
        Ok(input)
    } else {
        match spec_execute_function(functions, calls[0], input) {
            Ok(v) => spec_run_pipeline(functions, calls.skip(1), v),
            Err(e) => Err(e),
        }
    }
}

/// What one expression renders to: the path resolved against the document,
/// the node converted to a value, the pipeline run, and the final value
/// coerced to text.
pub open spec fn spec_render_field<E: FunctionExecutor>(
    functions: Seq<(String, E)>,
    fr: SpecFieldRead,
    doc: Document,
) -> Result<Seq<char>, SpecTemplateError> {
    let node = spec_resolve(doc, fr.path);
    match spec_convert_document(node, spec_path_display(fr.path)) {
        Ok(v) => match spec_run_pipeline(functions, fr.calls, v) {
            Ok(v2) => spec_value_to_string(v2),
            Err(e) => Err(e),
        },
        Err(e) => Err(e),
    }
}

/// What one token renders to: literal text verbatim, an expression by
/// resolution and its pipeline.
pub open spec fn spec_render_token<E: FunctionExecutor>(
    functions: Seq<(String, E)>,
    token: SpecToken,
    doc: Document,
) -> Result<Seq<char>, SpecTemplateError> {
    match token {
        SpecToken::Text(s) => Ok(s),
        SpecToken::Expression(fr) => spec_render_field(functions, fr, doc),
    }
}

/// What a token sequence renders to: each token's text concatenated in
/// source order; the first failure stops the render with no output.
pub open spec fn spec_render_tokens<E: FunctionExecutor>(
    functions: Seq<(String, E)>,
    tokens: Seq<SpecToken>,
    doc: Document,
) -> Result<Seq<char>, SpecTemplateError>
    decreases tokens.len(),
{
    if tokens.len() == 0 {
        Ok(Seq::empty())
    } else {
        match spec_render_token(functions, tokens[0], doc) {
            Ok(s) => match spec_render_tokens(functions, tokens.skip(1), doc) {
                Ok(rest) => Ok(s + rest),
                Err(e) => Err(e),
            },
            Err(e) => Err(e),
        }
    }
}

// ---------------------------------------------------------------------------
// The template.
// ---------------------------------------------------------------------------

/// A built template: an immutable token sequence and the registry of
/// functions its pipelines may call.  Built once, rendered many times.
pub struct Template<E: FunctionExecutor> {
    syntax: Syntax,
    functions: Vec<(String, E)>,
}

impl<E: FunctionExecutor> Template<E> {
    /// Every call site of the token sequence validates against the
    /// registry: the name is registered, the argument count matches, and
    /// each literal's type matches the declaration.
    #[verifier::type_invariant]
    pub closed spec fn wf(self) -> bool {
        spec_validate_tokens(self.functions@, self.syntax@) is Ok
    }

    /// The token sequence.
    pub closed spec fn spec_syntax(self) -> Seq<SpecToken> {
        self.syntax@
    }

    /// The registry.
    pub closed spec fn spec_functions(self) -> Seq<(String, E)> {
        self.functions@
    }

    /// What rendering this template against a document returns.
    pub open spec fn spec_render(self, doc: Document) -> Result<Seq<char>, SpecTemplateError> {
        spec_render_tokens(self.spec_functions(), self.spec_syntax(), doc)
    }

    pub(crate) fn new(syntax: Syntax, functions: Vec<(String, E)>) -> (r: Template<E>)
        requires
            spec_validate_tokens(functions@, syntax@) is Ok,
        ensures
            r.spec_syntax() == syntax@,
            r.spec_functions() == functions@,
    {
        Template { syntax, functions }
    }

    /// Runs one call of a pipeline on the value threaded to it.
    fn execute_function(&self, input: Value, function_call: &FunctionCallToken) -> (r: Result<
        Value,
        TemplateError,
    >)
        requires
            spec_validate_call(self.spec_functions(), function_call@) is Ok,
        ensures
            match r {
                Ok(v) => spec_execute_function(self.spec_functions(), function_call@, input@)
                    == Ok::<_, SpecTemplateError>(v@),
                Err(e) => spec_execute_function(self.spec_functions(), function_call@, input@)
                    == Err::<SpecValue, _>(e@),
            },
    {
        let function_name = function_call.get_function_name().as_string_ref();
        let executor = match lookup_function(&self.functions, function_name) {
            Some(e) => e,
            None => {
                return Err(TemplateError::FunctionNotFound(function_name.clone()));
            },
        };
        let tokens = function_call.get_arguments();
        let mut arguments: Vec<Value> = Vec::new();
        let mut i: usize = 0;
        while i < tokens.len()
            invariant
                0 <= i <= tokens@.len(),
                arguments@.len() == i,
                forall|j: int| 0 <= j < i ==> arguments@[j]@ == spec_arg_value(tokens@[j]@),
            decreases tokens@.len() - i,
        {
            arguments.push(convert_function_argument(&tokens[i]));
            i = i + 1;
        }
        proof {
            assert(spec_values_view(arguments@) =~= spec_arg_values(
                crate::template::syntax::function_call_argument_token::spec_args_view(tokens@),
            ));
            lemma_lookup_in_range(self.spec_functions(), function_call@.name);
        }
        match executor.call(input, arguments.as_slice()) {
            Ok(v) => Ok(v),
            Err(e) => Err(TemplateError::FunctionError(e)),
        }
    }

    /// Renders one expression: resolves its path, converts the node, runs
    /// the pipeline, and coerces the final value to text.
    fn read_field(&self, document: &Document, template: &FieldReadToken) -> (r: Result<
        String,
        TemplateError,
    >)
        requires
            spec_validate_calls(self.spec_functions(), template@.calls) is Ok,
        ensures
            match r {
                Ok(s) => spec_render_field(self.spec_functions(), template@, *document)
                    == Ok::<_, SpecTemplateError>(s@),
                Err(e) => spec_render_field(self.spec_functions(), template@, *document)
                    == Err::<Seq<char>, _>(e@),
            },
    {
        let path = template.get_path();
        let node = document.resolve(path.get_fields());
        let converted = match node {
            Some(d) => convert_document(d, path),
            None => Err(TemplateError::PathNotFound(path.path_string())),
        };
        let mut value = match converted {
            Ok(v) => v,
            Err(e) => {
                return Err(e);
            },
        };
        let calls = template.get_function_calls();
        let ghost allcalls = spec_calls_view(calls@);
        let ghost first = value@;
        proof {
            assert(allcalls.skip(0) =~= allcalls);
            crate::template::template_builder::lemma_validate_calls_ok(
                self.spec_functions(),
                allcalls,
            );
        }
        let mut i: usize = 0;
        while i < calls.len()
            invariant
                0 <= i <= calls@.len(),
                allcalls == spec_calls_view(calls@),
                allcalls == template@.calls,
                spec_convert_document(
                    spec_resolve(*document, template@.path),
                    spec_path_display(template@.path),
                ) == Ok::<SpecValue, SpecTemplateError>(first),
                forall|j: int| 0 <= j < allcalls.len() ==> spec_validate_call(
                    self.spec_functions(),
                    #[trigger] allcalls[j],
                ) is Ok,
                spec_run_pipeline(self.spec_functions(), allcalls, first) == spec_run_pipeline(
                    self.spec_functions(),
                    allcalls.skip(i as int),
                    value@,
                ),
            decreases calls@.len() - i,
        {
            proof {
                assert(allcalls.skip(i as int)[0] == allcalls[i as int]);
                assert(allcalls.skip(i as int).skip(1) =~= allcalls.skip(i + 1));
            }
            match self.execute_function(value, &calls[i]) {
                Ok(v) => {
                    value = v;
                },
                Err(e) => {
                    return Err(e);
                },
            }
            i = i + 1;
        }
        proof {
            assert(allcalls.skip(allcalls.len() as int) =~= Seq::<SpecCall>::empty());
        }
        convert_value_to_string(value)
    }

    /// Renders the template against one document: text tokens append
    /// verbatim, expression tokens resolve, run their pipeline, and
    /// stringify; the first failure aborts the render with no output.
    pub fn render(&self, document: &Document) -> (r: Result<String, TemplateError>)
        ensures
            match r {
                Ok(s) => self.spec_render(*document) == Ok::<Seq<char>, SpecTemplateError>(s@),
                Err(e) => self.spec_render(*document) == Err::<Seq<char>, SpecTemplateError>(e@),
            },
            r matches Err(e) ==> !(e@ is FunctionNotFound),
    {
        proof {
            use_type_invariant(self);
            crate::template::template_builder::lemma_validate_tokens_ok(
                self.spec_functions(),
                self.spec_syntax(),
            );
            crate::template::laws::lemma_tokens_validated_found(
                self.spec_functions(),
                self.spec_syntax(),
                *document,
            );
        }
        let tokens = self.syntax.iter_tokens();
        let ghost alltokens = self.spec_syntax();
        proof {
            assert(alltokens.skip(0) =~= alltokens);
        }
        let mut result = String::new();
        let mut i: usize = 0;
        while i < tokens.len()
            invariant
                0 <= i <= tokens@.len(),
                alltokens == crate::template::syntax::token::spec_tokens_view(tokens@),
                alltokens == self.spec_syntax(),
                forall|k: int| 0 <= k < alltokens.len() ==> (#[trigger] alltokens[k] matches
                    SpecToken::Expression(fr) ==> spec_validate_calls(
                    self.spec_functions(),
                    fr.calls,
                ) is Ok),
                spec_render_tokens(self.spec_functions(), alltokens, *document) matches Err(e)
                    ==> !(e is FunctionNotFound),
                spec_render_tokens(self.spec_functions(), alltokens, *document) == match
                    spec_render_tokens(
                    self.spec_functions(),
                    alltokens.skip(i as int),
                    *document,
                ) {
                    Ok(rest) => Ok::<Seq<char>, SpecTemplateError>(result@ + rest),
                    Err(e) => Err(e),
                },
            decreases tokens@.len() - i,
        {
            proof {
                assert(alltokens.skip(i as int)[0] == alltokens[i as int]);
                assert(alltokens.skip(i as int).skip(1) =~= alltokens.skip(i + 1));
            }
            let ghost before = result@;
            match &tokens[i] {
                Token::Text(text) => {
                    result.push_str(text.as_str());
                    proof {
                        match spec_render_tokens(
                            self.spec_functions(),
                            alltokens.skip(i + 1),
                            *document,
                        ) {
                            Ok(rest) => {
                                assert(before + (text@ + rest) =~= result@ + rest);
                            },
                            Err(e) => {},
                        }
                    }
                },
                Token::Template(token) => {
                    match self.read_field(document, token.get_field_read_token()) {
                        Ok(s) => {
                            result.push_str(s.as_str());
                            proof {
                                match spec_render_tokens(
                                    self.spec_functions(),
                                    alltokens.skip(i + 1),
                                    *document,
                                ) {
                                    Ok(rest) => {
                                        assert(before + (s@ + rest) =~= result@ + rest);
                                    },
                                    Err(e) => {},
                                }
                            }
                        },
                        Err(e) => {
                            return Err(e);
                        },
                    }
                },
            }
            i = i + 1;
        }
        proof {
            assert(alltokens.skip(alltokens.len() as int) =~= Seq::<SpecToken>::empty());
            assert(result@ + Seq::<char>::empty() =~= result@);
        }
        Ok(result)
    }
}


impl Template<crate::functions::builtin::BuiltinExecutor> {
    /// Builds a template with the standard function library registered.
    pub fn parse(format: &str) -> (r: Result<
        Template<crate::functions::builtin::BuiltinExecutor>,
        crate::template::build_error::BuildError,
    >)
        ensures
            match r {
                Ok(t) => crate::template::syntax::grammar::spec_parse_syntax(format@) == Ok::<
                    _,
                    crate::template::syntax::grammar::SpecParseError,
                >(t.spec_syntax()),
                Err(e) => match e@ {
                    crate::template::build_error::SpecBuildError::Parse(pe) => {
                        crate::template::syntax::grammar::spec_parse_syntax(format@) == Err::<
                            Seq<SpecToken>,
                            _,
                        >(pe)
                    },
                    other => crate::template::syntax::grammar::spec_parse_syntax(format@) is Ok,
                },
            },
    {
        let builder = crate::template::template_builder::TemplateBuilder::new();
        builder.build(format)
    }
}

} // verus!
