//! Building a template: parsing, then static validation of every call.

use vstd::prelude::*;

use crate::function_executor::function_argument_type::FunctionArgumentType;
use crate::function_executor::function_executor::FunctionExecutor;
use crate::template::argument_types_differ_error::ArgumentTypesDifferError;
use crate::template::build_error::{BuildError, SpecBuildError};
use crate::template::syntax::function_call_argument_token::FunctionCallArgumentToken;
use crate::template::syntax::function_call_token::FunctionCallToken;
use crate::template::syntax::field_read_token::spec_calls_view;
use crate::template::syntax::grammar::{SpecArg, SpecCall, SpecToken};
use crate::template::syntax::syntax::Syntax;
use crate::template::syntax::token::{spec_tokens_view, Token};
use crate::template::syntax::template_token::TemplateToken;
use crate::template::template::{spec_lookup, lemma_lookup_in_range, Template};

verus! {

// ---------------------------------------------------------------------------
// What validation decides, stated over the parsed shapes.
// ---------------------------------------------------------------------------

/// The syntactic category of a literal argument.
pub open spec fn spec_arg_type(a: SpecArg) -> FunctionArgumentType {
    match a {
        SpecArg::String(s) => FunctionArgumentType::String,
        SpecArg::Bool(b) => FunctionArgumentType::Bool,
        SpecArg::UInt(n) => FunctionArgumentType::UInt,
        SpecArg::Int(n) => FunctionArgumentType::Int,
    }
}

/// The first position whose literal type contradicts the declaration,
/// scanning left to right.
pub open spec fn spec_first_mismatch(args: Seq<SpecArg>, decl: Seq<FunctionArgumentType>) -> Option<
    int,
>
    decreases args.len(),
{
    if args.len() == 0 || decl.len() == 0 {
        None
    } else if spec_arg_type(args[0]) != decl[0] {
        Some(0)
    } else {
        match spec_first_mismatch(args.skip(1), decl.skip(1)) {
            Some(k) => Some(k + 1),
            None => None,
        }
    }
}

/// The first mismatch is where the pointwise comparison first fails.
pub proof fn lemma_first_mismatch_from_prefix(
    args: Seq<SpecArg>,
    decl: Seq<FunctionArgumentType>,
    n: int,
)
    requires
        args.len() == decl.len(),
        0 <= n <= args.len(),
        forall|j: int| 0 <= j < n ==> spec_arg_type(args[j]) == decl[j],
        n < args.len() ==> spec_arg_type(args[n]) != decl[n],
    ensures
        spec_first_mismatch(args, decl) == if n == args.len() {
            None::<int>
        } else {
            Some(n)
        },
    decreases args.len(),
{
    if args.len() > 0 && spec_arg_type(args[0]) == decl[0] {
        assert forall|j: int| 0 <= j < n - 1 implies spec_arg_type(args.skip(1)[j]) == decl.skip(
            1,
        )[j] by {
            assert(args.skip(1)[j] == args[j + 1]);
            assert(decl.skip(1)[j] == decl[j + 1]);
        }
        if n - 1 < args.skip(1).len() && n >= 1 {
            assert(args.skip(1)[n - 1] == args[n]);
            assert(decl.skip(1)[n - 1] == decl[n]);
        }
        lemma_first_mismatch_from_prefix(args.skip(1), decl.skip(1), n - 1);
    }
}

/// What validating one call site decides: the name must be registered,
/// the argument count must equal the declared count, and each literal's
/// type must equal the declared type, the first mismatch reported.
pub open spec fn spec_validate_call<E: FunctionExecutor>(
    functions: Seq<(String, E)>,
    call: SpecCall,
) -> Result<(), SpecBuildError> {
    match spec_lookup(functions, call.name) {
        None => Err(SpecBuildError::FunctionNotFound(call.name)),
        Some(i) => {
            let schema = functions[i].1.spec_schema();
            if call.args.len() != schema.args.len() {
                Err(SpecBuildError::ArgumentsLengthDiffer(call.name))
            } else {
                match spec_first_mismatch(call.args, schema.args) {
                    Some(k) => Err(SpecBuildError::ArgumentTypeNotMatch(call.name, k)),
                    None => Ok(()),
                }
            }
        },
    }
}

/// What validating a pipeline decides: each call in order, the first
/// failure reported.
pub open spec fn spec_validate_calls<E: FunctionExecutor>(
    functions: Seq<(String, E)>,
    calls: Seq<SpecCall>,
) -> Result<(), SpecBuildError>
    decreases calls.len(),
{
    if calls.len() == 0 {
        Ok(())
    } else {
        match spec_validate_call(functions, calls[0]) {
            Ok(u) => spec_validate_calls(functions, calls.skip(1)),
            Err(e) => Err(e),
        }
    }
}

/// What validating a token sequence decides: every call of every
/// expression, in source order.
pub open spec fn spec_validate_tokens<E: FunctionExecutor>(
    functions: Seq<(String, E)>,
    tokens: Seq<SpecToken>,
) -> Result<(), SpecBuildError>
    decreases tokens.len(),
{
    if tokens.len() == 0 {
        Ok(())
    } else {
        match tokens[0] {
            SpecToken::Text(s) => spec_validate_tokens(functions, tokens.skip(1)),
            SpecToken::Expression(fr) => match spec_validate_calls(functions, fr.calls) {
                Ok(u) => spec_validate_tokens(functions, tokens.skip(1)),
                Err(e) => Err(e),
            },
        }
    }
}

/// A validated pipeline has every single call validated.
pub proof fn lemma_validate_calls_ok<E: FunctionExecutor>(
    functions: Seq<(String, E)>,
    calls: Seq<SpecCall>,
)
    requires
        spec_validate_calls(functions, calls) is Ok,
    ensures
        forall|j: int| 0 <= j < calls.len() ==> spec_validate_call(functions, #[trigger] calls[j])
            is Ok,
    decreases calls.len(),
{
    if calls.len() > 0 {
        lemma_validate_calls_ok(functions, calls.skip(1));
        assert forall|j: int| 0 <= j < calls.len() implies spec_validate_call(
            functions,
            #[trigger] calls[j],
        ) is Ok by {
            if j > 0 {
                assert(calls.skip(1)[j - 1] == calls[j]);
            }
        }
    }
}

/// A validated token sequence has every expression's pipeline validated.
pub proof fn lemma_validate_tokens_ok<E: FunctionExecutor>(
    functions: Seq<(String, E)>,
    tokens: Seq<SpecToken>,
)
    requires
        spec_validate_tokens(functions, tokens) is Ok,
    ensures
        forall|k: int| 0 <= k < tokens.len() ==> (#[trigger] tokens[k] matches
            SpecToken::Expression(fr) ==> spec_validate_calls(functions, fr.calls) is Ok),
    decreases tokens.len(),
{
    if tokens.len() > 0 {
        lemma_validate_tokens_ok(functions, tokens.skip(1));
        assert forall|k: int| 0 <= k < tokens.len() implies (#[trigger] tokens[k] matches
            SpecToken::Expression(fr) ==> spec_validate_calls(functions, fr.calls) is Ok) by {
            if k > 0 {
                assert(tokens.skip(1)[k - 1] == tokens[k]);
            }
        }
    }
}

// ---------------------------------------------------------------------------
// The builder.
// ---------------------------------------------------------------------------

/// Collects function registrations, then builds a validated template.
/// Registering a name twice keeps the later registration.
pub struct TemplateBuilder<E: FunctionExecutor> {
    functions: Vec<(String, E)>,
}

impl<E: FunctionExecutor> TemplateBuilder<E> {
    /// The registrations so far, in order.
    pub closed spec fn spec_functions(self) -> Seq<(String, E)> {
        self.functions@
    }

    /// A builder with no functions registered.
    pub fn new_empty() -> (r: TemplateBuilder<E>)
        ensures
            r.spec_functions().len() == 0,
    {
        TemplateBuilder { functions: Vec::new() }
    }

    /// The builder with one more function registered, under its schema's
    /// name; a later registration under the same name wins lookups.
    pub fn with_function(self, function_executor: E) -> (r: TemplateBuilder<E>)
        ensures
            r.spec_functions().len() == self.spec_functions().len() + 1,
            r.spec_functions().drop_last() == self.spec_functions(),
            r.spec_functions().last().0@ == function_executor.spec_schema().name,
            r.spec_functions().last().1 == function_executor,
    {
        let schema = function_executor.schema();
        let name = schema.get_function_name().clone();
        let mut functions = self.functions;
        let ghost before = functions@;
        functions.push((name, function_executor));
        proof {
            assert(functions@.drop_last() =~= before);
        }
        TemplateBuilder { functions }
    }

    /// Validates one call site against the registrations.
    fn validate_function_call(&self, function_call: &FunctionCallToken) -> (r: Result<
        (),
        BuildError,
    >)
        ensures
            match r {
                Ok(u) => spec_validate_call(self.spec_functions(), function_call@) is Ok,
                Err(e) => !(e@ is Parse) && spec_validate_call(
                    self.spec_functions(),
                    function_call@,
                ) == Err::<(), SpecBuildError>(e@),
            },
    {
        let function_name = function_call.get_function_name().as_string_ref();
        let executor = match crate::template::template::lookup_function(
            &self.functions,
            function_name,
        ) {
            Some(e) => e,
            None => {
                return Err(BuildError::FunctionNotFound(function_name.clone()));
            },
        };
        proof {
            lemma_lookup_in_range(self.spec_functions(), function_name@);
        }
        let schema = executor.schema();
        let declared = schema.get_arguments();
        let actual = function_call.get_arguments();
        if actual.len() != declared.len() {
            return Err(BuildError::ArgumentsLengthDiffer(function_name.clone()));
        }
        let ghost args = function_call@.args;
        let ghost decl = executor.spec_schema().args;
        let mut i: usize = 0;
        while i < actual.len()
            invariant
                0 <= i <= actual@.len(),
                args.len() == actual@.len(),
                decl.len() == declared@.len(),
                args.len() == decl.len(),
                args == function_call@.args,
                function_name@ == function_call@.name,
                spec_lookup(self.spec_functions(), function_call@.name) is Some,
                decl == self.spec_functions()[spec_lookup(
                    self.spec_functions(),
                    function_call@.name,
                )->Some_0].1.spec_schema().args,
                args == crate::template::syntax::function_call_argument_token::spec_args_view(
                    actual@,
                ),
                decl == crate::function_executor::function_schema::spec_arguments_view(declared@),
                forall|j: int| 0 <= j < i ==> spec_arg_type(args[j]) == decl[j],
            decreases actual@.len() - i,
        {
            let actual_type = match &actual[i] {
                FunctionCallArgumentToken::String(s) => FunctionArgumentType::String,
                FunctionCallArgumentToken::Bool(b) => FunctionArgumentType::Bool,
                FunctionCallArgumentToken::UInt(n) => FunctionArgumentType::UInt,
                FunctionCallArgumentToken::Int(n) => FunctionArgumentType::Int,
            };
            if !(actual_type == *declared[i].get_type()) {
                proof {
                    lemma_first_mismatch_from_prefix(args, decl, i as int);
                }
                return Err(BuildError::ArgumentTypeNotMatch(ArgumentTypesDifferError::new(
                    function_name.clone(),
                    i,
                )));
            }
            i = i + 1;
        }
        proof {
            lemma_first_mismatch_from_prefix(args, decl, args.len() as int);
        }
        Ok(())
    }

    /// Validates every call of one expression, in pipeline order.
    fn validate_template_token(&self, token: &TemplateToken) -> (r: Result<(), BuildError>)
        ensures
            match r {
                Ok(u) => spec_validate_calls(self.spec_functions(), token@.calls) is Ok,
                Err(e) => !(e@ is Parse) && spec_validate_calls(
                    self.spec_functions(),
                    token@.calls,
                ) == Err::<(), SpecBuildError>(e@),
            },
    {
        let field_read = token.get_field_read_token();
        let calls = field_read.get_function_calls();
        let ghost allcalls = spec_calls_view(calls@);
        proof {
            assert(allcalls.skip(0) =~= allcalls);
        }
        let mut i: usize = 0;
        while i < calls.len()
            invariant
                0 <= i <= calls@.len(),
                allcalls == spec_calls_view(calls@),
                allcalls == token@.calls,
                spec_validate_calls(self.spec_functions(), allcalls) == spec_validate_calls(
                    self.spec_functions(),
                    allcalls.skip(i as int),
                ),
            decreases calls@.len() - i,
        {
            proof {
                assert(allcalls.skip(i as int)[0] == allcalls[i as int]);
                assert(allcalls.skip(i as int).skip(1) =~= allcalls.skip(i + 1));
            }
            match self.validate_function_call(&calls[i]) {
                Ok(u) => {},
                Err(e) => {
                    return Err(e);
                },
            }
            i = i + 1;
        }
        proof {
            assert(allcalls.skip(allcalls.len() as int) =~= Seq::<SpecCall>::empty());
        }
        Ok(())
    }

    /// Validates every expression of a parsed token sequence, in source
    /// order.
    fn validate_syntax(&self, syntax: &Syntax) -> (r: Result<(), BuildError>)
        ensures
            match r {
                Ok(u) => spec_validate_tokens(self.spec_functions(), syntax@) is Ok,
                Err(e) => !(e@ is Parse) && spec_validate_tokens(
                    self.spec_functions(),
                    syntax@,
                ) == Err::<(), SpecBuildError>(e@),
            },
    {
        let tokens = syntax.iter_tokens();
        let ghost alltokens = spec_tokens_view(tokens@);
        proof {
            assert(alltokens.skip(0) =~= alltokens);
        }
        let mut i: usize = 0;
        while i < tokens.len()
            invariant
                0 <= i <= tokens@.len(),
                alltokens == spec_tokens_view(tokens@),
                alltokens == syntax@,
                spec_validate_tokens(self.spec_functions(), alltokens) == spec_validate_tokens(
                    self.spec_functions(),
                    alltokens.skip(i as int),
                ),
            decreases tokens@.len() - i,
        {
            proof {
                assert(alltokens.skip(i as int)[0] == alltokens[i as int]);
                assert(alltokens.skip(i as int).skip(1) =~= alltokens.skip(i + 1));
            }
            match &tokens[i] {
                Token::Text(s) => {},
                Token::Template(token) => {
                    match self.validate_template_token(token) {
                        Ok(u) => {},
                        Err(e) => {
                            return Err(e);
                        },
                    }
                },
            }
            i = i + 1;
        }
        proof {
            assert(alltokens.skip(alltokens.len() as int) =~= Seq::<SpecToken>::empty());
        }
        Ok(())
    }

    /// Parses the format text and validates every call site; the first
    /// deviation from the grammar or the registrations is the error.
    pub fn build(self, format: &str) -> (r: Result<Template<E>, BuildError>)
        ensures
            match r {
                Ok(t) => {
                    &&& crate::template::syntax::grammar::spec_parse_syntax(format@)
                        == Ok::<_, crate::template::syntax::grammar::SpecParseError>(t.spec_syntax())
                    &&& t.spec_functions() == self.spec_functions()
                    &&& spec_validate_tokens(self.spec_functions(), t.spec_syntax()) is Ok
                },
                Err(e) => match e@ {
                    SpecBuildError::Parse(pe) => crate::template::syntax::grammar::spec_parse_syntax(
                        format@,
                    ) == Err::<Seq<SpecToken>, _>(pe),
                    other => {
                        &&& crate::template::syntax::grammar::spec_parse_syntax(format@) matches Ok(
                            ts,
                        ) && spec_validate_tokens(self.spec_functions(), ts) == Err::<
                            (),
                            SpecBuildError,
                        >(other)
                    },
                },
            },
    {
        let syntax = match Syntax::from_str(format) {
            Ok(s) => s,
            Err(e) => {
                return Err(BuildError::Parse(e));
            },
        };
        match self.validate_syntax(&syntax) {
            Ok(u) => {},
            Err(e) => {
                return Err(e);
            },
        }
        Ok(Template::new(syntax, self.functions))
    }
}


impl TemplateBuilder<crate::functions::builtin::BuiltinExecutor> {
    /// A builder with the standard function library already registered:
    /// the boolean, signed, string, unsigned and inspection functions, in
    /// that order, each under its schema's name.
    pub fn new() -> (r: TemplateBuilder<crate::functions::builtin::BuiltinExecutor>)
        ensures
            r.spec_functions().len() == 15,
            forall|i: int| 0 <= i < 15 ==> (#[trigger] r.spec_functions()[i]).0@
                == r.spec_functions()[i].1.spec_schema().name,
            r.spec_functions()[0].1 == crate::functions::builtin::BuiltinExecutor::BoolToString(
                crate::functions::booleans::ToString,
            ),
            r.spec_functions()[1].1 == crate::functions::builtin::BuiltinExecutor::BoolUnwrapOr(
                crate::functions::booleans::UnwrapOr,
            ),
            r.spec_functions()[2].1 == crate::functions::builtin::BuiltinExecutor::IntAbs(
                crate::functions::signed::Abs,
            ),
            r.spec_functions()[3].1 == crate::functions::builtin::BuiltinExecutor::IntHex(
                crate::functions::signed::Hex,
            ),
            r.spec_functions()[4].1 == crate::functions::builtin::BuiltinExecutor::IntHexFmt(
                crate::functions::signed::HexFmt,
            ),
            r.spec_functions()[5].1 == crate::functions::builtin::BuiltinExecutor::IntToString(
                crate::functions::signed::ToString,
            ),
            r.spec_functions()[6].1 == crate::functions::builtin::BuiltinExecutor::StringTrim(
                crate::functions::strings::Trim,
            ),
            r.spec_functions()[7].1 == crate::functions::builtin::BuiltinExecutor::StringUnwrapOr(
                crate::functions::strings::UnwrapOr,
            ),
            r.spec_functions()[8].1 == crate::functions::builtin::BuiltinExecutor::StringTrimStart(
                crate::functions::strings::TrimStart,
            ),
            r.spec_functions()[9].1 == crate::functions::builtin::BuiltinExecutor::StringTrimEnd(
                crate::functions::strings::TrimEnd,
            ),
            r.spec_functions()[10].1 == crate::functions::builtin::BuiltinExecutor::StringSubStr(
                crate::functions::strings::SubStr,
            ),
            r.spec_functions()[11].1 == crate::functions::builtin::BuiltinExecutor::UIntHex(
                crate::functions::unsigned::Hex,
            ),
            r.spec_functions()[12].1 == crate::functions::builtin::BuiltinExecutor::UIntHexFmt(
                crate::functions::unsigned::HexFmt,
            ),
            r.spec_functions()[13].1 == crate::functions::builtin::BuiltinExecutor::UIntToString(
                crate::functions::unsigned::ToString,
            ),
            r.spec_functions()[14].1 == crate::functions::builtin::BuiltinExecutor::DebugType(
                crate::functions::debugging::DebugType,
            ),
    {
        TemplateBuilder::new_empty().with_function(
            crate::functions::builtin::BuiltinExecutor::BoolToString(
                crate::functions::booleans::ToString,
            ),
        ).with_function(
            crate::functions::builtin::BuiltinExecutor::BoolUnwrapOr(
                crate::functions::booleans::UnwrapOr,
            ),
        ).with_function(
            crate::functions::builtin::BuiltinExecutor::IntAbs(crate::functions::signed::Abs),
        ).with_function(
            crate::functions::builtin::BuiltinExecutor::IntHex(crate::functions::signed::Hex),
        ).with_function(
            crate::functions::builtin::BuiltinExecutor::IntHexFmt(crate::functions::signed::HexFmt),
        ).with_function(
            crate::functions::builtin::BuiltinExecutor::IntToString(
                crate::functions::signed::ToString,
            ),
        ).with_function(
            crate::functions::builtin::BuiltinExecutor::StringTrim(crate::functions::strings::Trim),
        ).with_function(
            crate::functions::builtin::BuiltinExecutor::StringUnwrapOr(
                crate::functions::strings::UnwrapOr,
            ),
        ).with_function(
            crate::functions::builtin::BuiltinExecutor::StringTrimStart(
                crate::functions::strings::TrimStart,
            ),
        ).with_function(
            crate::functions::builtin::BuiltinExecutor::StringTrimEnd(
                crate::functions::strings::TrimEnd,
            ),
        ).with_function(
            crate::functions::builtin::BuiltinExecutor::StringSubStr(
                crate::functions::strings::SubStr,
            ),
        ).with_function(
            crate::functions::builtin::BuiltinExecutor::UIntHex(crate::functions::unsigned::Hex),
        ).with_function(
            crate::functions::builtin::BuiltinExecutor::UIntHexFmt(
                crate::functions::unsigned::HexFmt,
            ),
        ).with_function(
            crate::functions::builtin::BuiltinExecutor::UIntToString(
                crate::functions::unsigned::ToString,
            ),
        ).with_function(
            crate::functions::builtin::BuiltinExecutor::DebugType(
                crate::functions::debugging::DebugType,
            ),
        )
    }
}

} // verus!
