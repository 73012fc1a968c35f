//! Schema-described callable capabilities, and the two bundled tools:
//! a calculator and the data model of an HTTP fetcher.

use vstd::prelude::*;
use crate::schema::{
    Arg, ArgValueView, ArgView, Arguments, FieldSpec, FieldSpecView, JsonKind, ParamSchema,
    ParamSchemaView,
};

verus! {

/// A tool as the provider sees it: a unique name, a description, and the
/// object schema its arguments must conform to.
pub struct ToolDefinition {
    pub name: String,
    pub description: String,
    pub parameters: ParamSchema,
}

/// The mathematical value of a `ToolDefinition`.
#[verifier::ext_equal]
pub struct ToolDefinitionView {
    pub name: Seq<char>,
    pub description: Seq<char>,
    pub parameters: ParamSchemaView,
}

impl View for ToolDefinition {
    type V = ToolDefinitionView;

    open spec fn view(&self) -> ToolDefinitionView {
        ToolDefinitionView {
            name: self.name@,
            description: self.description@,
            parameters: self.parameters@,
        }
    }
}

impl Clone for ToolDefinition {
    fn clone(&self) -> (r: Self)
        ensures
            r@ == self@,
    {
        ToolDefinition {
            name: self.name.clone(),
            description: self.description.clone(),
            parameters: self.parameters.clone(),
        }
    }
}

/// A named, schema-described callable capability.
///
/// A capability's observable output is a function of its arguments:
/// `spec_call` is that function, and `call` must agree with it on success.
/// The text of a failure message is descriptive and is not pinned.
/// Effectful collaborators (network, clock) live behind the application
/// boundary and hand the capability plain values.
pub trait ToolCapability: Sized {
    /// The definition this capability registers under.  A capability
    /// declared outside the verified core keeps the default, unspecified
    /// model: nothing is proved about it.
    open spec fn spec_definition(&self) -> ToolDefinitionView {
        vstd::pervasive::arbitrary()
    }

    /// What the capability computes from a payload: a result text, or
    /// failure.  Unspecified by default, as above.
    open spec fn spec_call(&self, args: Seq<ArgView>) -> Result<Seq<char>, ()> {
        vstd::pervasive::arbitrary()
    }

    /// The wire definition.
    fn definition(&self) -> (d: ToolDefinition)
        ensures
            d@ == self.spec_definition(),
    ;

    /// Run the capability on a payload.
    fn call(&self, args: &Arguments) -> (r: Result<String, String>)
        ensures
            (match r {
                Ok(out) => self.spec_call(args@) == Ok::<Seq<char>, ()>(out@),
                Err(_) => self.spec_call(args@) is Err,
            }),
    ;
}

/// The first text value bound to `name` in the payload, if any.
pub open spec fn lookup_text(args: Seq<ArgView>, name: Seq<char>) -> Option<Seq<char>>
    decreases args.len(),
{
    if args.len() == 0 {
        Option::None
    } else if args[0].name == name {
        match args[0].value {
            ArgValueView::Text(s) => Option::Some(s),
            _ => Option::None,
        }
    } else {
        lookup_text(args.drop_first(), name)
    }
}

proof fn lemma_lookup_text_skip(args: Seq<ArgView>, name: Seq<char>, j: int)
    requires
        0 <= j <= args.len(),
        forall|k: int| 0 <= k < j ==> (#[trigger] args[k]).name != name,
    ensures
        lookup_text(args, name) == lookup_text(args.skip(j), name),
    decreases j,
{
    if j == 0 {
        assert(args.skip(0) =~= args);
    } else {
        lemma_lookup_text_skip(args, name, j - 1);
        let s = args.skip(j - 1);
        assert(s[0] == args[j - 1]);
        assert(s[0].name != name);
        assert(s.drop_first() =~= args.skip(j));
        assert(lookup_text(s, name) == lookup_text(s.drop_first(), name));
    }
}

/// The spacing characters meval's tokenizer strips between tokens.
pub open spec fn is_spacing(c: char) -> bool {
    c == ' ' || c == '\t' || c == '\r' || c == '\n'
}

/// Text the evaluator may be handed.  Empty text is refused with an
/// ordinary error, but text that is nothing but spacing makes meval's
/// tokenizer panic: stripping the spacing leaves its token parser with
/// empty input it has no answer for.  Such text never reaches the call.
pub open spec fn evaluable(s: Seq<char>) -> bool {
    s.len() == 0 || exists|i: int| 0 <= i < s.len() && !is_spacing(#[trigger] s[i])
}

/// Whether the text holds at least one non-spacing character.
fn has_non_spacing(s: &str) -> (r: bool)
    ensures
        r == exists|i: int| 0 <= i < s@.len() && !is_spacing(#[trigger] s@[i]),
{
    let n = s.unicode_len();
    let mut i: usize = 0;
    while i < n
        invariant
            n as nat == s@.len(),
            0 <= i <= n,
            forall|k: int| 0 <= k < i ==> is_spacing(#[trigger] s@[k]),
        decreases n - i,
    {
        let c = s.get_char(i);
        if !(c == ' ' || c == '\t' || c == '\r' || c == '\n') {
            return true;
        }
        i += 1;
    }
    false
}

/// What `meval` computes for an expression, formatted in decimal, or
/// nothing where the expression does not parse or evaluate.  The built-in
/// context is fixed, so the result depends on the expression text alone;
/// for the functions the context binds to the platform's math library
/// (`sin`, `^` on fractions, and the like) the value named is the one this
/// build's math library computes.
pub uninterp spec fn eval_of(expr: Seq<char>) -> Option<Seq<char>>;

/// Relies on meval::eval_str: evaluating an expression against the built-in
/// context is a function of the expression text alone.  The success value is
/// the evaluated number's decimal rendering; the failure text is meval's own
/// description of the parse or evaluation error.  Text that is nothing but
/// spacing is kept out: on it the tokenizer panics instead of returning.
#[verifier::external_body]
fn eval_expression(expr: &str) -> (r: Result<String, String>)
    requires
        evaluable(expr@),
    ensures
        (match r {
            Ok(v) => eval_of(expr@) == Option::Some(v@),
            Err(_) => eval_of(expr@) is None,
        }),
{
    match meval::eval_str(expr) {
        Ok(value) => Ok(format!("{}", value)),
        Err(error) => Err(format!("{}", error)),
    }
}

/// The calculator's argument payload: one expression to evaluate.
pub struct CalculatorInput {
    pub expression: String,
}

/// Why a calculation failed, in words.
#[derive(Debug)]
pub struct CalculatorError(pub String);

/// The calculator tool: evaluates a math expression.
pub struct Calculator;

/// The calculator's definition, as a mathematical value.
pub open spec fn calculator_definition_view() -> ToolDefinitionView {
    ToolDefinitionView {
        name: "calculator"@,
        description: "Evaluate math expressions"@,
        parameters: ParamSchemaView {
            fields: seq![FieldSpecView { name: "expression"@, kind: JsonKind::Text }],
            required: seq!["expression"@],
        },
    }
}

/// What the calculator computes: the evaluation of the first `expression`
/// argument, or failure where none is bound or the expression is bad.
pub open spec fn calculator_outcome(args: Seq<ArgView>) -> Result<Seq<char>, ()> {
    match lookup_text(args, "expression"@) {
        Option::Some(expr) => if !evaluable(expr) {
            Err(())
        } else {
            match eval_of(expr) {
                Option::Some(v) => Ok(v),
                Option::None => Err(()),
            }
        },
        Option::None => Err(()),
    }
}

impl Calculator {
    /// Evaluate a typed payload, with the calculator's own failure type.
    pub fn run(input: &CalculatorInput) -> (r: Result<String, CalculatorError>)
        ensures
            (match r {
                Ok(v) => evaluable(input.expression@) && eval_of(input.expression@)
                    == Option::Some(v@),
                Err(_) => !evaluable(input.expression@) || eval_of(input.expression@) is None,
            }),
    {
        match Self::evaluate(input.expression.as_str()) {
            Ok(v) => Ok(v),
            Err(m) => Err(CalculatorError(m)),
        }
    }

    /// Evaluate the given expression text.  Text that is nothing but
    /// spacing is refused here, before the evaluator sees it.
    pub fn evaluate(expression: &str) -> (r: Result<String, String>)
        ensures
            (match r {
                Ok(v) => evaluable(expression@) && eval_of(expression@) == Option::Some(v@),
                Err(_) => !evaluable(expression@) || eval_of(expression@) is None,
            }),
    {
        if !expression.is_empty() && !has_non_spacing(expression) {
            return Err("the expression holds nothing but spacing".to_owned());
        }
        eval_expression(expression)
    }
}

impl ToolCapability for Calculator {
    open spec fn spec_definition(&self) -> ToolDefinitionView {
        calculator_definition_view()
    }

    open spec fn spec_call(&self, args: Seq<ArgView>) -> Result<Seq<char>, ()> {
        calculator_outcome(args)
    }

    fn definition(&self) -> (d: ToolDefinition) {
        let mut fields: Vec<FieldSpec> = Vec::new();
        fields.push(FieldSpec { name: "expression".to_owned(), kind: JsonKind::Text });
        let mut required: Vec<String> = Vec::new();
        required.push("expression".to_owned());
        let d = ToolDefinition {
            name: "calculator".to_owned(),
            description: "Evaluate math expressions".to_owned(),
            parameters: ParamSchema { fields, required },
        };
        proof {
            assert(d@.parameters.fields =~= calculator_definition_view().parameters.fields);
            assert(d@.parameters.required =~= calculator_definition_view().parameters.required);
            assert(d@ =~= calculator_definition_view());
        }
        d
    }

    fn call(&self, args: &Arguments) -> (r: Result<String, String>) {
        let key: String = "expression".to_owned();
        let mut j: usize = 0;
        while j < args.entries.len()
            invariant
                0 <= j <= args.entries.len(),
                key@ == "expression"@,
                forall|k: int| 0 <= k < j ==> (#[trigger] args@[k]).name != "expression"@,
            decreases args.entries.len() - j,
        {
            proof {
                assert(args@[j as int] == args.entries@[j as int]@);
            }
            if args.entries[j].name == key {
                proof {
                    lemma_lookup_text_skip(args@, "expression"@, j as int);
                }
                match &args.entries[j].value {
                    crate::schema::ArgValue::Text(expr) => {
                        return Self::evaluate(expr.as_str());
                    },
                    _ => {
                        return Err("the expression argument is not text".to_owned());
                    },
                }
            }
            j += 1;
        }
        proof {
            lemma_lookup_text_skip(args@, "expression"@, args@.len() as int);
        }
        Err("no expression argument was given".to_owned())
    }
}

/// The HTTP fetcher's argument payload: a URL and an optional method.
pub struct HttpInput {
    pub url: String,
    pub method: String,
}

/// Why an HTTP fetch failed, in words.
#[derive(Debug)]
pub struct HttpError(pub String);

impl HttpInput {
    /// The method actually sent: GET where none was named.
    pub fn method_or_default(&self) -> (r: String)
        ensures
            r@ == (if self.method@.len() == 0 {
                "GET"@
            } else {
                self.method@
            }),
    {
        if self.method.as_str().is_empty() {
            "GET".to_owned()
        } else {
            self.method.clone()
        }
    }

    /// The validated pair the boundary sends: the effective method token,
    /// checked against reqwest's method grammar, and the URL.  A token
    /// that names no method is refused here, before any request is built.
    pub fn request_parts(&self) -> (r: Result<(String, String), HttpError>)
        ensures
            ({
                let effective = if self.method@.len() == 0 {
                    "GET"@
                } else {
                    self.method@
                };
                match r {
                    Ok(parts) => {
                        &&& parts.0@ == effective
                        &&& valid_method(effective)
                        &&& parts.1@ == self.url@
                    },
                    Err(_) => !valid_method(effective),
                }
            }),
    {
        let method = self.method_or_default();
        if parse_method_ok(method.as_str()) {
            Ok((method, self.url.clone()))
        } else {
            Err(HttpError("Invalid method".to_owned()))
        }
    }
}

/// Whether reqwest accepts this token as an HTTP method.
pub uninterp spec fn valid_method(m: Seq<char>) -> bool;

/// Relies on reqwest::Method::from_str (http's Method::from_bytes):
/// whether a token names a method is a function of the token's bytes
/// alone — a standard method name, or any valid HTTP token.
#[verifier::external_body]
fn parse_method_ok(m: &str) -> (r: bool)
    ensures
        r == valid_method(m@),
{
    m.parse::<reqwest::Method>().is_ok()
}

/// The HTTP fetcher's definition, as a mathematical value.
pub open spec fn http_definition_view() -> ToolDefinitionView {
    ToolDefinitionView {
        name: "http_request"@,
        description: "Make HTTP requests"@,
        parameters: ParamSchemaView {
            fields: seq![
                FieldSpecView { name: "url"@, kind: JsonKind::Text },
                FieldSpecView { name: "method"@, kind: JsonKind::Text },
            ],
            required: seq!["url"@],
        },
    }
}

/// The wire definition of the HTTP fetcher; its effectful handler lives at
/// the application boundary.
pub fn http_request_definition() -> (d: ToolDefinition)
    ensures
        d@ == http_definition_view(),
{
    let mut fields: Vec<FieldSpec> = Vec::new();
    fields.push(FieldSpec { name: "url".to_owned(), kind: JsonKind::Text });
    fields.push(FieldSpec { name: "method".to_owned(), kind: JsonKind::Text });
    let mut required: Vec<String> = Vec::new();
    required.push("url".to_owned());
    let d = ToolDefinition {
        name: "http_request".to_owned(),
        description: "Make HTTP requests".to_owned(),
        parameters: ParamSchema { fields, required },
    };
    proof {
        assert(d@.parameters.fields =~= http_definition_view().parameters.fields);
        assert(d@.parameters.required =~= http_definition_view().parameters.required);
        assert(d@ =~= http_definition_view());
    }
    d
}

} // verus!
