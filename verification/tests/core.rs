//! The data model: schemas, payload validation, the registry, the
//! calculator, and configuration.

use agent_core::config::AgentConfig;
use agent_core::errors::ToolError;
use agent_core::messages::{Message, Role};
use agent_core::registry::{ToolInvocationRequest, ToolRegistry};
use agent_core::schema::{Arg, ArgValue, Arguments, FieldSpec, JsonKind, ParamSchema};
use agent_core::tools::{
    http_request_definition, Calculator, CalculatorInput, HttpInput, ToolCapability,
    ToolDefinition,
};

fn text_arg(name: &str, value: &str) -> Arg {
    Arg { name: name.to_string(), value: ArgValue::Text(value.to_string()) }
}

fn calculator_args(expression: &str) -> Arguments {
    Arguments { entries: vec![text_arg("expression", expression)] }
}

fn calculator_registry() -> ToolRegistry<Calculator> {
    let mut registry = ToolRegistry::new();
    let r = registry.register(Calculator.definition(), Calculator);
    assert!(r.is_ok());
    registry
}

fn invocation(tool: &str, args: Arguments) -> ToolInvocationRequest {
    ToolInvocationRequest {
        call_id: "call-1".to_string(),
        tool_name: tool.to_string(),
        arguments: args,
    }
}

#[test]
fn schema_accepts_conforming_payload() {
    let schema = ParamSchema {
        fields: vec![
            FieldSpec { name: "url".to_string(), kind: JsonKind::Text },
            FieldSpec { name: "retries".to_string(), kind: JsonKind::Integer },
        ],
        required: vec!["url".to_string()],
    };
    let args = Arguments {
        entries: vec![
            text_arg("url", "https://example.test"),
            Arg { name: "retries".to_string(), value: ArgValue::Integer(3) },
        ],
    };
    assert!(schema.accepts(&args));
}

#[test]
fn schema_rejects_missing_required_field() {
    let schema = ParamSchema {
        fields: vec![FieldSpec { name: "url".to_string(), kind: JsonKind::Text }],
        required: vec!["url".to_string()],
    };
    let args = Arguments { entries: vec![] };
    assert!(!schema.accepts(&args));
}

#[test]
fn schema_rejects_wrong_kind() {
    let schema = ParamSchema {
        fields: vec![FieldSpec { name: "url".to_string(), kind: JsonKind::Text }],
        required: vec!["url".to_string()],
    };
    let args = Arguments {
        entries: vec![Arg { name: "url".to_string(), value: ArgValue::Integer(7) }],
    };
    assert!(!schema.accepts(&args));
}

#[test]
fn schema_rejects_undeclared_argument_and_null() {
    let schema = ParamSchema {
        fields: vec![FieldSpec { name: "url".to_string(), kind: JsonKind::Text }],
        required: vec![],
    };
    let undeclared = Arguments { entries: vec![text_arg("method", "GET")] };
    assert!(!schema.accepts(&undeclared));
    let null = Arguments {
        entries: vec![Arg { name: "url".to_string(), value: ArgValue::Null }],
    };
    assert!(!schema.accepts(&null));
    let empty = Arguments { entries: vec![] };
    assert!(schema.accepts(&empty));
}

#[test]
fn duplicate_registration_fails_and_leaves_registry_unchanged() {
    let mut registry = calculator_registry();
    let before = registry.definitions().len();
    let r = registry.register(Calculator.definition(), Calculator);
    let e = r.err().expect("the duplicate must be refused");
    assert_eq!(e.tool_name, "calculator");
    assert_eq!(registry.definitions().len(), before);
    let outcome = registry.invoke(&invocation("calculator", calculator_args("2+2")));
    assert_eq!(outcome.unwrap().output, "4");
}

/// A capability whose handler must never run.
struct RefusingTool;

impl ToolCapability for RefusingTool {
    fn definition(&self) -> ToolDefinition {
        ToolDefinition {
            name: "refusing".to_string(),
            description: "never to be called".to_string(),
            parameters: ParamSchema {
                fields: vec![FieldSpec { name: "value".to_string(), kind: JsonKind::Integer }],
                required: vec!["value".to_string()],
            },
        }
    }

    fn call(&self, _args: &Arguments) -> Result<String, String> {
        panic!("the handler was reached with a payload that violates the schema");
    }
}

#[test]
fn violating_arguments_never_reach_the_handler() {
    let mut registry = ToolRegistry::new();
    registry.register(RefusingTool.definition(), RefusingTool).unwrap();
    let bad = Arguments { entries: vec![text_arg("value", "not a number")] };
    let r = registry.invoke(&invocation("refusing", bad));
    match r {
        Err(ToolError::SchemaValidation { tool_name }) => assert_eq!(tool_name, "refusing"),
        other => panic!("expected a schema validation failure, got {:?}", other.is_ok()),
    }
}

#[test]
fn unknown_tool_is_reported() {
    let registry = calculator_registry();
    let r = registry.invoke(&invocation("missing", calculator_args("1")));
    match r {
        Err(ToolError::UnknownTool { tool_name }) => assert_eq!(tool_name, "missing"),
        _ => panic!("expected an unknown tool failure"),
    }
}

#[test]
fn calculator_evaluates_expressions() {
    assert_eq!(Calculator::evaluate("2+2").unwrap(), "4");
    assert_eq!(Calculator::evaluate("3 * (4 + 1)").unwrap(), "15");
    assert_eq!(Calculator::evaluate("1 / 2").unwrap(), "0.5");
    assert!(Calculator::evaluate("2 +").is_err());
}

#[test]
fn whitespace_only_expressions_are_refused_without_reaching_the_evaluator() {
    assert!(Calculator::evaluate(" ").is_err());
    assert!(Calculator::evaluate("\t").is_err());
    assert!(Calculator::evaluate(" \n \r ").is_err());
    assert!(Calculator::evaluate("").is_err());
    assert!(Calculator.call(&calculator_args(" ")).is_err());
    let registry = calculator_registry();
    match registry.invoke(&invocation("calculator", calculator_args("\t\n"))) {
        Err(ToolError::Handler { tool_name, .. }) => assert_eq!(tool_name, "calculator"),
        _ => panic!("expected a recoverable handler failure"),
    }
    let run = Calculator::run(&CalculatorInput { expression: " ".to_string() });
    assert!(run.is_err());
}

#[test]
fn request_parts_validates_the_method_token() {
    let bare = HttpInput { url: "https://example.test".to_string(), method: String::new() };
    let (method, url) = bare.request_parts().expect("GET must be accepted");
    assert_eq!(method, "GET");
    assert_eq!(url, "https://example.test");
    let post = HttpInput { url: "https://example.test".to_string(), method: "POST".to_string() };
    assert_eq!(post.request_parts().unwrap().0, "POST");
    let bad = HttpInput {
        url: "https://example.test".to_string(),
        method: "NOT A TOKEN".to_string(),
    };
    let e = bad.request_parts().err().expect("a spaced token names no method");
    assert!(!e.0.is_empty());
}

#[test]
fn calculator_run_reports_typed_failures() {
    let good = CalculatorInput { expression: "6*7".to_string() };
    assert_eq!(Calculator::run(&good).unwrap(), "42");
    let bad = CalculatorInput { expression: "6*".to_string() };
    let e = Calculator::run(&bad).err().expect("a bad expression must fail");
    assert!(!e.0.is_empty());
}

#[test]
fn calculator_rejects_missing_or_non_text_expression() {
    let no_expression = Arguments { entries: vec![] };
    assert!(Calculator.call(&no_expression).is_err());
    let not_text = Arguments {
        entries: vec![Arg { name: "expression".to_string(), value: ArgValue::Integer(2) }],
    };
    assert!(Calculator.call(&not_text).is_err());
}

#[test]
fn calculator_handler_failure_maps_to_tool_error() {
    let registry = calculator_registry();
    let r = registry.invoke(&invocation("calculator", calculator_args("nonsense(")));
    match r {
        Err(ToolError::Handler { tool_name, .. }) => assert_eq!(tool_name, "calculator"),
        _ => panic!("expected a handler failure"),
    }
}

#[test]
fn definitions_expose_the_validated_schema() {
    let registry = calculator_registry();
    let defs = registry.definitions();
    assert_eq!(defs.len(), 1);
    assert_eq!(defs[0].name, "calculator");
    assert_eq!(defs[0].description, "Evaluate math expressions");
    assert_eq!(defs[0].parameters.required, vec!["expression".to_string()]);
    assert_eq!(defs[0].parameters.fields.len(), 1);
    assert_eq!(defs[0].parameters.fields[0].name, "expression");
}

#[test]
fn http_definition_and_method_default() {
    let d = http_request_definition();
    assert_eq!(d.name, "http_request");
    assert_eq!(d.parameters.required, vec!["url".to_string()]);
    let bare = HttpInput { url: "https://example.test".to_string(), method: String::new() };
    assert_eq!(bare.method_or_default(), "GET");
    let post = HttpInput { url: "https://example.test".to_string(), method: "POST".to_string() };
    assert_eq!(post.method_or_default(), "POST");
}

#[test]
fn config_defaults_and_builders() {
    let c = AgentConfig::new("You are a helpful assistant.".to_string());
    assert_eq!(c.temperature_centi, 100);
    assert_eq!(c.max_tokens, None);
    assert!(c.tool_names.is_empty());
    assert_eq!(c.iteration_bound, agent_core::config::DEFAULT_ITERATION_BOUND);
    let c = c
        .with_temperature(80)
        .with_max_tokens(1000)
        .with_iteration_bound(3)
        .with_tool("calculator".to_string());
    assert_eq!(c.temperature_centi, 80);
    assert_eq!(c.max_tokens, Some(1000));
    assert_eq!(c.iteration_bound, 3);
    assert_eq!(c.tool_names, vec!["calculator".to_string()]);
}

#[test]
fn message_constructors_carry_roles_and_identifiers() {
    let s = Message::system("be brief".to_string());
    assert_eq!(s.role, Role::System);
    assert_eq!(s.content, "be brief");
    assert_eq!(s.tool_call_id, None);
    let t = Message::tool("4".to_string(), "call-9".to_string());
    assert_eq!(t.role, Role::Tool);
    assert_eq!(t.tool_call_id, Some("call-9".to_string()));
    let a = Message::assistant_tool_call("calculator".to_string(), "call-9".to_string());
    assert_eq!(a.role, Role::Assistant);
    assert_eq!(a.tool_call_id, Some("call-9".to_string()));
}
