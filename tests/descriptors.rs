use agent_dispatch::descriptor::{
    build_descriptors, ApiToolSpec, DescriptorError, FunctionToolSpec, ParameterSpec,
    ToolDescriptor, ToolSpec,
};
use agent_dispatch::protocol::ParameterType;
use agent_dispatch::session::{
    agent_catalog, AgentConfig, ClientPrompt, SessionRequest, AGENT_INSTRUCTION,
};

fn parameter(name: &str, param_type: Option<&str>, required: bool) -> ParameterSpec {
    ParameterSpec {
        name: name.to_string(),
        description: format!("the {name}"),
        param_type: param_type.map(|t| t.to_string()),
        required,
    }
}

fn function_tool(name: Option<&str>, parameters: Vec<ParameterSpec>) -> ToolSpec {
    ToolSpec::Function(FunctionToolSpec {
        name: name.map(|n| n.to_string()),
        description: "makes things".to_string(),
        executor: Some("arn:maker".to_string()),
        function_name: Some("Make".to_string()),
        function_description: "make one".to_string(),
        parameters,
    })
}

fn api_tool(name: Option<&str>, executor: Option<&str>) -> ToolSpec {
    ToolSpec::Api(ApiToolSpec {
        name: name.map(|n| n.to_string()),
        description: "takes orders".to_string(),
        executor: executor.map(|e| e.to_string()),
        schema: "openapi: 3.0.0".to_string(),
    })
}

fn config() -> AgentConfig {
    AgentConfig::from_settings(
        None,
        Some("model-x".to_string()),
        Some("arn:maker".to_string()),
        Some("arn:waiter".to_string()),
    )
    .unwrap()
}

#[test]
fn builds_both_descriptor_kinds_in_order() {
    let specs = vec![
        function_tool(Some("Maker"), vec![parameter("flavor", Some("string"), true)]),
        api_tool(Some("Waiter"), Some("arn:waiter")),
    ];
    let descriptors = build_descriptors(&specs).unwrap();
    assert_eq!(descriptors.len(), 2);
    match &descriptors[0] {
        ToolDescriptor::Function(f) => {
            assert_eq!(f.name, "Maker");
            assert_eq!(f.executor, "arn:maker");
            assert_eq!(f.function_name, "Make");
            assert_eq!(f.parameters.len(), 1);
            assert_eq!(f.parameters[0].name, "flavor");
            assert!(f.parameters[0].required);
            assert!(matches!(f.parameters[0].param_type, ParameterType::Text));
        }
        ToolDescriptor::Api(_) => panic!("expected a function descriptor"),
    }
    match &descriptors[1] {
        ToolDescriptor::Api(a) => {
            assert_eq!(a.name, "Waiter");
            assert_eq!(a.executor, "arn:waiter");
            assert_eq!(a.schema, "openapi: 3.0.0");
        }
        ToolDescriptor::Function(_) => panic!("expected an API descriptor"),
    }
    assert_eq!(descriptors[1].name(), "Waiter");
}

#[test]
fn empty_catalog_gives_no_descriptors() {
    assert_eq!(build_descriptors(&vec![]).unwrap().len(), 0);
}

#[test]
fn duplicate_names_are_rejected() {
    let specs = vec![
        api_tool(Some("Waiter"), Some("arn:a")),
        function_tool(Some("Maker"), vec![]),
        api_tool(Some("Waiter"), Some("arn:b")),
    ];
    assert_eq!(build_descriptors(&specs).unwrap_err(), DescriptorError::DuplicateName { tool: 2 });
}

#[test]
fn duplicate_across_kinds_is_rejected() {
    let specs = vec![function_tool(Some("Same"), vec![]), api_tool(Some("Same"), Some("arn:b"))];
    assert_eq!(build_descriptors(&specs).unwrap_err(), DescriptorError::DuplicateName { tool: 1 });
}

#[test]
fn missing_fields_are_reported_by_position() {
    let specs = vec![api_tool(Some("Waiter"), Some("arn:a")), function_tool(None, vec![])];
    assert_eq!(build_descriptors(&specs).unwrap_err(), DescriptorError::MissingName { tool: 1 });

    let specs = vec![api_tool(Some("Waiter"), None)];
    assert_eq!(build_descriptors(&specs).unwrap_err(), DescriptorError::MissingExecutor { tool: 0 });

    let mut maker = FunctionToolSpec {
        name: Some("Maker".to_string()),
        description: String::new(),
        executor: Some("arn:m".to_string()),
        function_name: None,
        function_description: String::new(),
        parameters: vec![],
    };
    let specs = vec![ToolSpec::Function(maker)];
    assert_eq!(
        build_descriptors(&specs).unwrap_err(),
        DescriptorError::MissingFunctionName { tool: 0 }
    );
    maker = FunctionToolSpec {
        name: Some("Maker".to_string()),
        description: String::new(),
        executor: None,
        function_name: None,
        function_description: String::new(),
        parameters: vec![],
    };
    let specs = vec![ToolSpec::Function(maker)];
    assert_eq!(build_descriptors(&specs).unwrap_err(), DescriptorError::MissingExecutor { tool: 0 });
}

#[test]
fn missing_parameter_type_is_reported() {
    let specs = vec![function_tool(
        Some("Maker"),
        vec![
            parameter("flavor", Some("string"), true),
            parameter("size", None, false),
            parameter("cone", None, false),
        ],
    )];
    assert_eq!(
        build_descriptors(&specs).unwrap_err(),
        DescriptorError::MissingParameterType { tool: 0, parameter: 1 }
    );
}

#[test]
fn first_faulty_tool_decides() {
    let specs = vec![
        api_tool(Some("A"), Some("x")),
        api_tool(Some("A"), Some("y")),
        api_tool(None, Some("z")),
    ];
    assert_eq!(build_descriptors(&specs).unwrap_err(), DescriptorError::DuplicateName { tool: 1 });
}

#[test]
fn unknown_parameter_type_is_kept() {
    let specs = vec![function_tool(
        Some("Maker"),
        vec![
            parameter("n", Some("number"), false),
            parameter("i", Some("integer"), false),
            parameter("b", Some("boolean"), false),
            parameter("a", Some("array"), false),
            parameter("o", Some("object"), false),
        ],
    )];
    let descriptors = build_descriptors(&specs).unwrap();
    let ToolDescriptor::Function(f) = &descriptors[0] else { panic!("expected a function") };
    assert!(matches!(f.parameters[0].param_type, ParameterType::Number));
    assert!(matches!(f.parameters[1].param_type, ParameterType::Integer));
    assert!(matches!(f.parameters[2].param_type, ParameterType::Boolean));
    assert!(matches!(f.parameters[3].param_type, ParameterType::Array));
    match &f.parameters[4].param_type {
        ParameterType::Unknown(s) => assert_eq!(s, "object"),
        other => panic!("unexpected {other:?}"),
    }
}

#[test]
fn parameter_type_names_round_trip() {
    for name in ["string", "number", "integer", "boolean", "array", "object", "String", ""] {
        assert_eq!(ParameterType::from(name.to_string()).wire_name(), name);
    }
    assert!(matches!(ParameterType::from("String".to_string()), ParameterType::Unknown(_)));
    assert_eq!(ParameterType::Text.wire_name(), "string");
}

#[test]
fn agent_catalog_yields_session() {
    let config = config();
    let catalog = agent_catalog(&config, "openapi: 3.0.0".to_string());
    let request = SessionRequest::new(
        &config,
        "req-1".to_string(),
        ClientPrompt { input: "One vanilla for Ana".to_string() },
        &catalog,
    )
    .unwrap();
    assert_eq!(request.session_id, "req-1");
    assert_eq!(request.input_text, "One vanilla for Ana");
    assert_eq!(request.instruction, AGENT_INSTRUCTION);
    assert_eq!(request.model_id, "model-x");
    assert!(request.enable_trace);
    assert_eq!(request.tools.len(), 2);
    assert_eq!(request.tools[0].name(), "IceCreamMaker");
    assert_eq!(request.tools[1].name(), "Waiter");
    let ToolDescriptor::Function(maker) = &request.tools[0] else { panic!("expected a function") };
    assert_eq!(maker.executor, "arn:maker");
    assert_eq!(maker.function_name, "PrepareIceCream");
    assert_eq!(maker.parameters[0].name, "flavor");
    assert!(matches!(maker.parameters[0].param_type, ParameterType::Text));
    let ToolDescriptor::Api(waiter) = &request.tools[1] else { panic!("expected an API tool") };
    assert_eq!(waiter.executor, "arn:waiter");
    assert_eq!(waiter.schema, "openapi: 3.0.0");
}

#[test]
fn session_fails_on_faulty_catalog() {
    let config = config();
    let catalog = vec![api_tool(Some("W"), Some("a")), api_tool(Some("W"), Some("b"))];
    let result = SessionRequest::new(
        &config,
        "req-2".to_string(),
        ClientPrompt { input: "hi".to_string() },
        &catalog,
    );
    assert_eq!(result.unwrap_err(), DescriptorError::DuplicateName { tool: 1 });
}
