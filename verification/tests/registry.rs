use std::sync::Arc;

use orion_ai::error::{AiError, AiResult, RegistryError};
use orion_ai::func::executor::{
    CommandOutcome, ExecutorStep, FunctionExecutor, PendingCommand,
};
use orion_ai::func::registry::FunctionRegistry;
use orion_ai::func::system::platform::Platform;
use orion_ai::json::{JsonMember, JsonValue};
use orion_ai::provider::{FunctionCall, FunctionCallInfo, FunctionDefinition, FunctionResult};
use orion_ai::func::system::parse_function_arguments;

struct MockExecutor {
    name: String,
}

impl MockExecutor {
    fn new(name: &str) -> Self {
        Self { name: name.to_string() }
    }
}

impl FunctionExecutor for MockExecutor {
    fn supported_functions(&self) -> Vec<String> {
        vec![self.name.clone()]
    }

    fn get_function_schema(&self, function_name: &str) -> Option<FunctionDefinition> {
        if function_name == self.name {
            Some(FunctionDefinition {
                name: self.name.clone(),
                description: format!("Mock function {}", self.name),
                parameters: vec![],
            })
        } else {
            None
        }
    }

    fn begin(&self, call: &FunctionCall, _platform: &Platform) -> AiResult<ExecutorStep> {
        let args = parse_function_arguments(&call.function.arguments)
            .unwrap_or_else(|_| JsonValue::empty_object());
        Ok(ExecutorStep::Done(FunctionResult {
            name: call.function.name.clone(),
            result: JsonValue::object(vec![
                JsonMember::text(
                    "message",
                    &format!("Mock execution of {} by {}", call.function.name, self.name),
                ),
                JsonMember::new("args", args),
            ]),
            error: None,
        }))
    }

    fn resume(
        &self,
        call: &FunctionCall,
        platform: &Platform,
        _pending: PendingCommand,
        _outcome: CommandOutcome,
    ) -> AiResult<ExecutorStep> {
        self.begin(call, platform)
    }
}

fn definition(name: &str) -> FunctionDefinition {
    FunctionDefinition { name: name.to_string(), description: name.to_string(), parameters: vec![] }
}

fn call(name: &str, arguments: &str) -> FunctionCall {
    call_with_id("call_test", name, arguments)
}

fn call_with_id(id: &str, name: &str, arguments: &str) -> FunctionCall {
    FunctionCall {
        index: Some(0),
        id: id.to_string(),
        type_tag: "function".to_string(),
        function: FunctionCallInfo { name: name.to_string(), arguments: arguments.to_string() },
    }
}

#[test]
fn test_function_registry() {
    let mut registry: FunctionRegistry<MockExecutor> = FunctionRegistry::new();

    let test_function = FunctionDefinition {
        name: "test_function".to_string(),
        description: "Test function".to_string(),
        parameters: vec![],
    };

    assert!(registry.register_function(test_function.clone()).is_ok());
    assert_eq!(registry.get_functions().len(), 1);
    assert_eq!(registry.get_function("test_function"), Some(&test_function));
}

#[test]
fn test_executor_registration() {
    let mut registry = FunctionRegistry::new();
    let executor = Arc::new(MockExecutor::new("test_exec"));

    assert!(registry.register_executor("test_exec".to_string(), executor.clone()).is_ok());
    assert!(registry.supports_function("test_exec"));
    assert!(!registry.supports_function("unknown"));
}

#[test]
fn test_function_execution() {
    let mut registry = FunctionRegistry::new();
    let executor = Arc::new(MockExecutor::new("test_exec"));

    registry.register_executor("test_exec".to_string(), executor).unwrap();

    let function_call = call_with_id("call_test_001", "test_exec", "{\"param1\":\"value1\"}");

    let result = registry.execute_function(&function_call, &Platform::Linux);
    assert!(result.is_ok());

    match result.unwrap() {
        ExecutorStep::Done(result) => {
            assert_eq!(result.name, "test_exec");
            assert!(matches!(result.result, JsonValue::Object(_)));
            assert_eq!(
                result.result.get("args").unwrap().get_str("param1"),
                Some("value1")
            );
            assert!(result.error.is_none());
        }
        ExecutorStep::Run(_) => panic!("the mock executor runs no command"),
    }
}

#[test]
fn test_execution_not_found() {
    let registry: FunctionRegistry<MockExecutor> = FunctionRegistry::new();

    let function_call = call_with_id("call_test_002", "unknown_function", "{}");

    let result = registry.execute_function(&function_call, &Platform::Linux);
    assert!(result.is_err());
    assert_eq!(
        result.unwrap_err(),
        AiError::Registry(RegistryError::NotFound("unknown_function".to_string()))
    );
}

#[test]
fn test_batch_function_registration() {
    let mut registry: FunctionRegistry<MockExecutor> = FunctionRegistry::new();

    let functions = vec![
        FunctionDefinition {
            name: "func1".to_string(),
            description: "Function 1".to_string(),
            parameters: vec![],
        },
        FunctionDefinition {
            name: "func2".to_string(),
            description: "Function 2".to_string(),
            parameters: vec![],
        },
    ];

    assert!(registry.register_functions(functions).is_ok());
    assert_eq!(registry.get_functions().len(), 2);
}

#[test]
fn binding_needs_a_declared_name() {
    let mut registry = FunctionRegistry::new();
    let executor = Arc::new(MockExecutor::new("declared"));
    assert_eq!(
        registry.register_executor("other".to_string(), executor.clone()),
        Err(AiError::Registry(RegistryError::ContractViolation("other".to_string())))
    );
    assert!(!registry.supports_function("other"));
    assert!(!registry.contains_function("other"));
    assert!(!registry.contains_function("declared"));
    assert!(registry.register_executor("declared".to_string(), executor.clone()).is_ok());
    assert!(registry.supports_function("declared"));
    assert!(registry.contains_function("declared"));
    assert!(Arc::ptr_eq(&registry.get_executor("declared").unwrap(), &executor));
    assert!(registry.get_function("declared").is_none());
    assert!(registry.unregister_function("declared"));
    assert!(!registry.contains_function("declared"));
    assert!(!registry.supports_function("declared"));

    assert!(registry.register_executor("declared".to_string(), executor).is_ok());
    assert!(registry.register_function(definition("declared")).is_ok());
    assert!(registry.contains_function("declared"));
    assert!(registry.unregister_function("declared"));
    assert!(!registry.contains_function("declared"));
    assert!(!registry.supports_function("declared"));
    assert!(!registry.unregister_function("declared"));
}

#[test]
fn batch_registration_is_all_or_nothing() {
    let mut registry: FunctionRegistry<MockExecutor> = FunctionRegistry::new();
    registry.register_function(definition("taken")).unwrap();
    let result = registry
        .register_functions_batch(vec![definition("new-one"), definition("taken"), definition("later")]);
    assert_eq!(
        result,
        Err(AiError::Registry(RegistryError::AlreadyRegistered("taken".to_string())))
    );
    assert_eq!(registry.get_function_names(), vec!["taken".to_string()]);
    assert!(registry.register_functions_batch(vec![definition("a"), definition("b")]).is_ok());
    assert_eq!(registry.function_count(), 3);
}

#[test]
fn registering_again_replaces_the_schema() {
    let mut registry: FunctionRegistry<MockExecutor> = FunctionRegistry::new();
    registry.register_function(definition("f")).unwrap();
    let mut second = definition("f");
    second.description = "second".to_string();
    registry.register_function(second.clone()).unwrap();
    assert_eq!(registry.function_count(), 1);
    assert_eq!(registry.get_function("f"), Some(&second));
}

#[test]
fn copies_share_their_executors() {
    let mut registry = FunctionRegistry::new();
    let executor = Arc::new(MockExecutor::new("shared"));
    registry.register_function(definition("shared")).unwrap();
    registry.register_executor("shared".to_string(), executor.clone()).unwrap();

    let copy = registry.clone_registry();
    let mut names = copy.get_function_names();
    names.sort();
    assert_eq!(names, vec!["shared".to_string()]);
    assert!(Arc::ptr_eq(&copy.get_executor("shared").unwrap(), &executor));

    registry.unregister_function("shared");
    assert!(copy.contains_function("shared"));
    assert!(copy.supports_function("shared"));
    let step = copy.execute_function(&call("shared", "{}"), &Platform::Linux).unwrap();
    match step {
        ExecutorStep::Done(result) => {
            assert_eq!(
                result.result.get_str("message"),
                Some("Mock execution of shared by shared")
            );
        }
        ExecutorStep::Run(_) => panic!("the mock executor runs no command"),
    }
}

#[test]
fn tools_select_entries_by_name() {
    let mut registry = FunctionRegistry::new();
    for name in ["a", "b", "c"] {
        registry.register_function(definition(name)).unwrap();
        registry
            .register_executor(name.to_string(), Arc::new(MockExecutor::new(name)))
            .unwrap();
    }
    let all = registry.with_tools(&vec![]);
    assert_eq!(all.function_count(), 3);
    assert_eq!(all.get_supported_function_names().len(), 3);

    let none = registry.with_tools(&vec!["x".to_string()]);
    assert_eq!(none.function_count(), 0);
    assert!(none.get_supported_function_names().is_empty());

    let mixed = registry.with_tools(&vec!["c".to_string(), "x".to_string(), "a".to_string()]);
    let mut names = mixed.get_function_names();
    names.sort();
    assert_eq!(names, vec!["a".to_string(), "c".to_string()]);
    let mut served = mixed.get_supported_function_names();
    served.sort();
    assert_eq!(served, vec!["a".to_string(), "c".to_string()]);
    assert_eq!(mixed.clone_functions().len(), 2);
}

#[test]
fn test_function_registry_basic() {
    let mut registry = FunctionRegistry::new();

    assert_eq!(registry.get_functions().len(), 0);
    assert!(!registry.supports_function("test"));

    let test_function = FunctionDefinition {
        name: "test_function".to_string(),
        description: "测试函数".to_string(),
        parameters: vec![],
    };

    registry.register_function(test_function.clone()).unwrap();

    let test_executor = Arc::new(MockExecutor::new("test_function"));
    registry.register_executor("test_function".to_string(), test_executor).unwrap();

    let retrieved_func = registry.get_function("test_function");
    assert!(retrieved_func.is_some());

    if let Some(func) = retrieved_func {
        assert_eq!(func.name, "test_function");
        assert_eq!(func.description, "测试函数");
    }
}
