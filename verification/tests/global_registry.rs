use std::sync::Arc;

use orion_ai::error::{AiError, AiResult, RegistryError};
use orion_ai::func::builtin::ToolExecutor;
use orion_ai::func::executor::{
    CommandOutcome, ExecutorStep, FunctionExecutor, PendingCommand,
};
use orion_ai::func::global::GlobalFunctionRegistry;
use orion_ai::func::registry::FunctionRegistry;
use orion_ai::func::system::platform::Platform;
use orion_ai::json::JsonValue;
use orion_ai::provider::{FunctionCall, FunctionCallInfo, FunctionDefinition, FunctionResult};

struct TestExecutor {
    names: Vec<String>,
}

impl TestExecutor {
    fn new(names: &[&str]) -> Self {
        Self { names: names.iter().map(|n| n.to_string()).collect() }
    }
}

impl FunctionExecutor for TestExecutor {
    fn supported_functions(&self) -> Vec<String> {
        self.names.clone()
    }

    fn get_function_schema(&self, function_name: &str) -> Option<FunctionDefinition> {
        if self.names.iter().any(|n| n == function_name) {
            Some(definition(function_name))
        } else {
            None
        }
    }

    fn begin(&self, call: &FunctionCall, _platform: &Platform) -> AiResult<ExecutorStep> {
        Ok(ExecutorStep::Done(FunctionResult {
            name: call.function.name.clone(),
            result: JsonValue::text("ok"),
            error: None,
        }))
    }

    fn resume(
        &self,
        call: &FunctionCall,
        platform: &Platform,
        _pending: PendingCommand,
        _outcome: CommandOutcome,
    ) -> AiResult<ExecutorStep> {
        self.begin(call, platform)
    }
}

type Registry = FunctionRegistry<ToolExecutor<TestExecutor>>;
type Manager = GlobalFunctionRegistry<TestExecutor>;

fn definition(name: &str) -> FunctionDefinition {
    FunctionDefinition {
        name: name.to_string(),
        description: format!("Test function {}", name),
        parameters: vec![],
    }
}

fn custom(names: &[&str]) -> Arc<ToolExecutor<TestExecutor>> {
    Arc::new(ToolExecutor::Custom(TestExecutor::new(names)))
}

fn test_registry() -> Registry {
    Manager::create_test_registry().unwrap()
}

#[test]
fn test_get_registry_with_tools() {
    let base_registry = test_registry();

    let tools = vec!["git-status".to_string(), "git-add".to_string()];
    let filtered_functions: Vec<String> = base_registry
        .get_supported_function_names()
        .into_iter()
        .filter(|name| tools.contains(name))
        .collect();
    assert_eq!(filtered_functions.len(), 2);
    assert!(filtered_functions.contains(&"git-status".to_string()));
    assert!(filtered_functions.contains(&"git-add".to_string()));
    assert!(!filtered_functions.contains(&"git-commit".to_string()));

    let single_tool = vec!["git-status".to_string()];
    let single_functions: Vec<String> = base_registry
        .get_supported_function_names()
        .into_iter()
        .filter(|name| single_tool.contains(name))
        .collect();
    assert_eq!(single_functions.len(), 1);
    assert!(single_functions.contains(&"git-status".to_string()));

    let full_functions = base_registry.get_supported_function_names();
    let all_functions = base_registry.get_supported_function_names();
    assert_eq!(full_functions.len(), all_functions.len());
    for func_name in &full_functions {
        assert!(all_functions.contains(func_name));
    }
    for func_name in &all_functions {
        assert!(full_functions.contains(func_name));
    }

    let nonexistent_tools = vec!["nonexistent_tool".to_string()];
    let empty_functions: Vec<String> = base_registry
        .get_supported_function_names()
        .into_iter()
        .filter(|name| nonexistent_tools.contains(name))
        .collect();
    assert_eq!(empty_functions.len(), 0);

    let mixed_tools = vec!["git-status".to_string(), "nonexistent_tool".to_string()];
    let mixed_functions: Vec<String> = base_registry
        .get_supported_function_names()
        .into_iter()
        .filter(|name| mixed_tools.contains(name))
        .collect();
    assert_eq!(mixed_functions.len(), 1);
    assert!(mixed_functions.contains(&"git-status".to_string()));
}

#[test]
fn test_global_registry_initialization() {
    let registry = test_registry();
    let function_names = registry.get_supported_function_names();

    assert!(function_names.contains(&"git-status".to_string()));
    assert!(function_names.contains(&"git-commit".to_string()));
    assert!(function_names.contains(&"git-add".to_string()));
    assert!(function_names.contains(&"git-push".to_string()));
    assert!(function_names.contains(&"git-diff".to_string()));

    assert!(function_names.contains(&"fs-ls".to_string()));
    assert!(function_names.contains(&"fs-pwd".to_string()));
    assert!(function_names.contains(&"fs-cat".to_string()));
    assert!(function_names.contains(&"fs-find".to_string()));

    assert!(function_names.contains(&"sys-uname".to_string()));
    assert!(function_names.contains(&"sys-ps".to_string()));
    assert!(function_names.contains(&"sys-df".to_string()));

    assert!(function_names.contains(&"net-ping".to_string()));
}

#[test]
fn test_registry_cloning() {
    let registry1 = test_registry();
    let function_names1 = registry1.get_supported_function_names();

    let registry2 = test_registry();
    let _function_names2 = registry2.get_supported_function_names();

    let expected_count = 13;
    assert_eq!(function_names1.len(), expected_count);

    let expected_functions = vec![
        "git-status",
        "git-add",
        "git-commit",
        "git-push",
        "git-diff",
        "fs-ls",
        "fs-pwd",
        "fs-cat",
        "fs-find",
        "sys-uname",
        "sys-ps",
        "sys-df",
        "net-ping",
    ];

    for expected_func in &expected_functions {
        assert!(function_names1.contains(&expected_func.to_string()));
    }

    for func_name in &function_names1 {
        assert!(
            !func_name.starts_with("test-")
                && !func_name.starts_with("set-")
                && !func_name.starts_with("auto-")
        );
    }

    assert_eq!(function_names1.len(), expected_functions.len());
}

#[test]
fn test_double_initialization() {
    let registry1 = test_registry();
    let registry2 = test_registry();

    let functions1 = registry1.get_supported_function_names();
    let functions2 = registry2.get_supported_function_names();

    assert_eq!(functions1.len(), functions2.len());
    for func_name in &functions1 {
        assert!(functions2.contains(func_name));
    }
    for func_name in &functions2 {
        assert!(functions1.contains(func_name));
    }
}

#[test]
fn global_test_dynamic_function_registration() {
    let mut registry = test_registry();

    let custom_function = FunctionDefinition {
        name: "test-custom-function".to_string(),
        description: "Test custom function".to_string(),
        parameters: vec![],
    };

    assert!(registry.register_function(custom_function.clone()).is_ok());
    assert!(registry.contains_function("test-custom-function"));
}

#[test]
fn test_dynamic_executor_registration() {
    let mut registry = test_registry();

    let test_function = FunctionDefinition {
        name: "test-function".to_string(),
        description: "Test function".to_string(),
        parameters: vec![],
    };

    let executor = custom(&["test-function"]);

    assert!(registry.register_function(test_function).is_ok());
    assert!(registry.register_executor("test-function".to_string(), executor).is_ok());
    assert!(registry.contains_function("test-function"));
}

#[test]
fn test_tool_set_registration() {
    let mut registry = test_registry();

    let functions = vec![
        FunctionDefinition {
            name: "set-function-1".to_string(),
            description: "Test set function 1".to_string(),
            parameters: vec![],
        },
        FunctionDefinition {
            name: "set-function-2".to_string(),
            description: "Test set function 2".to_string(),
            parameters: vec![],
        },
    ];

    let executor = custom(&["set-function-1", "set-function-2"]);

    for function in functions {
        assert!(registry.register_function(function).is_ok());
    }
    for function_name in &executor.supported_functions() {
        assert!(registry.register_executor(function_name.clone(), executor.clone()).is_ok());
    }

    assert!(registry.contains_function("set-function-1"));
    assert!(registry.contains_function("set-function-2"));
}

#[test]
fn test_function_unregistration() {
    let mut registry = test_registry();

    let test_function = FunctionDefinition {
        name: "test-unregister".to_string(),
        description: "Test function for unregistration".to_string(),
        parameters: vec![],
    };

    let executor = custom(&["test-unregister"]);

    assert!(registry.register_function(test_function.clone()).is_ok());
    assert!(registry.register_executor("test-unregister".to_string(), executor).is_ok());
    assert!(registry.contains_function("test-unregister"));

    registry.unregister_function("test-unregister");
    assert!(!registry.contains_function("test-unregister"));
}

#[test]
fn test_ensure_initialized() {
    let mut manager = Manager::new();
    manager.reset();

    let test_function = FunctionDefinition {
        name: "auto-init-function".to_string(),
        description: "Auto init test function".to_string(),
        parameters: vec![],
    };

    assert!(manager.register_function(test_function).is_ok());

    let registry = manager.get_registry().unwrap();
    assert!(registry.contains_function("auto-init-function"));
    assert!(registry.contains_function("git-status"));
}

#[test]
fn initialization_is_idempotent() {
    let mut manager = Manager::new();
    assert!(!manager.is_initialized());
    assert_eq!(
        manager.get_registry().err(),
        Some(AiError::Registry(RegistryError::NotInitialized))
    );
    assert!(manager.clone_functions().is_empty());
    assert!(manager.initialize().is_ok());
    assert!(manager.register_function(definition("extra")).is_ok());
    assert!(manager.initialize().is_ok());
    assert_eq!(manager.get_registry().unwrap().function_count(), 14);
    assert!(manager.force_reinitialize().is_ok());
    assert_eq!(manager.get_registry().unwrap().function_count(), 13);
    manager.reset();
    assert!(!manager.is_initialized());
}

#[test]
fn a_taken_name_is_refused_and_its_schema_stays() {
    let mut manager = Manager::new();
    let first = definition("dynamic");
    assert!(manager.register_function(first.clone()).is_ok());
    let mut second = definition("dynamic");
    second.description = "another".to_string();
    assert_eq!(
        manager.register_function(second),
        Err(AiError::Registry(RegistryError::AlreadyRegistered("dynamic".to_string())))
    );
    let registry = manager.get_registry().unwrap();
    assert_eq!(registry.get_function("dynamic"), Some(&first));
    assert_eq!(
        manager.register_function(definition("git-status")),
        Err(AiError::Registry(RegistryError::AlreadyRegistered("git-status".to_string())))
    );
}

#[test]
fn an_executor_is_bound_only_to_names_it_declares() {
    let mut manager = Manager::new();
    let executor = custom(&["mine"]);
    assert_eq!(
        manager.register_executor("other".to_string(), executor.clone()),
        Err(AiError::Registry(RegistryError::ContractViolation("other".to_string())))
    );
    assert!(manager.register_executor("mine".to_string(), executor.clone()).is_ok());
    let registry = manager.get_registry().unwrap();
    assert!(registry.supports_function("mine"));
    assert!(registry.contains_function("mine"));
    assert!(Arc::ptr_eq(&registry.get_executor("mine").unwrap(), &executor));
    assert!(!registry.supports_function("other"));
    assert!(!registry.contains_function("other"));
    assert!(manager.register_function(definition("mine")).is_ok());
    assert!(manager.unregister_function("mine").is_ok());
    assert!(!manager.get_registry().unwrap().supports_function("mine"));
    assert!(!manager.get_registry().unwrap().contains_function("mine"));
}

#[test]
fn filtered_copies_hold_the_selected_names() {
    let mut manager = Manager::new();
    manager.initialize().unwrap();
    let all = manager.get_registry_with_tools(&vec![]).unwrap();
    let mut all_names = all.get_function_names();
    all_names.sort();
    let mut full_names = manager.get_registry().unwrap().get_function_names();
    full_names.sort();
    assert_eq!(all_names, full_names);
    assert_eq!(all_names.len(), 13);

    let none = manager.get_registry_with_tools(&vec!["X".to_string()]).unwrap();
    assert!(none.get_function_names().is_empty());

    let mixed = manager
        .get_registry_with_tools(&vec![
            "fs-ls".to_string(),
            "X".to_string(),
            "net-ping".to_string(),
        ])
        .unwrap();
    let mut names = mixed.get_function_names();
    names.sort();
    assert_eq!(names, vec!["fs-ls".to_string(), "net-ping".to_string()]);
    assert!(mixed.supports_function("fs-ls"));
    assert!(!mixed.supports_function("git-status"));
}

#[test]
fn tool_sets_are_registered_whole_or_not_at_all() {
    let mut manager = Manager::new();
    manager.initialize().unwrap();

    let undeclared = manager.register_tool_set(
        vec![definition("set-a"), definition("set-b")],
        custom(&["set-a"]),
    );
    assert_eq!(
        undeclared,
        Err(AiError::Registry(RegistryError::ContractViolation("set-b".to_string())))
    );
    assert!(!manager.get_registry().unwrap().contains_function("set-a"));

    let taken = manager.register_tool_set(
        vec![definition("set-a"), definition("fs-ls")],
        custom(&["set-a", "fs-ls"]),
    );
    assert_eq!(
        taken,
        Err(AiError::Registry(RegistryError::AlreadyRegistered("fs-ls".to_string())))
    );
    assert!(!manager.get_registry().unwrap().contains_function("set-a"));

    let twice = manager.register_tool_set(
        vec![definition("set-a"), definition("set-a")],
        custom(&["set-a"]),
    );
    assert_eq!(
        twice,
        Err(AiError::Registry(RegistryError::AlreadyRegistered("set-a".to_string())))
    );
    assert!(!manager.get_registry().unwrap().contains_function("set-a"));

    assert!(manager
        .register_tool_set(vec![definition("set-a"), definition("set-b")], custom(&["set-a", "set-b"]))
        .is_ok());
    let registry = manager.get_registry().unwrap();
    assert!(registry.contains_function("set-a") && registry.contains_function("set-b"));
    assert!(registry.supports_function("set-a") && registry.supports_function("set-b"));
}

#[test]
fn disjoint_tool_sets_are_all_kept() {
    let mut manager = Manager::new();
    manager.initialize().unwrap();
    let before = manager.get_registry().unwrap().function_count();
    let sets = 10;
    let each = 3;
    for i in 0..sets {
        let names: Vec<String> = (0..each).map(|j| format!("concurrent-tool-{}-{}", i, j)).collect();
        let refs: Vec<&str> = names.iter().map(|n| n.as_str()).collect();
        let functions = names.iter().map(|n| definition(n)).collect();
        assert!(manager.register_tool_set(functions, custom(&refs)).is_ok());
    }
    let registry = manager.get_registry().unwrap();
    assert_eq!(registry.function_count(), before + sets * each);
    for i in 0..sets {
        for j in 0..each {
            assert!(registry.contains_function(&format!("concurrent-tool-{}-{}", i, j)));
        }
    }
}

#[test]
fn calls_go_to_the_bound_executor() {
    let mut manager = Manager::new();
    manager
        .register_tool_set(vec![definition("mine")], custom(&["mine"]))
        .unwrap();
    let call = FunctionCall {
        index: Some(0),
        id: "c1".to_string(),
        type_tag: "function".to_string(),
        function: FunctionCallInfo { name: "mine".to_string(), arguments: "{}".to_string() },
    };
    match manager.execute_function(&call, &Platform::Linux).unwrap() {
        ExecutorStep::Done(result) => assert_eq!(result.result, JsonValue::text("ok")),
        ExecutorStep::Run(_) => panic!("the test executor runs no command"),
    }
    let mut unknown = call.clone();
    unknown.function.name = "nobody".to_string();
    assert_eq!(
        manager.execute_function(&unknown, &Platform::Linux).err(),
        Some(AiError::Registry(RegistryError::NotFound("nobody".to_string())))
    );
    let mut builtin = call.clone();
    builtin.function.name = "fs-pwd".to_string();
    match manager.execute_function(&builtin, &Platform::Linux).unwrap() {
        ExecutorStep::Run(pending) => {
            assert_eq!(pending.request.program, "pwd");
            assert_eq!(pending.request.timeout_seconds, 5);
        }
        ExecutorStep::Done(_) => panic!("fs-pwd needs a command"),
    }
}
