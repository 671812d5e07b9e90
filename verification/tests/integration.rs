use std::sync::{Arc, RwLock};

use orion_ai::error::AiResult;
use orion_ai::func::builtin::ToolExecutor;
use orion_ai::func::executor::{
    CommandOutcome, ExecutorStep, FunctionExecutor, PendingCommand,
};
use orion_ai::func::global::GlobalFunctionRegistry;
use orion_ai::func::system::platform::Platform;
use orion_ai::json::{JsonMember, JsonValue};
use orion_ai::provider::{FunctionCall, FunctionCallInfo, FunctionDefinition, FunctionResult};

struct NamedExecutor {
    names: Vec<String>,
    key: &'static str,
    answer: &'static str,
}

impl FunctionExecutor for NamedExecutor {
    fn supported_functions(&self) -> Vec<String> {
        self.names.clone()
    }

    fn get_function_schema(&self, function_name: &str) -> Option<FunctionDefinition> {
        if self.names.iter().any(|n| n == function_name) {
            Some(tool(function_name, "tool"))
        } else {
            None
        }
    }

    fn begin(&self, call: &FunctionCall, _platform: &Platform) -> AiResult<ExecutorStep> {
        Ok(ExecutorStep::Done(FunctionResult {
            name: call.function.name.clone(),
            result: JsonValue::object(vec![JsonMember::text(self.key, self.answer)]),
            error: None,
        }))
    }

    fn resume(
        &self,
        call: &FunctionCall,
        platform: &Platform,
        _pending: PendingCommand,
        _outcome: CommandOutcome,
    ) -> AiResult<ExecutorStep> {
        self.begin(call, platform)
    }
}

type Shared = GlobalFunctionRegistry<NamedExecutor>;

fn tool(name: &str, description: &str) -> FunctionDefinition {
    FunctionDefinition {
        name: name.to_string(),
        description: description.to_string(),
        parameters: vec![],
    }
}

fn executor(names: Vec<String>, key: &'static str, answer: &'static str) -> Arc<ToolExecutor<NamedExecutor>> {
    Arc::new(ToolExecutor::Custom(NamedExecutor { names, key, answer }))
}

fn fresh() -> Shared {
    let mut manager = Shared::new();
    manager.reset();
    assert!(manager.initialize().is_ok());
    manager
}

#[test]
fn function_registration_integration_test_dynamic_function_registration() {
    let mut manager = fresh();

    let custom_function = tool("test-custom-function", "Test custom function");

    assert!(manager.register_function(custom_function.clone()).is_ok());

    let registry = manager.get_registry().unwrap();
    assert!(registry.contains_function("test-custom-function"));

    assert!(manager.register_function(custom_function).is_err());
}

#[test]
fn builtin_and_custom_tools_are_selected_together() {
    let mut manager = fresh();
    assert!(manager
        .register_function(tool("mixed-custom-tool", "Custom tool for mixed test"))
        .is_ok());
    assert!(manager
        .register_executor(
            "mixed-custom-tool".to_string(),
            executor(vec!["mixed-custom-tool".to_string()], "mixed", "custom_result"),
        )
        .is_ok());

    let registry = manager
        .get_registry_with_tools(&vec![
            "git-status".to_string(),
            "mixed-custom-tool".to_string(),
            "fs-ls".to_string(),
        ])
        .unwrap();
    let function_names = registry.get_supported_function_names();

    assert!(function_names.contains(&"git-status".to_string()));
    assert!(function_names.contains(&"mixed-custom-tool".to_string()));
    assert!(function_names.contains(&"fs-ls".to_string()));
    assert_eq!(function_names.len(), 3);
    assert_eq!(registry.function_count(), 3);
}

#[test]
fn test_concurrent_registration() {
    let manager = Arc::new(RwLock::new(fresh()));
    let runtime = tokio::runtime::Builder::new_current_thread().build().unwrap();

    let results = runtime.block_on(async {
        let mut join_set = tokio::task::JoinSet::new();
        for i in 0..10 {
            let manager = manager.clone();
            join_set.spawn_blocking(move || {
                let function_name = format!("concurrent-tool-{}", i);
                let function = tool(&function_name, &format!("Concurrent test tool {}", i));
                let bound = executor(vec![function_name.clone()], "concurrent", "ok");

                let reg_result = manager.write().unwrap().register_function(function);
                let exec_result = manager.write().unwrap().register_executor(function_name, bound);

                (reg_result.is_ok(), exec_result.is_ok())
            });
        }
        let mut results = Vec::new();
        while let Some(result) = join_set.join_next().await {
            match result {
                Ok(pair) => results.push(pair),
                Err(e) => panic!("Task failed: {}", e),
            }
        }
        results
    });

    assert_eq!(results.len(), 10);
    for (reg_ok, exec_ok) in results {
        assert!(reg_ok, "Function registration failed");
        assert!(exec_ok, "Executor registration failed");
    }

    let registry = manager.read().unwrap().get_registry().unwrap();
    let function_names = registry.get_function_names();

    for i in 0..10 {
        let expected_name = format!("concurrent-tool-{}", i);
        assert!(function_names.contains(&expected_name), "Function {} not found", expected_name);
    }
}

#[test]
fn concurrent_tool_sets_lose_nothing() {
    let manager = Arc::new(RwLock::new(fresh()));
    let before = manager.read().unwrap().get_registry().unwrap().function_count();
    let runtime = tokio::runtime::Builder::new_current_thread().build().unwrap();
    let sets = 8;
    let each = 5;

    runtime.block_on(async {
        let mut join_set = tokio::task::JoinSet::new();
        for s in 0..sets {
            let manager = manager.clone();
            join_set.spawn_blocking(move || {
                let names: Vec<String> = (0..each).map(|k| format!("set-{}-tool-{}", s, k)).collect();
                let functions: Vec<FunctionDefinition> = names.iter().map(|n| tool(n, "tool")).collect();
                let bound = executor(names, "set", "ok");
                manager.write().unwrap().register_tool_set(functions, bound)
            });
        }
        while let Some(result) = join_set.join_next().await {
            assert_eq!(result.unwrap(), Ok(()));
        }
    });

    let registry = manager.read().unwrap().get_registry().unwrap();
    assert_eq!(registry.function_count(), before + sets * each);
    assert_eq!(registry.get_supported_function_names().len(), before + sets * each);
    for s in 0..sets {
        for k in 0..each {
            assert!(registry.contains_function(&format!("set-{}-tool-{}", s, k)));
        }
    }
}

#[test]
fn test_tool_set_integration() {
    let mut manager = fresh();

    let names = ["integration-tool-1", "integration-tool-2", "integration-tool-3"];
    let functions = vec![
        tool("integration-tool-1", "Integration tool 1"),
        tool("integration-tool-2", "Integration tool 2"),
        tool("integration-tool-3", "Integration tool 3"),
    ];
    let bound = executor(
        names.iter().map(|n| n.to_string()).collect(),
        "integration",
        "tool_set_result",
    );

    assert!(manager.register_tool_set(functions, bound).is_ok());

    let registry = manager.get_registry().unwrap();

    for tool_name in &names {
        assert!(registry.contains_function(tool_name), "Tool {} not found", tool_name);

        let function_call = FunctionCall {
            index: Some(0),
            id: format!("call_{}", tool_name),
            type_tag: "function".to_string(),
            function: FunctionCallInfo {
                name: tool_name.to_string(),
                arguments: "{}".to_string(),
            },
        };

        let result = match registry.execute_function(&function_call, &Platform::Linux).unwrap() {
            ExecutorStep::Done(result) => result,
            ExecutorStep::Run(pending) => panic!("unexpected command: {:?}", pending),
        };
        assert!(result.error.is_none(), "Tool {} execution failed", tool_name);
        assert_eq!(result.result.get_str("integration"), Some("tool_set_result"));
    }
}
