use orion_ai::config::structures::{default_thread_summary_keywords, key_variable};
use orion_ai::config::{
    AiConfig, ConfigExt, ProviderConfig, ProviderTable, RoleConfig, RoleConfigManager,
    RoutingRules, RulesConfig, ThreadConfig, UsageLimits,
};
use orion_ai::error::{AiErrReason, AiError};
use orion_ai::provider::AiProviderType;
use orion_ai::roleid::AiRoleID;
use orion_ai::text_order::{rank_texts, sorted_once, Rank};

#[test]
fn test_config_from_env() {
    let config = AiConfig::from_env();

    assert!(config.providers.contains_key(&AiProviderType::OpenAi));
    assert!(config.providers.contains_key(&AiProviderType::DeepSeek));
    assert!(config.providers.contains_key(&AiProviderType::Mock));

    assert_eq!(config.routing.simple, "gpt-4o-mini");
    assert_eq!(config.routing.complex, "gpt-4o");
    assert_eq!(config.routing.free, "deepseek-chat");
}

#[test]
fn test_get_api_key() {
    let config = AiConfig::from_env();

    assert_eq!(
        config.get_api_key(AiProviderType::OpenAi, Some("test_openai_key".to_string())),
        Some("${OPENAI_API_KEY}".to_string())
    );

    assert_eq!(config.get_api_key(AiProviderType::Anthropic, None), None);

    assert_eq!(
        config.get_api_key(AiProviderType::Mock, Some("mock_value".to_string())),
        Some("mock".to_string())
    );
}

#[test]
fn test_config_without_file() {
    let config = AiConfig::from_env();

    assert!(config.providers.contains_key(&AiProviderType::OpenAi));
    assert!(config.providers.contains_key(&AiProviderType::DeepSeek));
    assert_eq!(config.routing.simple, "gpt-4o-mini");

    println!("✅ Config works without configuration file");
}

#[test]
fn test_config_example() {
    let config = AiConfig::example();

    assert!(config.providers.contains_key(&AiProviderType::OpenAi));
    assert!(config.providers.contains_key(&AiProviderType::DeepSeek));
    assert!(config.providers.contains_key(&AiProviderType::Glm));
    assert!(config.providers.contains_key(&AiProviderType::Kimi));

    let openai_config = config.providers.get(&AiProviderType::OpenAi).unwrap();
    assert!(openai_config.enabled);
    assert_eq!(openai_config.api_key, "${SEC_OPENAI_API_KEY}");

    let deepseek_config = config.providers.get(&AiProviderType::DeepSeek).unwrap();
    assert!(deepseek_config.enabled);
    assert_eq!(deepseek_config.api_key, "${SEC_DEEPSEEK_API_KEY}");

    let glm_config = config.providers.get(&AiProviderType::Glm).unwrap();
    assert!(glm_config.enabled);
    assert_eq!(glm_config.api_key, "${SEC_GLM_API_KEY}");

    let kimi_config = config.providers.get(&AiProviderType::Kimi).unwrap();
    assert!(kimi_config.enabled);
    assert_eq!(kimi_config.api_key, "${SEC_KIMI_API_KEY}");

    assert_eq!(config.routing.simple, "gpt-4o-mini");
    assert_eq!(config.routing.complex, "gpt-4o");
    assert_eq!(config.routing.free, "deepseek-chat");
    assert_eq!(config.limits.review_budget, 2000);
    assert_eq!(config.limits.analysis_budget, 4000);

    println!("✅ AiConfig::example() works correctly");
}

#[test]
fn tests_test_config_validation() {
    let config = AiConfig::example();

    assert!(config.is_valid());

    let mut invalid_config = config;
    invalid_config.routing.simple = "".to_string();
    assert!(!invalid_config.is_valid());
}

#[test]
fn tests_test_enabled_providers() {
    let config = AiConfig::example();

    let enabled = config.enabled_providers();
    assert!(enabled.contains(&AiProviderType::OpenAi));
    assert!(enabled.contains(&AiProviderType::DeepSeek));
    assert!(enabled.contains(&AiProviderType::Glm));
    assert!(enabled.contains(&AiProviderType::Kimi));
}

#[test]
fn tests_test_budget_checking() {
    let config = AiConfig::example();

    assert!(config.has_analysis_budget(1000));
    assert!(!config.has_analysis_budget(5000));

    assert!(config.has_review_budget(1000));
    assert!(!config.has_review_budget(3000));
}

#[test]
fn traits_test_config_validation() {
    let config = AiConfig::example();

    assert!(config.is_valid());

    let mut invalid_config = config;
    invalid_config.routing.simple = "".to_string();
    assert!(!invalid_config.is_valid());
}

#[test]
fn traits_test_enabled_providers() {
    let config = AiConfig::example();

    let enabled = config.enabled_providers();
    assert!(enabled.contains(&AiProviderType::OpenAi));
    assert!(enabled.contains(&AiProviderType::DeepSeek));
    assert!(enabled.contains(&AiProviderType::Glm));
    assert!(enabled.contains(&AiProviderType::Kimi));
}

#[test]
fn traits_test_budget_checking() {
    let config = AiConfig::example();

    assert!(config.has_analysis_budget(1000));
    assert!(!config.has_analysis_budget(5000));

    assert!(config.has_review_budget(1000));
    assert!(!config.has_review_budget(3000));
}

#[test]
fn a_configuration_needs_providers_models_and_budgets() {
    let full = AiConfig::from_env();
    assert!(full.is_valid());
    assert_eq!(
        full.enabled_providers(),
        vec![AiProviderType::OpenAi, AiProviderType::Mock, AiProviderType::DeepSeek]
    );
    assert_eq!(full.providers.len(), 6);
    assert!(full.has_analysis_budget(4000));
    assert!(!full.has_analysis_budget(4001));
    assert!(full.has_review_budget(2000));
    assert!(!full.has_review_budget(2001));

    let mut bare = full.clone();
    bare.providers = ProviderTable::new();
    assert!(bare.providers.is_empty());
    assert!(!bare.is_valid());
    assert!(bare.enabled_providers().is_empty());
    let mut broke = full.clone();
    broke.limits = UsageLimits { review_budget: 0, analysis_budget: 1 };
    assert!(!broke.is_valid());
    let mut silent = full.clone();
    silent.routing = RoutingRules { free: String::new(), ..RoutingRules::default() };
    assert!(!silent.is_valid());
    assert_eq!(AiConfig::default(), full);
}

#[test]
fn the_table_keeps_one_configuration_for_each_provider() {
    let mut table = ProviderTable::new();
    assert_eq!(table.len(), 0);
    assert_eq!(table.insert(AiProviderType::Kimi, ProviderConfig::default()), None);
    let other = ProviderConfig { enabled: false, timeout: 7, ..ProviderConfig::default() };
    assert_eq!(table.insert(AiProviderType::Kimi, other.clone()), Some(ProviderConfig::default()));
    assert_eq!(table.len(), 1);
    assert_eq!(table.get(&AiProviderType::Kimi), Some(&other));
    assert_eq!(table.get(&AiProviderType::Glm), None);
    assert!(!table.contains_key(&AiProviderType::OpenAi));
    let d = ProviderConfig::default();
    assert_eq!((d.enabled, d.api_key.as_str(), d.base_url, d.timeout, d.priority),
        (true, "${OPENAI_API_KEY}", None, 30, None));
}

#[test]
fn keys_fall_back_to_the_environment() {
    let mut config = AiConfig::example();
    assert_eq!(
        config.get_api_key(AiProviderType::Groq, Some("from-env".to_string())),
        Some("from-env".to_string())
    );
    assert_eq!(config.get_api_key(AiProviderType::Groq, None), None);
    assert_eq!(config.get_api_key(AiProviderType::Ollama, None), Some("ollama".to_string()));
    assert_eq!(
        config.get_api_key(AiProviderType::Mock, Some("x".to_string())),
        Some("mock".to_string())
    );
    config.providers.insert(
        AiProviderType::Ollama,
        ProviderConfig { enabled: false, ..ProviderConfig::default() },
    );
    assert_eq!(config.get_api_key(AiProviderType::Ollama, Some("x".to_string())), None);
    assert_eq!(key_variable(AiProviderType::OpenAi), Some("OPENAI_API_KEY"));
    assert_eq!(key_variable(AiProviderType::Anthropic), Some("CLAUDE_API_KEY"));
    assert_eq!(key_variable(AiProviderType::DeepSeek), Some("DEEPSEEK_API_KEY"));
    assert_eq!(key_variable(AiProviderType::Groq), Some("GROQ_API_KEY"));
    assert_eq!(key_variable(AiProviderType::Kimi), Some("KIMI_API_KEY"));
    assert_eq!(key_variable(AiProviderType::Glm), Some("GLM_API_KEY"));
    assert_eq!(key_variable(AiProviderType::Ollama), None);
    assert_eq!(key_variable(AiProviderType::Mock), None);
}

#[test]
fn the_recording_configuration_is_completed() {
    let d = ThreadConfig::default();
    assert!(!d.enabled);
    assert_eq!(d.storage_path, "./threads");
    assert_eq!(d.filename_template, "thread-YYYY-MM-DD.md");
    assert_eq!((d.min_summary_length, d.max_summary_length), (200, 250));
    assert_eq!(d.summary_keywords.len(), 36);
    assert_eq!(d.summary_keywords[0], "总结");
    assert_eq!(d.summary_keywords[35], "to sum up");
    assert!(!d.inform_ai);

    let mut config = AiConfig::example();
    config.thread.storage_path = String::new();
    config.thread.min_summary_length = 0;
    config.thread.max_summary_length = 0;
    config.thread.summary_keywords =
        vec!["b".to_string(), "a".to_string(), "b".to_string(), "总".to_string(), "ab".to_string()];
    assert_eq!(config.validate_and_postprocess(), Ok(()));
    assert_eq!(config.thread.storage_path, "./threads");
    assert_eq!((config.thread.min_summary_length, config.thread.max_summary_length), (200, 250));
    assert_eq!(
        config.thread.summary_keywords,
        vec!["a".to_string(), "ab".to_string(), "b".to_string(), "总".to_string()]
    );

    let mut empty = AiConfig::example();
    empty.thread.summary_keywords = Vec::new();
    assert_eq!(empty.validate_and_postprocess(), Ok(()));
    let mut expected = default_thread_summary_keywords();
    expected.sort();
    expected.dedup();
    assert_eq!(empty.thread.summary_keywords, expected);

    let mut wrong = AiConfig::example();
    wrong.thread.min_summary_length = 300;
    wrong.thread.max_summary_length = 0;
    wrong.thread.summary_keywords = vec!["z".to_string(), "a".to_string()];
    assert_eq!(
        wrong.validate_and_postprocess(),
        Err(AiError::Config(
            "Thread min_summary_length cannot be greater than max_summary_length".to_string()
        ))
    );
    assert_eq!(wrong.thread.max_summary_length, 250);
    assert_eq!(wrong.thread.summary_keywords, vec!["z".to_string(), "a".to_string()]);
}

#[test]
fn texts_are_ordered_like_strings() {
    let samples = ["", "a", "ab", "b", "B", "é", "总结", "总", "z", "a\u{10000}", "a\u{ffff}"];
    for a in samples {
        for b in samples {
            let expected = match a.cmp(b) {
                std::cmp::Ordering::Less => Rank::Before,
                std::cmp::Ordering::Equal => Rank::Same,
                std::cmp::Ordering::Greater => Rank::After,
            };
            assert_eq!(rank_texts(a, b), expected, "{:?} against {:?}", a, b);
        }
    }
    let source: Vec<String> = samples.iter().chain(samples.iter()).map(|s| s.to_string()).collect();
    let mut expected = source.clone();
    expected.sort();
    expected.dedup();
    assert_eq!(sorted_once(&source), expected);
    assert_eq!(sorted_once(&Vec::new()), Vec::<String>::new());
}

#[test]
fn roles_are_found_by_name() {
    let manager = RoleConfigManager::default();
    assert_eq!(manager.default_role().as_str(), "galactiward");
    assert_eq!(manager.default_model(), "deepseek-chat");
    assert_eq!(
        manager.get_available_roles(),
        vec!["developer".to_string(), "operations".to_string(), "galactiward".to_string()]
    );
    assert!(manager.role_exists("operations"));
    assert!(!manager.role_exists("Operations"));
    assert_eq!(manager.get_role_config("none"), None);
    let role = manager.get_role_config("developer").unwrap();
    assert_eq!(role.name(), "developer");
    assert_eq!(role.description(), "专注于代码开发的技术专家");
    assert_eq!(
        role.system_prompt(),
        "你是一个专业的开发者，擅长高质量的代码实现、系统设计和技术问题解决。"
    );
    assert_eq!(role.used_model(), &None);
    assert_eq!(role.rules_path(), &Some("ai-rules/developer".to_string()));
    let roles = RoleConfig::example_roles();
    assert_eq!(roles.len(), 3);
    assert_eq!(
        roles.get("galactiward"),
        Some(&RoleConfig::new(
            "galactiward",
            "专注于Galaxy生态专家",
            "通过Galaxy资料，解决Galaxy问题",
            None,
            Some("ai-rules/galactiward".to_string())
        ))
    );
    let own = RoleConfigManager::new(AiRoleID::new("x"), "m".to_string(), roles);
    assert_eq!(own.roles().len(), 3);
    assert_eq!(own.default_role().id(), "x");
}

#[test]
fn rules_are_the_lines_that_hold_something() {
    let rules = RulesConfig::from_text("  first rule \n\n\t\nsecond\r\n   \nthird");
    assert_eq!(
        rules.rules,
        vec!["first rule".to_string(), "second".to_string(), "third".to_string()]
    );
    assert_eq!(RulesConfig::from_text("").rules, Vec::<String>::new());
    let many = RulesConfig::from_texts(&vec!["a\n b".to_string(), "\n".to_string(), "c".to_string()]);
    assert_eq!(many.rules, vec!["a".to_string(), "b".to_string(), "c".to_string()]);
}

#[test]
fn a_role_is_known_by_its_identifier() {
    let role = AiRoleID::new("developer");
    assert_eq!(role.id(), "developer");
    assert_eq!(role.as_str(), "developer");
    assert_eq!(role.description(), "ai-role: developer");
    assert_eq!(role, AiRoleID::new("developer"));
    assert_ne!(role, AiRoleID::new("operations"));
}

#[test]
fn request_errors_say_what_went_wrong() {
    assert_eq!(
        AiErrReason::RateLimitError("openai".to_string()).message(),
        "API rate limit exceeded for provider: openai"
    );
    assert_eq!(
        AiErrReason::TokenLimitError(5000, 4000).message(),
        "Token limit exceeded: 5000 tokens requested, max 4000"
    );
    assert_eq!(AiErrReason::ContextError("c".to_string()).message(), "Context collection failed: c");
    assert_eq!(
        AiErrReason::NoProviderAvailable.message(),
        "No suitable provider found for request"
    );
    assert_eq!(AiErrReason::InvalidModel("m".to_string()).message(), "Invalid model specified: m");
    assert_eq!(AiErrReason::SensitiveContentFiltered.message(), "Sensitive content filtered");
    assert_eq!(AiErrReason::ExecutionError("e".to_string()).message(), "Execution error: e");
    assert_eq!(AiErrReason::ToolCallError("t".to_string()).message(), "Tool call error: t");
    assert_eq!(AiErrReason::ToolGetError("g".to_string()).message(), "Tool get error: g");
    assert_eq!(AiErrReason::InvalidInput("i".to_string()).message(), "Invalid input: i");
    assert_eq!(AiErrReason::PermissionDenied("p".to_string()).message(), "Permission denied: p");
    assert_eq!(AiErrReason::InternalError("x".to_string()).message(), "Internal error: x");
    assert_eq!(AiError::Ai(AiErrReason::InvalidModel("m".to_string())).message(), "Invalid model specified: m");
    assert_eq!(AiError::Config("bad".to_string()).message(), "bad");
}
