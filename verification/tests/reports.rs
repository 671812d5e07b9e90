use orion_ai::decimal::Decimal;
use orion_ai::provider::FunctionResult;
use orion_ai::json::{JsonMember, JsonValue};
use orion_ai::types::diagnosis::{
    DiagnosticConfig, DiagnosticDepth, DiagnosticReport, IoMetrics, IssueSeverity, NetworkMetrics,
    Recommendation, SystemIssue, SystemIssueType,
};
use orion_ai::types::result::{ExecutionResult, ExecutionResultBuilder, ExecutionStatus};

fn issue(severity: IssueSeverity) -> SystemIssue {
    SystemIssue {
        issue_type: SystemIssueType::HighCpuUsage,
        description: "CPU使用率过高".to_string(),
        severity,
        metrics: Vec::new(),
        recommendations: vec!["检查高CPU进程".to_string()],
    }
}

fn advice() -> Recommendation {
    Recommendation {
        title: "优化CPU使用".to_string(),
        description: "建议检查和优化高CPU使用进程".to_string(),
        priority: 3,
        steps: vec!["使用top命令检查CPU使用".to_string()],
        expected_outcome: "CPU使用率降低到正常范围".to_string(),
    }
}

#[test]
fn test_diagnostic_report() {
    let mut report = DiagnosticReport::new(DiagnosticDepth::Standard, 1431648000);

    report.add_issue(issue(IssueSeverity::Warning));
    report.add_recommendation(advice());

    assert_eq!(report.issues_identified.len(), 1);
    assert_eq!(report.recommendations.len(), 1);
    assert!(!report.has_critical_issues());

    let summary = report.summary();
    assert!(summary.contains("Diagnostic Report"));
    assert!(summary.contains("标准诊断级别"));
}

#[test]
fn test_diagnostic_report_formatted_report() {
    let mut report = DiagnosticReport::new(DiagnosticDepth::Standard, 1431648000);

    report.add_issue(issue(IssueSeverity::Warning));
    report.add_recommendation(advice());

    let formatted = report.formatted_report();

    assert!(formatted.contains("系统诊断报告"));
    assert!(formatted.contains("CPU使用率过高"));
    assert!(formatted.contains("优化CPU使用"));
    assert!(formatted.contains("严重程度: 警告"));
    assert!(formatted.contains("优先级: 3"));
}

#[test]
fn test_default_implementations() {
    let default_depth = DiagnosticDepth::default();
    assert_eq!(default_depth, DiagnosticDepth::Basic);

    let default_config = DiagnosticConfig::default();
    assert!(default_config.is_valid());

    let custom_config = DiagnosticConfig {
        check_basic_info: true,
        check_processes: false,
        check_io_performance: true,
        check_network: false,
        sampling_count: 1,
        sampling_interval: 1,
        timeout_seconds: 10,
    };
    let custom_report = DiagnosticReport::with_config(custom_config, 0);
    assert!(matches!(custom_report.mode, DiagnosticDepth::Custom(_)));
}

#[test]
fn the_summary_is_written_in_full() {
    let mut report = DiagnosticReport::new(DiagnosticDepth::Advanced, 1431648000);
    report.execution_summary.total_duration_seconds = 12;
    report.add_issue(issue(IssueSeverity::Critical));
    assert_eq!(
        report.summary(),
        "Diagnostic Report (2015-05-15 00:00:00 UTC) - Mode: 高级诊断级别, Issues: 1, Recommendations: 0, Duration: 12.00s"
    );
    assert!(report.has_critical_issues());
    let far = DiagnosticReport::new(DiagnosticDepth::Basic, i64::MAX);
    assert!(far.summary().starts_with("Diagnostic Report (9223372036854775807) - Mode: 基础诊断级别"));
}

#[test]
fn the_report_is_written_section_by_section() {
    let mut report = DiagnosticReport::new(DiagnosticDepth::Standard, 0);
    report.system_info.uptime = "up 3 days".to_string();
    report.system_info.hostname = Some("box".to_string());
    report.system_info.cpu_cores = Some(8);
    report.performance_metrics.cpu_metrics.usage_percent = Decimal { thousandths: 85250 };
    report.performance_metrics.memory_metrics.usage_percent = Decimal { thousandths: 40000 };
    report.performance_metrics.io_metrics = Some(IoMetrics::default());
    report.performance_metrics.network_metrics =
        Some(NetworkMetrics { tcp_connections: 7, udp_connections: 2, ..NetworkMetrics::default() });
    let mut two = issue(IssueSeverity::Error);
    two.recommendations = vec!["a".to_string(), "b".to_string()];
    report.add_issue(two);
    let mut none = issue(IssueSeverity::Info);
    none.recommendations = Vec::new();
    report.add_issue(none);
    let mut plain = advice();
    plain.steps = vec!["one".to_string(), "two".to_string()];
    report.add_recommendation(plain);
    report.execution_summary.total_duration_seconds = 3;
    report.execution_summary.successful_functions = 2;
    report.execution_summary.failed_functions = 1;
    let expected = "=== 系统诊断报告 ===\n时间: 1970-01-01 00:00:00 UTC\n诊断模式: 标准诊断级别\n\n\
--- 系统信息 ---\n运行时间: up 3 days\n主机名: box\nCPU核心数: 8\n\n\
--- 性能指标 ---\nCPU使用率: 85.2%\n内存使用率: 40.0%\nI/O等待: 0.0%\n磁盘使用率: 0.0%\nTCP连接数: 7\nUDP连接数: 2\n\n\
--- 识别的问题 ---\n1. CPU使用率过高\n   严重程度: 错误\n   建议: a, b\n\n2. CPU使用率过高\n   严重程度: 信息\n\n\
--- 建议 ---\n1. [优先级: 3] 优化CPU使用\n   建议检查和优化高CPU使用进程\n   操作步骤:\n   - one\n   - two\n   预期效果: CPU使用率降低到正常范围\n\n\
--- 执行摘要 ---\n总执行时间: 3.00秒\n成功执行函数: 2\n失败执行函数: 1\n执行状态: completed\n";
    assert_eq!(report.formatted_report(), expected);

    let empty = DiagnosticReport::new(DiagnosticDepth::Basic, 0);
    let text = empty.formatted_report();
    assert!(text.contains("--- 识别的问题 ---\n未发现系统问题\n\n--- 执行摘要 ---"));
    assert!(!text.contains("--- 建议 ---"));
    assert_eq!(
        report.issue_severity_summary(),
        vec![(IssueSeverity::Info, 1), (IssueSeverity::Error, 1)]
    );
    assert_eq!(report.count_severity(IssueSeverity::Warning), 0);
}

fn tool_call(name: &str, error: Option<&str>) -> FunctionResult {
    FunctionResult {
        name: name.to_string(),
        result: JsonValue::object(vec![JsonMember::flag("success", error.is_none())]),
        error: error.map(|e| e.to_string()),
    }
}

#[test]
fn test_types_module_imports() {
    let _result = ExecutionResult::new("test".to_string(), 0);
    let _builder = ExecutionResultBuilder::new();
}

#[test]
fn test_execution_result_creation() {
    let result = ExecutionResult::new("test content".to_string(), 0);

    assert_eq!(result.content, "test content");
    assert!(result.tool_calls.is_empty());
    assert!(result.is_success());
    assert!(!result.is_failed());
}

#[test]
fn test_execution_result_with_tool_calls() {
    let tool_call1 = tool_call("test_tool", None);
    let tool_call2 = tool_call("failed_tool", Some("test error"));

    let result = ExecutionResult::new("test".to_string(), 0)
        .with_tool_calls(vec![tool_call1.clone(), tool_call2]);

    assert_eq!(result.tool_calls.len(), 2);
    assert_eq!(result.successful_tool_calls_count(), 1);
    assert_eq!(result.failed_tool_calls_count(), 1);
    assert_eq!(result.status, ExecutionStatus::Partial);
}

#[test]
fn test_execution_result_builder() {
    let result = ExecutionResultBuilder::new()
        .content("test content".to_string())
        .add_tool_call(tool_call("test_tool", None))
        .status(ExecutionStatus::Success)
        .metadata("test_key".to_string(), "test_value".to_string())
        .build(77);

    assert_eq!(result.content, "test content");
    assert_eq!(result.tool_calls.len(), 1);
    assert_eq!(result.status, ExecutionStatus::Success);
    assert_eq!(result.metadata_value("test_key"), Some(&"test_value".to_string()));
    assert_eq!(result.timestamp, 77);
}

#[test]
fn test_execution_result_summary() {
    let result = ExecutionResult::new("test".to_string(), 0)
        .with_tool_calls(vec![tool_call("success_tool", None), tool_call("failed_tool", Some("error"))]);

    let summary = result.summary();
    assert!(summary.contains("Status: Partial"));
    assert!(summary.contains("Tool calls: 2"));
    assert!(summary.contains("1 success"));
    assert!(summary.contains("1 failed"));
}

#[test]
fn the_status_follows_the_calls() {
    let fresh = ExecutionResult::new("答案".to_string(), 100);
    assert_eq!(
        fresh.summary(),
        "Status: Success, Tool calls: 0 (0 success, 0 failed), Content length: 6"
    );
    assert_eq!(fresh.duration_since(160), 60);
    assert_eq!(fresh.duration_since(40), 0);
    assert_eq!(fresh.formatted_timestamp(), "1970-01-01 00:01:40 UTC");
    let failed = fresh.clone().with_tool_calls(vec![tool_call("a", Some("e")), tool_call("b", Some("f"))]);
    assert_eq!(failed.status, ExecutionStatus::Failed);
    assert!(failed.is_failed());
    let good = fresh.clone().with_tool_calls(vec![tool_call("a", None)]);
    assert_eq!(good.status, ExecutionStatus::Success);
    let forced = good.with_status(ExecutionStatus::Timeout);
    assert!(!forced.is_success());
    let noted = forced
        .with_metadata("k".to_string(), "one".to_string())
        .with_metadata("k".to_string(), "two".to_string());
    assert_eq!(noted.metadata.len(), 1);
    assert_eq!(noted.metadata_value("k"), Some(&"two".to_string()));
    assert_eq!(noted.metadata_value("other"), None);
    let built = ExecutionResultBuilder::new()
        .tool_calls(vec![tool_call("a", Some("e"))])
        .timestamp(5)
        .build(9);
    assert_eq!(built.status, ExecutionStatus::Success);
    assert_eq!(built.timestamp, 5);
}
