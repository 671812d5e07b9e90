use orion_ai::decimal::Decimal;
use orion_ai::exec_unit::diagnosis::{
    CallOutcome, DiagnosisError, DiagnosisRun, ProgressiveDiagnosis,
};
use orion_ai::json::{parse_json, JsonValue};
use orion_ai::provider::FunctionResult;
use orion_ai::types::diagnosis::{
    DiagnosticConfig, DiagnosticDepth, DiagnosticReport, IssueSeverity, NetworkMetrics,
    SystemIssueType,
};

fn returned(name: &str, result: &str) -> CallOutcome {
    CallOutcome::Returned(FunctionResult {
        name: name.to_string(),
        result: parse_json(result).unwrap(),
        error: None,
    })
}

fn run_all(
    diagnosis: &ProgressiveDiagnosis,
    answer: impl Fn(&str, usize) -> CallOutcome,
) -> (Vec<(String, String, u64)>, DiagnosisRun) {
    let mut run = diagnosis.start(1000);
    let mut calls = Vec::new();
    while let Some((call, timeout)) = diagnosis.next_call(&run) {
        let outcome = answer(&call.function.name, calls.len());
        calls.push((call.function.name.clone(), call.function.arguments.clone(), timeout));
        diagnosis.record(&mut run, outcome);
        assert!(calls.len() <= 7);
    }
    (calls, run)
}

#[test]
fn test_progressive_diagnosis_creation() {
    let config = DiagnosticConfig::basic();
    let diagnosis = ProgressiveDiagnosis::new(config);

    assert!(diagnosis.config().check_basic_info);
    assert!(!diagnosis.config().check_processes);
}

#[test]
fn test_progressive_diagnosis_from_depth() {
    let diagnosis = ProgressiveDiagnosis::from_depth(DiagnosticDepth::Standard);

    assert!(diagnosis.config().check_basic_info);
    assert!(diagnosis.config().check_processes);
    assert!(!diagnosis.config().check_io_performance);
}

#[test]
fn test_function_call_creation() {
    let config = DiagnosticConfig::basic();
    let diagnosis = ProgressiveDiagnosis::new(config);

    let call = diagnosis.create_function_call("sys-uptime", "{}");
    assert_eq!(call.function.name, "sys-uptime");
    assert_eq!(call.function.arguments, "{}");
    assert_eq!(call.index, Some(0));
    assert_eq!(call.type_tag, "function");
    assert!(call.id.starts_with("diagnosis_sys-uptime_"));
    assert_eq!(call.id.len(), "diagnosis_sys-uptime_".len() + 36);
    let again = diagnosis.create_function_call("sys-uptime", "{}");
    assert_ne!(call.id, again.id);
}

#[test]
fn a_call_is_known_by_its_identifier() {
    let call = ProgressiveDiagnosis::identified_call("sys-iostat", "{\"count\": 2}", "0a1b");
    assert_eq!(call.id, "diagnosis_sys-iostat_0a1b");
    assert_eq!(call.index, Some(0));
    assert_eq!(call.type_tag, "function");
    assert_eq!(call.function.name, "sys-iostat");
    assert_eq!(call.function.arguments, "{\"count\": 2}");
    assert_eq!(ProgressiveDiagnosis::identified_call("", "", "").id, "diagnosis__");
}

#[test]
fn the_depth_decides_the_calls() {
    let ok = |name: &str, _: usize| returned(name, "{}");
    let (calls, run) = run_all(&ProgressiveDiagnosis::from_depth(DiagnosticDepth::Basic), ok);
    assert_eq!(
        calls,
        vec![
            ("sys-uptime".to_string(), "{}".to_string(), 5),
            ("sys-meminfo".to_string(), "{}".to_string(), 5)
        ]
    );
    assert_eq!(run.executed, vec!["sys-uptime".to_string(), "sys-meminfo".to_string()]);

    let (calls, _) = run_all(&ProgressiveDiagnosis::from_depth(DiagnosticDepth::Advanced), ok);
    let names: Vec<&str> = calls.iter().map(|c| c.0.as_str()).collect();
    assert_eq!(
        names,
        vec![
            "sys-uptime",
            "sys-meminfo",
            "sys-proc-top",
            "sys-proc-top",
            "sys-proc-stats",
            "sys-iostat",
            "sys-netstat"
        ]
    );
    assert_eq!(calls[2].1, "{\"sort_by\": \"cpu\", \"limit\": 5}");
    assert_eq!(calls[3].1, "{\"sort_by\": \"memory\", \"limit\": 5}");
    assert_eq!(calls[5].1, "{\"count\": 3, \"interval\": 1}");
    assert_eq!(calls[5].2, 60);
    assert_eq!(calls[6].1, "{\"show_tcp\": true, \"show_udp\": true}");
    assert_eq!(calls[6].2, 30);
    for call in &calls {
        assert!(parse_json(&call.1).is_ok());
    }

    let custom = DiagnosticConfig {
        check_basic_info: false,
        check_processes: false,
        check_io_performance: true,
        check_network: false,
        sampling_count: 50,
        sampling_interval: 0,
        timeout_seconds: 1000,
    };
    let (calls, _) = run_all(&ProgressiveDiagnosis::new(custom), ok);
    assert_eq!(calls, vec![("sys-iostat".to_string(), "{\"count\": 10, \"interval\": 1}".to_string(), 120)]);
    let nothing = DiagnosticConfig { check_io_performance: false, ..custom };
    let (calls, run) = run_all(&ProgressiveDiagnosis::new(nothing), ok);
    assert!(calls.is_empty());
    assert_eq!(run.phase, 4);
}

#[test]
fn a_failed_call_ends_its_phase_only() {
    let diagnosis = ProgressiveDiagnosis::from_depth(DiagnosticDepth::Advanced);
    let (calls, run) = run_all(&diagnosis, |name, at| match at {
        0 => CallOutcome::TimedOut,
        2 => CallOutcome::Returned(FunctionResult {
            name: name.to_string(),
            result: JsonValue::Null,
            error: Some("no ps".to_string()),
        }),
        3 => CallOutcome::Failed("No executor found".to_string()),
        _ => returned(
            name,
            "{\"connection_stats\": {\"tcp_connections\": 12, \"udp_connections\": 4294967297, \"listening_ports\": \"x\"}}",
        ),
    });
    let names: Vec<&str> = calls.iter().map(|c| c.0.as_str()).collect();
    assert_eq!(names, vec!["sys-uptime", "sys-proc-top", "sys-proc-top", "sys-iostat", "sys-netstat"]);
    assert_eq!(run.executed, vec!["sys-proc-top".to_string(), "sys-netstat".to_string()]);
    assert_eq!(run.failed, 3);
    assert_eq!(
        run.failures,
        vec![
            DiagnosisError::Timeout(30, 30),
            DiagnosisError::FunctionExecutionFailed("no ps".to_string()),
            DiagnosisError::FunctionExecutionFailed("No executor found".to_string()),
        ]
    );
    assert_eq!(run.failures[0].message(), "超时: 30s 超过限制 30s");
    let report = diagnosis.finish(run, 1042);
    assert_eq!(report.execution_summary.status, "completed");
    assert_eq!(report.execution_summary.total_duration_seconds, 42);
    assert_eq!(report.execution_summary.successful_functions, 2);
    assert_eq!(report.execution_summary.failed_functions, 3);
    assert_eq!(
        report.execution_summary.executed_functions,
        vec!["sys-proc-top".to_string(), "sys-netstat".to_string()]
    );
    assert_eq!(report.performance_metrics.process_metrics, None);
    assert_eq!(report.performance_metrics.io_metrics, None);
    assert_eq!(
        report.performance_metrics.network_metrics,
        Some(NetworkMetrics {
            tcp_connections: 12,
            udp_connections: 1,
            listening_ports: 0,
            established_connections: 0,
            network_errors: 0
        })
    );
    assert_eq!(report.timestamp, 1000);
}

#[test]
fn results_of_the_basic_phase_fill_the_report() {
    let diagnosis = ProgressiveDiagnosis::from_depth(DiagnosticDepth::Basic);
    let (_, run) = run_all(&diagnosis, |name, _| {
        if name == "sys-uptime" {
            returned(
                name,
                "{\"uptime_output\": \"up 2 days\", \"load_data\": {\"load_average\": [0.5, \"x\", 2]}, \"cpu_data\": {\"usage_percent\": 91.25}}",
            )
        } else {
            returned(
                name,
                "{\"memory_data\": {\"total\": 1000, \"used\": 900, \"usage_percent\": 90}}",
            )
        }
    });
    let report = diagnosis.finish(run, 1000);
    assert_eq!(report.system_info.uptime, "up 2 days");
    assert_eq!(
        report.system_info.load_average,
        vec![Decimal { thousandths: 500 }, Decimal { thousandths: 2000 }]
    );
    assert_eq!(report.performance_metrics.memory_metrics.total_memory, 1000);
    assert_eq!(report.performance_metrics.memory_metrics.used_memory, 900);
    assert_eq!(report.issues_identified.len(), 2);
    assert_eq!(report.recommendations.len(), 2);
    assert_eq!(report.issues_identified[0].issue_type, SystemIssueType::HighCpuUsage);
    assert_eq!(report.issues_identified[0].description, "CPU使用率过高: 91.2%");
    assert_eq!(report.issues_identified[0].metrics[0].name, "cpu_usage_percent");
    assert_eq!(report.issues_identified[0].metrics[0].value, JsonValue::Number("91.25".to_string()));
    assert_eq!(report.issues_identified[1].issue_type, SystemIssueType::HighMemoryUsage);
    assert_eq!(report.issues_identified[1].description, "内存使用率过高: 90.0%");
    assert_eq!(report.recommendations[0].title, "优化CPU使用");
    assert_eq!(report.recommendations[1].title, "优化内存使用");
    assert_eq!(report.recommendations[1].priority, 3);
}

fn report_with_cpu(thousandths: i64) -> DiagnosticReport {
    let mut report = DiagnosticReport::new(DiagnosticDepth::Standard, 0);
    report.performance_metrics.cpu_metrics.usage_percent = Decimal { thousandths };
    report
}

#[test]
fn the_rules_fire_over_their_thresholds() {
    let mut high = report_with_cpu(85000);
    ProgressiveDiagnosis::analyze_and_recommend(&mut high);
    let cpu_issues: Vec<_> = high
        .issues_identified
        .iter()
        .filter(|i| i.issue_type == SystemIssueType::HighCpuUsage)
        .collect();
    assert_eq!(cpu_issues.len(), 1);
    assert_eq!(cpu_issues[0].severity, IssueSeverity::Warning);
    assert_eq!(cpu_issues[0].description, "CPU使用率过高: 85.0%");
    assert_eq!(
        cpu_issues[0].recommendations,
        vec!["检查高CPU进程".to_string(), "考虑终止不必要的进程".to_string()]
    );
    assert!(high.recommendations.len() >= 1);
    assert_eq!(high.recommendations[0].expected_outcome, "CPU使用率降低到正常范围");

    let mut normal = report_with_cpu(50000);
    ProgressiveDiagnosis::analyze_and_recommend(&mut normal);
    assert!(normal.issues_identified.is_empty());
    assert!(normal.recommendations.is_empty());

    let mut edge = report_with_cpu(80000);
    edge.performance_metrics.memory_metrics.usage_percent = Decimal { thousandths: 85001 };
    ProgressiveDiagnosis::analyze_and_recommend(&mut edge);
    assert_eq!(edge.issues_identified.len(), 1);
    assert_eq!(edge.issues_identified[0].issue_type, SystemIssueType::HighMemoryUsage);
    assert_eq!(
        edge.recommendations[0].steps,
        vec!["使用free命令检查内存使用".to_string(), "清理不必要的缓存".to_string()]
    );
}

#[test]
fn the_engine_brings_its_configuration_within_the_ranges() {
    let written = DiagnosticConfig {
        check_basic_info: true,
        check_processes: false,
        check_io_performance: true,
        check_network: false,
        sampling_count: 50,
        sampling_interval: 0,
        timeout_seconds: 1000,
    };
    let diagnosis = ProgressiveDiagnosis::new(written);
    assert!(diagnosis.config().is_valid());
    assert_eq!(diagnosis.config(), written.within_ranges());
    let sampling = diagnosis.sampling_config();
    assert_eq!((sampling.count, sampling.interval, sampling.timeout), (10, 1, 60));
    let (calls, run) = run_all(&diagnosis, |name, _| returned(name, "{}"));
    let timeouts: Vec<u64> = calls.iter().map(|c| c.2).collect();
    assert_eq!(timeouts, vec![60, 60, 120]);
    assert_eq!(run.report.mode, DiagnosticDepth::Custom(written.within_ranges()));
}
