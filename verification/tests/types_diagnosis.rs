use orion_ai::types::diagnosis::{
    DiagnosticConfig, DiagnosticDepth, IssueSeverity, SamplingConfig,
};

#[test]
fn test_diagnostic_depth_config() {
    let basic_config = DiagnosticConfig::basic();
    assert!(basic_config.check_basic_info);
    assert!(!basic_config.check_processes);
    assert_eq!(basic_config.timeout_seconds, 5);
    assert!(basic_config.is_valid());

    let standard_config = DiagnosticConfig::standard();
    assert!(standard_config.check_basic_info);
    assert!(standard_config.check_processes);
    assert!(!standard_config.check_io_performance);
    assert_eq!(standard_config.timeout_seconds, 15);
    assert!(standard_config.is_valid());

    let advanced_config = DiagnosticConfig::advanced();
    assert!(advanced_config.check_basic_info);
    assert!(advanced_config.check_processes);
    assert!(advanced_config.check_io_performance);
    assert!(advanced_config.check_network);
    assert_eq!(advanced_config.timeout_seconds, 30);
    assert!(advanced_config.is_valid());
}

#[test]
fn test_diagnostic_depth_properties() {
    let basic = DiagnosticDepth::Basic;
    assert_eq!(basic.description(), "基础诊断级别");
    assert!(!basic.should_analyze_processes());
    assert!(!basic.should_analyze_io());
    assert_eq!(basic.timeout_seconds(), 5);

    let standard = DiagnosticDepth::Standard;
    assert!(standard.should_analyze_processes());
    assert!(!standard.should_analyze_io());
    assert_eq!(standard.timeout_seconds(), 15);

    let advanced = DiagnosticDepth::Advanced;
    assert!(advanced.should_analyze_processes());
    assert!(advanced.should_analyze_io());
    assert!(advanced.should_analyze_network());
    assert_eq!(advanced.timeout_seconds(), 30);

    let custom_config = DiagnosticConfig {
        check_basic_info: true,
        check_processes: true,
        check_io_performance: true,
        check_network: false,
        sampling_count: 4,
        sampling_interval: 2,
        timeout_seconds: 25,
    };
    let custom = DiagnosticDepth::custom(custom_config);
    assert!(custom.should_analyze_processes());
    assert!(custom.should_analyze_io());
    assert!(!custom.should_analyze_network());
    assert_eq!(custom.timeout_seconds(), 25);
}

#[test]
fn test_sampling_config() {
    let config = SamplingConfig::new(3, 2, 20);
    assert_eq!(config.count, 3);
    assert_eq!(config.interval, 2);
    assert_eq!(config.timeout, 20);
    assert_eq!(config.estimated_duration(), 24);
    assert!(config.is_valid());

    let depth = DiagnosticDepth::Advanced;
    let (count, interval) = depth.sampling_info();
    assert_eq!(count, 3);
    assert_eq!(interval, 1);
}

#[test]
fn test_issue_severity_to_chinese() {
    assert_eq!(IssueSeverity::Critical.to_chinese(), "严重");
    assert_eq!(IssueSeverity::Warning.to_chinese(), "警告");
    assert_eq!(IssueSeverity::Info.to_chinese(), "信息");

    assert_eq!(IssueSeverity::severity_to_chinese(&IssueSeverity::Critical), "严重");
    assert_eq!(IssueSeverity::severity_to_chinese(&IssueSeverity::Warning), "警告");
    assert_eq!(IssueSeverity::severity_to_chinese(&IssueSeverity::Info), "信息");
}

#[test]
fn sampling_is_clamped_into_its_ranges() {
    let low = SamplingConfig::new(0, 0, 0);
    assert_eq!((low.count, low.interval, low.timeout), (1, 1, 5));
    let high = SamplingConfig::new(u32::MAX, u32::MAX, u64::MAX);
    assert_eq!((high.count, high.interval, high.timeout), (10, 5, 60));
    assert!(low.is_valid() && high.is_valid());
    assert_eq!(high.estimated_duration(), 9 * 5 + 60);
}

#[test]
fn depth_presets_decide_the_phases() {
    assert!(!DiagnosticDepth::Basic.should_analyze_processes());
    assert!(DiagnosticDepth::Standard.should_analyze_processes());
    assert!(DiagnosticDepth::Advanced.should_analyze_processes());
    assert!(DiagnosticDepth::Advanced.should_analyze_io());
    assert!(!DiagnosticDepth::Standard.should_analyze_io());
    assert_eq!(DiagnosticDepth::default(), DiagnosticDepth::Basic);
    assert!(DiagnosticConfig::default().is_valid());
    assert_eq!(DiagnosticDepth::Standard.to_config(), DiagnosticConfig::standard());
    assert_eq!(DiagnosticDepth::Basic.label(), "basic");
    assert!(IssueSeverity::Info < IssueSeverity::Warning);
    assert!(IssueSeverity::Error < IssueSeverity::Critical);
    assert!(IssueSeverity::Critical.at_least(&IssueSeverity::Error));
}

#[test]
fn the_sampling_of_a_depth_is_that_of_its_configuration() {
    let basic = SamplingConfig::for_diagnostic_depth(&DiagnosticDepth::Basic);
    assert_eq!((basic.count, basic.interval, basic.timeout), (1, 1, 5));
    let advanced = SamplingConfig::for_diagnostic_depth(&DiagnosticDepth::Advanced);
    assert_eq!((advanced.count, advanced.interval, advanced.timeout), (3, 1, 30));
}

#[test]
fn figures_outside_their_ranges_are_replaced_by_the_nearer_bound() {
    let wide = DiagnosticConfig::new(true, false, true, false, 0, 100, 1000);
    assert!(wide.is_valid());
    assert_eq!(
        wide,
        DiagnosticConfig {
            check_basic_info: true,
            check_processes: false,
            check_io_performance: true,
            check_network: false,
            sampling_count: 1,
            sampling_interval: 5,
            timeout_seconds: 60,
        }
    );
    let low = DiagnosticConfig::new(false, true, false, true, 11, 0, 4);
    assert_eq!((low.sampling_count, low.sampling_interval, low.timeout_seconds), (10, 1, 5));
    assert!(low.check_processes && low.check_network && !low.check_basic_info);
    let kept = DiagnosticConfig::new(true, true, true, true, 10, 5, 5);
    assert_eq!((kept.sampling_count, kept.sampling_interval, kept.timeout_seconds), (10, 5, 5));
    for preset in [DiagnosticConfig::basic(), DiagnosticConfig::standard(), DiagnosticConfig::advanced()] {
        assert!(preset.is_valid());
        assert_eq!(preset.within_ranges(), preset);
    }
    let written = DiagnosticConfig { timeout_seconds: 3, ..DiagnosticConfig::basic() };
    assert!(!written.is_valid());
    assert_eq!(written.within_ranges().timeout_seconds, 5);
    assert_eq!(DiagnosticDepth::custom(written).timeout_seconds(), 5);
    assert_eq!(DiagnosticDepth::custom(written).to_config(), written.within_ranges());
}
