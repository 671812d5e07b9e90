//! The types of a system diagnosis: how deep it goes, what it samples,
//! and the report it produces.

use vstd::prelude::*;
use crate::decimal::{tenths_text, Decimal};
use crate::json::JsonMember;
use crate::text::{append, decimal_text, join, joined, option_view, unsigned_text, views};

verus! {

/// The switches and the sampling of one diagnosis.
///
/// [`DiagnosticConfig::new`], the configurations of the fixed depths and
/// [`DiagnosticConfig::within_ranges`] give figures within their ranges,
/// and a diagnosis brings the configuration that it is given within them.
/// [`DiagnosticConfig::is_valid`] tests a value that was written field by
/// field.
#[derive(Debug, Clone, Copy, PartialEq, Eq, Structural)]
pub struct DiagnosticConfig {
    /// Whether the basic facts are collected.
    pub check_basic_info: bool,
    /// Whether the processes are analysed.
    pub check_processes: bool,
    /// Whether input and output are sampled.
    pub check_io_performance: bool,
    /// Whether the network is sampled.
    pub check_network: bool,
    /// The number of samples.
    pub sampling_count: u32,
    /// The seconds between two samples.
    pub sampling_interval: u32,
    /// The seconds that one call may take.
    pub timeout_seconds: u64,
}

/// How deep a diagnosis goes.
#[derive(Debug, Clone, Copy, PartialEq, Eq, Structural)]
pub enum DiagnosticDepth {
    /// The basic facts only.
    Basic,
    /// The basic facts and the processes.
    Standard,
    /// Everything: processes, input and output, network.
    Advanced,
    /// What the given configuration says.
    Custom(DiagnosticConfig),
}

/// The configuration of the basic depth.
pub open spec fn basic_config() -> DiagnosticConfig {
    DiagnosticConfig {
        check_basic_info: true,
        check_processes: false,
        check_io_performance: false,
        check_network: false,
        sampling_count: 1,
        sampling_interval: 1,
        timeout_seconds: 5,
    }
}

/// The configuration of the standard depth.
pub open spec fn standard_config() -> DiagnosticConfig {
    DiagnosticConfig {
        check_basic_info: true,
        check_processes: true,
        check_io_performance: false,
        check_network: false,
        sampling_count: 2,
        sampling_interval: 1,
        timeout_seconds: 15,
    }
}

/// The configuration of the advanced depth.
pub open spec fn advanced_config() -> DiagnosticConfig {
    DiagnosticConfig {
        check_basic_info: true,
        check_processes: true,
        check_io_performance: true,
        check_network: true,
        sampling_count: 3,
        sampling_interval: 1,
        timeout_seconds: 30,
    }
}

/// Whether count, interval and timeout are within their ranges.
pub open spec fn sampling_in_range(count: u32, interval: u32, timeout: u64) -> bool {
    1 <= count <= 10 && 1 <= interval <= 5 && 5 <= timeout <= 60
}

/// The seconds that `count` samples take, `interval` apart, with `timeout`
/// for the last.
pub open spec fn duration_of(count: u32, interval: u32, timeout: u64) -> int {
    (count - 1) * interval + timeout
}

/// `x`, or the nearer bound where `x` is outside `lo ..= hi`.
pub open spec fn clamped(x: int, lo: int, hi: int) -> int {
    if x < lo {
        lo
    } else if x > hi {
        hi
    } else {
        x
    }
}

/// Whether the figures of a configuration are within their ranges: from
/// 1 to 10 samples, from 1 to 5 seconds apart, and from 5 to 60 seconds
/// for a call.
pub open spec fn config_in_range(config: DiagnosticConfig) -> bool {
    sampling_in_range(config.sampling_count, config.sampling_interval, config.timeout_seconds)
}

/// The configuration with each figure that is outside its range replaced
/// by the nearer bound.
pub open spec fn config_within_ranges(config: DiagnosticConfig) -> DiagnosticConfig {
    DiagnosticConfig {
        check_basic_info: config.check_basic_info,
        check_processes: config.check_processes,
        check_io_performance: config.check_io_performance,
        check_network: config.check_network,
        sampling_count: clamped(config.sampling_count as int, 1, 10) as u32,
        sampling_interval: clamped(config.sampling_interval as int, 1, 5) as u32,
        timeout_seconds: clamped(config.timeout_seconds as int, 5, 60) as u64,
    }
}

/// Bringing a configuration within the ranges gives one that is within
/// them and changes none that was; the configurations of the three fixed
/// depths are within them.
pub proof fn law_configurations_are_in_range(config: DiagnosticConfig)
    ensures
        config_in_range(config_within_ranges(config)),
        config_in_range(config) ==> config_within_ranges(config) == config,
        config_in_range(basic_config()),
        config_in_range(standard_config()),
        config_in_range(advanced_config()),
{
}

impl Default for DiagnosticConfig {
    fn default() -> (r: Self)
        ensures
            r == standard_config(),
    {
        DiagnosticConfig::standard()
    }
}

impl DiagnosticConfig {
    /// A configuration of the given phases and figures, each figure that
    /// is outside its range replaced by the nearer bound.
    pub fn new(
        check_basic_info: bool,
        check_processes: bool,
        check_io_performance: bool,
        check_network: bool,
        sampling_count: u32,
        sampling_interval: u32,
        timeout_seconds: u64,
    ) -> (r: Self)
        ensures
            r == config_within_ranges(
                DiagnosticConfig {
                    check_basic_info,
                    check_processes,
                    check_io_performance,
                    check_network,
                    sampling_count,
                    sampling_interval,
                    timeout_seconds,
                },
            ),
            config_in_range(r),
    {
        let sampling = SamplingConfig::new(sampling_count, sampling_interval, timeout_seconds);
        DiagnosticConfig {
            check_basic_info,
            check_processes,
            check_io_performance,
            check_network,
            sampling_count: sampling.count,
            sampling_interval: sampling.interval,
            timeout_seconds: sampling.timeout,
        }
    }

    /// The configuration with each figure that is outside its range
    /// replaced by the nearer bound.
    pub fn within_ranges(self) -> (r: Self)
        ensures
            r == config_within_ranges(self),
            config_in_range(r),
            config_in_range(self) ==> r == self,
    {
        DiagnosticConfig::new(
            self.check_basic_info,
            self.check_processes,
            self.check_io_performance,
            self.check_network,
            self.sampling_count,
            self.sampling_interval,
            self.timeout_seconds,
        )
    }

    /// The configuration of the basic depth.
    pub fn basic() -> (r: Self)
        ensures
            r == basic_config(),
    {
        DiagnosticConfig {
            check_basic_info: true,
            check_processes: false,
            check_io_performance: false,
            check_network: false,
            sampling_count: 1,
            sampling_interval: 1,
            timeout_seconds: 5,
        }
    }

    /// The configuration of the standard depth.
    pub fn standard() -> (r: Self)
        ensures
            r == standard_config(),
    {
        DiagnosticConfig {
            check_basic_info: true,
            check_processes: true,
            check_io_performance: false,
            check_network: false,
            sampling_count: 2,
            sampling_interval: 1,
            timeout_seconds: 15,
        }
    }

    /// The configuration of the advanced depth.
    pub fn advanced() -> (r: Self)
        ensures
            r == advanced_config(),
    {
        DiagnosticConfig {
            check_basic_info: true,
            check_processes: true,
            check_io_performance: true,
            check_network: true,
            sampling_count: 3,
            sampling_interval: 1,
            timeout_seconds: 30,
        }
    }

    /// Whether count, interval and timeout are within their ranges.
    pub fn is_valid(&self) -> (r: bool)
        ensures
            r == sampling_in_range(
                self.sampling_count,
                self.sampling_interval,
                self.timeout_seconds,
            ),
    {
        self.sampling_count >= 1 && self.sampling_count <= 10 && self.sampling_interval >= 1
            && self.sampling_interval <= 5 && self.timeout_seconds >= 5 && self.timeout_seconds
            <= 60
    }

    /// The seconds that the diagnosis is expected to take.
    pub fn estimated_duration(&self) -> (r: u64)
        requires
            self.sampling_count >= 1,
            duration_of(self.sampling_count, self.sampling_interval, self.timeout_seconds)
                <= u64::MAX,
        ensures
            r == duration_of(self.sampling_count, self.sampling_interval, self.timeout_seconds),
    {
        let between: u64 = (self.sampling_count as u64 - 1) * (self.sampling_interval as u64);
        between + self.timeout_seconds
    }
}

impl Default for DiagnosticDepth {
    fn default() -> (r: Self)
        ensures
            r == DiagnosticDepth::Basic,
    {
        DiagnosticDepth::Basic
    }
}

impl DiagnosticDepth {
    /// The configuration that the depth stands for.
    pub open spec fn config(self) -> DiagnosticConfig {
        match self {
            DiagnosticDepth::Basic => basic_config(),
            DiagnosticDepth::Standard => standard_config(),
            DiagnosticDepth::Advanced => advanced_config(),
            DiagnosticDepth::Custom(config) => config,
        }
    }

    /// The description of the depth.
    pub open spec fn description_text(self) -> Seq<char> {
        match self {
            DiagnosticDepth::Basic => "基础诊断级别"@,
            DiagnosticDepth::Standard => "标准诊断级别"@,
            DiagnosticDepth::Advanced => "高级诊断级别"@,
            DiagnosticDepth::Custom(_) => "自定义诊断级别"@,
        }
    }

    /// The short name of the depth.
    pub open spec fn label_text(self) -> Seq<char> {
        match self {
            DiagnosticDepth::Basic => "basic"@,
            DiagnosticDepth::Standard => "standard"@,
            DiagnosticDepth::Advanced => "advanced"@,
            DiagnosticDepth::Custom(_) => "custom"@,
        }
    }

    /// The description of the depth.
    pub fn description(&self) -> (r: &'static str)
        ensures
            r@ == self.description_text(),
    {
        match self {
            DiagnosticDepth::Basic => "基础诊断级别",
            DiagnosticDepth::Standard => "标准诊断级别",
            DiagnosticDepth::Advanced => "高级诊断级别",
            DiagnosticDepth::Custom(_) => "自定义诊断级别",
        }
    }

    /// The short name of the depth: `basic`, `standard`, `advanced` or
    /// `custom`.
    pub fn label(&self) -> (r: &'static str)
        ensures
            r@ == self.label_text(),
    {
        match self {
            DiagnosticDepth::Basic => "basic",
            DiagnosticDepth::Standard => "standard",
            DiagnosticDepth::Advanced => "advanced",
            DiagnosticDepth::Custom(_) => "custom",
        }
    }

    /// The configuration that the depth stands for.
    pub fn to_config(&self) -> (r: DiagnosticConfig)
        ensures
            r == self.config(),
    {
        match self {
            DiagnosticDepth::Basic => DiagnosticConfig::basic(),
            DiagnosticDepth::Standard => DiagnosticConfig::standard(),
            DiagnosticDepth::Advanced => DiagnosticConfig::advanced(),
            DiagnosticDepth::Custom(config) => *config,
        }
    }

    /// The depth that a configuration of one's own makes, its figures
    /// brought within their ranges.
    pub fn custom(config: DiagnosticConfig) -> (r: Self)
        ensures
            r == DiagnosticDepth::Custom(config_within_ranges(config)),
            config_in_range(r.config()),
    {
        DiagnosticDepth::Custom(config.within_ranges())
    }

    /// Whether the processes are analysed at this depth.
    pub fn should_analyze_processes(&self) -> (r: bool)
        ensures
            r == self.config().check_processes,
    {
        match self {
            DiagnosticDepth::Basic => false,
            DiagnosticDepth::Standard => true,
            DiagnosticDepth::Advanced => true,
            DiagnosticDepth::Custom(config) => config.check_processes,
        }
    }

    /// Whether input and output are sampled at this depth.
    pub fn should_analyze_io(&self) -> (r: bool)
        ensures
            r == self.config().check_io_performance,
    {
        match self {
            DiagnosticDepth::Basic => false,
            DiagnosticDepth::Standard => false,
            DiagnosticDepth::Advanced => true,
            DiagnosticDepth::Custom(config) => config.check_io_performance,
        }
    }

    /// Whether the network is sampled at this depth.
    pub fn should_analyze_network(&self) -> (r: bool)
        ensures
            r == self.config().check_network,
    {
        match self {
            DiagnosticDepth::Basic => false,
            DiagnosticDepth::Standard => false,
            DiagnosticDepth::Advanced => true,
            DiagnosticDepth::Custom(config) => config.check_network,
        }
    }

    /// The seconds that one call may take at this depth.
    pub fn timeout_seconds(&self) -> (r: u64)
        ensures
            r == self.config().timeout_seconds,
    {
        self.to_config().timeout_seconds
    }

    /// The number of samples and the seconds between them at this depth.
    pub fn sampling_info(&self) -> (r: (u32, u32))
        ensures
            r.0 == self.config().sampling_count,
            r.1 == self.config().sampling_interval,
    {
        let config = self.to_config();
        (config.sampling_count, config.sampling_interval)
    }
}

/// How a volatile figure is measured: how often, how far apart, and for
/// how long at most.
#[derive(Debug, Clone, Copy, PartialEq, Eq, Structural)]
pub struct SamplingConfig {
    /// The number of samples.
    pub count: u32,
    /// The seconds between two samples.
    pub interval: u32,
    /// The seconds after which a sample is given up.
    pub timeout: u64,
}

impl Default for SamplingConfig {
    fn default() -> (r: Self)
        ensures
            r == (SamplingConfig { count: 2, interval: 1, timeout: 10 }),
    {
        SamplingConfig { count: 2, interval: 1, timeout: 10 }
    }
}

impl SamplingConfig {
    /// A sampling within the ranges: each figure that is outside its range
    /// is replaced by the nearer bound.
    pub fn new(count: u32, interval: u32, timeout: u64) -> (r: Self)
        ensures
            r.count == clamped(count as int, 1, 10),
            r.interval == clamped(interval as int, 1, 5),
            r.timeout == clamped(timeout as int, 5, 60),
            sampling_in_range(r.count, r.interval, r.timeout),
    {
        SamplingConfig {
            count: if count < 1 {
                1
            } else if count > 10 {
                10
            } else {
                count
            },
            interval: if interval < 1 {
                1
            } else if interval > 5 {
                5
            } else {
                interval
            },
            timeout: if timeout < 5 {
                5
            } else if timeout > 60 {
                60
            } else {
                timeout
            },
        }
    }

    /// The sampling that a depth stands for, as its configuration gives it.
    pub fn for_diagnostic_depth(depth: &DiagnosticDepth) -> (r: Self)
        ensures
            r.count == depth.config().sampling_count,
            r.interval == depth.config().sampling_interval,
            r.timeout == depth.config().timeout_seconds,
    {
        let config = depth.to_config();
        SamplingConfig {
            count: config.sampling_count,
            interval: config.sampling_interval,
            timeout: config.timeout_seconds,
        }
    }

    /// The seconds that the sampling is expected to take.
    pub fn estimated_duration(&self) -> (r: u64)
        requires
            self.count >= 1,
            duration_of(self.count, self.interval, self.timeout) <= u64::MAX,
        ensures
            r == duration_of(self.count, self.interval, self.timeout),
    {
        let between: u64 = (self.count as u64 - 1) * (self.interval as u64);
        between + self.timeout
    }

    /// Whether count, interval and timeout are within their ranges.
    pub fn is_valid(&self) -> (r: bool)
        ensures
            r == sampling_in_range(self.count, self.interval, self.timeout),
    {
        self.count >= 1 && self.count <= 10 && self.interval >= 1 && self.interval <= 5
            && self.timeout >= 5 && self.timeout <= 60
    }
}

/// Every sampling that [`SamplingConfig::new`] can make is valid, and a
/// valid sampling takes at most 105 seconds.
pub proof fn law_sampling_is_bounded(count: u32, interval: u32, timeout: u64)
    ensures
        sampling_in_range(
            clamped(count as int, 1, 10) as u32,
            clamped(interval as int, 1, 5) as u32,
            clamped(timeout as int, 5, 60) as u64,
        ),
        sampling_in_range(count, interval, timeout) ==> 5 <= duration_of(count, interval, timeout)
            <= 105,
{
    if sampling_in_range(count, interval, timeout) {
        assert((count - 1) * interval <= 45) by (nonlinear_arith)
            requires
                1 <= count <= 10,
                1 <= interval <= 5,
        {
        }
        assert((count - 1) * interval >= 0) by (nonlinear_arith)
            requires
                1 <= count <= 10,
                1 <= interval <= 5,
        {
        }
    }
}

/// The kinds of finding.
#[derive(Debug, Clone, PartialEq)]
pub enum SystemIssueType {
    HighCpuUsage,
    HighMemoryUsage,
    HighIoWait,
    LowDiskSpace,
    NetworkIssues,
    ProcessAnomalies,
    Other(String),
}

/// How grave a finding is, from least to most.
#[derive(Debug, Clone, Copy, PartialEq, Eq, Hash, PartialOrd, Ord, Structural)]
pub enum IssueSeverity {
    Info,
    Warning,
    Error,
    Critical,
}

impl IssueSeverity {
    /// The place of the severity in the order, from 0 for `Info`.
    pub open spec fn rank(self) -> nat {
        match self {
            IssueSeverity::Info => 0,
            IssueSeverity::Warning => 1,
            IssueSeverity::Error => 2,
            IssueSeverity::Critical => 3,
        }
    }

    /// The name of the severity in Chinese.
    pub open spec fn chinese_text(self) -> Seq<char> {
        match self {
            IssueSeverity::Info => "信息"@,
            IssueSeverity::Warning => "警告"@,
            IssueSeverity::Error => "错误"@,
            IssueSeverity::Critical => "严重"@,
        }
    }

    /// The place of the severity in the order, from 0 for `Info`.
    pub fn level(&self) -> (r: u8)
        ensures
            r == self.rank(),
    {
        match self {
            IssueSeverity::Info => 0,
            IssueSeverity::Warning => 1,
            IssueSeverity::Error => 2,
            IssueSeverity::Critical => 3,
        }
    }

    /// Whether this severity is at least as grave as `other`.
    pub fn at_least(&self, other: &IssueSeverity) -> (r: bool)
        ensures
            r == (self.rank() >= other.rank()),
    {
        self.level() >= other.level()
    }

    /// The name of the severity in Chinese.
    pub fn to_chinese(&self) -> (r: &'static str)
        ensures
            r@ == self.chinese_text(),
    {
        match self {
            IssueSeverity::Info => "信息",
            IssueSeverity::Warning => "警告",
            IssueSeverity::Error => "错误",
            IssueSeverity::Critical => "严重",
        }
    }

    /// The name of the severity in Chinese, for reports.
    pub fn severity_to_chinese(&self) -> (r: &'static str)
        ensures
            r@ == self.chinese_text(),
    {
        self.to_chinese()
    }
}

/// The order of severities is total, and two severities of one rank are
/// the same.
pub proof fn law_severity_order(a: IssueSeverity, b: IssueSeverity, c: IssueSeverity)
    ensures
        a.rank() <= b.rank() || b.rank() <= a.rank(),
        a.rank() == b.rank() ==> a == b,
        a.rank() <= b.rank() && b.rank() <= c.rank() ==> a.rank() <= c.rank(),
        IssueSeverity::Info.rank() < IssueSeverity::Warning.rank() < IssueSeverity::Error.rank()
            < IssueSeverity::Critical.rank(),
{
}

/// A finding.
#[derive(Debug, Clone, PartialEq)]
pub struct SystemIssue {
    pub issue_type: SystemIssueType,
    pub description: String,
    pub severity: IssueSeverity,
    /// The figures that the finding rests on.
    pub metrics: Vec<JsonMember>,
    /// What can be done about it.
    pub recommendations: Vec<String>,
}

/// An advice.
#[derive(Debug, Clone, PartialEq)]
pub struct Recommendation {
    pub title: String,
    pub description: String,
    /// From 1 to 5; 5 is the most urgent.
    pub priority: u8,
    pub steps: Vec<String>,
    pub expected_outcome: String,
}

/// The basic facts of the system.
#[derive(Debug, Clone, PartialEq)]
pub struct SystemInfo {
    pub uptime: String,
    pub load_average: Vec<Decimal>,
    pub hostname: Option<String>,
    pub os_info: Option<String>,
    pub cpu_cores: Option<u32>,
}

/// The use of the processor, in percent.
#[derive(Debug, Clone, Copy, PartialEq, Eq, Structural)]
pub struct CpuMetrics {
    pub usage_percent: Decimal,
    pub system_percent: Decimal,
    pub user_percent: Decimal,
    pub idle_percent: Decimal,
}

/// The use of the swap space.
#[derive(Debug, Clone, Copy, PartialEq, Eq, Structural)]
pub struct SwapInfo {
    pub total_swap: u64,
    pub used_swap: u64,
    pub usage_percent: Decimal,
}

/// The use of the memory, in bytes and in percent.
#[derive(Debug, Clone, Copy, PartialEq, Eq, Structural)]
pub struct MemoryMetrics {
    pub total_memory: u64,
    pub used_memory: u64,
    pub free_memory: u64,
    pub usage_percent: Decimal,
    pub cached_memory: Option<u64>,
    pub swap_info: Option<SwapInfo>,
}

/// Input and output.
#[derive(Debug, Clone, Copy, PartialEq, Eq, Structural)]
pub struct IoMetrics {
    pub read_bytes_per_sec: Decimal,
    pub write_bytes_per_sec: Decimal,
    pub io_wait_percent: Decimal,
    pub disk_usage_percent: Decimal,
}

/// The connections of the network.
#[derive(Debug, Clone, Copy, PartialEq, Eq, Structural)]
pub struct NetworkMetrics {
    pub tcp_connections: u32,
    pub udp_connections: u32,
    pub listening_ports: u32,
    pub established_connections: u32,
    pub network_errors: u32,
}

/// The processes.
#[derive(Debug, Clone, Copy, PartialEq, Eq, Structural)]
pub struct ProcessMetrics {
    pub total_processes: u32,
    pub running_processes: u32,
    pub sleeping_processes: u32,
    pub zombie_processes: u32,
    pub high_cpu_processes: u32,
    pub high_memory_processes: u32,
}

/// The figures of a report.
#[derive(Debug, Clone, Copy, PartialEq, Eq, Structural)]
pub struct PerformanceMetrics {
    pub cpu_metrics: CpuMetrics,
    pub memory_metrics: MemoryMetrics,
    pub io_metrics: Option<IoMetrics>,
    pub network_metrics: Option<NetworkMetrics>,
    pub process_metrics: Option<ProcessMetrics>,
}

/// How the run of a diagnosis went.
#[derive(Debug, Clone, PartialEq)]
pub struct ExecutionSummary {
    /// The seconds from the start of the run to the evaluation of the rules.
    pub total_duration_seconds: u64,
    /// The names of the calls that succeeded, in order.
    pub executed_functions: Vec<String>,
    pub successful_functions: usize,
    pub failed_functions: usize,
    pub diagnostic_mode: String,
    /// Always `completed`; it says nothing about failed calls.
    pub status: String,
}

/// What is known of a system of which nothing was asked yet: no uptime,
/// a load of zero three times over, and nothing else.
pub open spec fn is_unknown_system(info: SystemInfo) -> bool {
    &&& info.uptime@.len() == 0
    &&& info.load_average@ == seq![
        Decimal { thousandths: 0 },
        Decimal { thousandths: 0 },
        Decimal { thousandths: 0 },
    ]
    &&& info.hostname is None
    &&& info.os_info is None
    &&& info.cpu_cores is None
}

impl Default for SystemInfo {
    fn default() -> (r: Self)
        ensures
            is_unknown_system(r),
    {
        SystemInfo {
            uptime: String::new(),
            load_average: vec![Decimal::from_whole(0), Decimal::from_whole(0), Decimal::from_whole(0)],
            hostname: None,
            os_info: None,
            cpu_cores: None,
        }
    }
}

impl Default for CpuMetrics {
    fn default() -> (r: Self)
        ensures
            r == default_cpu_metrics(),
    {
        CpuMetrics {
            usage_percent: Decimal::from_whole(0),
            system_percent: Decimal::from_whole(0),
            user_percent: Decimal::from_whole(0),
            idle_percent: Decimal::from_whole(100),
        }
    }
}

/// The processor at rest.
pub open spec fn default_cpu_metrics() -> CpuMetrics {
    CpuMetrics {
        usage_percent: Decimal { thousandths: 0 },
        system_percent: Decimal { thousandths: 0 },
        user_percent: Decimal { thousandths: 0 },
        idle_percent: Decimal { thousandths: 100_000 },
    }
}

/// No memory measured.
pub open spec fn default_memory_metrics() -> MemoryMetrics {
    MemoryMetrics {
        total_memory: 0,
        used_memory: 0,
        free_memory: 0,
        usage_percent: Decimal { thousandths: 0 },
        cached_memory: None,
        swap_info: None,
    }
}

/// No input and output measured.
pub open spec fn default_io_metrics() -> IoMetrics {
    IoMetrics {
        read_bytes_per_sec: Decimal { thousandths: 0 },
        write_bytes_per_sec: Decimal { thousandths: 0 },
        io_wait_percent: Decimal { thousandths: 0 },
        disk_usage_percent: Decimal { thousandths: 0 },
    }
}

/// No connections counted.
pub open spec fn default_network_metrics() -> NetworkMetrics {
    NetworkMetrics {
        tcp_connections: 0,
        udp_connections: 0,
        listening_ports: 0,
        established_connections: 0,
        network_errors: 0,
    }
}

/// No processes counted.
pub open spec fn default_process_metrics() -> ProcessMetrics {
    ProcessMetrics {
        total_processes: 0,
        running_processes: 0,
        sleeping_processes: 0,
        zombie_processes: 0,
        high_cpu_processes: 0,
        high_memory_processes: 0,
    }
}

/// The figures before anything was measured.
pub open spec fn default_performance_metrics() -> PerformanceMetrics {
    PerformanceMetrics {
        cpu_metrics: default_cpu_metrics(),
        memory_metrics: default_memory_metrics(),
        io_metrics: None,
        network_metrics: None,
        process_metrics: None,
    }
}

impl Default for MemoryMetrics {
    fn default() -> (r: Self)
        ensures
            r == default_memory_metrics(),
    {
        MemoryMetrics {
            total_memory: 0,
            used_memory: 0,
            free_memory: 0,
            usage_percent: Decimal::from_whole(0),
            cached_memory: None,
            swap_info: None,
        }
    }
}

impl Default for IoMetrics {
    fn default() -> (r: Self)
        ensures
            r == default_io_metrics(),
    {
        IoMetrics {
            read_bytes_per_sec: Decimal::from_whole(0),
            write_bytes_per_sec: Decimal::from_whole(0),
            io_wait_percent: Decimal::from_whole(0),
            disk_usage_percent: Decimal::from_whole(0),
        }
    }
}

impl Default for NetworkMetrics {
    fn default() -> (r: Self)
        ensures
            r == default_network_metrics(),
    {
        NetworkMetrics {
            tcp_connections: 0,
            udp_connections: 0,
            listening_ports: 0,
            established_connections: 0,
            network_errors: 0,
        }
    }
}

impl Default for ProcessMetrics {
    fn default() -> (r: Self)
        ensures
            r == default_process_metrics(),
    {
        ProcessMetrics {
            total_processes: 0,
            running_processes: 0,
            sleeping_processes: 0,
            zombie_processes: 0,
            high_cpu_processes: 0,
            high_memory_processes: 0,
        }
    }
}

impl Default for PerformanceMetrics {
    fn default() -> (r: Self)
        ensures
            r == default_performance_metrics(),
    {
        PerformanceMetrics {
            cpu_metrics: CpuMetrics::default(),
            memory_metrics: MemoryMetrics::default(),
            io_metrics: None,
            network_metrics: None,
            process_metrics: None,
        }
    }
}

/// The report of a diagnosis.
#[derive(Debug, Clone, PartialEq)]
pub struct DiagnosticReport {
    /// When the report was begun, in seconds since 1970 in universal time.
    pub timestamp: i64,
    /// The depth of the diagnosis.
    pub mode: DiagnosticDepth,
    pub system_info: SystemInfo,
    pub performance_metrics: PerformanceMetrics,
    pub issues_identified: Vec<SystemIssue>,
    pub recommendations: Vec<Recommendation>,
    pub execution_summary: ExecutionSummary,
}

/// How `chrono` writes a moment in universal time, in the form
/// `2015-05-15 00:00:00 UTC`; nothing for a count of seconds that is
/// outside the range of its calendar.
pub uninterp spec fn utc_text(seconds: i64) -> Option<Seq<char>>;

/// Writes a moment with `chrono`: `DateTime::from_timestamp(seconds, 0)`,
/// then `format("%Y-%m-%d %H:%M:%S UTC")`. The contract names the text;
/// it is `None` exactly where `from_timestamp` gives no moment.
#[verifier::external_body]
fn format_utc(seconds: i64) -> (r: Option<String>)
    ensures
        r matches Some(s) ==> utc_text(seconds) == Some(s@),
        r is None ==> utc_text(seconds) is None,
{
    chrono::DateTime::from_timestamp(seconds, 0).map(
        |moment| moment.format("%Y-%m-%d %H:%M:%S UTC").to_string(),
    )
}

/// A moment as it stands in a report: as `chrono` writes it, or as its
/// count of seconds where the calendar does not reach it.
pub open spec fn moment_text(seconds: i64) -> Seq<char> {
    match utc_text(seconds) {
        Some(s) => s,
        None => signed_text(seconds as int),
    }
}

/// A whole number in base ten, with a minus sign where it is negative.
pub open spec fn signed_text(n: int) -> Seq<char> {
    if n < 0 {
        seq!['-'] + decimal_text((-n) as nat)
    } else {
        decimal_text(n as nat)
    }
}

/// A whole number in base ten.
pub fn signed_number_text(n: i64) -> (out: String)
    ensures
        out@ == signed_text(n as int),
{
    if n < 0 {
        let size: u64 = ((-(n + 1)) as u64) + 1;
        let digits = unsigned_text(size);
        let mut out = String::new();
        append(&mut out, "-");
        append(&mut out, digits.as_str());
        proof {
            reveal_strlit("-");
            assert("-"@ =~= seq!['-']);
            assert(out@ =~= seq!['-'] + decimal_text((-n) as nat));
        }
        out
    } else {
        unsigned_text(n as u64)
    }
}

/// A moment as it stands in a report.
pub fn moment(seconds: i64) -> (out: String)
    ensures
        out@ == moment_text(seconds),
{
    match format_utc(seconds) {
        Some(s) => s,
        None => signed_number_text(seconds),
    }
}

/// A report of the depth `depth`, begun at `timestamp`, into which
/// nothing has been put yet.
pub open spec fn is_fresh_report(report: DiagnosticReport, depth: DiagnosticDepth, timestamp: i64)
    -> bool {
    &&& report.timestamp == timestamp
    &&& report.mode == depth
    &&& is_unknown_system(report.system_info)
    &&& report.performance_metrics == default_performance_metrics()
    &&& report.issues_identified@.len() == 0
    &&& report.recommendations@.len() == 0
    &&& is_fresh_summary(report.execution_summary, depth.description_text())
}

/// The summary of a run that has not begun.
pub open spec fn is_fresh_summary(summary: ExecutionSummary, mode: Seq<char>) -> bool {
    &&& summary.total_duration_seconds == 0
    &&& summary.executed_functions@.len() == 0
    &&& summary.successful_functions == 0
    &&& summary.failed_functions == 0
    &&& summary.diagnostic_mode@ == mode
    &&& summary.status@ == "completed"@
}

impl ExecutionSummary {
    /// The summary of a run that has not begun.
    pub fn new(mode: String) -> (r: Self)
        ensures
            is_fresh_summary(r, mode@),
    {
        ExecutionSummary {
            total_duration_seconds: 0,
            executed_functions: Vec::new(),
            successful_functions: 0,
            failed_functions: 0,
            diagnostic_mode: mode,
            status: "completed".to_string(),
        }
    }
}

/// How many of the findings are of the severity `severity`.
pub open spec fn count_of_severity(issues: Seq<SystemIssue>, severity: IssueSeverity) -> nat
    decreases issues.len(),
{
    if issues.len() == 0 {
        0
    } else {
        count_of_severity(issues.drop_last(), severity) + if issues.last().severity == severity {
            1nat
        } else {
            0nat
        }
    }
}

/// No more findings are of one severity than there are findings.
pub proof fn lemma_count_of_severity_bound(issues: Seq<SystemIssue>, severity: IssueSeverity)
    ensures
        count_of_severity(issues, severity) <= issues.len(),
    decreases issues.len(),
{
    if issues.len() > 0 {
        lemma_count_of_severity_bound(issues.drop_last(), severity);
    }
}

/// The severity of rank `rank`.
pub open spec fn severity_of_rank(rank: int) -> IssueSeverity {
    if rank <= 0 {
        IssueSeverity::Info
    } else if rank == 1 {
        IssueSeverity::Warning
    } else if rank == 2 {
        IssueSeverity::Error
    } else {
        IssueSeverity::Critical
    }
}

/// How the counts of the severities are listed: in the order of the
/// severities, without those that no finding has.
pub open spec fn severity_counts(issues: Seq<SystemIssue>, upto: int) -> Seq<(IssueSeverity, usize)>
    decreases upto,
{
    if upto <= 0 {
        Seq::empty()
    } else {
        let before = severity_counts(issues, upto - 1);
        let severity = severity_of_rank(upto - 1);
        let n = count_of_severity(issues, severity);
        if n > 0 {
            before.push((severity, n as usize))
        } else {
            before
        }
    }
}

/// The text of a report's heading.
pub open spec fn heading_text(report: DiagnosticReport) -> Seq<char> {
    "=== 系统诊断报告 ===\n"@ + "时间: "@ + moment_text(report.timestamp) + "\n"@ + "诊断模式: "@
        + report.mode.description_text() + "\n\n"@
}

/// `label` and `value` on a line of their own, where there is a value.
pub open spec fn optional_line(label: Seq<char>, value: Option<Seq<char>>) -> Seq<char> {
    match value {
        Some(v) => label + v + "\n"@,
        None => Seq::empty(),
    }
}

/// The text of a report's section on the system.
pub open spec fn system_text(info: SystemInfo) -> Seq<char> {
    "--- 系统信息 ---\n"@ + "运行时间: "@ + info.uptime@ + "\n"@ + optional_line(
        "主机名: "@,
        option_view(info.hostname),
    ) + optional_line(
        "操作系统: "@,
        option_view(info.os_info),
    ) + optional_line(
        "CPU核心数: "@,
        match info.cpu_cores {
            Some(n) => Some(decimal_text(n as nat)),
            None => None,
        },
    ) + "\n"@
}

/// The text of a report's section on the figures.
pub open spec fn metrics_text(metrics: PerformanceMetrics) -> Seq<char> {
    "--- 性能指标 ---\n"@ + "CPU使用率: "@ + tenths_text(
        metrics.cpu_metrics.usage_percent.thousandths as int,
    ) + "%\n"@ + "内存使用率: "@ + tenths_text(
        metrics.memory_metrics.usage_percent.thousandths as int,
    ) + "%\n"@ + (match metrics.io_metrics {
        Some(io) => "I/O等待: "@ + tenths_text(io.io_wait_percent.thousandths as int) + "%\n"@
            + "磁盘使用率: "@ + tenths_text(io.disk_usage_percent.thousandths as int) + "%\n"@,
        None => Seq::empty(),
    }) + (match metrics.network_metrics {
        Some(net) => "TCP连接数: "@ + decimal_text(net.tcp_connections as nat) + "\n"@
            + "UDP连接数: "@ + decimal_text(net.udp_connections as nat) + "\n"@,
        None => Seq::empty(),
    }) + "\n"@
}

/// The text of one finding, as number `number` of the list.
pub open spec fn issue_text(issue: SystemIssue, number: nat) -> Seq<char> {
    decimal_text(number) + ". "@ + issue.description@ + "\n"@ + "   严重程度: "@
        + issue.severity.chinese_text() + "\n"@ + (if issue.recommendations@.len() > 0 {
        "   建议: "@ + joined(views(issue.recommendations@), ", "@) + "\n"@
    } else {
        Seq::empty()
    }) + "\n"@
}

/// The texts of the first `upto` findings.
pub open spec fn issues_text(issues: Seq<SystemIssue>, upto: int) -> Seq<char>
    decreases upto,
{
    if upto <= 0 || upto > issues.len() {
        Seq::empty()
    } else {
        issues_text(issues, upto - 1) + issue_text(issues[upto - 1], upto as nat)
    }
}

/// The text of a report's section on the findings.
pub open spec fn findings_text(issues: Seq<SystemIssue>) -> Seq<char> {
    if issues.len() > 0 {
        "--- 识别的问题 ---\n"@ + issues_text(issues, issues.len() as int)
    } else {
        "--- 识别的问题 ---\n"@ + "未发现系统问题\n\n"@
    }
}

/// The steps of an advice, one to a line, from `from` on.
pub open spec fn steps_text(steps: Seq<Seq<char>>, upto: int) -> Seq<char>
    decreases upto,
{
    if upto <= 0 || upto > steps.len() {
        Seq::empty()
    } else {
        steps_text(steps, upto - 1) + "   - "@ + steps[upto - 1] + "\n"@
    }
}

/// The text of one advice, as number `number` of the list.
pub open spec fn advice_text(advice: Recommendation, number: nat) -> Seq<char> {
    decimal_text(number) + ". [优先级: "@ + decimal_text(advice.priority as nat) + "] "@
        + advice.title@ + "\n"@ + "   "@ + advice.description@ + "\n"@ + (if advice.steps@.len()
        > 0 {
        "   操作步骤:\n"@ + steps_text(views(advice.steps@), advice.steps@.len() as int)
    } else {
        Seq::empty()
    }) + "   预期效果: "@ + advice.expected_outcome@ + "\n\n"@
}

/// The texts of the first `upto` advices.
pub open spec fn advices_text(advices: Seq<Recommendation>, upto: int) -> Seq<char>
    decreases upto,
{
    if upto <= 0 || upto > advices.len() {
        Seq::empty()
    } else {
        advices_text(advices, upto - 1) + advice_text(advices[upto - 1], upto as nat)
    }
}

/// The text of a report's section on the advices.
pub open spec fn recommendations_text(advices: Seq<Recommendation>) -> Seq<char> {
    if advices.len() > 0 {
        "--- 建议 ---\n"@ + advices_text(advices, advices.len() as int)
    } else {
        Seq::empty()
    }
}

/// The text of a report's section on its run.
pub open spec fn summary_text(summary: ExecutionSummary) -> Seq<char> {
    "--- 执行摘要 ---\n"@ + "总执行时间: "@ + decimal_text(summary.total_duration_seconds as nat)
        + ".00秒\n"@ + "成功执行函数: "@ + decimal_text(summary.successful_functions as nat)
        + "\n"@ + "失败执行函数: "@ + decimal_text(summary.failed_functions as nat) + "\n"@
        + "执行状态: "@ + summary.status@ + "\n"@
}

/// The text of a whole report.
pub open spec fn report_text(report: DiagnosticReport) -> Seq<char> {
    heading_text(report) + system_text(report.system_info) + metrics_text(
        report.performance_metrics,
    ) + findings_text(report.issues_identified@) + recommendations_text(report.recommendations@)
        + summary_text(report.execution_summary)
}

/// The one-line summary of a report.
pub open spec fn brief_text(report: DiagnosticReport) -> Seq<char> {
    "Diagnostic Report ("@ + moment_text(report.timestamp) + ") - Mode: "@
        + report.mode.description_text() + ", Issues: "@ + decimal_text(
        report.issues_identified@.len(),
    ) + ", Recommendations: "@ + decimal_text(report.recommendations@.len()) + ", Duration: "@
        + decimal_text(report.execution_summary.total_duration_seconds as nat) + ".00s"@
}

/// Appends `label`, `value` and a line feed.
fn append_line(out: &mut String, label: &str, value: &str)
    ensures
        final(out)@ == old(out)@ + label@ + value@ + "\n"@,
{
    append(out, label);
    append(out, value);
    append(out, "\n");
}

/// The text of a report's section on the system.
fn write_system(info: &SystemInfo) -> (out: String)
    ensures
        out@ == system_text(*info),
{
    let mut out = String::new();
    append(&mut out, "--- 系统信息 ---\n");
    append_line(&mut out, "运行时间: ", info.uptime.as_str());
    let ghost head = out@;
    match &info.hostname {
        Some(h) => {
            append_line(&mut out, "主机名: ", h.as_str());
        },
        None => {},
    }
    let ghost with_host = out@;
    match &info.os_info {
        Some(o) => {
            append_line(&mut out, "操作系统: ", o.as_str());
        },
        None => {},
    }
    let ghost with_os = out@;
    match info.cpu_cores {
        Some(n) => {
            let digits = unsigned_text(n as u64);
            append_line(&mut out, "CPU核心数: ", digits.as_str());
        },
        None => {},
    }
    append(&mut out, "\n");
    proof {
        let host = optional_line(
            "主机名: "@,
            option_view(info.hostname),
        );
        let os = optional_line(
            "操作系统: "@,
            option_view(info.os_info),
        );
        let cores = optional_line(
            "CPU核心数: "@,
            match info.cpu_cores {
                Some(n) => Some(decimal_text(n as nat)),
                None => None,
            },
        );
        assert(head =~= "--- 系统信息 ---\n"@ + "运行时间: "@ + info.uptime@ + "\n"@);
        assert(with_host =~= head + host);
        assert(with_os =~= with_host + os);
        assert(out@ =~= with_os + cores + "\n"@);
        assert(out@ =~= system_text(*info));
    }
    out
}

/// Appends `label`, a percentage with one decimal place, and `%`.
fn append_percent(out: &mut String, label: &str, value: &Decimal)
    ensures
        final(out)@ == old(out)@ + label@ + tenths_text(value.thousandths as int) + "%\n"@,
{
    append(out, label);
    let text = value.to_tenths_text();
    append(out, text.as_str());
    append(out, "%\n");
}

/// Appends `label`, a number, and a line feed.
fn append_count(out: &mut String, label: &str, value: u64)
    ensures
        final(out)@ == old(out)@ + label@ + decimal_text(value as nat) + "\n"@,
{
    append(out, label);
    let text = unsigned_text(value);
    append(out, text.as_str());
    append(out, "\n");
}

/// The text of a report's section on the figures.
fn write_metrics(metrics: &PerformanceMetrics) -> (out: String)
    ensures
        out@ == metrics_text(*metrics),
{
    let mut out = String::new();
    append(&mut out, "--- 性能指标 ---\n");
    append_percent(&mut out, "CPU使用率: ", &metrics.cpu_metrics.usage_percent);
    append_percent(&mut out, "内存使用率: ", &metrics.memory_metrics.usage_percent);
    let ghost head = out@;
    match &metrics.io_metrics {
        Some(io) => {
            append_percent(&mut out, "I/O等待: ", &io.io_wait_percent);
            append_percent(&mut out, "磁盘使用率: ", &io.disk_usage_percent);
        },
        None => {},
    }
    let ghost with_io = out@;
    match &metrics.network_metrics {
        Some(net) => {
            append_count(&mut out, "TCP连接数: ", net.tcp_connections as u64);
            append_count(&mut out, "UDP连接数: ", net.udp_connections as u64);
        },
        None => {},
    }
    append(&mut out, "\n");
    proof {
        let io_part: Seq<char> = match metrics.io_metrics {
            Some(io) => "I/O等待: "@ + tenths_text(io.io_wait_percent.thousandths as int)
                + "%\n"@ + "磁盘使用率: "@ + tenths_text(io.disk_usage_percent.thousandths as int)
                + "%\n"@,
            None => Seq::empty(),
        };
        let net_part: Seq<char> = match metrics.network_metrics {
            Some(net) => "TCP连接数: "@ + decimal_text(net.tcp_connections as nat) + "\n"@
                + "UDP连接数: "@ + decimal_text(net.udp_connections as nat) + "\n"@,
            None => Seq::empty(),
        };
        assert(head =~= "--- 性能指标 ---\n"@ + "CPU使用率: "@ + tenths_text(
            metrics.cpu_metrics.usage_percent.thousandths as int,
        ) + "%\n"@ + "内存使用率: "@ + tenths_text(
            metrics.memory_metrics.usage_percent.thousandths as int,
        ) + "%\n"@);
        assert(with_io =~= head + io_part);
        assert(out@ =~= with_io + net_part + "\n"@);
        assert(out@ =~= metrics_text(*metrics));
    }
    out
}

/// The text of one finding.
fn write_issue(issue: &SystemIssue, number: usize) -> (out: String)
    ensures
        out@ == issue_text(*issue, number as nat),
{
    let mut out = String::new();
    let digits = unsigned_text(number as u64);
    append(&mut out, digits.as_str());
    append(&mut out, ". ");
    append_line(&mut out, "", issue.description.as_str());
    append_line(&mut out, "   严重程度: ", issue.severity.to_chinese());
    let ghost head = out@;
    if issue.recommendations.len() > 0 {
        let listed = join(&issue.recommendations, ", ");
        append_line(&mut out, "   建议: ", listed.as_str());
    }
    append(&mut out, "\n");
    proof {
        reveal_strlit("");
        assert(""@ =~= Seq::<char>::empty());
        assert(head =~= decimal_text(number as nat) + ". "@ + issue.description@ + "\n"@
            + "   严重程度: "@ + issue.severity.chinese_text() + "\n"@);
        assert(out@ =~= issue_text(*issue, number as nat));
    }
    out
}

/// The text of a report's section on the findings.
fn write_findings(issues: &Vec<SystemIssue>) -> (out: String)
    ensures
        out@ == findings_text(issues@),
{
    let mut out = String::new();
    append(&mut out, "--- 识别的问题 ---\n");
    if issues.len() == 0 {
        append(&mut out, "未发现系统问题\n\n");
        return out;
    }
    let mut i: usize = 0;
    assert(out@ =~= "--- 识别的问题 ---\n"@ + issues_text(issues@, 0));
    while i < issues.len()
        invariant
            0 <= i <= issues@.len(),
            out@ == "--- 识别的问题 ---\n"@ + issues_text(issues@, i as int),
        decreases issues@.len() - i,
    {
        let one = write_issue(&issues[i], i + 1);
        let ghost before = out@;
        append(&mut out, one.as_str());
        assert(out@ =~= "--- 识别的问题 ---\n"@ + (issues_text(issues@, i as int) + issue_text(
            issues@[i as int],
            (i + 1) as nat,
        )));
        i += 1;
    }
    out
}

/// The steps of an advice, one to a line.
fn write_steps(steps: &Vec<String>) -> (out: String)
    ensures
        out@ == steps_text(views(steps@), steps@.len() as int),
{
    let mut out = String::new();
    let mut i: usize = 0;
    while i < steps.len()
        invariant
            0 <= i <= steps@.len(),
            out@ == steps_text(views(steps@), i as int),
        decreases steps@.len() - i,
    {
        let ghost before = out@;
        append_line(&mut out, "   - ", steps[i].as_str());
        assert(views(steps@)[i as int] == steps@[i as int]@);
        assert(out@ =~= steps_text(views(steps@), i as int) + "   - "@ + views(steps@)[i as int]
            + "\n"@);
        i += 1;
    }
    out
}

/// The text of one advice.
fn write_advice(advice: &Recommendation, number: usize) -> (out: String)
    ensures
        out@ == advice_text(*advice, number as nat),
{
    let mut out = String::new();
    let digits = unsigned_text(number as u64);
    append(&mut out, digits.as_str());
    append(&mut out, ". [优先级: ");
    let priority = unsigned_text(advice.priority as u64);
    append(&mut out, priority.as_str());
    append_line(&mut out, "] ", advice.title.as_str());
    append_line(&mut out, "   ", advice.description.as_str());
    let ghost head = out@;
    if advice.steps.len() > 0 {
        append(&mut out, "   操作步骤:\n");
        let steps = write_steps(&advice.steps);
        append(&mut out, steps.as_str());
    }
    let ghost with_steps = out@;
    append(&mut out, "   预期效果: ");
    append(&mut out, advice.expected_outcome.as_str());
    append(&mut out, "\n\n");
    proof {
        let steps_part: Seq<char> = if advice.steps@.len() > 0 {
            "   操作步骤:\n"@ + steps_text(views(advice.steps@), advice.steps@.len() as int)
        } else {
            Seq::empty()
        };
        assert(head =~= decimal_text(number as nat) + ". [优先级: "@ + decimal_text(
            advice.priority as nat,
        ) + "] "@ + advice.title@ + "\n"@ + "   "@ + advice.description@ + "\n"@);
        assert(with_steps =~= head + steps_part);
        assert(out@ =~= with_steps + "   预期效果: "@ + advice.expected_outcome@ + "\n\n"@);
        assert(out@ =~= advice_text(*advice, number as nat));
    }
    out
}

/// The text of a report's section on the advices.
fn write_recommendations(advices: &Vec<Recommendation>) -> (out: String)
    ensures
        out@ == recommendations_text(advices@),
{
    let mut out = String::new();
    if advices.len() == 0 {
        return out;
    }
    append(&mut out, "--- 建议 ---\n");
    let mut i: usize = 0;
    assert(out@ =~= "--- 建议 ---\n"@ + advices_text(advices@, 0));
    while i < advices.len()
        invariant
            0 <= i <= advices@.len(),
            out@ == "--- 建议 ---\n"@ + advices_text(advices@, i as int),
        decreases advices@.len() - i,
    {
        let one = write_advice(&advices[i], i + 1);
        append(&mut out, one.as_str());
        assert(out@ =~= "--- 建议 ---\n"@ + (advices_text(advices@, i as int) + advice_text(
            advices@[i as int],
            (i + 1) as nat,
        )));
        i += 1;
    }
    out
}

/// The text of a report's section on its run.
fn write_summary(summary: &ExecutionSummary) -> (out: String)
    ensures
        out@ == summary_text(*summary),
{
    let mut out = String::new();
    append(&mut out, "--- 执行摘要 ---\n");
    append(&mut out, "总执行时间: ");
    let seconds = unsigned_text(summary.total_duration_seconds);
    append(&mut out, seconds.as_str());
    append(&mut out, ".00秒\n");
    append_count(&mut out, "成功执行函数: ", summary.successful_functions as u64);
    append_count(&mut out, "失败执行函数: ", summary.failed_functions as u64);
    append_line(&mut out, "执行状态: ", summary.status.as_str());
    assert(out@ =~= summary_text(*summary));
    out
}

impl DiagnosticReport {
    /// A report without findings, begun at the moment `timestamp`.
    pub fn new(depth: DiagnosticDepth, timestamp: i64) -> (r: Self)
        ensures
            is_fresh_report(r, depth, timestamp),
    {
        let mode_description = depth.description().to_string();
        DiagnosticReport {
            timestamp,
            mode: depth,
            system_info: SystemInfo::default(),
            performance_metrics: PerformanceMetrics::default(),
            issues_identified: Vec::new(),
            recommendations: Vec::new(),
            execution_summary: ExecutionSummary::new(mode_description),
        }
    }

    /// A report for a configuration of one's own.
    pub fn with_config(config: DiagnosticConfig, timestamp: i64) -> (r: Self)
        ensures
            is_fresh_report(r, DiagnosticDepth::Custom(config), timestamp),
            r.execution_summary.diagnostic_mode@ == "自定义诊断级别"@,
    {
        DiagnosticReport::new(DiagnosticDepth::Custom(config), timestamp)
    }

    /// Adds a finding at the end.
    pub fn add_issue(&mut self, issue: SystemIssue)
        ensures
            final(self).issues_identified@ == old(self).issues_identified@.push(issue),
            final(self).recommendations == old(self).recommendations,
            final(self).timestamp == old(self).timestamp,
            final(self).mode == old(self).mode,
            final(self).system_info == old(self).system_info,
            final(self).performance_metrics == old(self).performance_metrics,
            final(self).execution_summary == old(self).execution_summary,
    {
        self.issues_identified.push(issue);
    }

    /// Adds an advice at the end.
    pub fn add_recommendation(&mut self, recommendation: Recommendation)
        ensures
            final(self).recommendations@ == old(self).recommendations@.push(recommendation),
            final(self).issues_identified == old(self).issues_identified,
            final(self).timestamp == old(self).timestamp,
            final(self).mode == old(self).mode,
            final(self).system_info == old(self).system_info,
            final(self).performance_metrics == old(self).performance_metrics,
            final(self).execution_summary == old(self).execution_summary,
    {
        self.recommendations.push(recommendation);
    }

    /// How many findings are of the severity `severity`.
    pub fn count_severity(&self, severity: IssueSeverity) -> (n: usize)
        ensures
            n == count_of_severity(self.issues_identified@, severity),
    {
        let mut n: usize = 0;
        let mut i: usize = 0;
        assert(self.issues_identified@.take(0) =~= Seq::<SystemIssue>::empty());
        while i < self.issues_identified.len()
            invariant
                0 <= i <= self.issues_identified@.len(),
                n == count_of_severity(self.issues_identified@.take(i as int), severity),
            decreases self.issues_identified@.len() - i,
        {
            proof {
                let all = self.issues_identified@;
                assert(all.take(i + 1).drop_last() =~= all.take(i as int));
                assert(all.take(i + 1).last() == all[i as int]);
                lemma_count_of_severity_bound(all.take(i as int), severity);
            }
            if self.issues_identified[i].severity == severity {
                n += 1;
            }
            i += 1;
        }
        assert(self.issues_identified@.take(self.issues_identified@.len() as int)
            =~= self.issues_identified@);
        n
    }

    /// The count of the findings of each severity that some finding has,
    /// in the order of the severities.
    pub fn issue_severity_summary(&self) -> (out: Vec<(IssueSeverity, usize)>)
        ensures
            out@ == severity_counts(self.issues_identified@, 4),
    {
        let mut out: Vec<(IssueSeverity, usize)> = Vec::new();
        let mut rank: u8 = 0;
        while rank < 4
            invariant
                0 <= rank <= 4,
                out@ == severity_counts(self.issues_identified@, rank as int),
            decreases 4 - rank,
        {
            let severity = if rank == 0 {
                IssueSeverity::Info
            } else if rank == 1 {
                IssueSeverity::Warning
            } else if rank == 2 {
                IssueSeverity::Error
            } else {
                IssueSeverity::Critical
            };
            let n = self.count_severity(severity);
            if n > 0 {
                out.push((severity, n));
            }
            rank += 1;
        }
        out
    }

    /// Whether some finding is critical.
    pub fn has_critical_issues(&self) -> (r: bool)
        ensures
            r == (count_of_severity(self.issues_identified@, IssueSeverity::Critical) > 0),
    {
        self.count_severity(IssueSeverity::Critical) > 0
    }

    /// The report in one line.
    pub fn summary(&self) -> (out: String)
        ensures
            out@ == brief_text(*self),
    {
        let mut out = String::new();
        append(&mut out, "Diagnostic Report (");
        let time = moment(self.timestamp);
        append(&mut out, time.as_str());
        append(&mut out, ") - Mode: ");
        append(&mut out, self.mode.description());
        append(&mut out, ", Issues: ");
        let issues = unsigned_text(self.issues_identified.len() as u64);
        append(&mut out, issues.as_str());
        append(&mut out, ", Recommendations: ");
        let advices = unsigned_text(self.recommendations.len() as u64);
        append(&mut out, advices.as_str());
        append(&mut out, ", Duration: ");
        let seconds = unsigned_text(self.execution_summary.total_duration_seconds);
        append(&mut out, seconds.as_str());
        append(&mut out, ".00s");
        assert(out@ =~= brief_text(*self));
        out
    }

    /// The report in full.
    pub fn formatted_report(&self) -> (out: String)
        ensures
            out@ == report_text(*self),
    {
        let mut out = String::new();
        append(&mut out, "=== 系统诊断报告 ===\n");
        let time = moment(self.timestamp);
        append_line(&mut out, "时间: ", time.as_str());
        append(&mut out, "诊断模式: ");
        append(&mut out, self.mode.description());
        append(&mut out, "\n\n");
        assert(out@ =~= heading_text(*self));
        let system = write_system(&self.system_info);
        append(&mut out, system.as_str());
        let metrics = write_metrics(&self.performance_metrics);
        append(&mut out, metrics.as_str());
        let findings = write_findings(&self.issues_identified);
        append(&mut out, findings.as_str());
        let advices = write_recommendations(&self.recommendations);
        append(&mut out, advices.as_str());
        let summary = write_summary(&self.execution_summary);
        append(&mut out, summary.as_str());
        out
    }
}

} // verus!
