//! The progressive diagnosis: which calls a depth asks for, in which
//! order, and what is made of their results.
//!
//! The diagnosis itself calls nothing. It names the next call, the host
//! makes it through the registry under the given timeout, and the
//! diagnosis records how it went. A call that fails ends its phase and is
//! counted; the phases after it still run.

use vstd::prelude::*;
use crate::decimal::{plain_text, tenths_text, Decimal};
use crate::json::{entry_views, item_views, JsonMember, JsonSpec, JsonValue, MemberSpec};
use crate::provider::{FunctionCall, FunctionCallInfo, FunctionResult};
use crate::text::{append, decimal_text, has_prefix, unsigned_text, views};
use crate::types::diagnosis::{
    config_in_range, config_within_ranges, default_io_metrics, default_process_metrics,
    is_fresh_report, DiagnosticConfig, DiagnosticDepth, DiagnosticReport, IoMetrics,
    IssueSeverity, NetworkMetrics, ProcessMetrics, Recommendation, SamplingConfig, SystemIssue,
    SystemIssueType,
};
use crate::types::result::{elapsed, seconds_between};

verus! {

/// What can go wrong in a diagnosis.
#[derive(Debug, Clone, PartialEq)]
pub enum DiagnosisError {
    /// A call failed; the text says how.
    FunctionExecutionFailed(String),
    /// A call took longer than the limit, both in seconds.
    Timeout(u64, u64),
    ParameterParseError(String),
    SystemCommandFailed(String),
    InvalidConfig(String),
    Unknown(String),
}

impl DiagnosisError {
    /// The message of the error.
    pub open spec fn message_text(self) -> Seq<char> {
        match self {
            DiagnosisError::FunctionExecutionFailed(why) => "函数执行失败: "@ + why@,
            DiagnosisError::Timeout(took, limit) => "超时: "@ + decimal_text(took as nat)
                + "s 超过限制 "@ + decimal_text(limit as nat) + "s"@,
            DiagnosisError::ParameterParseError(why) => "参数解析错误: "@ + why@,
            DiagnosisError::SystemCommandFailed(why) => "系统命令执行失败: "@ + why@,
            DiagnosisError::InvalidConfig(why) => "诊断配置无效: "@ + why@,
            DiagnosisError::Unknown(why) => "未知诊断错误: "@ + why@,
        }
    }

    /// The message of the error.
    pub fn message(&self) -> (out: String)
        ensures
            out@ == self.message_text(),
    {
        let mut out = String::new();
        match self {
            DiagnosisError::FunctionExecutionFailed(why) => {
                append(&mut out, "函数执行失败: ");
                append(&mut out, why.as_str());
            },
            DiagnosisError::Timeout(took, limit) => {
                append(&mut out, "超时: ");
                let a = unsigned_text(*took);
                append(&mut out, a.as_str());
                append(&mut out, "s 超过限制 ");
                let b = unsigned_text(*limit);
                append(&mut out, b.as_str());
                append(&mut out, "s");
            },
            DiagnosisError::ParameterParseError(why) => {
                append(&mut out, "参数解析错误: ");
                append(&mut out, why.as_str());
            },
            DiagnosisError::SystemCommandFailed(why) => {
                append(&mut out, "系统命令执行失败: ");
                append(&mut out, why.as_str());
            },
            DiagnosisError::InvalidConfig(why) => {
                append(&mut out, "诊断配置无效: ");
                append(&mut out, why.as_str());
            },
            DiagnosisError::Unknown(why) => {
                append(&mut out, "未知诊断错误: ");
                append(&mut out, why.as_str());
            },
        }
        assert(out@ =~= self.message_text());
        out
    }
}

/// How a call that the diagnosis asked for went.
#[derive(Debug, Clone, PartialEq)]
pub enum CallOutcome {
    /// The registry routed the call and the executor answered.
    Returned(FunctionResult),
    /// The call could not be made; the text says why.
    Failed(String),
    /// The call did not end within its timeout.
    TimedOut,
}

/// The number of calls of a phase.
pub open spec fn phase_calls(phase: nat) -> nat {
    if phase == 0 {
        2
    } else if phase == 1 {
        3
    } else if phase == 2 || phase == 3 {
        1
    } else {
        0
    }
}

/// The number of calls of the phases before `phase`.
pub open spec fn calls_before(phase: nat) -> nat {
    if phase == 0 {
        0
    } else if phase == 1 {
        2
    } else if phase == 2 {
        5
    } else if phase == 3 {
        6
    } else {
        7
    }
}

/// Whether a configuration asks for a phase.
pub open spec fn phase_on(config: DiagnosticConfig, phase: nat) -> bool {
    if phase == 0 {
        config.check_basic_info
    } else if phase == 1 {
        config.check_processes
    } else if phase == 2 {
        config.check_io_performance
    } else if phase == 3 {
        config.check_network
    } else {
        false
    }
}

/// The first phase from `from` on that the configuration asks for, or 4
/// where it asks for none.
pub open spec fn next_phase(config: DiagnosticConfig, from: nat) -> nat
    decreases 4 - from,
{
    if from >= 4 {
        4
    } else if phase_on(config, from) {
        from
    } else {
        next_phase(config, from + 1)
    }
}

/// The name of call `index` of a phase.
pub open spec fn call_name(phase: nat, index: nat) -> Seq<char> {
    if phase == 0 {
        if index == 0 {
            "sys-uptime"@
        } else {
            "sys-meminfo"@
        }
    } else if phase == 1 {
        if index <= 1 {
            "sys-proc-top"@
        } else {
            "sys-proc-stats"@
        }
    } else if phase == 2 {
        "sys-iostat"@
    } else {
        "sys-netstat"@
    }
}

/// The arguments of call `index` of a phase, as JSON text.
pub open spec fn call_arguments(phase: nat, index: nat, sampling: SamplingConfig) -> Seq<char> {
    if phase == 1 && index == 0 {
        "{\"sort_by\": \"cpu\", \"limit\": 5}"@
    } else if phase == 1 && index == 1 {
        "{\"sort_by\": \"memory\", \"limit\": 5}"@
    } else if phase == 2 {
        "{\"count\": "@ + decimal_text(sampling.count as nat) + ", \"interval\": "@ + decimal_text(
            sampling.interval as nat,
        ) + "}"@
    } else if phase == 3 {
        "{\"show_tcp\": true, \"show_udp\": true}"@
    } else {
        "{}"@
    }
}

/// The seconds that a call of a phase may take: twice the sampling
/// timeout where input and output are sampled, else the timeout of the
/// configuration.
pub open spec fn call_timeout(phase: nat, config: DiagnosticConfig, sampling: SamplingConfig)
    -> int {
    if phase == 2 {
        sampling.timeout * 2
    } else {
        config.timeout_seconds as int
    }
}

/// The state of a diagnosis that is under way.
#[derive(Debug, Clone, PartialEq)]
pub struct DiagnosisRun {
    /// The report as far as it is filled.
    pub report: DiagnosticReport,
    /// When the run began, in seconds since 1970.
    pub started: i64,
    /// The phase that the next call belongs to; 4 when no call is left.
    pub phase: usize,
    /// The results of the calls of this phase that have succeeded.
    pub held: Vec<JsonValue>,
    /// The names of the calls that have succeeded, in order.
    pub executed: Vec<String>,
    /// The number of calls that have failed.
    pub failed: usize,
    /// What the failed calls reported, in order.
    pub failures: Vec<DiagnosisError>,
}

impl DiagnosisRun {
    /// What holds of a run between two calls: its phase is one that the
    /// configuration asks for, not all of the phase's calls have been
    /// made, and no more calls are counted than could have been made.
    pub open spec fn wf(self, config: DiagnosticConfig) -> bool {
        &&& self.phase <= 4
        &&& self.phase < 4 ==> phase_on(config, self.phase as nat) && self.held@.len() < phase_calls(
            self.phase as nat,
        )
        &&& self.phase == 4 ==> self.held@.len() == 0
        &&& self.executed@.len() + self.failed <= calls_before(self.phase as nat) + self.held@.len()
        &&& self.failures@.len() == self.failed
    }

    /// Whether no call is left.
    pub open spec fn is_done(self) -> bool {
        self.phase >= 4
    }
}

/// The member `second` of the member `first`.
pub open spec fn member_of_member(value: JsonSpec, first: Seq<char>, second: Seq<char>) -> Option<
    JsonSpec,
> {
    match value.member(first) {
        Some(inner) => inner.member(second),
        None => None,
    }
}

/// The decimal numbers among `items`, in order.
pub open spec fn decimal_items(items: Seq<JsonSpec>) -> Seq<Decimal>
    decreases items.len(),
{
    if items.len() == 0 {
        Seq::empty()
    } else {
        let before = decimal_items(items.drop_last());
        match items.last().thousandths() {
            Some(t) => before.push(Decimal { thousandths: t as i64 }),
            None => before,
        }
    }
}

/// `fallback`, or the unsigned number under `first`, `second` where there
/// is one.
pub open spec fn unsigned_at(value: JsonSpec, first: Seq<char>, second: Seq<char>, fallback: u64)
    -> u64 {
    match member_of_member(value, first, second) {
        Some(v) => match v.unsigned() {
            Some(n) => n as u64,
            None => fallback,
        },
        None => fallback,
    }
}

/// `fallback`, or the decimal number under `first`, `second` where there
/// is one.
pub open spec fn decimal_at(value: JsonSpec, first: Seq<char>, second: Seq<char>, fallback: Decimal)
    -> Decimal {
    match member_of_member(value, first, second) {
        Some(v) => match v.thousandths() {
            Some(t) => Decimal { thousandths: t as i64 },
            None => fallback,
        },
        None => fallback,
    }
}

/// The low 32 bits of the unsigned number under `connection_stats`,
/// `key`, or zero where there is none.
pub open spec fn connection_count(value: JsonSpec, key: Seq<char>) -> u32 {
    match member_of_member(value, "connection_stats"@, key) {
        Some(v) => match v.unsigned() {
            Some(n) => (n % 0x1_0000_0000) as u32,
            None => 0,
        },
        None => 0,
    }
}

/// What the results of the basic phase put into a report: the running
/// time, the load, the memory in use and the use of the processor, each
/// where the results hold it, and nothing else.
pub open spec fn basic_applied(
    before: DiagnosticReport,
    after: DiagnosticReport,
    uptime: JsonSpec,
    memory: JsonSpec,
) -> bool {
    &&& after.system_info.uptime@ == match uptime.member("uptime_output"@) {
        Some(v) => match v.text() {
            Some(s) => s,
            None => Seq::empty(),
        },
        None => before.system_info.uptime@,
    }
    &&& after.system_info.load_average@ == match member_of_member(
        uptime,
        "load_data"@,
        "load_average"@,
    ) {
        Some(JsonSpec::Array(items)) => decimal_items(items),
        _ => before.system_info.load_average@,
    }
    &&& after.system_info.hostname == before.system_info.hostname
    &&& after.system_info.os_info == before.system_info.os_info
    &&& after.system_info.cpu_cores == before.system_info.cpu_cores
    &&& after.performance_metrics.memory_metrics.total_memory == unsigned_at(
        memory,
        "memory_data"@,
        "total"@,
        before.performance_metrics.memory_metrics.total_memory,
    )
    &&& after.performance_metrics.memory_metrics.used_memory == unsigned_at(
        memory,
        "memory_data"@,
        "used"@,
        before.performance_metrics.memory_metrics.used_memory,
    )
    &&& after.performance_metrics.memory_metrics.usage_percent == decimal_at(
        memory,
        "memory_data"@,
        "usage_percent"@,
        before.performance_metrics.memory_metrics.usage_percent,
    )
    &&& after.performance_metrics.memory_metrics.free_memory
        == before.performance_metrics.memory_metrics.free_memory
    &&& after.performance_metrics.memory_metrics.cached_memory
        == before.performance_metrics.memory_metrics.cached_memory
    &&& after.performance_metrics.memory_metrics.swap_info
        == before.performance_metrics.memory_metrics.swap_info
    &&& after.performance_metrics.cpu_metrics.usage_percent == decimal_at(
        uptime,
        "cpu_data"@,
        "usage_percent"@,
        before.performance_metrics.cpu_metrics.usage_percent,
    )
    &&& after.performance_metrics.cpu_metrics.system_percent
        == before.performance_metrics.cpu_metrics.system_percent
    &&& after.performance_metrics.cpu_metrics.user_percent
        == before.performance_metrics.cpu_metrics.user_percent
    &&& after.performance_metrics.cpu_metrics.idle_percent
        == before.performance_metrics.cpu_metrics.idle_percent
    &&& after.performance_metrics.io_metrics == before.performance_metrics.io_metrics
    &&& after.performance_metrics.network_metrics == before.performance_metrics.network_metrics
    &&& after.performance_metrics.process_metrics == before.performance_metrics.process_metrics
    &&& same_findings(before, after)
}

/// The findings, the advices, the summary and the heading of two reports
/// are the same.
pub open spec fn same_findings(before: DiagnosticReport, after: DiagnosticReport) -> bool {
    &&& after.timestamp == before.timestamp
    &&& after.mode == before.mode
    &&& after.issues_identified == before.issues_identified
    &&& after.recommendations == before.recommendations
    &&& after.execution_summary == before.execution_summary
}

/// The figures that the network phase leaves in a report.
pub open spec fn network_figures(result: JsonSpec) -> NetworkMetrics {
    NetworkMetrics {
        tcp_connections: connection_count(result, "tcp_connections"@),
        udp_connections: connection_count(result, "udp_connections"@),
        listening_ports: connection_count(result, "listening_ports"@),
        established_connections: connection_count(result, "established_connections"@),
        network_errors: 0,
    }
}

/// What the results of a phase put into a report.
pub open spec fn phase_applied(
    before: DiagnosticReport,
    after: DiagnosticReport,
    phase: nat,
    held: Seq<JsonSpec>,
) -> bool {
    if phase == 0 {
        basic_applied(before, after, held[0], held[1])
    } else {
        &&& after.system_info == before.system_info
        &&& same_findings(before, after)
        &&& after.performance_metrics.cpu_metrics == before.performance_metrics.cpu_metrics
        &&& after.performance_metrics.memory_metrics == before.performance_metrics.memory_metrics
        &&& after.performance_metrics.process_metrics == if phase == 1 {
            Some(default_process_metrics())
        } else {
            before.performance_metrics.process_metrics
        }
        &&& after.performance_metrics.io_metrics == if phase == 2 {
            Some(default_io_metrics())
        } else {
            before.performance_metrics.io_metrics
        }
        &&& after.performance_metrics.network_metrics == if phase == 3 {
            Some(network_figures(held[0]))
        } else {
            before.performance_metrics.network_metrics
        }
    }
}

/// The finding that a use of the processor over 80 percent gives.
pub open spec fn is_cpu_finding(issue: SystemIssue, usage: Decimal) -> bool {
    &&& issue.issue_type is HighCpuUsage
    &&& issue.description@ == "CPU使用率过高: "@ + tenths_text(usage.thousandths as int) + "%"@
    &&& issue.severity == IssueSeverity::Warning
    &&& entry_views(issue.metrics@) == seq![
        MemberSpec {
            name: "cpu_usage_percent"@,
            value: JsonSpec::Number(plain_text(usage.thousandths as int)),
        },
    ]
    &&& views(issue.recommendations@) == seq!["检查高CPU进程"@, "考虑终止不必要的进程"@]
}

/// The advice that goes with [`is_cpu_finding`].
pub open spec fn is_cpu_advice(advice: Recommendation) -> bool {
    &&& advice.title@ == "优化CPU使用"@
    &&& advice.description@ == "建议检查和优化高CPU使用进程"@
    &&& advice.priority == 3
    &&& views(advice.steps@) == seq!["使用top命令检查CPU使用"@, "识别和终止高CPU进程"@]
    &&& advice.expected_outcome@ == "CPU使用率降低到正常范围"@
}

/// The finding that a use of the memory over 85 percent gives.
pub open spec fn is_memory_finding(issue: SystemIssue, usage: Decimal) -> bool {
    &&& issue.issue_type is HighMemoryUsage
    &&& issue.description@ == "内存使用率过高: "@ + tenths_text(usage.thousandths as int) + "%"@
    &&& issue.severity == IssueSeverity::Warning
    &&& entry_views(issue.metrics@) == seq![
        MemberSpec {
            name: "memory_usage_percent"@,
            value: JsonSpec::Number(plain_text(usage.thousandths as int)),
        },
    ]
    &&& views(issue.recommendations@) == seq!["检查高内存使用进程"@, "考虑清理缓存"@]
}

/// The advice that goes with [`is_memory_finding`].
pub open spec fn is_memory_advice(advice: Recommendation) -> bool {
    &&& advice.title@ == "优化内存使用"@
    &&& advice.description@ == "建议检查和优化内存使用情况"@
    &&& advice.priority == 3
    &&& views(advice.steps@) == seq!["使用free命令检查内存使用"@, "清理不必要的缓存"@]
    &&& advice.expected_outcome@ == "内存使用率降低到正常范围"@
}

/// Whether the use of the processor is over its threshold of 80 percent.
pub open spec fn cpu_is_high(report: DiagnosticReport) -> bool {
    report.performance_metrics.cpu_metrics.usage_percent.thousandths > 80_000
}

/// Whether the use of the memory is over its threshold of 85 percent.
pub open spec fn memory_is_high(report: DiagnosticReport) -> bool {
    report.performance_metrics.memory_metrics.usage_percent.thousandths > 85_000
}

/// 1 where `b` holds, else 0.
pub open spec fn one_if(b: bool) -> int {
    if b {
        1
    } else {
        0
    }
}

/// What the rules add to the findings of a report: for each figure over
/// its threshold one finding and one advice, the processor before the
/// memory, behind what the report held. The moment, the depth, what is
/// known of the system and the figures stay.
pub open spec fn findings_added(before: DiagnosticReport, after: DiagnosticReport) -> bool {
    let cpu = cpu_is_high(before);
    let memory = memory_is_high(before);
    let n = before.issues_identified@.len() as int;
    let m = before.recommendations@.len() as int;
    &&& after.timestamp == before.timestamp
    &&& after.mode == before.mode
    &&& after.system_info == before.system_info
    &&& after.performance_metrics == before.performance_metrics
    &&& after.issues_identified@.len() == n + one_if(cpu) + one_if(memory)
    &&& after.recommendations@.len() == m + one_if(cpu) + one_if(memory)
    &&& after.issues_identified@.subrange(0, n) == before.issues_identified@
    &&& after.recommendations@.subrange(0, m) == before.recommendations@
    &&& cpu ==> is_cpu_finding(
        after.issues_identified@[n],
        before.performance_metrics.cpu_metrics.usage_percent,
    ) && is_cpu_advice(after.recommendations@[m])
    &&& memory ==> is_memory_finding(
        after.issues_identified@[n + one_if(cpu)],
        before.performance_metrics.memory_metrics.usage_percent,
    ) && is_memory_advice(after.recommendations@[m + one_if(cpu)])
}

/// What the rules make of a report: the findings are added, and the
/// summary of the run stays.
pub open spec fn rules_applied(before: DiagnosticReport, after: DiagnosticReport) -> bool {
    findings_added(before, after) && after.execution_summary == before.execution_summary
}

/// Whether `call` is the call of the function `name` with `arguments`
/// that is known by `identifier`.
pub open spec fn is_identified_call(
    call: FunctionCall,
    name: Seq<char>,
    arguments: Seq<char>,
    identifier: Seq<char>,
) -> bool {
    &&& call.index == Some(0u32)
    &&& call.type_tag@ == "function"@
    &&& call.function.name@ == name
    &&& call.function.arguments@ == arguments
    &&& call.id@ == "diagnosis_"@ + name + "_"@ + identifier
}

/// A number that `uuid` draws at random, in its usual form with hyphens
/// (`Uuid::new_v4`, then its `Display`). Nothing is promised of it: two
/// calls give two numbers.
#[verifier::external_body]
fn random_identifier() -> (r: String) {
    uuid::Uuid::new_v4().to_string()
}

/// A list of two texts.
fn two_texts(a: &str, b: &str) -> (r: Vec<String>)
    ensures
        views(r@) == seq![a@, b@],
{
    let mut r: Vec<String> = Vec::new();
    r.push(a.to_owned());
    r.push(b.to_owned());
    assert(views(r@) =~= seq![a@, b@]);
    r
}

/// The diagnosis of one configuration.
#[derive(Debug)]
pub struct ProgressiveDiagnosis {
    config: DiagnosticConfig,
    sampling_config: SamplingConfig,
}

impl ProgressiveDiagnosis {
    #[verifier::type_invariant]
    spec fn samples_within_range(&self) -> bool {
        &&& config_in_range(self.config)
        &&& self.sampling_config.count == self.config.sampling_count
        &&& self.sampling_config.interval == self.config.sampling_interval
        &&& self.sampling_config.timeout == self.config.timeout_seconds
    }

    /// The configuration of the diagnosis.
    pub closed spec fn config_of(&self) -> DiagnosticConfig {
        self.config
    }

    /// The sampling of the diagnosis.
    pub closed spec fn sampling_of(&self) -> SamplingConfig {
        self.sampling_config
    }

    /// The diagnosis of a configuration, its figures brought within their
    /// ranges. The sampling of the diagnosis is that of the configuration
    /// so made.
    pub fn new(config: DiagnosticConfig) -> (r: Self)
        ensures
            r.config_of() == config_within_ranges(config),
            config_in_range(r.config_of()),
            r.sampling_of().count == r.config_of().sampling_count,
            r.sampling_of().interval == r.config_of().sampling_interval,
            r.sampling_of().timeout == r.config_of().timeout_seconds,
    {
        let config = config.within_ranges();
        let sampling_config = SamplingConfig::new(
            config.sampling_count,
            config.sampling_interval,
            config.timeout_seconds,
        );
        ProgressiveDiagnosis { config, sampling_config }
    }

    /// The diagnosis of a depth.
    pub fn from_depth(depth: DiagnosticDepth) -> (r: Self)
        ensures
            r.config_of() == config_within_ranges(depth.config()),
            config_in_range(r.config_of()),
            r.sampling_of().count == r.config_of().sampling_count,
            r.sampling_of().interval == r.config_of().sampling_interval,
            r.sampling_of().timeout == r.config_of().timeout_seconds,
    {
        ProgressiveDiagnosis::new(depth.to_config())
    }

    /// The configuration of the diagnosis. Its figures are within their
    /// ranges.
    pub fn config(&self) -> (r: DiagnosticConfig)
        ensures
            r == self.config_of(),
            config_in_range(r),
    {
        proof {
            use_type_invariant(self);
        }
        self.config
    }

    /// The sampling of the diagnosis.
    pub fn sampling_config(&self) -> (r: SamplingConfig)
        ensures
            r == self.sampling_of(),
            1 <= r.count <= 10,
            1 <= r.interval <= 5,
            5 <= r.timeout <= 60,
    {
        proof {
            use_type_invariant(self);
        }
        self.sampling_config
    }

    /// Whether the configuration asks for a phase.
    pub fn asks_for(&self, phase: usize) -> (r: bool)
        ensures
            r == phase_on(self.config_of(), phase as nat),
    {
        if phase == 0 {
            self.config.check_basic_info
        } else if phase == 1 {
            self.config.check_processes
        } else if phase == 2 {
            self.config.check_io_performance
        } else if phase == 3 {
            self.config.check_network
        } else {
            false
        }
    }

    /// The first phase from `from` on that the configuration asks for.
    pub fn phase_from(&self, from: usize) -> (r: usize)
        ensures
            r == next_phase(self.config_of(), from as nat),
            r <= 4,
            r < 4 ==> phase_on(self.config_of(), r as nat),
            from <= 4 ==> from <= r,
    {
        if from >= 4 {
            return 4;
        }
        let mut p: usize = from;
        while p < 4 && !self.asks_for(p)
            invariant
                from <= p <= 4,
                next_phase(self.config_of(), p as nat) == next_phase(self.config_of(), from as nat),
            decreases 4 - p,
        {
            p += 1;
        }
        p
    }

    /// Whether `run` is a run of this configuration between two calls.
    pub fn admits(&self, run: &DiagnosisRun) -> (r: bool)
        ensures
            r == run.wf(self.config_of()),
    {
        let phase = run.phase;
        if phase > 4 {
            return false;
        }
        let calls: usize = if phase == 0 {
            2
        } else if phase == 1 {
            3
        } else if phase == 4 {
            0
        } else {
            1
        };
        let before: usize = if phase == 0 {
            0
        } else if phase == 1 {
            2
        } else if phase == 2 {
            5
        } else if phase == 3 {
            6
        } else {
            7
        };
        let held = run.held.len();
        if phase < 4 && !(self.asks_for(phase) && held < calls) {
            return false;
        }
        if phase == 4 && held != 0 {
            return false;
        }
        let done = run.executed.len();
        let room = before + held;
        done <= room && run.failed <= room - done && run.failures.len() == run.failed
    }

    /// The call of the function `function_name` with the arguments
    /// `arguments` that is known by `identifier`: the identifier of the
    /// call is `diagnosis_`, the name, an underscore and `identifier`.
    pub fn identified_call(function_name: &str, arguments: &str, identifier: &str) -> (call:
        FunctionCall)
        ensures
            is_identified_call(call, function_name@, arguments@, identifier@),
    {
        let mut id = String::new();
        append(&mut id, "diagnosis_");
        append(&mut id, function_name);
        append(&mut id, "_");
        append(&mut id, identifier);
        FunctionCall {
            index: Some(0),
            id,
            type_tag: "function".to_string(),
            function: FunctionCallInfo {
                name: function_name.to_owned(),
                arguments: arguments.to_owned(),
            },
        }
    }

    /// A call of the function `function_name` with the arguments
    /// `arguments`, known by an identifier that is drawn at random: see
    /// [`Self::identified_call`].
    pub fn create_function_call(&self, function_name: &str, arguments: &str) -> (call: FunctionCall)
        ensures
            exists|identifier: Seq<char>| #[trigger]
                is_identified_call(call, function_name@, arguments@, identifier),
            call.index == Some(0u32),
            call.type_tag@ == "function"@,
            call.function.name@ == function_name@,
            call.function.arguments@ == arguments@,
            has_prefix(call.id@, "diagnosis_"@ + function_name@ + "_"@),
    {
        let drawn = random_identifier();
        let call = ProgressiveDiagnosis::identified_call(function_name, arguments, drawn.as_str());
        proof {
            let head = "diagnosis_"@ + function_name@ + "_"@;
            assert(is_identified_call(call, function_name@, arguments@, drawn@));
            assert(call.id@.subrange(0, head.len() as int) =~= head);
        }
        call
    }

    /// A run that begins at the moment `now`: an empty report for the
    /// configuration, and the first phase that the configuration asks for.
    pub fn start(&self, now: i64) -> (run: DiagnosisRun)
        ensures
            run.wf(self.config_of()),
            run.phase == next_phase(self.config_of(), 0),
            run.started == now,
            run.held@.len() == 0,
            run.executed@.len() == 0,
            run.failed == 0,
            run.failures@.len() == 0,
            is_fresh_report(run.report, DiagnosticDepth::Custom(self.config_of()), now),
    {
        DiagnosisRun {
            report: DiagnosticReport::new(DiagnosticDepth::Custom(self.config), now),
            started: now,
            phase: self.phase_from(0),
            held: Vec::new(),
            executed: Vec::new(),
            failed: 0,
            failures: Vec::new(),
        }
    }

    /// The name and the arguments of call `index` of a phase.
    pub fn call_of(&self, phase: usize, index: usize) -> (r: (&'static str, String))
        ensures
            r.0@ == call_name(phase as nat, index as nat),
            r.1@ == call_arguments(phase as nat, index as nat, self.sampling_of()),
    {
        if phase == 0 {
            if index == 0 {
                ("sys-uptime", "{}".to_string())
            } else {
                ("sys-meminfo", "{}".to_string())
            }
        } else if phase == 1 {
            if index == 0 {
                ("sys-proc-top", "{\"sort_by\": \"cpu\", \"limit\": 5}".to_string())
            } else if index == 1 {
                ("sys-proc-top", "{\"sort_by\": \"memory\", \"limit\": 5}".to_string())
            } else {
                ("sys-proc-stats", "{}".to_string())
            }
        } else if phase == 2 {
            let mut arguments = String::new();
            append(&mut arguments, "{\"count\": ");
            let count = unsigned_text(self.sampling_config.count as u64);
            append(&mut arguments, count.as_str());
            append(&mut arguments, ", \"interval\": ");
            let interval = unsigned_text(self.sampling_config.interval as u64);
            append(&mut arguments, interval.as_str());
            append(&mut arguments, "}");
            assert(arguments@ =~= call_arguments(2, index as nat, self.sampling_of()));
            ("sys-iostat", arguments)
        } else if phase == 3 {
            ("sys-netstat", "{\"show_tcp\": true, \"show_udp\": true}".to_string())
        } else {
            ("sys-netstat", "{}".to_string())
        }
    }

    /// The next call of a run and the seconds that it may take, or
    /// nothing when no call is left.
    pub fn next_call(&self, run: &DiagnosisRun) -> (r: Option<(FunctionCall, u64)>)
        ensures
            r is None <==> run.is_done(),
            r matches Some(next) ==> {
                &&& next.0.function.name@ == call_name(run.phase as nat, run.held@.len())
                &&& next.0.function.arguments@ == call_arguments(
                    run.phase as nat,
                    run.held@.len(),
                    self.sampling_of(),
                )
                &&& next.0.type_tag@ == "function"@
                &&& next.1 == call_timeout(run.phase as nat, self.config_of(), self.sampling_of())
            },
    {
        if run.phase >= 4 {
            return None;
        }
        proof {
            use_type_invariant(self);
        }
        let (name, arguments) = self.call_of(run.phase, run.held.len());
        let call = self.create_function_call(name, arguments.as_str());
        let timeout: u64 = if run.phase == 2 {
            self.sampling_config.timeout * 2
        } else {
            self.config.timeout_seconds
        };
        Some((call, timeout))
    }

    /// Puts the results of the basic phase into a report.
    pub fn update_system_info(
        report: &mut DiagnosticReport,
        uptime_result: &JsonValue,
        meminfo_result: &JsonValue,
    )
        ensures
            basic_applied(*old(report), *final(report), uptime_result@, meminfo_result@),
    {
        match uptime_result.get("uptime_output") {
            Some(v) => {
                report.system_info.uptime = match v.as_str() {
                    Some(s) => s.to_owned(),
                    None => String::new(),
                };
            },
            None => {},
        }
        match uptime_result.get("load_data") {
            Some(load_data) => match load_data.get("load_average") {
                Some(load_average) => match load_average.as_array() {
                    Some(items) => {
                        report.system_info.load_average = decimals_among(items);
                    },
                    None => {},
                },
                None => {},
            },
            None => {},
        }
        match meminfo_result.get("memory_data") {
            Some(memory_data) => {
                match memory_data.get("total") {
                    Some(v) => match v.as_u64() {
                        Some(n) => {
                            report.performance_metrics.memory_metrics.total_memory = n;
                        },
                        None => {},
                    },
                    None => {},
                }
                match memory_data.get("used") {
                    Some(v) => match v.as_u64() {
                        Some(n) => {
                            report.performance_metrics.memory_metrics.used_memory = n;
                        },
                        None => {},
                    },
                    None => {},
                }
                match memory_data.get("usage_percent") {
                    Some(v) => match v.as_decimal() {
                        Some(d) => {
                            report.performance_metrics.memory_metrics.usage_percent = d;
                        },
                        None => {},
                    },
                    None => {},
                }
            },
            None => {},
        }
        match uptime_result.get("cpu_data") {
            Some(cpu_data) => match cpu_data.get("usage_percent") {
                Some(v) => match v.as_decimal() {
                    Some(d) => {
                        report.performance_metrics.cpu_metrics.usage_percent = d;
                    },
                    None => {},
                },
                None => {},
            },
            None => {},
        }
    }

    /// Puts the results of the process phase into a report. The figures
    /// are left at zero: the results are not read yet.
    pub fn update_process_metrics(
        report: &mut DiagnosticReport,
        cpu_top_result: &JsonValue,
        mem_top_result: &JsonValue,
        proc_stats_result: &JsonValue,
    )
        ensures
            phase_applied(*old(report), *final(report), 1, seq![
                cpu_top_result@,
                mem_top_result@,
                proc_stats_result@,
            ]),
    {
        report.performance_metrics.process_metrics = Some(ProcessMetrics::default());
    }

    /// Puts the results of the sampling of input and output into a report.
    /// The figures are left at zero: the results are not read yet.
    pub fn update_io_metrics(report: &mut DiagnosticReport, iostat_result: &JsonValue)
        ensures
            phase_applied(*old(report), *final(report), 2, seq![iostat_result@]),
    {
        report.performance_metrics.io_metrics = Some(IoMetrics::default());
    }

    /// Puts the connection counts of the network phase into a report.
    pub fn update_network_metrics(report: &mut DiagnosticReport, netstat_result: &JsonValue)
        ensures
            phase_applied(*old(report), *final(report), 3, seq![netstat_result@]),
    {
        let mut network_metrics = NetworkMetrics::default();
        match netstat_result.get("connection_stats") {
            Some(stats) => {
                network_metrics.tcp_connections = low_bits(stats.get("tcp_connections"));
                network_metrics.udp_connections = low_bits(stats.get("udp_connections"));
                network_metrics.listening_ports = low_bits(stats.get("listening_ports"));
                network_metrics.established_connections = low_bits(
                    stats.get("established_connections"),
                );
            },
            None => {},
        }
        report.performance_metrics.network_metrics = Some(network_metrics);
    }

    /// Puts the results of a phase into a report.
    pub fn apply_phase(report: &mut DiagnosticReport, phase: usize, held: &Vec<JsonValue>)
        requires
            phase < 4,
            held@.len() == phase_calls(phase as nat),
        ensures
            phase_applied(*old(report), *final(report), phase as nat, item_views(held@)),
    {
        if phase == 0 {
            ProgressiveDiagnosis::update_system_info(report, &held[0], &held[1]);
        } else if phase == 1 {
            ProgressiveDiagnosis::update_process_metrics(report, &held[0], &held[1], &held[2]);
        } else if phase == 2 {
            ProgressiveDiagnosis::update_io_metrics(report, &held[0]);
        } else {
            ProgressiveDiagnosis::update_network_metrics(report, &held[0]);
        }
    }

    /// Records how the call that [`Self::next_call`] named went.
    ///
    /// A call that returned without an error is logged under its name and
    /// its result is kept; with the last call of a phase the results of
    /// the phase go into the report. Any other outcome is counted as a
    /// failure and ends the phase. Either way the run goes on with the
    /// next phase that the configuration asks for.
    pub fn record(&self, run: &mut DiagnosisRun, outcome: CallOutcome)
        requires
            old(run).wf(self.config_of()),
            !old(run).is_done(),
        ensures
            final(run).wf(self.config_of()),
            final(run).started == old(run).started,
            call_succeeded(outcome) ==> {
                &&& views(final(run).executed@) == views(old(run).executed@).push(
                    call_name(old(run).phase as nat, old(run).held@.len()),
                )
                &&& final(run).failed == old(run).failed
                &&& final(run).failures == old(run).failures
                &&& if old(run).held@.len() + 1 < phase_calls(old(run).phase as nat) {
                    &&& final(run).phase == old(run).phase
                    &&& item_views(final(run).held@) == item_views(old(run).held@).push(
                        outcome->Returned_0.result@,
                    )
                    &&& final(run).report == old(run).report
                } else {
                    &&& final(run).phase == next_phase(
                        self.config_of(),
                        (old(run).phase + 1) as nat,
                    )
                    &&& final(run).held@.len() == 0
                    &&& phase_applied(
                        old(run).report,
                        final(run).report,
                        old(run).phase as nat,
                        item_views(old(run).held@).push(outcome->Returned_0.result@),
                    )
                }
            },
            !call_succeeded(outcome) ==> {
                &&& final(run).executed == old(run).executed
                &&& final(run).failed == old(run).failed + 1
                &&& final(run).failures@.len() == old(run).failures@.len() + 1
                &&& is_failure_of(
                    final(run).failures@.last(),
                    outcome,
                    call_timeout(old(run).phase as nat, self.config_of(), self.sampling_of()),
                )
                &&& final(run).phase == next_phase(self.config_of(), (old(run).phase + 1) as nat)
                &&& final(run).held@.len() == 0
                &&& final(run).report == old(run).report
            },
    {
        proof {
            use_type_invariant(self);
        }
        let phase = run.phase;
        let index = run.held.len();
        let last = (phase == 0 && index == 1) || (phase == 1 && index == 2) || phase >= 2;
        let timeout: u64 = if phase == 2 {
            self.sampling_config.timeout * 2
        } else {
            self.config.timeout_seconds
        };
        let failure: DiagnosisError = match outcome {
            CallOutcome::Returned(result) => {
                match result.error {
                    None => {
                        let (name, _) = self.call_of(phase, index);
                        let ghost logged = views(run.executed@);
                        let ghost kept = item_views(run.held@);
                        run.executed.push(name.to_string());
                        assert(views(run.executed@) =~= logged.push(name@));
                        run.held.push(result.result);
                        assert(item_views(run.held@) =~= kept.push(result.result@));
                        if last {
                            ProgressiveDiagnosis::apply_phase(&mut run.report, phase, &run.held);
                            run.held = Vec::new();
                            run.phase = self.phase_from(phase + 1);
                        }
                        return ;
                    },
                    Some(error) => DiagnosisError::FunctionExecutionFailed(error),
                }
            },
            CallOutcome::Failed(why) => DiagnosisError::FunctionExecutionFailed(why),
            CallOutcome::TimedOut => DiagnosisError::Timeout(timeout, timeout),
        };
        run.failures.push(failure);
        run.failed = run.failed + 1;
        run.held = Vec::new();
        run.phase = self.phase_from(phase + 1);
    }

    /// Writes how the run went into the summary of a report.
    pub fn update_execution_summary(report: &mut DiagnosticReport, run_seconds: u64, executed: Vec<
        String,
    >, failed: usize)
        ensures
            final(report).execution_summary.total_duration_seconds == run_seconds,
            final(report).execution_summary.status@ == "completed"@,
            final(report).execution_summary.executed_functions == executed,
            final(report).execution_summary.successful_functions == executed@.len(),
            final(report).execution_summary.failed_functions == failed,
            final(report).execution_summary.diagnostic_mode == old(
                report,
            ).execution_summary.diagnostic_mode,
            final(report).timestamp == old(report).timestamp,
            final(report).mode == old(report).mode,
            final(report).system_info == old(report).system_info,
            final(report).performance_metrics == old(report).performance_metrics,
            final(report).issues_identified == old(report).issues_identified,
            final(report).recommendations == old(report).recommendations,
    {
        report.execution_summary.total_duration_seconds = run_seconds;
        report.execution_summary.status = "completed".to_string();
        report.execution_summary.successful_functions = executed.len();
        report.execution_summary.executed_functions = executed;
        report.execution_summary.failed_functions = failed;
    }

    /// Holds the figures of a report against the thresholds and adds a
    /// finding and an advice for each that is exceeded: a use of the
    /// processor over 80 percent, a use of the memory over 85 percent.
    pub fn analyze_and_recommend(report: &mut DiagnosticReport)
        ensures
            rules_applied(*old(report), *final(report)),
    {
        let ghost before = *report;
        let cpu = report.performance_metrics.cpu_metrics.usage_percent;
        let memory = report.performance_metrics.memory_metrics.usage_percent;
        if cpu.exceeds(80) {
            let mut description = String::new();
            append(&mut description, "CPU使用率过高: ");
            let shown = cpu.to_tenths_text();
            append(&mut description, shown.as_str());
            append(&mut description, "%");
            let number = cpu.to_plain_text();
            let mut metrics: Vec<JsonMember> = Vec::new();
            metrics.push(JsonMember::new("cpu_usage_percent", JsonValue::Number(number)));
            assert(entry_views(metrics@) =~= seq![
                MemberSpec {
                    name: "cpu_usage_percent"@,
                    value: JsonSpec::Number(plain_text(cpu.thousandths as int)),
                },
            ]);
            let issue = SystemIssue {
                issue_type: SystemIssueType::HighCpuUsage,
                description,
                severity: IssueSeverity::Warning,
                metrics,
                recommendations: two_texts("检查高CPU进程", "考虑终止不必要的进程"),
            };
            assert(is_cpu_finding(issue, cpu));
            report.add_issue(issue);
            let advice = Recommendation {
                title: "优化CPU使用".to_string(),
                description: "建议检查和优化高CPU使用进程".to_string(),
                priority: 3,
                steps: two_texts("使用top命令检查CPU使用", "识别和终止高CPU进程"),
                expected_outcome: "CPU使用率降低到正常范围".to_string(),
            };
            report.add_recommendation(advice);
        }
        let ghost middle = *report;
        if memory.exceeds(85) {
            let mut description = String::new();
            append(&mut description, "内存使用率过高: ");
            let shown = memory.to_tenths_text();
            append(&mut description, shown.as_str());
            append(&mut description, "%");
            let number = memory.to_plain_text();
            let mut metrics: Vec<JsonMember> = Vec::new();
            metrics.push(JsonMember::new("memory_usage_percent", JsonValue::Number(number)));
            assert(entry_views(metrics@) =~= seq![
                MemberSpec {
                    name: "memory_usage_percent"@,
                    value: JsonSpec::Number(plain_text(memory.thousandths as int)),
                },
            ]);
            let issue = SystemIssue {
                issue_type: SystemIssueType::HighMemoryUsage,
                description,
                severity: IssueSeverity::Warning,
                metrics,
                recommendations: two_texts("检查高内存使用进程", "考虑清理缓存"),
            };
            assert(is_memory_finding(issue, memory));
            report.add_issue(issue);
            let advice = Recommendation {
                title: "优化内存使用".to_string(),
                description: "建议检查和优化内存使用情况".to_string(),
                priority: 3,
                steps: two_texts("使用free命令检查内存使用", "清理不必要的缓存"),
                expected_outcome: "内存使用率降低到正常范围".to_string(),
            };
            report.add_recommendation(advice);
        }
        proof {
            let n = before.issues_identified@.len() as int;
            let m = before.recommendations@.len() as int;
            assert(report.issues_identified@.subrange(0, n) =~= before.issues_identified@);
            assert(report.recommendations@.subrange(0, m) =~= before.recommendations@);
        }
    }

    /// Ends a run at the moment `now`: the summary is written, the rules
    /// are applied, and the report is handed over. The status is
    /// `completed` whether calls failed or not.
    pub fn finish(&self, run: DiagnosisRun, now: i64) -> (report: DiagnosticReport)
        ensures
            report.execution_summary.total_duration_seconds == elapsed(run.started, now),
            report.execution_summary.status@ == "completed"@,
            report.execution_summary.executed_functions == run.executed,
            report.execution_summary.successful_functions == run.executed@.len(),
            report.execution_summary.failed_functions == run.failed,
            report.execution_summary.diagnostic_mode == run.report.execution_summary.diagnostic_mode,
            findings_added(run.report, report),
    {
        let mut report = run.report;
        ProgressiveDiagnosis::update_execution_summary(
            &mut report,
            seconds_between(run.started, now),
            run.executed,
            run.failed,
        );
        ProgressiveDiagnosis::analyze_and_recommend(&mut report);
        report
    }
}

/// Whether a call went well: it returned, and without an error.
pub open spec fn call_succeeded(outcome: CallOutcome) -> bool {
    outcome matches CallOutcome::Returned(result) && result.error is None
}

/// The error that stands for an outcome that is no success.
pub open spec fn is_failure_of(error: DiagnosisError, outcome: CallOutcome, timeout: int) -> bool {
    match outcome {
        CallOutcome::Returned(result) => error matches DiagnosisError::FunctionExecutionFailed(why)
            && result.error matches Some(e) && why@ == e@,
        CallOutcome::Failed(text) => error matches DiagnosisError::FunctionExecutionFailed(why)
            && why@ == text@,
        CallOutcome::TimedOut => error matches DiagnosisError::Timeout(took, limit) && took
            == timeout && limit == timeout,
    }
}

/// The decimal numbers among `items`, in order.
pub fn decimals_among(items: &Vec<JsonValue>) -> (out: Vec<Decimal>)
    ensures
        out@ == decimal_items(item_views(items@)),
{
    let ghost all = item_views(items@);
    let mut out: Vec<Decimal> = Vec::new();
    let mut i: usize = 0;
    assert(all.take(0) =~= Seq::<JsonSpec>::empty());
    while i < items.len()
        invariant
            0 <= i <= items@.len(),
            all == item_views(items@),
            out@ == decimal_items(all.take(i as int)),
        decreases items@.len() - i,
    {
        proof {
            assert(all.take(i + 1).drop_last() =~= all.take(i as int));
            assert(all.take(i + 1).last() == items@[i as int]@);
        }
        match items[i].as_decimal() {
            Some(d) => {
                out.push(d);
            },
            None => {},
        }
        i += 1;
    }
    assert(all.take(items@.len() as int) =~= all);
    out
}

/// The low 32 bits of an unsigned number, or zero where there is none.
fn low_bits(value: Option<&JsonValue>) -> (r: u32)
    ensures
        r == match value {
            Some(v) => match v@.unsigned() {
                Some(n) => (n % 0x1_0000_0000) as u32,
                None => 0u32,
            },
            None => 0u32,
        },
{
    match value {
        Some(v) => match v.as_u64() {
            Some(n) => (n % 0x1_0000_0000) as u32,
            None => 0,
        },
        None => 0,
    }
}

} // verus!
