//! The analysis tools: input and output, the connections of the network,
//! and a diagnosis that runs several commands in a row.

use vstd::prelude::*;
use crate::error::AiResult;
use crate::func::executor::{
    CommandOutcome, CommandOutput, CommandRequest, ExecutorStep, FunctionExecutor, OutcomeSpec,
    PendingCommand, PendingSpec, RequestSpec, StepSpec,
};

use crate::func::system::platform::{
    default_arguments, get_platform_specific_command, page_counters, parse_vmstat_output,
    platform_name, platform_name_text, program_of, CommandType, Platform,
};
use crate::func::system::{
    arguments_refused, finished, finished_result, flag_argument, flag_or, follows, new_request,
    not_run, not_run_result, object2, object_of, owned_texts, parse_function_arguments,
    parsed_arguments, run_first, starts, text_argument, text_or, timed_request, unknown,
    unknown_function, unsigned_argument, unsigned_or, PlanSpec,
};
use crate::json::{
    entry_views, flag_member, number_member, object_member, set_member, text_array, text_member,
    texts_member, with_member, JsonMember, JsonSpec, JsonValue, MemberSpec,
};
use crate::provider::{
    definition, definition_views, find_schema, parameter, schema_named, DefinitionSpec,
    FunctionCall, FunctionDefinition, FunctionParameter, FunctionResult, ResultSpec,
};
use crate::text::{
    clone_texts, contains, decimal_text, lines, occurs, same_text, split_lines, trim, trimmed,
    unsigned_text, views,
};

verus! {

/// The executor of the analysis tools.
#[derive(Debug, Clone, Copy, PartialEq, Eq, Structural)]
pub struct AnalysisExecutor;

/// The names of the analysis tools.
pub open spec fn analysis_names() -> Seq<Seq<char>> {
    seq!["sys-iostat"@, "sys-netstat"@, "sys-diagnose"@]
}

/// Whether `name` is an analysis tool.
pub open spec fn analysis_known(name: Seq<char>) -> bool {
    name == "sys-iostat"@ || name == "sys-netstat"@ || name == "sys-diagnose"@
}

/// The schemas of the analysis tools.
pub open spec fn analysis_schemas() -> Seq<DefinitionSpec> {
    seq![
        definition(
            "sys-iostat"@,
            "显示I/O统计信息，支持多采样"@,
            seq![
                parameter("count"@, "采样次数，默认为2，最大为5"@, "number"@, false),
                parameter("interval"@, "采样间隔（秒），默认为1，最大为3"@, "number"@, false),
            ],
        ),
        definition(
            "sys-netstat"@,
            "显示网络连接统计信息"@,
            seq![
                parameter("show_tcp"@, "显示TCP连接，默认为true"@, "boolean"@, false),
                parameter("show_udp"@, "显示UDP连接，默认为false"@, "boolean"@, false),
            ],
        ),
        definition(
            "sys-diagnose"@,
            "执行综合系统诊断，支持不同深度模式"@,
            seq![
                parameter(
                    "mode"@,
                    "诊断模式: 'quick'(快速), 'standard'(标准), 'deep'(深度)，默认为'standard'"@,
                    "string"@,
                    false,
                ),
            ],
        ),
    ]
}

/// The low 32 bits of `n`, kept between `lo` and `hi`.
pub open spec fn sample_figure(n: nat, lo: nat, hi: nat) -> nat {
    let low = n % 0x1_0000_0000;
    if low < lo {
        lo
    } else if low > hi {
        hi
    } else {
        low
    }
}

/// The number of samples: from 1 to 5, 2 unless asked otherwise.
pub open spec fn sample_count(args: JsonSpec) -> nat {
    sample_figure(unsigned_or(args, "count"@, 2), 1, 5)
}

/// The seconds between samples: from 1 to 3, 1 unless asked otherwise.
pub open spec fn sample_interval(args: JsonSpec) -> nat {
    sample_figure(unsigned_or(args, "interval"@, 1), 1, 3)
}

/// The arguments of the sampling command: the defaults, the interval, and
/// the count where the platform's command takes one.
pub open spec fn iostat_arguments(args: JsonSpec, platform: Platform) -> Seq<Seq<char>> {
    let head = default_arguments(CommandType::Iostat, platform).push(
        decimal_text(sample_interval(args)),
    );
    if platform == Platform::Windows {
        head
    } else {
        head.push(decimal_text(sample_count(args)))
    }
}

/// What restricts the listing of connections to one protocol, where only
/// one of the two is asked for.
pub open spec fn protocol_selector(platform: Platform, tcp: bool, udp: bool) -> Seq<Seq<char>> {
    if tcp && !udp {
        if platform == Platform::Linux {
            seq!["-t"@]
        } else {
            seq!["-p"@, "tcp"@]
        }
    } else if udp && !tcp {
        if platform == Platform::Linux {
            seq!["-u"@]
        } else {
            seq!["-p"@, "udp"@]
        }
    } else {
        seq![]
    }
}

/// The arguments of the command that lists connections.
pub open spec fn netstat_arguments(args: JsonSpec, platform: Platform) -> Seq<Seq<char>> {
    default_arguments(CommandType::NetStat, platform) + protocol_selector(
        platform,
        flag_or(args, "show_tcp"@, true),
        flag_or(args, "show_udp"@, false),
    )
}

/// Whether a line of a connection listing speaks of TCP.
pub open spec fn speaks_tcp(line: Seq<char>, platform: Platform) -> bool {
    match platform {
        Platform::Windows => occurs(line, "TCP"@),
        Platform::Unknown => occurs(line, "tcp"@) || occurs(line, "TCP"@),
        _ => occurs(line, "tcp"@),
    }
}

/// Whether a line of a connection listing speaks of UDP and not of TCP.
pub open spec fn speaks_udp(line: Seq<char>, platform: Platform) -> bool {
    !speaks_tcp(line, platform) && match platform {
        Platform::Windows => occurs(line, "UDP"@),
        Platform::Unknown => occurs(line, "udp"@) || occurs(line, "UDP"@),
        _ => occurs(line, "udp"@),
    }
}

/// Whether a line of a connection listing is a TCP port that listens.
pub open spec fn speaks_listening(line: Seq<char>, platform: Platform) -> bool {
    speaks_tcp(line, platform) && match platform {
        Platform::Windows => occurs(line, "LISTENING"@),
        Platform::Unknown => occurs(line, "LISTEN"@) || occurs(line, "LISTENING"@),
        _ => occurs(line, "LISTEN"@),
    }
}

/// Whether a line of a connection listing is a TCP connection that is
/// established and does not listen.
pub open spec fn speaks_established(line: Seq<char>, platform: Platform) -> bool {
    speaks_tcp(line, platform) && !speaks_listening(line, platform) && occurs(
        line,
        "ESTABLISHED"@,
    )
}

/// What is counted in a connection listing.
#[derive(Debug, Clone, Copy, PartialEq, Eq, Structural)]
pub enum Counted {
    Tcp,
    Udp,
    Listening,
    Established,
}

/// Whether a line counts as `what`.
pub open spec fn counts_as(line: Seq<char>, platform: Platform, what: Counted) -> bool {
    match what {
        Counted::Tcp => speaks_tcp(line, platform),
        Counted::Udp => speaks_udp(line, platform),
        Counted::Listening => speaks_listening(line, platform),
        Counted::Established => speaks_established(line, platform),
    }
}

/// How many of the given lines count as `what`.
pub open spec fn count_lines(all: Seq<Seq<char>>, platform: Platform, what: Counted) -> nat
    decreases all.len(),
{
    if all.len() == 0 {
        0
    } else {
        count_lines(all.drop_last(), platform, what) + if counts_as(all.last(), platform, what) {
            1nat
        } else {
            0nat
        }
    }
}

/// No more lines count than there are.
pub proof fn lemma_count_lines_bound(all: Seq<Seq<char>>, platform: Platform, what: Counted)
    ensures
        count_lines(all, platform, what) <= all.len(),
    decreases all.len(),
{
    if all.len() > 0 {
        lemma_count_lines_bound(all.drop_last(), platform, what);
    }
}

/// The statistics of a connection listing.
pub open spec fn connection_stats(all: Seq<Seq<char>>, platform: Platform) -> Seq<MemberSpec> {
    seq![
        number_member("tcp_connections"@, count_lines(all, platform, Counted::Tcp)),
        number_member("udp_connections"@, count_lines(all, platform, Counted::Udp)),
        number_member("listening_ports"@, count_lines(all, platform, Counted::Listening)),
        number_member("established_connections"@, count_lines(all, platform, Counted::Established)),
    ]
}

/// A command as a member: its executable and its arguments.
pub open spec fn command_member(program: Seq<char>, args: Seq<Seq<char>>) -> MemberSpec {
    object_member(
        "command"@,
        seq![text_member("executable"@, program), texts_member("arguments"@, args)],
    )
}

/// The depth of the diagnosis that is asked for.
pub open spec fn diagnose_mode(args: JsonSpec) -> Seq<char> {
    text_or(args, "mode"@, "standard"@)
}

/// The kind of measurement of a stage of the diagnosis. The stages are,
/// in order: running time, memory, processes, input and output, network.
pub open spec fn stage_command(stage: nat) -> CommandType {
    if stage == 0 {
        CommandType::Uptime
    } else if stage == 1 {
        CommandType::MemInfo
    } else if stage == 2 {
        CommandType::ProcessList
    } else if stage == 3 {
        CommandType::Iostat
    } else {
        CommandType::NetStat
    }
}

/// The name under which a stage of the diagnosis is reported.
pub open spec fn stage_key(stage: nat) -> Seq<char> {
    if stage == 0 {
        "uptime"@
    } else if stage == 1 {
        "memory"@
    } else if stage == 2 {
        "top_cpu_processes"@
    } else if stage == 3 {
        "io_stats"@
    } else {
        "network_stats"@
    }
}

/// What a stage of the diagnosis adds to the default arguments.
pub open spec fn stage_extras(stage: nat, platform: Platform) -> Seq<Seq<char>> {
    if stage == 2 {
        match platform {
            Platform::MacOS => seq!["-c"@, "-o"@, "%cpu,comm"@],
            Platform::Windows => seq!["/fo"@, "csv"@],
            _ => seq!["--sort=-%cpu"@],
        }
    } else if stage == 3 {
        match platform {
            Platform::Windows => seq!["1"@],
            _ => seq!["1"@, "2"@],
        }
    } else {
        seq![]
    }
}

/// The arguments of the command of a stage.
pub open spec fn stage_arguments(stage: nat, platform: Platform) -> Seq<Seq<char>> {
    default_arguments(stage_command(stage), platform) + stage_extras(stage, platform)
}

/// The command of a stage: five seconds for the first two stages, ten for
/// the others.
pub open spec fn stage_request(stage: nat, platform: Platform) -> RequestSpec {
    timed_request(
        program_of(stage_command(stage), platform),
        stage_arguments(stage, platform),
        if stage < 2 {
            5
        } else {
            10
        },
    )
}

/// The stage that follows `stage` at the given depth, if any: the
/// processes unless the diagnosis is quick, input and output and the
/// network only where it is deep.
pub open spec fn next_stage(stage: nat, mode: Seq<char>) -> Option<nat> {
    if stage == 0 {
        Some(1)
    } else if stage == 1 {
        if mode != "quick"@ {
            Some(2)
        } else {
            None
        }
    } else if stage == 2 {
        if mode == "deep"@ {
            Some(3)
        } else {
            None
        }
    } else if stage == 3 {
        Some(4)
    } else {
        None
    }
}

/// What a stage reports of a command that ran to its end.
pub open spec fn stage_entry(stage: nat, platform: Platform, stdout: Seq<char>, success: bool)
    -> JsonSpec {
    let base = seq![
        MemberSpec {
            name: "data"@,
            value: if stage == 2 {
                text_array(first_lines(lines(stdout), 11))
            } else {
                JsonSpec::Text(trimmed(stdout))
            },
        },
        text_member("platform"@, platform_name_text(platform)),
        command_member(
            program_of(stage_command(stage), platform),
            stage_arguments(stage, platform),
        ),
        flag_member("success"@, success),
    ];
    if stage == 1 && platform == Platform::MacOS {
        JsonSpec::Object(with_member(base, "parsed"@, page_counters(stdout)))
    } else {
        JsonSpec::Object(base)
    }
}

/// At most the first `n` lines.
pub open spec fn first_lines(all: Seq<Seq<char>>, n: nat) -> Seq<Seq<char>> {
    if all.len() > n {
        all.take(n as int)
    } else {
        all
    }
}

/// What has been collected once the command of `stage` has ended: its
/// report is added if it ran to its end, and left out if it did not.
pub open spec fn collected_after(
    collected: Seq<MemberSpec>,
    stage: nat,
    platform: Platform,
    outcome: OutcomeSpec,
) -> Seq<MemberSpec> {
    match outcome {
        OutcomeSpec::Completed { stdout, stderr, success } => with_member(
            collected,
            stage_key(stage),
            stage_entry(stage, platform, stdout, success),
        ),
        _ => collected,
    }
}

/// How the diagnosis goes on once the command of `pending` has ended:
/// with the next stage, or with the result when no stage is left.
pub open spec fn diagnose_step(
    args: JsonSpec,
    platform: Platform,
    pending: PendingSpec,
    outcome: OutcomeSpec,
) -> StepSpec {
    let collected = collected_after(pending.collected, pending.stage, platform, outcome);
    match next_stage(pending.stage, diagnose_mode(args)) {
        Some(stage) => StepSpec::Run(
            PendingSpec { request: stage_request(stage, platform), stage, collected },
        ),
        None => StepSpec::Done(
            ResultSpec {
                name: "sys-diagnose"@,
                result: JsonSpec::Object(
                    seq![
                        text_member("diagnosis_mode"@, diagnose_mode(args)),
                        object_member("results"@, collected),
                        flag_member("success"@, true),
                    ],
                ),
                error: None,
            },
        ),
    }
}

/// The first command that an analysis tool asks for.
pub open spec fn analysis_plan(name: Seq<char>, args: JsonSpec, platform: Platform) -> PlanSpec {
    if name == "sys-iostat"@ {
        PlanSpec::Run(
            timed_request(
                program_of(CommandType::Iostat, platform),
                iostat_arguments(args, platform),
                20,
            ),
        )
    } else if name == "sys-netstat"@ {
        PlanSpec::Run(
            timed_request(
                program_of(CommandType::NetStat, platform),
                netstat_arguments(args, platform),
                15,
            ),
        )
    } else {
        PlanSpec::Run(stage_request(0, platform))
    }
}

/// What the sampling tool and the connection tool make of the outcome of
/// their command.
pub open spec fn analysis_result(
    name: Seq<char>,
    args: JsonSpec,
    platform: Platform,
    outcome: OutcomeSpec,
) -> ResultSpec {
    if name == "sys-iostat"@ {
        match outcome {
            OutcomeSpec::Completed { stdout, stderr, success } => finished(
                name,
                JsonSpec::Object(
                    seq![
                        texts_member("iostat_output"@, lines(stdout)),
                        number_member("count"@, sample_count(args)),
                        number_member("interval"@, sample_interval(args)),
                        text_member("platform"@, platform_name_text(platform)),
                        command_member(
                            program_of(CommandType::Iostat, platform),
                            iostat_arguments(args, platform),
                        ),
                        flag_member("success"@, success),
                    ],
                ),
                success,
                stderr,
            ),
            _ => not_run(name, "Failed to get I/O statistics: "@, outcome),
        }
    } else {
        match outcome {
            OutcomeSpec::Completed { stdout, stderr, success } => finished(
                name,
                JsonSpec::Object(
                    seq![
                        texts_member("netstat_output"@, lines(stdout)),
                        object_member(
                            "connection_stats"@,
                            connection_stats(lines(stdout), platform),
                        ),
                        flag_member("show_tcp"@, flag_or(args, "show_tcp"@, true)),
                        flag_member("show_udp"@, flag_or(args, "show_udp"@, false)),
                        text_member("platform"@, platform_name_text(platform)),
                        command_member(
                            program_of(CommandType::NetStat, platform),
                            netstat_arguments(args, platform),
                        ),
                        flag_member("success"@, success),
                    ],
                ),
                success,
                stderr,
            ),
            _ => not_run(name, "Failed to get network statistics: "@, outcome),
        }
    }
}

/// How an analysis tool goes on once a command has ended.
pub open spec fn analysis_step(
    name: Seq<char>,
    args: JsonSpec,
    platform: Platform,
    pending: PendingSpec,
    outcome: OutcomeSpec,
) -> StepSpec {
    if name == "sys-diagnose"@ {
        diagnose_step(args, platform, pending, outcome)
    } else {
        StepSpec::Done(analysis_result(name, args, platform, outcome))
    }
}

/// The schemas of the analysis tools.
pub fn create_analysis_functions() -> (r: Vec<FunctionDefinition>)
    ensures
        definition_views(r@) == analysis_schemas(),
{
    let mut r: Vec<FunctionDefinition> = Vec::new();
    let mut iostat: Vec<FunctionParameter> = Vec::new();
    iostat.push(FunctionParameter::new("count", "采样次数，默认为2，最大为5", "number", false));
    iostat.push(
        FunctionParameter::new("interval", "采样间隔（秒），默认为1，最大为3", "number", false),
    );
    r.push(FunctionDefinition::new("sys-iostat", "显示I/O统计信息，支持多采样", iostat));
    let mut netstat: Vec<FunctionParameter> = Vec::new();
    netstat.push(FunctionParameter::new("show_tcp", "显示TCP连接，默认为true", "boolean", false));
    netstat.push(FunctionParameter::new("show_udp", "显示UDP连接，默认为false", "boolean", false));
    r.push(FunctionDefinition::new("sys-netstat", "显示网络连接统计信息", netstat));
    let mut diagnose: Vec<FunctionParameter> = Vec::new();
    diagnose.push(
        FunctionParameter::new(
            "mode",
            "诊断模式: 'quick'(快速), 'standard'(标准), 'deep'(深度)，默认为'standard'",
            "string",
            false,
        ),
    );
    r.push(FunctionDefinition::new("sys-diagnose", "执行综合系统诊断，支持不同深度模式", diagnose));
    proof {
        let got = definition_views(r@);
        let want = analysis_schemas();
        assert(got.len() == want.len());
        assert(got[0].parameters =~= want[0].parameters);
        assert(got[1].parameters =~= want[1].parameters);
        assert(got[2].parameters =~= want[2].parameters);
        assert(got =~= want);
    }
    r
}

/// The low 32 bits of `n`, kept between `lo` and `hi`.
fn sample(n: u64, lo: u64, hi: u64) -> (r: u64)
    requires
        lo <= hi,
    ensures
        r == sample_figure(n as nat, lo as nat, hi as nat),
{
    let low = n % 0x1_0000_0000;
    if low < lo {
        lo
    } else if low > hi {
        hi
    } else {
        low
    }
}

/// A command as a member: its executable and its arguments.
fn command_entry(program: &str, args: &Vec<String>) -> (r: JsonMember)
    ensures
        r.name@ == "command"@,
        r.value@ == command_member(program@, views(args@)).value,
{
    JsonMember::new(
        "command",
        object2(JsonMember::text("executable", program), JsonMember::texts("arguments", args)),
    )
}

/// Whether `line` holds `a` or, on an unknown platform, `b`.
fn holds(line: &str, platform: &Platform, lower: &str, upper: &str) -> (r: bool)
    ensures
        r == match *platform {
            Platform::Windows => occurs(line@, upper@),
            Platform::Unknown => occurs(line@, lower@) || occurs(line@, upper@),
            _ => occurs(line@, lower@),
        },
{
    match platform {
        Platform::Windows => contains(line, upper),
        Platform::Unknown => contains(line, lower) || contains(line, upper),
        _ => contains(line, lower),
    }
}

/// The statistics of a connection listing.
pub fn count_connections(all: &Vec<String>, platform: &Platform) -> (r: Vec<JsonMember>)
    ensures
        entry_views(r@) == connection_stats(views(all@), *platform),
{
    let ghost lined = views(all@);
    let mut tcp: u64 = 0;
    let mut udp: u64 = 0;
    let mut listening: u64 = 0;
    let mut established: u64 = 0;
    let mut i: usize = 0;
    assert(lined.take(0) =~= Seq::<Seq<char>>::empty());
    while i < all.len()
        invariant
            0 <= i <= all@.len(),
            lined == views(all@),
            tcp == count_lines(lined.take(i as int), *platform, Counted::Tcp),
            udp == count_lines(lined.take(i as int), *platform, Counted::Udp),
            listening == count_lines(lined.take(i as int), *platform, Counted::Listening),
            established == count_lines(lined.take(i as int), *platform, Counted::Established),
        decreases all@.len() - i,
    {
        proof {
            assert(lined.take(i + 1).drop_last() =~= lined.take(i as int));
            assert(lined.take(i + 1).last() == all@[i as int]@);
            lemma_count_lines_bound(lined.take(i as int), *platform, Counted::Tcp);
            lemma_count_lines_bound(lined.take(i as int), *platform, Counted::Udp);
            lemma_count_lines_bound(lined.take(i as int), *platform, Counted::Listening);
            lemma_count_lines_bound(lined.take(i as int), *platform, Counted::Established);
        }
        let line = all[i].as_str();
        if holds(line, platform, "tcp", "TCP") {
            tcp += 1;
            if holds(line, platform, "LISTEN", "LISTENING") {
                listening += 1;
            } else if contains(line, "ESTABLISHED") {
                established += 1;
            }
        } else if holds(line, platform, "udp", "UDP") {
            udp += 1;
        }
        i += 1;
    }
    assert(lined.take(all@.len() as int) =~= lined);
    let mut r: Vec<JsonMember> = Vec::new();
    r.push(JsonMember::number("tcp_connections", tcp));
    r.push(JsonMember::number("udp_connections", udp));
    r.push(JsonMember::number("listening_ports", listening));
    r.push(JsonMember::number("established_connections", established));
    assert(entry_views(r@) =~= connection_stats(lined, *platform));
    r
}

/// At most the first `n` lines.
fn take_lines(all: &Vec<String>, n: usize) -> (out: Vec<String>)
    ensures
        views(out@) == first_lines(views(all@), n as nat),
{
    if all.len() <= n {
        return clone_texts(all);
    }
    let mut out: Vec<String> = Vec::new();
    let mut i: usize = 0;
    while i < n
        invariant
            0 <= i <= n < all@.len(),
            out@.len() == i,
            forall|k: int| 0 <= k < i ==> (#[trigger] out@[k])@ == all@[k]@,
        decreases n - i,
    {
        out.push(all[i].clone());
        i += 1;
    }
    assert(views(out@) =~= views(all@).take(n as int));
    out
}

impl AnalysisExecutor {
    /// Whether `name` is one of the executor's tools.
    pub fn knows(name: &str) -> (r: bool)
        ensures
            r == analysis_known(name@),
    {
        same_text(name, "sys-iostat") || same_text(name, "sys-netstat") || same_text(
            name,
            "sys-diagnose",
        )
    }

    /// The program and the arguments of the sampling command.
    pub fn iostat_command(args: &JsonValue, platform: &Platform) -> (r: (String, Vec<String>))
        ensures
            r.0@ == program_of(CommandType::Iostat, *platform),
            views(r.1@) == iostat_arguments(args@, *platform),
    {
        let count = sample(unsigned_argument(args, "count", 2), 1, 5);
        let interval = sample(unsigned_argument(args, "interval", 1), 1, 3);
        let (program, defaults) = get_platform_specific_command(CommandType::Iostat, platform);
        let mut words = owned_texts(&defaults);
        let ghost head = views(words@);
        words.push(unsigned_text(interval));
        assert(views(words@) =~= head.push(decimal_text(interval as nat)));
        match platform {
            Platform::Windows => {},
            _ => {
                let ghost with_interval = views(words@);
                words.push(unsigned_text(count));
                assert(views(words@) =~= with_interval.push(decimal_text(count as nat)));
            },
        }
        (program, words)
    }

    /// The program and the arguments of the command that lists connections.
    pub fn netstat_command(args: &JsonValue, platform: &Platform) -> (r: (String, Vec<String>))
        ensures
            r.0@ == program_of(CommandType::NetStat, *platform),
            views(r.1@) == netstat_arguments(args@, *platform),
    {
        let tcp = flag_argument(args, "show_tcp", true);
        let udp = flag_argument(args, "show_udp", false);
        let (program, defaults) = get_platform_specific_command(CommandType::NetStat, platform);
        let mut words = owned_texts(&defaults);
        let ghost head = views(words@);
        let linux = match platform {
            Platform::Linux => true,
            _ => false,
        };
        if tcp && !udp {
            if linux {
                words.push("-t".to_string());
                assert(views(words@) =~= head + seq!["-t"@]);
            } else {
                words.push("-p".to_string());
                words.push("tcp".to_string());
                assert(views(words@) =~= head + seq!["-p"@, "tcp"@]);
            }
        } else if udp && !tcp {
            if linux {
                words.push("-u".to_string());
                assert(views(words@) =~= head + seq!["-u"@]);
            } else {
                words.push("-p".to_string());
                words.push("udp".to_string());
                assert(views(words@) =~= head + seq!["-p"@, "udp"@]);
            }
        } else {
            assert(views(words@) =~= head + Seq::<Seq<char>>::empty());
        }
        (program, words)
    }

    /// The program and the arguments of a stage of the diagnosis.
    pub fn stage_command(stage: usize, platform: &Platform) -> (r: (String, Vec<String>))
        ensures
            r.0@ == program_of(stage_command(stage as nat), *platform),
            views(r.1@) == stage_arguments(stage as nat, *platform),
    {
        let command_type = if stage == 0 {
            CommandType::Uptime
        } else if stage == 1 {
            CommandType::MemInfo
        } else if stage == 2 {
            CommandType::ProcessList
        } else if stage == 3 {
            CommandType::Iostat
        } else {
            CommandType::NetStat
        };
        let (program, defaults) = get_platform_specific_command(command_type, platform);
        let mut words = owned_texts(&defaults);
        let ghost head = views(words@);
        if stage == 2 {
            match platform {
                Platform::MacOS => {
                    words.push("-c".to_string());
                    words.push("-o".to_string());
                    words.push("%cpu,comm".to_string());
                    assert(views(words@) =~= head + seq!["-c"@, "-o"@, "%cpu,comm"@]);
                },
                Platform::Windows => {
                    words.push("/fo".to_string());
                    words.push("csv".to_string());
                    assert(views(words@) =~= head + seq!["/fo"@, "csv"@]);
                },
                _ => {
                    words.push("--sort=-%cpu".to_string());
                    assert(views(words@) =~= head + seq!["--sort=-%cpu"@]);
                },
            }
        } else if stage == 3 {
            match platform {
                Platform::Windows => {
                    words.push("1".to_string());
                    assert(views(words@) =~= head + seq!["1"@]);
                },
                _ => {
                    words.push("1".to_string());
                    words.push("2".to_string());
                    assert(views(words@) =~= head + seq!["1"@, "2"@]);
                },
            }
        } else {
            assert(views(words@) =~= head + Seq::<Seq<char>>::empty());
        }
        (program, words)
    }

    /// The command of a stage of the diagnosis.
    pub fn stage_plan(stage: usize, platform: &Platform) -> (r: CommandRequest)
        ensures
            r@ == stage_request(stage as nat, *platform),
    {
        let (program, words) = AnalysisExecutor::stage_command(stage, platform);
        new_request(
            program.as_str(),
            words,
            if stage < 2 {
                5
            } else {
                10
            },
        )
    }

    /// The first command that the tool `name` asks for.
    pub fn plan(name: &str, args: &JsonValue, platform: &Platform) -> (r: AiResult<CommandRequest>)
        requires
            analysis_known(name@),
        ensures
            follows(r, analysis_plan(name@, args@, *platform)),
    {
        if same_text(name, "sys-iostat") {
            let (program, words) = AnalysisExecutor::iostat_command(args, platform);
            Ok(new_request(program.as_str(), words, 20))
        } else if same_text(name, "sys-netstat") {
            let (program, words) = AnalysisExecutor::netstat_command(args, platform);
            Ok(new_request(program.as_str(), words, 15))
        } else {
            Ok(AnalysisExecutor::stage_plan(0, platform))
        }
    }

    /// What the sampling tool and the connection tool make of the outcome
    /// of their command.
    pub fn complete(name: &str, args: &JsonValue, platform: &Platform, outcome: &CommandOutcome)
        -> (r: FunctionResult)
        requires
            name@ == "sys-iostat"@ || name@ == "sys-netstat"@,
        ensures
            r@ == analysis_result(name@, args@, *platform, outcome@),
    {
        if same_text(name, "sys-iostat") {
            match outcome {
                CommandOutcome::Completed(output) => {
                    let count = sample(unsigned_argument(args, "count", 2), 1, 5);
                    let interval = sample(unsigned_argument(args, "interval", 1), 1, 3);
                    let (program, words) = AnalysisExecutor::iostat_command(args, platform);
                    let listed = split_lines(output.stdout.as_str());
                    let mut members: Vec<JsonMember> = Vec::new();
                    members.push(JsonMember::texts("iostat_output", &listed));
                    members.push(JsonMember::number("count", count));
                    members.push(JsonMember::number("interval", interval));
                    members.push(JsonMember::text("platform", platform_name(platform)));
                    members.push(command_entry(program.as_str(), &words));
                    members.push(JsonMember::flag("success", output.success));
                    let ghost want = seq![
                        texts_member("iostat_output"@, lines(output.stdout@)),
                        number_member("count"@, sample_count(args@)),
                        number_member("interval"@, sample_interval(args@)),
                        text_member("platform"@, platform_name_text(*platform)),
                        command_member(
                            program_of(CommandType::Iostat, *platform),
                            iostat_arguments(args@, *platform),
                        ),
                        flag_member("success"@, output.success),
                    ];
                    assert(entry_views(members@) =~= want);
                    finished_result(name, object_of(members), output)
                },
                _ => not_run_result(name, "Failed to get I/O statistics: ", outcome),
            }
        } else {
            match outcome {
                CommandOutcome::Completed(output) => {
                    let (program, words) = AnalysisExecutor::netstat_command(args, platform);
                    let listed = split_lines(output.stdout.as_str());
                    let stats = count_connections(&listed, platform);
                    let mut members: Vec<JsonMember> = Vec::new();
                    members.push(JsonMember::texts("netstat_output", &listed));
                    members.push(JsonMember::new("connection_stats", object_of(stats)));
                    members.push(JsonMember::flag("show_tcp", flag_argument(args, "show_tcp", true)));
                    members.push(
                        JsonMember::flag("show_udp", flag_argument(args, "show_udp", false)),
                    );
                    members.push(JsonMember::text("platform", platform_name(platform)));
                    members.push(command_entry(program.as_str(), &words));
                    members.push(JsonMember::flag("success", output.success));
                    let ghost want = seq![
                        texts_member("netstat_output"@, lines(output.stdout@)),
                        object_member(
                            "connection_stats"@,
                            connection_stats(lines(output.stdout@), *platform),
                        ),
                        flag_member("show_tcp"@, flag_or(args@, "show_tcp"@, true)),
                        flag_member("show_udp"@, flag_or(args@, "show_udp"@, false)),
                        text_member("platform"@, platform_name_text(*platform)),
                        command_member(
                            program_of(CommandType::NetStat, *platform),
                            netstat_arguments(args@, *platform),
                        ),
                        flag_member("success"@, output.success),
                    ];
                    assert(entry_views(members@) =~= want);
                    finished_result(name, object_of(members), output)
                },
                _ => not_run_result(name, "Failed to get network statistics: ", outcome),
            }
        }
    }

    /// What a stage of the diagnosis reports of a command that ran to its
    /// end.
    pub fn stage_report(stage: usize, platform: &Platform, output: &CommandOutput) -> (r: JsonValue)
        ensures
            r@ == stage_entry(stage as nat, *platform, output.stdout@, output.success),
    {
        let (program, words) = AnalysisExecutor::stage_command(stage, platform);
        let data = if stage == 2 {
            let listed = split_lines(output.stdout.as_str());
            let first = take_lines(&listed, 11);
            JsonValue::texts(&first)
        } else {
            let text = trim(output.stdout.as_str());
            JsonValue::text(text.as_str())
        };
        let mut members: Vec<JsonMember> = Vec::new();
        members.push(JsonMember::new("data", data));
        members.push(JsonMember::text("platform", platform_name(platform)));
        members.push(command_entry(program.as_str(), &words));
        members.push(JsonMember::flag("success", output.success));
        let ghost base = seq![
            MemberSpec {
                name: "data"@,
                value: if stage == 2 {
                    text_array(first_lines(lines(output.stdout@), 11))
                } else {
                    JsonSpec::Text(trimmed(output.stdout@))
                },
            },
            text_member("platform"@, platform_name_text(*platform)),
            command_member(
                program_of(stage_command(stage as nat), *platform),
                stage_arguments(stage as nat, *platform),
            ),
            flag_member("success"@, output.success),
        ];
        assert(entry_views(members@) =~= base);
        let mac = match platform {
            Platform::MacOS => true,
            _ => false,
        };
        if stage == 1 && mac {
            set_member(&mut members, "parsed", parse_vmstat_output(output.stdout.as_str()));
        }
        object_of(members)
    }

    /// The stage that follows `stage` at the depth `mode`.
    pub fn stage_after(stage: usize, mode: &str) -> (r: Option<usize>)
        ensures
            match r {
                Some(s) => next_stage(stage as nat, mode@) == Some(s as nat),
                None => next_stage(stage as nat, mode@) is None,
            },
    {
        if stage == 0 {
            Some(1)
        } else if stage == 1 {
            if !same_text(mode, "quick") {
                Some(2)
            } else {
                None
            }
        } else if stage == 2 {
            if same_text(mode, "deep") {
                Some(3)
            } else {
                None
            }
        } else if stage == 3 {
            Some(4)
        } else {
            None
        }
    }

    /// How the diagnosis goes on once the command of `pending` has ended.
    pub fn diagnose_next(
        args: &JsonValue,
        platform: &Platform,
        pending: PendingCommand,
        outcome: &CommandOutcome,
    ) -> (step: ExecutorStep)
        ensures
            step@ == diagnose_step(args@, *platform, pending@, outcome@),
    {
        let stage = pending.stage;
        let mut collected = pending.collected;
        match outcome {
            CommandOutcome::Completed(output) => {
                let key: &str = if stage == 0 {
                    "uptime"
                } else if stage == 1 {
                    "memory"
                } else if stage == 2 {
                    "top_cpu_processes"
                } else if stage == 3 {
                    "io_stats"
                } else {
                    "network_stats"
                };
                set_member(
                    &mut collected,
                    key,
                    AnalysisExecutor::stage_report(stage, platform, output),
                );
            },
            _ => {},
        }
        let mode = text_argument(args, "mode", "standard");
        match AnalysisExecutor::stage_after(stage, mode.as_str()) {
            Some(next) => ExecutorStep::Run(
                PendingCommand {
                    request: AnalysisExecutor::stage_plan(next, platform),
                    stage: next,
                    collected,
                },
            ),
            None => {
                let mut members: Vec<JsonMember> = Vec::new();
                members.push(JsonMember::text("diagnosis_mode", mode.as_str()));
                let ghost gathered = entry_views(collected@);
                members.push(JsonMember::new("results", object_of(collected)));
                members.push(JsonMember::flag("success", true));
                let ghost want = seq![
                    text_member("diagnosis_mode"@, mode@),
                    object_member("results"@, gathered),
                    flag_member("success"@, true),
                ];
                assert(entry_views(members@) =~= want);
                ExecutorStep::Done(
                    FunctionResult {
                        name: "sys-diagnose".to_string(),
                        result: object_of(members),
                        error: None,
                    },
                )
            },
        }
    }
}

impl FunctionExecutor for AnalysisExecutor {
    fn supported_functions(&self) -> (names: Vec<String>)
        ensures
            views(names@) == analysis_names(),
    {
        let mut names: Vec<String> = Vec::new();
        names.push("sys-iostat".to_string());
        names.push("sys-netstat".to_string());
        names.push("sys-diagnose".to_string());
        assert(views(names@) =~= analysis_names());
        names
    }

    fn get_function_schema(&self, function_name: &str) -> (schema: Option<FunctionDefinition>)
        ensures
            schema is Some <==> schema_named(analysis_schemas(), function_name@) is Some,
            schema matches Some(d) ==> schema_named(analysis_schemas(), function_name@) == Some(
                d@,
            ),
    {
        find_schema(create_analysis_functions(), function_name)
    }

    fn begin(&self, call: &FunctionCall, platform: &Platform) -> (step: AiResult<ExecutorStep>)
        ensures
            !analysis_known(call.function.name@) ==> unknown(step, "Unknown analysis function"@),
            analysis_known(call.function.name@) ==> match parsed_arguments(
                call.function.arguments@,
            ) {
                None => arguments_refused(step, call.function.arguments@),
                Some(args) => starts(step, analysis_plan(call.function.name@, args, *platform)),
            },
    {
        let name = call.function.name.as_str();
        if !AnalysisExecutor::knows(name) {
            return unknown_function("Unknown analysis function");
        }
        let args = match parse_function_arguments(call.function.arguments.as_str()) {
            Ok(args) => args,
            Err(e) => {
                return Err(e);
            },
        };
        match AnalysisExecutor::plan(name, &args, platform) {
            Ok(request) => Ok(run_first(request)),
            Err(e) => Err(e),
        }
    }

    fn resume(
        &self,
        call: &FunctionCall,
        platform: &Platform,
        pending: PendingCommand,
        outcome: CommandOutcome,
    ) -> (step: AiResult<ExecutorStep>)
        ensures
            !analysis_known(call.function.name@) ==> unknown(step, "Unknown analysis function"@),
            analysis_known(call.function.name@) ==> match parsed_arguments(
                call.function.arguments@,
            ) {
                None => arguments_refused(step, call.function.arguments@),
                Some(args) => step matches Ok(s) && s@ == analysis_step(
                    call.function.name@,
                    args,
                    *platform,
                    pending@,
                    outcome@,
                ),
            },
    {
        let name = call.function.name.as_str();
        if !AnalysisExecutor::knows(name) {
            return unknown_function("Unknown analysis function");
        }
        let args = match parse_function_arguments(call.function.arguments.as_str()) {
            Ok(args) => args,
            Err(e) => {
                return Err(e);
            },
        };
        if same_text(name, "sys-diagnose") {
            Ok(AnalysisExecutor::diagnose_next(&args, platform, pending, &outcome))
        } else {
            Ok(ExecutorStep::Done(AnalysisExecutor::complete(name, &args, platform, &outcome)))
        }
    }
}

} // verus!
