//! The network tool: whether a host answers.

use vstd::prelude::*;
use crate::error::AiResult;
use crate::func::executor::{
    CommandOutcome, CommandRequest, ExecutorStep, FunctionExecutor, OutcomeSpec, PendingCommand,
    StepSpec,
};
use crate::func::system::platform::Platform;
use crate::func::system::{
    arguments_refused, follows, new_request, object2, object_of, parse_function_arguments,
    parsed_arguments, refuse, refuses, run_first, starts, timed_request, unknown, unknown_function,
    unsigned_argument, unsigned_or, PlanSpec,
};
use crate::json::{
    entry_views, flag_member, number_member, object_member, text_member, JsonMember, JsonSpec,
    JsonValue,
};
use crate::provider::{
    definition, definition_views, find_schema, parameter, schema_named, DefinitionSpec,
    FunctionCall, FunctionDefinition, FunctionParameter, FunctionResult, ResultSpec,
};
use crate::text::{
    append, chars_of, contains, decimal_text, lines, occurs, same_text, split_lines, trim, trimmed,
    unsigned_text, views,
};

verus! {

/// The executor of the network tool.
#[derive(Debug, Clone, Copy, PartialEq, Eq, Structural)]
pub struct NetworkExecutor;

/// The names of the network tools.
pub open spec fn net_names() -> Seq<Seq<char>> {
    seq!["net-ping"@]
}

/// The schemas of the network tools.
pub open spec fn net_schemas() -> Seq<DefinitionSpec> {
    seq![
        definition(
            "net-ping"@,
            "测试网络连通性"@,
            seq![
                parameter("host"@, "要ping的主机名或IP地址"@, "string"@, true),
                parameter("count"@, "ping包数量，默认为4，最大为10"@, "number"@, false),
                parameter("timeout"@, "超时时间（秒），默认为10，最大为30"@, "number"@, false),
            ],
        ),
    ]
}

/// A character that a host name may hold: a letter, a digit, a point or
/// a hyphen.
pub open spec fn host_char(c: char) -> bool {
    ('a' <= c <= 'z') || ('A' <= c <= 'Z') || ('0' <= c <= '9') || c == '.' || c == '-'
}

/// A host name that is let through: from 1 to 253 characters, each of
/// them a [`host_char`].
pub open spec fn valid_host(host: Seq<char>) -> bool {
    &&& 1 <= host.len() <= 253
    &&& forall|i: int| 0 <= i < host.len() ==> host_char(#[trigger] host[i])
}

/// A host name that is let through holds none of the characters that a
/// shell would act on.
pub proof fn law_valid_host_is_harmless(host: Seq<char>, i: int)
    requires
        valid_host(host),
        0 <= i < host.len(),
    ensures
        host[i] != ';',
        host[i] != '|',
        host[i] != '&',
        host[i] != '<',
        host[i] != '>',
        host[i] != '$',
        host[i] != ' ',
{
    assert(host_char(host[i]));
}

/// Whether a host name is let through.
pub fn is_valid_host(host: &str) -> (r: bool)
    ensures
        r == valid_host(host@),
{
    let chars = chars_of(host);
    if chars.len() == 0 || chars.len() > 253 {
        return false;
    }
    let mut i: usize = 0;
    while i < chars.len()
        invariant
            0 <= i <= chars@.len(),
            chars@ == host@,
            forall|k: int| 0 <= k < i ==> host_char(#[trigger] chars@[k]),
        decreases chars@.len() - i,
    {
        let c = chars[i];
        let ok = ('a' <= c && c <= 'z') || ('A' <= c && c <= 'Z') || ('0' <= c && c <= '9') || c
            == '.' || c == '-';
        if !ok {
            assert(!host_char(chars@[i as int]));
            return false;
        }
        i += 1;
    }
    true
}

/// The greatest place below `upto` whose line holds `needle`, or -1.
pub open spec fn last_line_with(all: Seq<Seq<char>>, needle: Seq<char>, upto: int) -> int
    decreases upto,
{
    if upto <= 0 || upto > all.len() {
        -1
    } else if occurs(all[upto - 1], needle) {
        upto - 1
    } else {
        last_line_with(all, needle, upto - 1)
    }
}

/// The summary of a ping: its last line that speaks of the packets
/// transmitted, without surrounding white space.
pub open spec fn ping_summary(output: Seq<char>) -> Option<Seq<char>> {
    let all = lines(output);
    let at = last_line_with(all, "packets transmitted"@, all.len() as int);
    if at >= 0 {
        Some(trimmed(all[at]))
    } else {
        None
    }
}

/// The statistics of a ping: an object that holds its summary, if the
/// output has one.
pub open spec fn ping_stats(output: Seq<char>) -> Option<JsonSpec> {
    match ping_summary(output) {
        Some(summary) => Some(JsonSpec::Object(seq![text_member("summary"@, summary)])),
        None => None,
    }
}

/// The statistics of a ping, if its output has any.
pub fn parse_ping_stats(output: &str) -> (r: Option<JsonValue>)
    ensures
        r is Some <==> ping_stats(output@) is Some,
        r matches Some(v) ==> ping_stats(output@) == Some(v@),
{
    let all = split_lines(output);
    let mut i: usize = all.len();
    while i > 0
        invariant
            0 <= i <= all@.len(),
            views(all@) == lines(output@),
            last_line_with(views(all@), "packets transmitted"@, i as int) == last_line_with(
                views(all@),
                "packets transmitted"@,
                all@.len() as int,
            ),
        decreases i,
    {
        if contains(all[i - 1].as_str(), "packets transmitted") {
            let summary = trim(all[i - 1].as_str());
            let mut inner: Vec<JsonMember> = Vec::new();
            inner.push(JsonMember::text("summary", summary.as_str()));
            assert(entry_views(inner@) =~= seq![text_member("summary"@, summary@)]);
            return Some(object_of(inner));
        }
        i -= 1;
    }
    None
}

/// `n`, but at most `most`.
pub open spec fn at_most(n: nat, most: nat) -> nat {
    if n > most {
        most
    } else {
        n
    }
}

/// The command that the ping tool asks for.
pub open spec fn net_plan(args: JsonSpec) -> PlanSpec {
    match args.member_text("host"@) {
        None => PlanSpec::Refuse("host parameter is required"@),
        Some(host) => if !valid_host(host) {
            PlanSpec::Refuse("Invalid host: "@ + host)
        } else {
            let count = at_most(unsigned_or(args, "count"@, 4), 10);
            let timeout = at_most(unsigned_or(args, "timeout"@, 10), 30);
            PlanSpec::Run(
                timed_request(
                    "ping"@,
                    seq!["-c"@, decimal_text(count), "-W"@, decimal_text(timeout), host],
                    (timeout + 5) as u64,
                ),
            )
        },
    }
}

/// The error that a ping reports: none where it succeeded, else what it
/// wrote to its error stream, or `Ping failed` where it wrote nothing.
pub open spec fn ping_error(success: bool, stderr: Seq<char>) -> Option<Seq<char>> {
    if success {
        None
    } else if stderr.len() > 0 {
        Some(trimmed(stderr))
    } else {
        Some("Ping failed"@)
    }
}

/// What the ping tool makes of the outcome of its command.
pub open spec fn net_result(args: JsonSpec, outcome: OutcomeSpec) -> ResultSpec {
    let host = match args.member_text("host"@) {
        Some(h) => h,
        None => Seq::empty(),
    };
    match outcome {
        OutcomeSpec::Completed { stdout, stderr, success } => {
            let base = seq![
                text_member("host"@, host),
                number_member("count"@, at_most(unsigned_or(args, "count"@, 4), 10)),
                number_member("timeout_seconds"@, at_most(unsigned_or(args, "timeout"@, 10), 30)),
                flag_member("success"@, success),
                text_member("raw_output"@, stdout),
            ];
            let members = if success && ping_summary(stdout) is Some {
                base.push(
                    object_member(
                        "stats"@,
                        seq![text_member("summary"@, ping_summary(stdout).unwrap())],
                    ),
                )
            } else {
                base
            };
            ResultSpec {
                name: "net-ping"@,
                result: JsonSpec::Object(members),
                error: ping_error(success, stderr),
            }
        },
        _ => ResultSpec {
            name: "net-ping"@,
            result: JsonSpec::Object(
                seq![text_member("host"@, host), flag_member("success"@, false)],
            ),
            error: Some("Failed to execute ping: "@ + outcome.failure_text()),
        },
    }
}

/// The schemas of the network tools.
pub fn create_net_functions() -> (r: Vec<FunctionDefinition>)
    ensures
        definition_views(r@) == net_schemas(),
{
    let mut r: Vec<FunctionDefinition> = Vec::new();
    let mut ping: Vec<FunctionParameter> = Vec::new();
    ping.push(FunctionParameter::new("host", "要ping的主机名或IP地址", "string", true));
    ping.push(FunctionParameter::new("count", "ping包数量，默认为4，最大为10", "number", false));
    ping.push(
        FunctionParameter::new("timeout", "超时时间（秒），默认为10，最大为30", "number", false),
    );
    r.push(FunctionDefinition::new("net-ping", "测试网络连通性", ping));
    proof {
        let got = definition_views(r@);
        let want = net_schemas();
        assert(got.len() == want.len());
        assert(got[0].parameters =~= want[0].parameters);
        assert(got =~= want);
    }
    r
}

impl NetworkExecutor {
    /// The command that the ping tool asks for on the arguments `args`.
    pub fn plan(args: &JsonValue) -> (r: AiResult<CommandRequest>)
        ensures
            follows(r, net_plan(args@)),
    {
        match args.get_str("host") {
            None => refuse("host parameter is required"),
            Some(host) => {
                if !is_valid_host(host) {
                    let mut message = String::new();
                    append(&mut message, "Invalid host: ");
                    append(&mut message, host);
                    return refuse(message.as_str());
                }
                let asked = unsigned_argument(args, "count", 4);
                let count: u64 = if asked > 10 {
                    10
                } else {
                    asked
                };
                let wait = unsigned_argument(args, "timeout", 10);
                let timeout: u64 = if wait > 30 {
                    30
                } else {
                    wait
                };
                let mut words: Vec<String> = Vec::new();
                words.push("-c".to_string());
                words.push(unsigned_text(count));
                words.push("-W".to_string());
                words.push(unsigned_text(timeout));
                words.push(host.to_owned());
                assert(views(words@) =~= seq![
                    "-c"@,
                    decimal_text(count as nat),
                    "-W"@,
                    decimal_text(timeout as nat),
                    host@,
                ]);
                Ok(new_request("ping", words, timeout + 5))
            },
        }
    }

    /// What the ping tool makes of the outcome of its command.
    pub fn complete(args: &JsonValue, outcome: &CommandOutcome) -> (r: FunctionResult)
        ensures
            r@ == net_result(args@, outcome@),
    {
        let host: String = match args.get_str("host") {
            Some(h) => h.to_owned(),
            None => String::new(),
        };
        match outcome {
            CommandOutcome::Completed(output) => {
                let asked = unsigned_argument(args, "count", 4);
                let count: u64 = if asked > 10 {
                    10
                } else {
                    asked
                };
                let wait = unsigned_argument(args, "timeout", 10);
                let timeout: u64 = if wait > 30 {
                    30
                } else {
                    wait
                };
                let mut members: Vec<JsonMember> = Vec::new();
                members.push(JsonMember::text("host", host.as_str()));
                members.push(JsonMember::number("count", count));
                members.push(JsonMember::number("timeout_seconds", timeout));
                members.push(JsonMember::flag("success", output.success));
                members.push(JsonMember::text("raw_output", output.stdout.as_str()));
                let ghost base = seq![
                    text_member("host"@, host@),
                    number_member("count"@, count as nat),
                    number_member("timeout_seconds"@, timeout as nat),
                    flag_member("success"@, output.success),
                    text_member("raw_output"@, output.stdout@),
                ];
                assert(entry_views(members@) =~= base);
                if output.success {
                    match parse_ping_stats(output.stdout.as_str()) {
                        Some(stats) => {
                            members.push(JsonMember::new("stats", stats));
                            assert(entry_views(members@) =~= base.push(
                                object_member(
                                    "stats"@,
                                    seq![
                                        text_member(
                                            "summary"@,
                                            ping_summary(output.stdout@).unwrap(),
                                        ),
                                    ],
                                ),
                            ));
                        },
                        None => {},
                    }
                }
                let error: Option<String> = if output.success {
                    None
                } else if !output.stderr.as_str().is_empty() {
                    Some(trim(output.stderr.as_str()))
                } else {
                    Some("Ping failed".to_string())
                };
                FunctionResult { name: "net-ping".to_string(), result: object_of(members), error }
            },
            _ => {
                let mut message = String::new();
                append(&mut message, "Failed to execute ping: ");
                match outcome {
                    CommandOutcome::TimedOut => {
                        append(&mut message, "Command execution timeout");
                    },
                    CommandOutcome::FailedToStart(why) => {
                        append(&mut message, "Command execution failed: ");
                        append(&mut message, why.as_str());
                    },
                    CommandOutcome::Completed(_) => {},
                }
                assert(message@ =~= "Failed to execute ping: "@ + outcome@.failure_text());
                FunctionResult {
                    name: "net-ping".to_string(),
                    result: object2(
                        JsonMember::text("host", host.as_str()),
                        JsonMember::flag("success", false),
                    ),
                    error: Some(message),
                }
            },
        }
    }
}

impl FunctionExecutor for NetworkExecutor {
    fn supported_functions(&self) -> (names: Vec<String>)
        ensures
            views(names@) == net_names(),
    {
        let mut names: Vec<String> = Vec::new();
        names.push("net-ping".to_string());
        assert(views(names@) =~= net_names());
        names
    }

    fn get_function_schema(&self, function_name: &str) -> (schema: Option<FunctionDefinition>)
        ensures
            schema is Some <==> schema_named(net_schemas(), function_name@) is Some,
            schema matches Some(d) ==> schema_named(net_schemas(), function_name@) == Some(d@),
    {
        find_schema(create_net_functions(), function_name)
    }

    fn begin(&self, call: &FunctionCall, platform: &Platform) -> (step: AiResult<ExecutorStep>)
        ensures
            call.function.name@ != "net-ping"@ ==> unknown(step, "Unknown network function"@),
            call.function.name@ == "net-ping"@ ==> match parsed_arguments(
                call.function.arguments@,
            ) {
                None => arguments_refused(step, call.function.arguments@),
                Some(args) => starts(step, net_plan(args)),
            },
    {
        if !same_text(call.function.name.as_str(), "net-ping") {
            return unknown_function("Unknown network function");
        }
        let args = match parse_function_arguments(call.function.arguments.as_str()) {
            Ok(args) => args,
            Err(e) => {
                return Err(e);
            },
        };
        match NetworkExecutor::plan(&args) {
            Ok(request) => Ok(run_first(request)),
            Err(e) => Err(e),
        }
    }

    fn resume(
        &self,
        call: &FunctionCall,
        platform: &Platform,
        pending: PendingCommand,
        outcome: CommandOutcome,
    ) -> (step: AiResult<ExecutorStep>)
        ensures
            call.function.name@ != "net-ping"@ ==> unknown(step, "Unknown network function"@),
            call.function.name@ == "net-ping"@ ==> match parsed_arguments(
                call.function.arguments@,
            ) {
                None => arguments_refused(step, call.function.arguments@),
                Some(args) => match net_plan(args) {
                    PlanSpec::Refuse(why) => refuses(step, why),
                    PlanSpec::Run(_) => step matches Ok(s) && s@ == StepSpec::Done(
                        net_result(args, outcome@),
                    ),
                },
            },
    {
        if !same_text(call.function.name.as_str(), "net-ping") {
            return unknown_function("Unknown network function");
        }
        let args = match parse_function_arguments(call.function.arguments.as_str()) {
            Ok(args) => args,
            Err(e) => {
                return Err(e);
            },
        };
        match NetworkExecutor::plan(&args) {
            Ok(_) => Ok(ExecutorStep::Done(NetworkExecutor::complete(&args, &outcome))),
            Err(e) => Err(e),
        }
    }
}

} // verus!
