//! The diagnosis tools: how long the system has run, and how its memory
//! is used.

use vstd::prelude::*;
use crate::error::AiResult;
use crate::func::executor::{
    CommandOutcome, CommandRequest, ExecutorStep, FunctionExecutor, OutcomeSpec, PendingCommand,
    StepSpec,
};
use crate::func::system::platform::{
    default_arguments, get_platform_specific_command, platform_name, platform_name_text, program_of,
    CommandType, Platform,
};
use crate::func::system::{
    arguments_refused, finished, finished_result, flag_argument, flag_or, follows, new_request,
    not_run, not_run_result, object3, object_of, owned_texts, parse_function_arguments,
    parsed_arguments, run_first, starts, timed_request, unknown, unknown_function, PlanSpec,
};
use crate::json::{
    entry_views, flag_member, member_u64, set_member, text_member, texts_member, with_member,
    JsonMember, JsonSpec, JsonValue, MemberSpec,
};
use crate::provider::{
    definition, definition_views, find_schema, parameter, schema_named, DefinitionSpec,
    FunctionCall, FunctionDefinition, FunctionParameter, FunctionResult, ResultSpec,
};
use crate::text::{
    append, char_count, decimal_text, digit_char, find_char, find_from, has_prefix, join, joined,
    lines, parse_u64, parsed_unsigned, remove_char, same_text, split_lines, split_words,
    starts_with, text_after, text_before, trim, trimmed, unsigned_text, views, without, words,
};

verus! {

/// The executor of the diagnosis tools.
#[derive(Debug, Clone, Copy, PartialEq, Eq, Structural)]
pub struct DiagnosisExecutor;

/// The names of the diagnosis tools.
pub open spec fn diagnosis_names() -> Seq<Seq<char>> {
    seq!["sys-uptime"@, "sys-meminfo"@]
}

/// Whether `name` is a diagnosis tool.
pub open spec fn diagnosis_known(name: Seq<char>) -> bool {
    name == "sys-uptime"@ || name == "sys-meminfo"@
}

/// The schemas of the diagnosis tools.
pub open spec fn diagnosis_schemas() -> Seq<DefinitionSpec> {
    seq![
        definition(
            "sys-uptime"@,
            "显示系统运行时间和负载"@,
            seq![parameter("detailed"@, "是否显示详细信息，默认为false"@, "boolean"@, false)],
        ),
        definition("sys-meminfo"@, "显示内存使用详细信息"@, seq![]),
    ]
}

/// What a scan of memory counters has found so far: the size of a page in
/// bytes, and the counters in bytes.
pub struct MemoryScan {
    pub page_size: nat,
    pub members: Seq<MemberSpec>,
}

/// The scan after one more line. A blank line and the heading change
/// nothing. A line that begins with `page size of` sets the page size to
/// its fourth word, if that is a number. Any other line with a colon
/// names a counter before the colon and gives its pages behind it, with
/// points as decoration; the counter goes in as bytes, unless it is no
/// number or its bytes do not fit in 64 bits.
pub open spec fn scan_memory_line(scan: MemoryScan, line: Seq<char>) -> MemoryScan {
    let t = trimmed(line);
    if t.len() == 0 || has_prefix(t, "Mach Virtual Memory Statistics:"@) {
        scan
    } else if has_prefix(t, "page size of"@) {
        let w = words(t);
        if w.len() > 3 && parsed_unsigned(w[3], u64::MAX as nat) is Some {
            MemoryScan {
                page_size: parsed_unsigned(w[3], u64::MAX as nat).unwrap(),
                members: scan.members,
            }
        } else {
            scan
        }
    } else {
        let colon = find_from(t, ':', 0);
        if colon < t.len() {
            let key = trimmed(t.subrange(0, colon));
            let value = without(trimmed(t.subrange(colon + 1, t.len() as int)), '.');
            match parsed_unsigned(value, u64::MAX as nat) {
                Some(pages) => if pages * scan.page_size <= u64::MAX {
                    MemoryScan {
                        page_size: scan.page_size,
                        members: with_member(
                            scan.members,
                            key,
                            JsonSpec::Number(decimal_text(pages * scan.page_size)),
                        ),
                    }
                } else {
                    scan
                },
                None => scan,
            }
        } else {
            scan
        }
    }
}

/// The scan of all the given lines, from a page size of 4096 bytes.
pub open spec fn scan_memory(all: Seq<Seq<char>>) -> MemoryScan
    decreases all.len(),
{
    if all.len() == 0 {
        MemoryScan { page_size: 4096, members: Seq::empty() }
    } else {
        scan_memory_line(scan_memory(all.drop_last()), all.last())
    }
}

/// The share of `part` in `total` in percent, with two decimal places,
/// rounded to the nearest; `NaN%` where the total is zero.
pub open spec fn percent_text(part: nat, total: nat) -> Seq<char> {
    if total == 0 {
        "NaN%"@
    } else {
        let h = (part * 10000 + total / 2) / total;
        decimal_text(h / 100) + seq!['.', digit_char((h / 10) % 10), digit_char(h % 10), '%']
    }
}

/// The counters of a scan with the totals behind them, where the free,
/// active, inactive and wired counters are all there and their sum fits
/// in 64 bits; else the counters alone.
pub open spec fn with_totals(members: Seq<MemberSpec>) -> Seq<MemberSpec> {
    let found = JsonSpec::Object(members);
    let free = found.member_unsigned("Pages free"@);
    let active = found.member_unsigned("Pages active"@);
    let inactive = found.member_unsigned("Pages inactive"@);
    let wired = found.member_unsigned("Pages wired"@);
    if free is Some && active is Some && inactive is Some && wired is Some && free.unwrap()
        + active.unwrap() + inactive.unwrap() + wired.unwrap() <= u64::MAX {
        let used = active.unwrap() + inactive.unwrap() + wired.unwrap();
        let total = free.unwrap() + used;
        with_member(
            with_member(
                with_member(
                    with_member(
                        with_member(
                            members,
                            "total_memory"@,
                            JsonSpec::Number(decimal_text(total)),
                        ),
                        "used_memory"@,
                        JsonSpec::Number(decimal_text(used)),
                    ),
                    "free_memory"@,
                    JsonSpec::Number(decimal_text(free.unwrap())),
                ),
                "free_percent"@,
                JsonSpec::Text(percent_text(free.unwrap(), total)),
            ),
            "used_percent"@,
            JsonSpec::Text(percent_text(used, total)),
        )
    } else {
        members
    }
}

/// What the output of `vm_stat` says of the memory: its counters in
/// bytes, and the totals where they can be had.
pub open spec fn memory_report(output: Seq<char>) -> JsonSpec {
    JsonSpec::Object(with_totals(scan_memory(lines(output)).members))
}

/// The share of `part` in `total` in percent.
pub fn percent(part: u64, total: u64) -> (out: String)
    requires
        part <= total,
    ensures
        out@ == percent_text(part as nat, total as nat),
{
    if total == 0 {
        return "NaN%".to_string();
    }
    let h: u128 = ((part as u128) * 10000 + (total as u128) / 2) / (total as u128);
    assert(h <= 10000) by (nonlinear_arith)
        requires
            h == (part * 10000 + total / 2) / (total as int),
            part <= total,
            total > 0,
    {
        assert(part * 10000 + total / 2 < 10001 * total);
    }
    let whole = unsigned_text((h / 100) as u64);
    let mut out = String::new();
    append(&mut out, whole.as_str());
    append(&mut out, ".");
    let tens = unsigned_text(((h / 10) % 10) as u64);
    let ones = unsigned_text((h % 10) as u64);
    append(&mut out, tens.as_str());
    append(&mut out, ones.as_str());
    append(&mut out, "%");
    proof {
        reveal_strlit(".");
        reveal_strlit("%");
        assert("."@ =~= seq!['.']);
        assert("%"@ =~= seq!['%']);
        assert(decimal_text(((h / 10) % 10) as nat) =~= seq![digit_char(((h / 10) % 10) as nat)]);
        assert(decimal_text((h % 10) as nat) =~= seq![digit_char((h % 10) as nat)]);
        assert(out@ =~= decimal_text((h / 100) as nat) + seq![
            '.',
            digit_char(((h / 10) % 10) as nat),
            digit_char((h % 10) as nat),
            '%',
        ]);
    }
    out
}

/// Reads the output of `vm_stat`.
pub fn parse_vmstat_output(output: &str) -> (r: JsonValue)
    ensures
        r@ == memory_report(output@),
{
    let all = split_lines(output);
    let ghost all_lines = lines(output@);
    let mut page_size: u64 = 4096;
    let mut members: Vec<JsonMember> = Vec::new();
    let mut i: usize = 0;
    proof {
        assert(all_lines.take(0) =~= Seq::<Seq<char>>::empty());
        assert(entry_views(members@) =~= Seq::<MemberSpec>::empty());
    }
    while i < all.len()
        invariant
            0 <= i <= all@.len(),
            views(all@) == all_lines,
            scan_memory(all_lines.take(i as int)) == (MemoryScan {
                page_size: page_size as nat,
                members: entry_views(members@),
            }),
        decreases all@.len() - i,
    {
        proof {
            assert(all_lines.take(i + 1).drop_last() =~= all_lines.take(i as int));
            assert(all_lines.take(i + 1).last() == all@[i as int]@);
        }
        let t = trim(all[i].as_str());
        if char_count(t.as_str()) == 0 || starts_with(t.as_str(), "Mach Virtual Memory Statistics:") {
        } else if starts_with(t.as_str(), "page size of") {
            let w = split_words(t.as_str());
            if w.len() > 3 {
                assert(views(w@)[3] == w@[3]@);
                match parse_u64(w[3].as_str()) {
                    Some(size) => {
                        page_size = size;
                    },
                    None => {},
                }
            }
        } else {
            let colon = find_char(t.as_str(), ':');
            if colon < char_count(t.as_str()) {
                let key_part = text_before(t.as_str(), colon);
                let key = trim(key_part.as_str());
                let value_part = text_after(t.as_str(), colon + 1);
                let value_text = trim(value_part.as_str());
                let value = remove_char(value_text.as_str(), '.');
                match parse_u64(value.as_str()) {
                    Some(pages) => {
                        match pages.checked_mul(page_size) {
                            Some(bytes) => {
                                set_member(&mut members, key.as_str(), JsonValue::unsigned(bytes));
                            },
                            None => {},
                        }
                    },
                    None => {},
                }
            }
        }
        i += 1;
    }
    assert(all_lines.take(all@.len() as int) =~= all_lines);
    let free = member_u64(&members, "Pages free");
    let active = member_u64(&members, "Pages active");
    let inactive = member_u64(&members, "Pages inactive");
    let wired = member_u64(&members, "Pages wired");
    if free.is_some() && active.is_some() && inactive.is_some() && wired.is_some() {
        let f = free.unwrap();
        let a = active.unwrap();
        let n = inactive.unwrap();
        let w = wired.unwrap();
        if a <= u64::MAX - n && a + n <= u64::MAX - w && a + n + w <= u64::MAX - f {
            let used = a + n + w;
            let total = f + used;
            set_member(&mut members, "total_memory", JsonValue::unsigned(total));
            set_member(&mut members, "used_memory", JsonValue::unsigned(used));
            set_member(&mut members, "free_memory", JsonValue::unsigned(f));
            let free_share = percent(f, total);
            set_member(&mut members, "free_percent", JsonValue::text(free_share.as_str()));
            let used_share = percent(used, total);
            set_member(&mut members, "used_percent", JsonValue::text(used_share.as_str()));
        }
    }
    object_of(members)
}

/// The flag that asks a measuring command for more detail, where the
/// platform has one.
pub open spec fn detail_flag(command_type: CommandType, platform: Platform) -> Seq<Seq<char>> {
    match command_type {
        CommandType::Uptime => match platform {
            Platform::MacOS => seq!["-v"@],
            Platform::Linux => seq!["-p"@],
            Platform::Windows => seq![],
            Platform::Unknown => seq!["-v"@],
        },
        _ => match platform {
            Platform::MacOS => seq!["-w"@],
            Platform::Linux => seq!["-h"@],
            Platform::Windows => seq![],
            Platform::Unknown => seq!["-h"@],
        },
    }
}

/// The kind of measurement that a diagnosis tool makes.
pub open spec fn diagnosis_command(name: Seq<char>) -> CommandType {
    if name == "sys-uptime"@ {
        CommandType::Uptime
    } else {
        CommandType::MemInfo
    }
}

/// The arguments of the command of a diagnosis tool.
pub open spec fn diagnosis_arguments(name: Seq<char>, args: JsonSpec, platform: Platform) -> Seq<
    Seq<char>,
> {
    default_arguments(diagnosis_command(name), platform) + if flag_or(args, "detailed"@, false) {
        detail_flag(diagnosis_command(name), platform)
    } else {
        seq![]
    }
}

/// The command that a diagnosis tool asks for.
pub open spec fn diagnosis_plan(name: Seq<char>, args: JsonSpec, platform: Platform) -> PlanSpec {
    PlanSpec::Run(
        timed_request(
            program_of(diagnosis_command(name), platform),
            diagnosis_arguments(name, args, platform),
            5,
        ),
    )
}

/// A command as one line: the program, a blank, and the arguments with
/// blanks between them.
pub open spec fn command_text(program: Seq<char>, args: Seq<Seq<char>>) -> Seq<char> {
    program + " "@ + joined(args, " "@)
}

/// What a diagnosis tool makes of the outcome of its command.
pub open spec fn diagnosis_result(
    name: Seq<char>,
    args: JsonSpec,
    platform: Platform,
    outcome: OutcomeSpec,
) -> ResultSpec {
    let line = command_text(
        program_of(diagnosis_command(name), platform),
        diagnosis_arguments(name, args, platform),
    );
    if name == "sys-uptime"@ {
        match outcome {
            OutcomeSpec::Completed { stdout, stderr, success } => finished(
                name,
                JsonSpec::Object(
                    seq![
                        text_member("output"@, trimmed(stdout)),
                        flag_member("detailed"@, flag_or(args, "detailed"@, false)),
                        flag_member("success"@, success),
                        text_member("platform"@, platform_name_text(platform)),
                        text_member("command"@, line),
                    ],
                ),
                success,
                stderr,
            ),
            _ => not_run(name, "Failed to get uptime info: "@, outcome),
        }
    } else {
        match outcome {
            OutcomeSpec::Completed { stdout, stderr, success } => finished(
                name,
                match platform {
                    Platform::MacOS => memory_report(stdout),
                    Platform::Unknown => JsonSpec::Object(
                        seq![
                            text_member("raw_output"@, trimmed(stdout)),
                            text_member("platform"@, platform_name_text(platform)),
                            text_member("command"@, line),
                        ],
                    ),
                    _ => JsonSpec::Object(
                        seq![
                            texts_member("memory_info"@, lines(stdout)),
                            text_member("platform"@, platform_name_text(platform)),
                            text_member("command"@, line),
                        ],
                    ),
                },
                success,
                stderr,
            ),
            _ => not_run(name, "Failed to get memory info: "@, outcome),
        }
    }
}

/// The schemas of the diagnosis tools.
pub fn create_diagnosis_functions() -> (r: Vec<FunctionDefinition>)
    ensures
        definition_views(r@) == diagnosis_schemas(),
{
    let mut r: Vec<FunctionDefinition> = Vec::new();
    let mut uptime: Vec<FunctionParameter> = Vec::new();
    uptime.push(
        FunctionParameter::new("detailed", "是否显示详细信息，默认为false", "boolean", false),
    );
    r.push(FunctionDefinition::new("sys-uptime", "显示系统运行时间和负载", uptime));
    r.push(FunctionDefinition::new("sys-meminfo", "显示内存使用详细信息", Vec::new()));
    proof {
        let got = definition_views(r@);
        let want = diagnosis_schemas();
        assert(got.len() == want.len());
        assert(got[0].parameters =~= want[0].parameters);
        assert(got[1].parameters =~= want[1].parameters);
        assert(got =~= want);
    }
    r
}

/// A command as one line.
pub fn command_line(program: &str, args: &Vec<String>) -> (out: String)
    ensures
        out@ == command_text(program@, views(args@)),
{
    let mut out = String::new();
    append(&mut out, program);
    append(&mut out, " ");
    let tail = join(args, " ");
    append(&mut out, tail.as_str());
    assert(out@ =~= command_text(program@, views(args@)));
    out
}

impl DiagnosisExecutor {
    /// Whether `name` is one of the executor's tools.
    pub fn knows(name: &str) -> (r: bool)
        ensures
            r == diagnosis_known(name@),
    {
        same_text(name, "sys-uptime") || same_text(name, "sys-meminfo")
    }

    /// The program and the arguments of the command of the tool `name`.
    pub fn command(name: &str, args: &JsonValue, platform: &Platform) -> (r: (String, Vec<String>))
        requires
            diagnosis_known(name@),
        ensures
            r.0@ == program_of(diagnosis_command(name@), *platform),
            views(r.1@) == diagnosis_arguments(name@, args@, *platform),
    {
        let uptime = same_text(name, "sys-uptime");
        let command_type = if uptime {
            CommandType::Uptime
        } else {
            CommandType::MemInfo
        };
        let (program, defaults) = get_platform_specific_command(command_type, platform);
        let mut words = owned_texts(&defaults);
        let ghost head = views(words@);
        if flag_argument(args, "detailed", false) {
            let flag: Option<&'static str> = match platform {
                Platform::MacOS => Some(
                    if uptime {
                        "-v"
                    } else {
                        "-w"
                    },
                ),
                Platform::Linux => Some(
                    if uptime {
                        "-p"
                    } else {
                        "-h"
                    },
                ),
                Platform::Windows => None,
                Platform::Unknown => Some(
                    if uptime {
                        "-v"
                    } else {
                        "-h"
                    },
                ),
            };
            match flag {
                Some(f) => {
                    words.push(f.to_string());
                    assert(views(words@) =~= head + seq![f@]);
                },
                None => {
                    assert(views(words@) =~= head + Seq::<Seq<char>>::empty());
                },
            }
        } else {
            assert(views(words@) =~= head + Seq::<Seq<char>>::empty());
        }
        (program, words)
    }

    /// The command that the tool `name` asks for on the arguments `args`.
    pub fn plan(name: &str, args: &JsonValue, platform: &Platform) -> (r: AiResult<CommandRequest>)
        requires
            diagnosis_known(name@),
        ensures
            follows(r, diagnosis_plan(name@, args@, *platform)),
    {
        let (program, words) = DiagnosisExecutor::command(name, args, platform);
        Ok(new_request(program.as_str(), words, 5))
    }

    /// What the tool `name` makes of the outcome of its command.
    pub fn complete(name: &str, args: &JsonValue, platform: &Platform, outcome: &CommandOutcome)
        -> (r: FunctionResult)
        requires
            diagnosis_known(name@),
        ensures
            r@ == diagnosis_result(name@, args@, *platform, outcome@),
    {
        let (program, words) = DiagnosisExecutor::command(name, args, platform);
        let line = command_line(program.as_str(), &words);
        if same_text(name, "sys-uptime") {
            match outcome {
                CommandOutcome::Completed(output) => {
                    let text = trim(output.stdout.as_str());
                    let mut members: Vec<JsonMember> = Vec::new();
                    members.push(JsonMember::text("output", text.as_str()));
                    members.push(JsonMember::flag("detailed", flag_argument(args, "detailed", false)));
                    members.push(JsonMember::flag("success", output.success));
                    members.push(JsonMember::text("platform", platform_name(platform)));
                    members.push(JsonMember::text("command", line.as_str()));
                    let ghost want = seq![
                        text_member("output"@, trimmed(output.stdout@)),
                        flag_member("detailed"@, flag_or(args@, "detailed"@, false)),
                        flag_member("success"@, output.success),
                        text_member("platform"@, platform_name_text(*platform)),
                        text_member("command"@, line@),
                    ];
                    assert(entry_views(members@) =~= want);
                    finished_result(name, object_of(members), output)
                },
                _ => not_run_result(name, "Failed to get uptime info: ", outcome),
            }
        } else {
            match outcome {
                CommandOutcome::Completed(output) => {
                    let value = match platform {
                        Platform::MacOS => parse_vmstat_output(output.stdout.as_str()),
                        Platform::Unknown => {
                            let text = trim(output.stdout.as_str());
                            object3(
                                JsonMember::text("raw_output", text.as_str()),
                                JsonMember::text("platform", platform_name(platform)),
                                JsonMember::text("command", line.as_str()),
                            )
                        },
                        _ => {
                            let listed = split_lines(output.stdout.as_str());
                            object3(
                                JsonMember::texts("memory_info", &listed),
                                JsonMember::text("platform", platform_name(platform)),
                                JsonMember::text("command", line.as_str()),
                            )
                        },
                    };
                    finished_result(name, value, output)
                },
                _ => not_run_result(name, "Failed to get memory info: ", outcome),
            }
        }
    }
}

impl FunctionExecutor for DiagnosisExecutor {
    fn supported_functions(&self) -> (names: Vec<String>)
        ensures
            views(names@) == diagnosis_names(),
    {
        let mut names: Vec<String> = Vec::new();
        names.push("sys-uptime".to_string());
        names.push("sys-meminfo".to_string());
        assert(views(names@) =~= diagnosis_names());
        names
    }

    fn get_function_schema(&self, function_name: &str) -> (schema: Option<FunctionDefinition>)
        ensures
            schema is Some <==> schema_named(diagnosis_schemas(), function_name@) is Some,
            schema matches Some(d) ==> schema_named(diagnosis_schemas(), function_name@) == Some(
                d@,
            ),
    {
        find_schema(create_diagnosis_functions(), function_name)
    }

    fn begin(&self, call: &FunctionCall, platform: &Platform) -> (step: AiResult<ExecutorStep>)
        ensures
            !diagnosis_known(call.function.name@) ==> unknown(step, "Unknown diagnosis function"@),
            diagnosis_known(call.function.name@) ==> match parsed_arguments(
                call.function.arguments@,
            ) {
                None => arguments_refused(step, call.function.arguments@),
                Some(args) => starts(step, diagnosis_plan(call.function.name@, args, *platform)),
            },
    {
        let name = call.function.name.as_str();
        if !DiagnosisExecutor::knows(name) {
            return unknown_function("Unknown diagnosis function");
        }
        let args = match parse_function_arguments(call.function.arguments.as_str()) {
            Ok(args) => args,
            Err(e) => {
                return Err(e);
            },
        };
        match DiagnosisExecutor::plan(name, &args, platform) {
            Ok(request) => Ok(run_first(request)),
            Err(e) => Err(e),
        }
    }

    fn resume(
        &self,
        call: &FunctionCall,
        platform: &Platform,
        pending: PendingCommand,
        outcome: CommandOutcome,
    ) -> (step: AiResult<ExecutorStep>)
        ensures
            !diagnosis_known(call.function.name@) ==> unknown(step, "Unknown diagnosis function"@),
            diagnosis_known(call.function.name@) ==> match parsed_arguments(
                call.function.arguments@,
            ) {
                None => arguments_refused(step, call.function.arguments@),
                Some(args) => step matches Ok(s) && s@ == StepSpec::Done(
                    diagnosis_result(call.function.name@, args, *platform, outcome@),
                ),
            },
    {
        let name = call.function.name.as_str();
        if !DiagnosisExecutor::knows(name) {
            return unknown_function("Unknown diagnosis function");
        }
        let args = match parse_function_arguments(call.function.arguments.as_str()) {
            Ok(args) => args,
            Err(e) => {
                return Err(e);
            },
        };
        Ok(ExecutorStep::Done(DiagnosisExecutor::complete(name, &args, platform, &outcome)))
    }
}

} // verus!
