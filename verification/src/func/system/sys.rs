//! The system information tools: the system's name, its processes, and
//! the use of its disks.

use vstd::prelude::*;
use crate::error::AiResult;
use crate::func::executor::{
    CommandOutcome, CommandRequest, ExecutorStep, FunctionExecutor, OutcomeSpec, PendingCommand,
    StepSpec,
};
use crate::func::system::platform::Platform;
use crate::func::system::{
    args1, arguments_refused, finished, finished_result, flag_argument, flag_or, follows,
    new_request, normalized_path, not_run, not_run_result, object3, object_of,
    parse_function_arguments, parsed_arguments, path_refusal, refuses, run_first, starts,
    text_argument, text_or, text_or_null, text_or_null_value, timed_request, unknown,
    unknown_function, validate_and_normalize_path, PlanSpec,
};
use crate::json::{
    entry_views, flag_member, text_member, texts_member, JsonMember, JsonSpec, JsonValue,
    MemberSpec,
};
use crate::provider::{
    definition, definition_views, find_schema, parameter, schema_named, DefinitionSpec,
    FunctionCall, FunctionDefinition, FunctionParameter, FunctionResult, ResultSpec,
};
use crate::text::{lines, same_text, split_lines, trim, trimmed, views};

verus! {

/// The executor of the system information tools.
#[derive(Debug, Clone, Copy, PartialEq, Eq, Structural)]
pub struct SystemInfoExecutor;

/// The names of the system information tools.
pub open spec fn sys_names() -> Seq<Seq<char>> {
    seq!["sys-uname"@, "sys-ps"@, "sys-df"@]
}

/// Whether `name` is a system information tool.
pub open spec fn sys_known(name: Seq<char>) -> bool {
    name == "sys-uname"@ || name == "sys-ps"@ || name == "sys-df"@
}

/// The schemas of the system information tools.
pub open spec fn sys_schemas() -> Seq<DefinitionSpec> {
    seq![
        definition(
            "sys-uname"@,
            "显示系统信息"@,
            seq![parameter("detailed"@, "是否显示详细信息，默认为false"@, "boolean"@, false)],
        ),
        definition(
            "sys-ps"@,
            "显示进程信息"@,
            seq![
                parameter("process_name"@, "按进程名过滤，可选"@, "string"@, false),
                parameter("user"@, "按用户名过滤，可选"@, "string"@, false),
            ],
        ),
        definition(
            "sys-df"@,
            "显示磁盘使用情况"@,
            seq![
                parameter("path"@, "要检查的路径，默认为当前目录"@, "string"@, false),
                parameter("human_readable"@, "是否使用人类可读格式，默认为true"@, "boolean"@, false),
            ],
        ),
    ]
}

/// The words that filter the process list by `word`, if there is one.
pub open spec fn grep_for(word: Option<Seq<char>>) -> Seq<Seq<char>> {
    match word {
        Some(w) => seq!["|"@, "grep"@, w],
        None => seq![],
    }
}

/// The command that a system information tool asks for.
pub open spec fn sys_plan(name: Seq<char>, args: JsonSpec) -> PlanSpec {
    if name == "sys-uname"@ {
        PlanSpec::Run(
            timed_request(
                "uname"@,
                if flag_or(args, "detailed"@, false) {
                    seq!["-a"@]
                } else {
                    seq!["-s"@]
                },
                10,
            ),
        )
    } else if name == "sys-ps"@ {
        PlanSpec::Run(
            timed_request(
                "ps"@,
                seq!["aux"@] + grep_for(args.member_text("process_name"@)) + grep_for(
                    args.member_text("user"@),
                ),
                15,
            ),
        )
    } else {
        let path = text_or(args, "path"@, "."@);
        let flags: Seq<Seq<char>> = if flag_or(args, "human_readable"@, true) {
            seq!["-h"@]
        } else {
            seq![]
        };
        match path_refusal(path) {
            Some(why) => PlanSpec::Refuse(why),
            None => PlanSpec::Run(timed_request("df"@, flags.push(normalized_path(path)), 10)),
        }
    }
}

/// What a system information tool makes of the outcome of its command.
pub open spec fn sys_result(name: Seq<char>, args: JsonSpec, outcome: OutcomeSpec) -> ResultSpec {
    if name == "sys-uname"@ {
        match outcome {
            OutcomeSpec::Completed { stdout, stderr, success } => finished(
                name,
                JsonSpec::Object(
                    seq![
                        text_member("output"@, trimmed(stdout)),
                        flag_member("detailed"@, flag_or(args, "detailed"@, false)),
                        flag_member("success"@, success),
                    ],
                ),
                success,
                stderr,
            ),
            _ => not_run(name, "Failed to get system info: "@, outcome),
        }
    } else if name == "sys-ps"@ {
        match outcome {
            OutcomeSpec::Completed { stdout, stderr, success } => finished(
                name,
                JsonSpec::Object(
                    seq![
                        texts_member("processes"@, lines(stdout)),
                        MemberSpec {
                            name: "process_filter"@,
                            value: text_or_null(args.member_text("process_name"@)),
                        },
                        MemberSpec {
                            name: "user_filter"@,
                            value: text_or_null(args.member_text("user"@)),
                        },
                        flag_member("success"@, success),
                    ],
                ),
                success,
                stderr,
            ),
            _ => not_run(name, "Failed to get process info: "@, outcome),
        }
    } else {
        match outcome {
            OutcomeSpec::Completed { stdout, stderr, success } => finished(
                name,
                JsonSpec::Object(
                    seq![
                        texts_member("disk_usage"@, lines(stdout)),
                        text_member("path"@, normalized_path(text_or(args, "path"@, "."@))),
                        flag_member("human_readable"@, flag_or(args, "human_readable"@, true)),
                        flag_member("success"@, success),
                    ],
                ),
                success,
                stderr,
            ),
            _ => not_run(name, "Failed to get disk usage: "@, outcome),
        }
    }
}

/// The schemas of the system information tools.
pub fn create_sys_functions() -> (r: Vec<FunctionDefinition>)
    ensures
        definition_views(r@) == sys_schemas(),
{
    let mut r: Vec<FunctionDefinition> = Vec::new();
    let mut uname: Vec<FunctionParameter> = Vec::new();
    uname.push(FunctionParameter::new("detailed", "是否显示详细信息，默认为false", "boolean", false));
    r.push(FunctionDefinition::new("sys-uname", "显示系统信息", uname));
    let mut ps: Vec<FunctionParameter> = Vec::new();
    ps.push(FunctionParameter::new("process_name", "按进程名过滤，可选", "string", false));
    ps.push(FunctionParameter::new("user", "按用户名过滤，可选", "string", false));
    r.push(FunctionDefinition::new("sys-ps", "显示进程信息", ps));
    let mut df: Vec<FunctionParameter> = Vec::new();
    df.push(FunctionParameter::new("path", "要检查的路径，默认为当前目录", "string", false));
    df.push(
        FunctionParameter::new("human_readable", "是否使用人类可读格式，默认为true", "boolean", false),
    );
    r.push(FunctionDefinition::new("sys-df", "显示磁盘使用情况", df));
    proof {
        let got = definition_views(r@);
        let want = sys_schemas();
        assert(got.len() == want.len());
        assert(got[0].parameters =~= want[0].parameters);
        assert(got[1].parameters =~= want[1].parameters);
        assert(got[2].parameters =~= want[2].parameters);
        assert(got =~= want);
    }
    r
}

/// Appends the words that filter the process list by `word`.
fn push_grep(words: &mut Vec<String>, word: Option<&str>)
    ensures
        views(final(words)@) == views(old(words)@) + grep_for(
            match word {
                Some(w) => Some(w@),
                None => None,
            },
        ),
{
    let ghost before = views(words@);
    match word {
        Some(w) => {
            words.push("|".to_string());
            words.push("grep".to_string());
            words.push(w.to_owned());
            assert(views(words@) =~= before + seq!["|"@, "grep"@, w@]);
        },
        None => {
            assert(views(words@) =~= before + Seq::<Seq<char>>::empty());
        },
    }
}

impl SystemInfoExecutor {
    /// Whether `name` is one of the executor's tools.
    pub fn knows(name: &str) -> (r: bool)
        ensures
            r == sys_known(name@),
    {
        same_text(name, "sys-uname") || same_text(name, "sys-ps") || same_text(name, "sys-df")
    }

    /// The command that the tool `name` asks for on the arguments `args`.
    pub fn plan(name: &str, args: &JsonValue) -> (r: AiResult<CommandRequest>)
        requires
            sys_known(name@),
        ensures
            follows(r, sys_plan(name@, args@)),
    {
        if same_text(name, "sys-uname") {
            let flag = if flag_argument(args, "detailed", false) {
                "-a"
            } else {
                "-s"
            };
            Ok(new_request("uname", args1(flag), 10))
        } else if same_text(name, "sys-ps") {
            let mut words = args1("aux");
            push_grep(&mut words, args.get_str("process_name"));
            push_grep(&mut words, args.get_str("user"));
            Ok(new_request("ps", words, 15))
        } else {
            let path = text_argument(args, "path", ".");
            let mut words: Vec<String> = Vec::new();
            if flag_argument(args, "human_readable", true) {
                words.push("-h".to_string());
            }
            let ghost flags = views(words@);
            assert(flags =~= if flag_or(args@, "human_readable"@, true) {
                seq!["-h"@]
            } else {
                Seq::<Seq<char>>::empty()
            });
            let safe_path = validate_and_normalize_path(path.as_str())?;
            words.push(safe_path);
            assert(views(words@) =~= flags.push(safe_path@));
            Ok(new_request("df", words, 10))
        }
    }

    /// What the tool `name` makes of the outcome of its command.
    pub fn complete(name: &str, args: &JsonValue, outcome: &CommandOutcome) -> (r: FunctionResult)
        requires
            sys_known(name@),
        ensures
            r@ == sys_result(name@, args@, outcome@),
    {
        if same_text(name, "sys-uname") {
            match outcome {
                CommandOutcome::Completed(output) => {
                    let text = trim(output.stdout.as_str());
                    finished_result(
                        name,
                        object3(
                            JsonMember::text("output", text.as_str()),
                            JsonMember::flag("detailed", flag_argument(args, "detailed", false)),
                            JsonMember::flag("success", output.success),
                        ),
                        output,
                    )
                },
                _ => not_run_result(name, "Failed to get system info: ", outcome),
            }
        } else if same_text(name, "sys-ps") {
            match outcome {
                CommandOutcome::Completed(output) => {
                    let listed = split_lines(output.stdout.as_str());
                    let mut members: Vec<JsonMember> = Vec::new();
                    members.push(JsonMember::texts("processes", &listed));
                    members.push(
                        JsonMember::new(
                            "process_filter",
                            text_or_null_value(args.get_str("process_name")),
                        ),
                    );
                    members.push(
                        JsonMember::new("user_filter", text_or_null_value(args.get_str("user"))),
                    );
                    members.push(JsonMember::flag("success", output.success));
                    let ghost want = seq![
                        texts_member("processes"@, lines(output.stdout@)),
                        MemberSpec {
                            name: "process_filter"@,
                            value: text_or_null(args@.member_text("process_name"@)),
                        },
                        MemberSpec {
                            name: "user_filter"@,
                            value: text_or_null(args@.member_text("user"@)),
                        },
                        flag_member("success"@, output.success),
                    ];
                    assert(entry_views(members@) =~= want);
                    finished_result(name, object_of(members), output)
                },
                _ => not_run_result(name, "Failed to get process info: ", outcome),
            }
        } else {
            match outcome {
                CommandOutcome::Completed(output) => {
                    let listed = split_lines(output.stdout.as_str());
                    let path = text_argument(args, "path", ".");
                    let shown: String = if path.as_str().is_empty() {
                        ".".to_string()
                    } else {
                        path
                    };
                    let mut members: Vec<JsonMember> = Vec::new();
                    members.push(JsonMember::texts("disk_usage", &listed));
                    members.push(JsonMember::text("path", shown.as_str()));
                    members.push(
                        JsonMember::flag(
                            "human_readable",
                            flag_argument(args, "human_readable", true),
                        ),
                    );
                    members.push(JsonMember::flag("success", output.success));
                    let ghost want = seq![
                        texts_member("disk_usage"@, lines(output.stdout@)),
                        text_member("path"@, shown@),
                        flag_member("human_readable"@, flag_or(args@, "human_readable"@, true)),
                        flag_member("success"@, output.success),
                    ];
                    assert(entry_views(members@) =~= want);
                    finished_result(name, object_of(members), output)
                },
                _ => not_run_result(name, "Failed to get disk usage: ", outcome),
            }
        }
    }
}

impl FunctionExecutor for SystemInfoExecutor {
    fn supported_functions(&self) -> (names: Vec<String>)
        ensures
            views(names@) == sys_names(),
    {
        let mut names: Vec<String> = Vec::new();
        names.push("sys-uname".to_string());
        names.push("sys-ps".to_string());
        names.push("sys-df".to_string());
        assert(views(names@) =~= sys_names());
        names
    }

    fn get_function_schema(&self, function_name: &str) -> (schema: Option<FunctionDefinition>)
        ensures
            schema is Some <==> schema_named(sys_schemas(), function_name@) is Some,
            schema matches Some(d) ==> schema_named(sys_schemas(), function_name@) == Some(d@),
    {
        find_schema(create_sys_functions(), function_name)
    }

    fn begin(&self, call: &FunctionCall, platform: &Platform) -> (step: AiResult<ExecutorStep>)
        ensures
            !sys_known(call.function.name@) ==> unknown(step, "Unknown system info function"@),
            sys_known(call.function.name@) ==> match parsed_arguments(call.function.arguments@) {
                None => arguments_refused(step, call.function.arguments@),
                Some(args) => starts(step, sys_plan(call.function.name@, args)),
            },
    {
        let name = call.function.name.as_str();
        if !SystemInfoExecutor::knows(name) {
            return unknown_function("Unknown system info function");
        }
        let args = match parse_function_arguments(call.function.arguments.as_str()) {
            Ok(args) => args,
            Err(e) => {
                return Err(e);
            },
        };
        match SystemInfoExecutor::plan(name, &args) {
            Ok(request) => Ok(run_first(request)),
            Err(e) => Err(e),
        }
    }

    fn resume(
        &self,
        call: &FunctionCall,
        platform: &Platform,
        pending: PendingCommand,
        outcome: CommandOutcome,
    ) -> (step: AiResult<ExecutorStep>)
        ensures
            !sys_known(call.function.name@) ==> unknown(step, "Unknown system info function"@),
            sys_known(call.function.name@) ==> match parsed_arguments(call.function.arguments@) {
                None => arguments_refused(step, call.function.arguments@),
                Some(args) => match sys_plan(call.function.name@, args) {
                    PlanSpec::Refuse(why) => refuses(step, why),
                    PlanSpec::Run(_) => step matches Ok(s) && s@ == StepSpec::Done(
                        sys_result(call.function.name@, args, outcome@),
                    ),
                },
            },
    {
        let name = call.function.name.as_str();
        if !SystemInfoExecutor::knows(name) {
            return unknown_function("Unknown system info function");
        }
        let args = match parse_function_arguments(call.function.arguments.as_str()) {
            Ok(args) => args,
            Err(e) => {
                return Err(e);
            },
        };
        match SystemInfoExecutor::plan(name, &args) {
            Ok(_) => Ok(ExecutorStep::Done(SystemInfoExecutor::complete(name, &args, &outcome))),
            Err(e) => Err(e),
        }
    }
}

} // verus!
