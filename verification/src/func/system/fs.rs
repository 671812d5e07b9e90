//! The file system tools: listing a directory, the working directory,
//! the content of a file, and a search by name.

use vstd::prelude::*;
use crate::error::AiResult;
use crate::func::executor::{
    CommandOutcome, CommandRequest, ExecutorStep, FunctionExecutor, OutcomeSpec, PendingCommand,
    StepSpec,
};
use crate::func::system::platform::Platform;
use crate::func::system::{
    args1, args2, args3, arguments_refused, finished, finished_result, follows, new_request,
    normalized_path, not_run, not_run_result, object2, object3, object_of, parse_function_arguments,
    parsed_arguments, path_refusal, refuse, refuses, run_first, starts, text_argument, text_or,
    timed_request, unknown, unknown_function, validate_and_normalize_path, PlanSpec,
};
use crate::json::{flag_member, text_member, texts_member, JsonMember, JsonSpec, JsonValue};
use crate::provider::{
    definition, definition_views, find_schema, parameter, schema_named, DefinitionSpec,
    FunctionCall, FunctionDefinition, FunctionParameter, FunctionResult, ResultSpec,
};
use crate::text::{lines, same_text, split_lines, trim, trimmed, views};

verus! {

/// The executor of the file system tools.
#[derive(Debug, Clone, Copy, PartialEq, Eq, Structural)]
pub struct FileSystemExecutor;

/// The names of the file system tools.
pub open spec fn fs_names() -> Seq<Seq<char>> {
    seq!["fs-ls"@, "fs-pwd"@, "fs-cat"@, "fs-find"@]
}

/// Whether `name` is a file system tool.
pub open spec fn fs_known(name: Seq<char>) -> bool {
    name == "fs-ls"@ || name == "fs-pwd"@ || name == "fs-cat"@ || name == "fs-find"@
}

/// The schemas of the file system tools.
pub open spec fn fs_schemas() -> Seq<DefinitionSpec> {
    seq![
        definition(
            "fs-ls"@,
            "列出目录内容"@,
            seq![parameter("path"@, "要列出的目录路径，默认为当前目录"@, "string"@, false)],
        ),
        definition("fs-pwd"@, "显示当前工作目录"@, seq![]),
        definition(
            "fs-cat"@,
            "显示文件内容"@,
            seq![parameter("path"@, "要读取的文件路径"@, "string"@, true)],
        ),
        definition(
            "fs-find"@,
            "查找文件"@,
            seq![
                parameter("path"@, "搜索的起始路径，默认为当前目录"@, "string"@, false),
                parameter("pattern"@, "文件名模式，支持通配符，默认为 *"@, "string"@, false),
            ],
        ),
    ]
}

/// The command that a file system tool asks for.
pub open spec fn fs_plan(name: Seq<char>, args: JsonSpec) -> PlanSpec {
    if name == "fs-ls"@ {
        let path = text_or(args, "path"@, "."@);
        match path_refusal(path) {
            Some(why) => PlanSpec::Refuse(why),
            None => PlanSpec::Run(timed_request("ls"@, seq!["-la"@, normalized_path(path)], 10)),
        }
    } else if name == "fs-pwd"@ {
        PlanSpec::Run(timed_request("pwd"@, seq![], 5))
    } else if name == "fs-cat"@ {
        match args.member_text("path"@) {
            None => PlanSpec::Refuse("path parameter is required"@),
            Some(path) => match path_refusal(path) {
                Some(why) => PlanSpec::Refuse(why),
                None => PlanSpec::Run(timed_request("cat"@, seq![normalized_path(path)], 15)),
            },
        }
    } else {
        let path = text_or(args, "path"@, "."@);
        match path_refusal(path) {
            Some(why) => PlanSpec::Refuse(why),
            None => PlanSpec::Run(
                timed_request(
                    "find"@,
                    seq![normalized_path(path), "-name"@, text_or(args, "pattern"@, "*"@)],
                    30,
                ),
            ),
        }
    }
}

/// What a file system tool makes of the outcome of its command.
pub open spec fn fs_result(name: Seq<char>, args: JsonSpec, outcome: OutcomeSpec) -> ResultSpec {
    if name == "fs-ls"@ {
        match outcome {
            OutcomeSpec::Completed { stdout, stderr, success } => finished(
                name,
                JsonSpec::Object(
                    seq![
                        text_member("path"@, normalized_path(text_or(args, "path"@, "."@))),
                        text_member("output"@, stdout),
                        flag_member("success"@, success),
                    ],
                ),
                success,
                stderr,
            ),
            _ => not_run(name, "Failed to list directory: "@, outcome),
        }
    } else if name == "fs-pwd"@ {
        match outcome {
            OutcomeSpec::Completed { stdout, stderr, success } => finished(
                name,
                JsonSpec::Object(
                    seq![
                        text_member("current_directory"@, trimmed(stdout)),
                        flag_member("success"@, success),
                    ],
                ),
                success,
                stderr,
            ),
            _ => not_run(name, "Failed to get current directory: "@, outcome),
        }
    } else if name == "fs-cat"@ {
        match outcome {
            OutcomeSpec::Completed { stdout, stderr, success } => finished(
                name,
                JsonSpec::Object(
                    seq![
                        text_member("path"@, normalized_path(text_or(args, "path"@, "."@))),
                        text_member("content"@, stdout),
                        flag_member("success"@, success),
                    ],
                ),
                success,
                stderr,
            ),
            _ => not_run(name, "Failed to read file: "@, outcome),
        }
    } else {
        match outcome {
            OutcomeSpec::Completed { stdout, stderr, success } => finished(
                name,
                JsonSpec::Object(
                    seq![
                        text_member("path"@, normalized_path(text_or(args, "path"@, "."@))),
                        text_member("pattern"@, text_or(args, "pattern"@, "*"@)),
                        texts_member("files"@, lines(stdout)),
                        flag_member("success"@, success),
                    ],
                ),
                success,
                stderr,
            ),
            _ => not_run(name, "Failed to find files: "@, outcome),
        }
    }
}

/// The arguments that a file system tool works on: none for `fs-pwd`,
/// else what the text of the call carries.
pub open spec fn fs_arguments(name: Seq<char>, arguments: Seq<char>) -> Option<JsonSpec> {
    if name == "fs-pwd"@ {
        Some(JsonSpec::Object(Seq::empty()))
    } else {
        parsed_arguments(arguments)
    }
}

/// The schemas of the file system tools.
pub fn create_fs_functions() -> (r: Vec<FunctionDefinition>)
    ensures
        definition_views(r@) == fs_schemas(),
{
    let mut r: Vec<FunctionDefinition> = Vec::new();
    let mut ls: Vec<FunctionParameter> = Vec::new();
    ls.push(FunctionParameter::new("path", "要列出的目录路径，默认为当前目录", "string", false));
    r.push(FunctionDefinition::new("fs-ls", "列出目录内容", ls));
    r.push(FunctionDefinition::new("fs-pwd", "显示当前工作目录", Vec::new()));
    let mut cat: Vec<FunctionParameter> = Vec::new();
    cat.push(FunctionParameter::new("path", "要读取的文件路径", "string", true));
    r.push(FunctionDefinition::new("fs-cat", "显示文件内容", cat));
    let mut find: Vec<FunctionParameter> = Vec::new();
    find.push(FunctionParameter::new("path", "搜索的起始路径，默认为当前目录", "string", false));
    find.push(
        FunctionParameter::new("pattern", "文件名模式，支持通配符，默认为 *", "string", false),
    );
    r.push(FunctionDefinition::new("fs-find", "查找文件", find));
    proof {
        let got = definition_views(r@);
        let want = fs_schemas();
        assert(got.len() == want.len());
        assert(got[0].parameters =~= want[0].parameters);
        assert(got[1].parameters =~= want[1].parameters);
        assert(got[2].parameters =~= want[2].parameters);
        assert(got[3].parameters =~= want[3].parameters);
        assert(got =~= want);
    }
    r
}

impl FileSystemExecutor {
    /// Whether `name` is one of the executor's tools.
    pub fn knows(name: &str) -> (r: bool)
        ensures
            r == fs_known(name@),
    {
        same_text(name, "fs-ls") || same_text(name, "fs-pwd") || same_text(name, "fs-cat")
            || same_text(name, "fs-find")
    }

    /// The command that the tool `name` asks for on the arguments `args`.
    pub fn plan(name: &str, args: &JsonValue) -> (r: AiResult<CommandRequest>)
        requires
            fs_known(name@),
        ensures
            follows(r, fs_plan(name@, args@)),
    {
        if same_text(name, "fs-ls") {
            let path = text_argument(args, "path", ".");
            let safe_path = validate_and_normalize_path(path.as_str())?;
            Ok(new_request("ls", args2("-la", safe_path.as_str()), 10))
        } else if same_text(name, "fs-pwd") {
            let none: Vec<String> = Vec::new();
            assert(views(none@) =~= Seq::<Seq<char>>::empty());
            Ok(new_request("pwd", none, 5))
        } else if same_text(name, "fs-cat") {
            match args.get_str("path") {
                None => refuse("path parameter is required"),
                Some(path) => {
                    let safe_path = validate_and_normalize_path(path)?;
                    Ok(new_request("cat", args1(safe_path.as_str()), 15))
                },
            }
        } else {
            let path = text_argument(args, "path", ".");
            let pattern = text_argument(args, "pattern", "*");
            let safe_path = validate_and_normalize_path(path.as_str())?;
            Ok(new_request("find", args3(safe_path.as_str(), "-name", pattern.as_str()), 30))
        }
    }

    /// What the tool `name` makes of the outcome of its command.
    pub fn complete(name: &str, args: &JsonValue, outcome: &CommandOutcome) -> (r: FunctionResult)
        requires
            fs_known(name@),
        ensures
            r@ == fs_result(name@, args@, outcome@),
    {
        let path = text_argument(args, "path", ".");
        let safe_path: String = if path.as_str().is_empty() {
            ".".to_string()
        } else {
            path
        };
        if same_text(name, "fs-ls") {
            match outcome {
                CommandOutcome::Completed(output) => finished_result(
                    name,
                    object3(
                        JsonMember::text("path", safe_path.as_str()),
                        JsonMember::text("output", output.stdout.as_str()),
                        JsonMember::flag("success", output.success),
                    ),
                    output,
                ),
                _ => not_run_result(name, "Failed to list directory: ", outcome),
            }
        } else if same_text(name, "fs-pwd") {
            match outcome {
                CommandOutcome::Completed(output) => {
                    let directory = trim(output.stdout.as_str());
                    finished_result(
                        name,
                        object2(
                            JsonMember::text("current_directory", directory.as_str()),
                            JsonMember::flag("success", output.success),
                        ),
                        output,
                    )
                },
                _ => not_run_result(name, "Failed to get current directory: ", outcome),
            }
        } else if same_text(name, "fs-cat") {
            match outcome {
                CommandOutcome::Completed(output) => finished_result(
                    name,
                    object3(
                        JsonMember::text("path", safe_path.as_str()),
                        JsonMember::text("content", output.stdout.as_str()),
                        JsonMember::flag("success", output.success),
                    ),
                    output,
                ),
                _ => not_run_result(name, "Failed to read file: ", outcome),
            }
        } else {
            match outcome {
                CommandOutcome::Completed(output) => {
                    let pattern = text_argument(args, "pattern", "*");
                    let files = split_lines(output.stdout.as_str());
                    let mut members: Vec<JsonMember> = Vec::new();
                    members.push(JsonMember::text("path", safe_path.as_str()));
                    members.push(JsonMember::text("pattern", pattern.as_str()));
                    members.push(JsonMember::texts("files", &files));
                    members.push(JsonMember::flag("success", output.success));
                    let ghost want = seq![
                        text_member("path"@, safe_path@),
                        text_member("pattern"@, pattern@),
                        texts_member("files"@, lines(output.stdout@)),
                        flag_member("success"@, output.success),
                    ];
                    assert(crate::json::entry_views(members@) =~= want);
                    finished_result(name, object_of(members), output)
                },
                _ => not_run_result(name, "Failed to find files: ", outcome),
            }
        }
    }

    /// The arguments that the tool `name` works on.
    pub fn arguments(name: &str, arguments: &str) -> (r: AiResult<JsonValue>)
        ensures
            r is Ok <==> fs_arguments(name@, arguments@) is Some,
            r matches Ok(v) ==> fs_arguments(name@, arguments@) == Some(v@),
            r is Err ==> arguments_refused(r, arguments@),
    {
        if same_text(name, "fs-pwd") {
            Ok(JsonValue::empty_object())
        } else {
            parse_function_arguments(arguments)
        }
    }
}

impl FunctionExecutor for FileSystemExecutor {
    fn supported_functions(&self) -> (names: Vec<String>)
        ensures
            views(names@) == fs_names(),
    {
        let mut names: Vec<String> = Vec::new();
        names.push("fs-ls".to_string());
        names.push("fs-pwd".to_string());
        names.push("fs-cat".to_string());
        names.push("fs-find".to_string());
        assert(views(names@) =~= fs_names());
        names
    }

    fn get_function_schema(&self, function_name: &str) -> (schema: Option<FunctionDefinition>)
        ensures
            schema is Some <==> schema_named(fs_schemas(), function_name@) is Some,
            schema matches Some(d) ==> schema_named(fs_schemas(), function_name@) == Some(d@),
    {
        find_schema(create_fs_functions(), function_name)
    }

    fn begin(&self, call: &FunctionCall, platform: &Platform) -> (step: AiResult<ExecutorStep>)
        ensures
            !fs_known(call.function.name@) ==> unknown(step, "Unknown filesystem function"@),
            fs_known(call.function.name@) ==> match fs_arguments(
                call.function.name@,
                call.function.arguments@,
            ) {
                None => arguments_refused(step, call.function.arguments@),
                Some(args) => starts(step, fs_plan(call.function.name@, args)),
            },
    {
        let name = call.function.name.as_str();
        if !FileSystemExecutor::knows(name) {
            return unknown_function("Unknown filesystem function");
        }
        let args = match FileSystemExecutor::arguments(name, call.function.arguments.as_str()) {
            Ok(args) => args,
            Err(e) => {
                return Err(e);
            },
        };
        match FileSystemExecutor::plan(name, &args) {
            Ok(request) => Ok(run_first(request)),
            Err(e) => Err(e),
        }
    }

    fn resume(
        &self,
        call: &FunctionCall,
        platform: &Platform,
        pending: PendingCommand,
        outcome: CommandOutcome,
    ) -> (step: AiResult<ExecutorStep>)
        ensures
            !fs_known(call.function.name@) ==> unknown(step, "Unknown filesystem function"@),
            fs_known(call.function.name@) ==> match fs_arguments(
                call.function.name@,
                call.function.arguments@,
            ) {
                None => arguments_refused(step, call.function.arguments@),
                Some(args) => match fs_plan(call.function.name@, args) {
                    PlanSpec::Refuse(why) => refuses(step, why),
                    PlanSpec::Run(_) => step matches Ok(s) && s@ == StepSpec::Done(
                        fs_result(call.function.name@, args, outcome@),
                    ),
                },
            },
    {
        let name = call.function.name.as_str();
        if !FileSystemExecutor::knows(name) {
            return unknown_function("Unknown filesystem function");
        }
        let args = match FileSystemExecutor::arguments(name, call.function.arguments.as_str()) {
            Ok(args) => args,
            Err(e) => {
                return Err(e);
            },
        };
        match FileSystemExecutor::plan(name, &args) {
            Ok(_) => Ok(ExecutorStep::Done(FileSystemExecutor::complete(name, &args, &outcome))),
            Err(e) => Err(e),
        }
    }
}

} // verus!
