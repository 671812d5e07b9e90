//! The version control tools: the state of the working tree, its
//! differences, and adding, committing and pushing changes.

use vstd::prelude::*;
use crate::error::AiResult;
use crate::func::executor::{
    CommandOutcome, CommandRequest, ExecutorStep, FunctionExecutor, OutcomeSpec, PendingCommand,
    RequestSpec, StepSpec,
};
use crate::func::system::platform::Platform;
use crate::func::system::{
    args2, args3, arguments_refused, flag_argument, flag_or, follows, normalized_path, object2,
    parse_function_arguments, parsed_arguments, path_refusal, refuse, refuses, run_first, starts,
    text_argument, text_or, unknown, unknown_function, validate_and_normalize_path, PlanSpec,
};
use crate::json::{flag_member, item_views, text_member, JsonMember, JsonSpec, JsonValue};
use crate::provider::{
    definition, definition_views, find_schema, parameter, schema_named, DefinitionSpec,
    FunctionCall, FunctionDefinition, FunctionParameter, FunctionResult, ResultSpec,
};
use crate::text::{append, is_blank, is_blank_text, same_text, views};

verus! {

/// The executor of the version control tools.
#[derive(Debug, Clone, Copy, PartialEq, Eq, Structural)]
pub struct GitFunctionExecutor;

/// The names of the version control tools.
pub open spec fn git_names() -> Seq<Seq<char>> {
    seq!["git-status"@, "git-diff"@, "git-add"@, "git-commit"@, "git-push"@]
}

/// Whether `name` is a version control tool.
pub open spec fn git_known(name: Seq<char>) -> bool {
    name == "git-status"@ || name == "git-diff"@ || name == "git-add"@ || name == "git-commit"@
        || name == "git-push"@
}

/// The schemas of the version control tools.
pub open spec fn git_schemas() -> Seq<DefinitionSpec> {
    seq![
        definition(
            "git-status"@,
            "获取Git仓库状态"@,
            seq![parameter("path"@, "仓库路径，默认为当前目录"@, "string"@, false)],
        ),
        definition(
            "git-diff"@,
            "显示Git仓库的变更差异"@,
            seq![
                parameter("path"@, "Git仓库路径，默认为当前目录"@, "string"@, false),
                parameter("staged"@, "是否只显示暂存的变更，默认为false"@, "boolean"@, false),
            ],
        ),
        definition(
            "git-add"@,
            "添加文件到Git暂存区"@,
            seq![parameter("files"@, "要添加的文件列表，支持通配符"@, "array"@, true)],
        ),
        definition(
            "git-commit"@,
            "创建Git提交"@,
            seq![parameter("message"@, "提交消息"@, "string"@, true)],
        ),
        definition(
            "git-push"@,
            "推送提交到远程仓库"@,
            seq![
                parameter("remote"@, "远程仓库名称，默认为origin"@, "string"@, false),
                parameter("branch"@, "分支名称，默认为当前分支"@, "string"@, false),
            ],
        ),
    ]
}

/// The texts among `items`, in order.
pub open spec fn text_items(items: Seq<JsonSpec>) -> Seq<Seq<char>>
    decreases items.len(),
{
    if items.len() == 0 {
        Seq::empty()
    } else {
        let before = text_items(items.drop_last());
        match items.last() {
            JsonSpec::Text(s) => before.push(s),
            _ => before,
        }
    }
}

/// The seconds that a command of `git` may take.
pub const GIT_TIMEOUT_SECONDS: u64 = 30;

/// A request for `git` with `args`, in the directory `dir` if one is
/// given, to be given up after [`GIT_TIMEOUT_SECONDS`].
pub open spec fn git_request(args: Seq<Seq<char>>, dir: Option<Seq<char>>) -> RequestSpec {
    RequestSpec { program: "git"@, args, timeout_seconds: GIT_TIMEOUT_SECONDS, working_dir: dir }
}

/// The command that a version control tool asks for.
pub open spec fn git_plan(name: Seq<char>, args: JsonSpec) -> PlanSpec {
    if name == "git-status"@ {
        let path = text_or(args, "path"@, "."@);
        match path_refusal(path) {
            Some(why) => PlanSpec::Refuse(why),
            None => PlanSpec::Run(
                git_request(seq!["status"@, "--porcelain"@], Some(normalized_path(path))),
            ),
        }
    } else if name == "git-diff"@ {
        let path = text_or(args, "path"@, "."@);
        let staged: Seq<Seq<char>> = if flag_or(args, "staged"@, false) {
            seq!["--staged"@]
        } else {
            seq![]
        };
        match path_refusal(path) {
            Some(why) => PlanSpec::Refuse(why),
            None => PlanSpec::Run(
                git_request((seq!["diff"@] + staged).push(normalized_path(path)), Some("."@)),
            ),
        }
    } else if name == "git-add"@ {
        match args.member("files"@) {
            Some(JsonSpec::Array(items)) => PlanSpec::Run(
                git_request(seq!["add"@] + text_items(items), None),
            ),
            _ => PlanSpec::Refuse("files parameter required"@),
        }
    } else if name == "git-commit"@ {
        match args.member_text("message"@) {
            Some(message) => PlanSpec::Run(git_request(seq!["commit"@, "-m"@, message], None)),
            None => PlanSpec::Refuse("message parameter required"@),
        }
    } else {
        PlanSpec::Run(
            git_request(
                seq!["push"@, text_or(args, "remote"@, "origin"@), text_or(args, "branch"@, "HEAD"@)],
                None,
            ),
        )
    }
}

/// What a tool that only reads reports: the output and whether there is
/// any, and the error text of the command where the exit status was not
/// zero.
pub open spec fn read_result(
    name: Seq<char>,
    key: Seq<char>,
    prefix: Seq<char>,
    outcome: OutcomeSpec,
) -> ResultSpec {
    match outcome {
        OutcomeSpec::Completed { stdout, stderr, success } => ResultSpec {
            name,
            result: JsonSpec::Object(
                seq![text_member(key, stdout), flag_member("has_changes"@, !is_blank(stdout))],
            ),
            error: if success {
                None
            } else {
                Some(stderr)
            },
        },
        _ => ResultSpec {
            name,
            result: JsonSpec::Null,
            error: Some(prefix + outcome.reason_text()),
        },
    }
}

/// What a tool that changes something reports: `message` where the command
/// succeeded, its error text where it did not.
pub open spec fn change_result(
    name: Seq<char>,
    message: Seq<char>,
    prefix: Seq<char>,
    outcome: OutcomeSpec,
) -> ResultSpec {
    match outcome {
        OutcomeSpec::Completed { stdout, stderr, success } => if success {
            ResultSpec {
                name,
                result: JsonSpec::Object(
                    seq![flag_member("success"@, true), text_member("message"@, message)],
                ),
                error: None,
            }
        } else {
            ResultSpec { name, result: JsonSpec::Null, error: Some(stderr) }
        },
        _ => ResultSpec {
            name,
            result: JsonSpec::Null,
            error: Some(prefix + outcome.reason_text()),
        },
    }
}

/// What a version control tool makes of the outcome of its command.
pub open spec fn git_result(name: Seq<char>, args: JsonSpec, outcome: OutcomeSpec) -> ResultSpec {
    if name == "git-status"@ {
        read_result(name, "status"@, "Failed to get git status: "@, outcome)
    } else if name == "git-diff"@ {
        read_result(name, "diff"@, "Failed to get git diff: "@, outcome)
    } else if name == "git-add"@ {
        change_result(name, "Files added successfully"@, "Failed to add files: "@, outcome)
    } else if name == "git-commit"@ {
        change_result(name, "Commit created successfully"@, "Failed to create commit: "@, outcome)
    } else {
        change_result(
            name,
            "Pushed to "@ + text_or(args, "remote"@, "origin"@) + "/"@ + text_or(
                args,
                "branch"@,
                "HEAD"@,
            ),
            "Failed to push: "@,
            outcome,
        )
    }
}

/// The schemas of the version control tools.
pub fn create_git_functions() -> (r: Vec<FunctionDefinition>)
    ensures
        definition_views(r@) == git_schemas(),
{
    let mut r: Vec<FunctionDefinition> = Vec::new();
    let mut status: Vec<FunctionParameter> = Vec::new();
    status.push(FunctionParameter::new("path", "仓库路径，默认为当前目录", "string", false));
    r.push(FunctionDefinition::new("git-status", "获取Git仓库状态", status));
    let mut diff: Vec<FunctionParameter> = Vec::new();
    diff.push(FunctionParameter::new("path", "Git仓库路径，默认为当前目录", "string", false));
    diff.push(
        FunctionParameter::new("staged", "是否只显示暂存的变更，默认为false", "boolean", false),
    );
    r.push(FunctionDefinition::new("git-diff", "显示Git仓库的变更差异", diff));
    let mut add: Vec<FunctionParameter> = Vec::new();
    add.push(FunctionParameter::new("files", "要添加的文件列表，支持通配符", "array", true));
    r.push(FunctionDefinition::new("git-add", "添加文件到Git暂存区", add));
    let mut commit: Vec<FunctionParameter> = Vec::new();
    commit.push(FunctionParameter::new("message", "提交消息", "string", true));
    r.push(FunctionDefinition::new("git-commit", "创建Git提交", commit));
    let mut push: Vec<FunctionParameter> = Vec::new();
    push.push(FunctionParameter::new("remote", "远程仓库名称，默认为origin", "string", false));
    push.push(FunctionParameter::new("branch", "分支名称，默认为当前分支", "string", false));
    r.push(FunctionDefinition::new("git-push", "推送提交到远程仓库", push));
    proof {
        let got = definition_views(r@);
        let want = git_schemas();
        assert(got.len() == want.len());
        assert(got[0].parameters =~= want[0].parameters);
        assert(got[1].parameters =~= want[1].parameters);
        assert(got[2].parameters =~= want[2].parameters);
        assert(got[3].parameters =~= want[3].parameters);
        assert(got[4].parameters =~= want[4].parameters);
        assert(got =~= want);
    }
    r
}

/// A request for `git`.
fn new_git_request(args: Vec<String>, dir: Option<String>) -> (r: CommandRequest)
    ensures
        r@ == git_request(
            views(args@),
            match dir {
                Some(d) => Some(d@),
                None => None,
            },
        ),
{
    CommandRequest {
        program: "git".to_string(),
        args,
        timeout_seconds: GIT_TIMEOUT_SECONDS,
        working_dir: dir,
    }
}

/// The words `first` and then the texts among `items`.
fn with_text_items(first: &str, items: &Vec<JsonValue>) -> (out: Vec<String>)
    ensures
        views(out@) == seq![first@] + text_items(item_views(items@)),
{
    let ghost all = item_views(items@);
    let mut out: Vec<String> = Vec::new();
    out.push(first.to_owned());
    let mut i: usize = 0;
    assert(all.take(0) =~= Seq::<JsonSpec>::empty());
    assert(views(out@) =~= seq![first@] + text_items(all.take(0)));
    while i < items.len()
        invariant
            0 <= i <= items@.len(),
            all == item_views(items@),
            views(out@) == seq![first@] + text_items(all.take(i as int)),
        decreases items@.len() - i,
    {
        let ghost before = views(out@);
        proof {
            assert(all.take(i + 1).drop_last() =~= all.take(i as int));
            assert(all.take(i + 1).last() == items@[i as int]@);
        }
        match &items[i] {
            JsonValue::Text(s) => {
                out.push(s.clone());
                assert(views(out@) =~= before.push(s@));
                assert(before.push(s@) =~= seq![first@] + text_items(all.take(i as int)).push(s@));
            },
            _ => {},
        }
        i += 1;
    }
    assert(all.take(items@.len() as int) =~= all);
    out
}

/// Why the command did not run to its end, behind `prefix`.
fn reason_behind(prefix: &str, outcome: &CommandOutcome) -> (r: String)
    ensures
        r@ == prefix@ + outcome@.reason_text(),
{
    let mut message = String::new();
    append(&mut message, prefix);
    match outcome {
        CommandOutcome::TimedOut => {
            append(&mut message, "Command execution timeout");
        },
        CommandOutcome::FailedToStart(why) => {
            append(&mut message, why.as_str());
        },
        CommandOutcome::Completed(_) => {},
    }
    assert(message@ =~= prefix@ + outcome@.reason_text());
    message
}

/// What a tool that only reads reports.
fn report_read(name: &str, key: &str, prefix: &str, outcome: &CommandOutcome) -> (r: FunctionResult)
    ensures
        r@ == read_result(name@, key@, prefix@, outcome@),
{
    match outcome {
        CommandOutcome::Completed(output) => FunctionResult {
            name: name.to_owned(),
            result: object2(
                JsonMember::text(key, output.stdout.as_str()),
                JsonMember::flag("has_changes", !is_blank_text(output.stdout.as_str())),
            ),
            error: if output.success {
                None
            } else {
                Some(output.stderr.clone())
            },
        },
        _ => FunctionResult {
            name: name.to_owned(),
            result: JsonValue::Null,
            error: Some(reason_behind(prefix, outcome)),
        },
    }
}

/// What a tool that changes something reports.
fn report_change(name: &str, message: &str, prefix: &str, outcome: &CommandOutcome) -> (r:
    FunctionResult)
    ensures
        r@ == change_result(name@, message@, prefix@, outcome@),
{
    match outcome {
        CommandOutcome::Completed(output) => {
            if output.success {
                FunctionResult {
                    name: name.to_owned(),
                    result: object2(
                        JsonMember::flag("success", true),
                        JsonMember::text("message", message),
                    ),
                    error: None,
                }
            } else {
                FunctionResult {
                    name: name.to_owned(),
                    result: JsonValue::Null,
                    error: Some(output.stderr.clone()),
                }
            }
        },
        _ => FunctionResult {
            name: name.to_owned(),
            result: JsonValue::Null,
            error: Some(reason_behind(prefix, outcome)),
        },
    }
}

impl GitFunctionExecutor {
    /// Whether `name` is one of the executor's tools.
    pub fn knows(name: &str) -> (r: bool)
        ensures
            r == git_known(name@),
    {
        same_text(name, "git-status") || same_text(name, "git-diff") || same_text(name, "git-add")
            || same_text(name, "git-commit") || same_text(name, "git-push")
    }

    /// The command that the tool `name` asks for on the arguments `args`.
    pub fn plan(name: &str, args: &JsonValue) -> (r: AiResult<CommandRequest>)
        requires
            git_known(name@),
        ensures
            follows(r, git_plan(name@, args@)),
    {
        if same_text(name, "git-status") {
            let path = text_argument(args, "path", ".");
            let safe_path = validate_and_normalize_path(path.as_str())?;
            Ok(new_git_request(args2("status", "--porcelain"), Some(safe_path)))
        } else if same_text(name, "git-diff") {
            let path = text_argument(args, "path", ".");
            let mut words: Vec<String> = Vec::new();
            words.push("diff".to_string());
            if flag_argument(args, "staged", false) {
                words.push("--staged".to_string());
            }
            let ghost head = views(words@);
            assert(head =~= seq!["diff"@] + (if flag_or(args@, "staged"@, false) {
                seq!["--staged"@]
            } else {
                Seq::<Seq<char>>::empty()
            }));
            let safe_path = validate_and_normalize_path(path.as_str())?;
            words.push(safe_path);
            assert(views(words@) =~= head.push(safe_path@));
            Ok(new_git_request(words, Some(".".to_string())))
        } else if same_text(name, "git-add") {
            match args.get("files") {
                Some(value) => match value.as_array() {
                    Some(items) => Ok(new_git_request(with_text_items("add", items), None)),
                    None => refuse("files parameter required"),
                },
                None => refuse("files parameter required"),
            }
        } else if same_text(name, "git-commit") {
            match args.get_str("message") {
                Some(message) => Ok(new_git_request(args3("commit", "-m", message), None)),
                None => refuse("message parameter required"),
            }
        } else {
            let remote = text_argument(args, "remote", "origin");
            let branch = text_argument(args, "branch", "HEAD");
            Ok(new_git_request(args3("push", remote.as_str(), branch.as_str()), None))
        }
    }

    /// What the tool `name` makes of the outcome of its command.
    pub fn complete(name: &str, args: &JsonValue, outcome: &CommandOutcome) -> (r: FunctionResult)
        requires
            git_known(name@),
        ensures
            r@ == git_result(name@, args@, outcome@),
    {
        if same_text(name, "git-status") {
            report_read(name, "status", "Failed to get git status: ", outcome)
        } else if same_text(name, "git-diff") {
            report_read(name, "diff", "Failed to get git diff: ", outcome)
        } else if same_text(name, "git-add") {
            report_change(name, "Files added successfully", "Failed to add files: ", outcome)
        } else if same_text(name, "git-commit") {
            report_change(name, "Commit created successfully", "Failed to create commit: ", outcome)
        } else {
            let remote = text_argument(args, "remote", "origin");
            let branch = text_argument(args, "branch", "HEAD");
            let mut message = String::new();
            append(&mut message, "Pushed to ");
            append(&mut message, remote.as_str());
            append(&mut message, "/");
            append(&mut message, branch.as_str());
            assert(message@ =~= "Pushed to "@ + remote@ + "/"@ + branch@);
            report_change(name, message.as_str(), "Failed to push: ", outcome)
        }
    }
}

impl FunctionExecutor for GitFunctionExecutor {
    fn supported_functions(&self) -> (names: Vec<String>)
        ensures
            views(names@) == git_names(),
    {
        let mut names: Vec<String> = Vec::new();
        names.push("git-status".to_string());
        names.push("git-diff".to_string());
        names.push("git-add".to_string());
        names.push("git-commit".to_string());
        names.push("git-push".to_string());
        assert(views(names@) =~= git_names());
        names
    }

    fn get_function_schema(&self, function_name: &str) -> (schema: Option<FunctionDefinition>)
        ensures
            schema is Some <==> schema_named(git_schemas(), function_name@) is Some,
            schema matches Some(d) ==> schema_named(git_schemas(), function_name@) == Some(d@),
    {
        find_schema(create_git_functions(), function_name)
    }

    fn begin(&self, call: &FunctionCall, platform: &Platform) -> (step: AiResult<ExecutorStep>)
        ensures
            !git_known(call.function.name@) ==> unknown(step, "unknown function"@),
            git_known(call.function.name@) ==> match parsed_arguments(call.function.arguments@) {
                None => arguments_refused(step, call.function.arguments@),
                Some(args) => starts(step, git_plan(call.function.name@, args)),
            },
    {
        let name = call.function.name.as_str();
        if !GitFunctionExecutor::knows(name) {
            return unknown_function("unknown function");
        }
        let args = match parse_function_arguments(call.function.arguments.as_str()) {
            Ok(args) => args,
            Err(e) => {
                return Err(e);
            },
        };
        match GitFunctionExecutor::plan(name, &args) {
            Ok(request) => Ok(run_first(request)),
            Err(e) => Err(e),
        }
    }

    fn resume(
        &self,
        call: &FunctionCall,
        platform: &Platform,
        pending: PendingCommand,
        outcome: CommandOutcome,
    ) -> (step: AiResult<ExecutorStep>)
        ensures
            !git_known(call.function.name@) ==> unknown(step, "unknown function"@),
            git_known(call.function.name@) ==> match parsed_arguments(call.function.arguments@) {
                None => arguments_refused(step, call.function.arguments@),
                Some(args) => match git_plan(call.function.name@, args) {
                    PlanSpec::Refuse(why) => refuses(step, why),
                    PlanSpec::Run(_) => step matches Ok(s) && s@ == StepSpec::Done(
                        git_result(call.function.name@, args, outcome@),
                    ),
                },
            },
    {
        let name = call.function.name.as_str();
        if !GitFunctionExecutor::knows(name) {
            return unknown_function("unknown function");
        }
        let args = match parse_function_arguments(call.function.arguments.as_str()) {
            Ok(args) => args,
            Err(e) => {
                return Err(e);
            },
        };
        match GitFunctionExecutor::plan(name, &args) {
            Ok(_) => Ok(ExecutorStep::Done(GitFunctionExecutor::complete(name, &args, &outcome))),
            Err(e) => Err(e),
        }
    }
}

} // verus!
