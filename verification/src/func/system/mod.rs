//! The executors of system tools, and what they have in common: how the
//! arguments of a call are read, which paths are let through, and how the
//! outcome of a command becomes the result of a call.

pub mod analysis;
pub mod diagnosis;
pub mod fs;
pub mod monitor;
pub mod net;
pub mod platform;
pub mod sys;

use vstd::prelude::*;
use crate::error::{AiError, AiResult, ExecutionError};
use crate::func::executor::{
    CommandOutcome, CommandOutput, CommandRequest, ExecutorStep, OutcomeSpec, PendingCommand,
    PendingSpec, RequestSpec, StepSpec,
};
use crate::json::{json_document, parse_json, JsonMember, JsonSpec, JsonValue, MemberSpec};
use crate::provider::{FunctionResult, ResultSpec};
use crate::text::{append, contains, is_blank, is_blank_text, occurs, same_text, views};

verus! {

/// The arguments that a call carries: an object without members where the
/// text is blank or `{}`, else the object that the text is the JSON
/// document of. A text that is no document, or the document of anything
/// but an object, carries no arguments.
pub open spec fn parsed_arguments(arguments: Seq<char>) -> Option<JsonSpec> {
    if is_blank(arguments) || arguments == "{}"@ {
        Some(JsonSpec::Object(Seq::empty()))
    } else {
        match json_document(arguments) {
            Some(JsonSpec::Object(members)) => Some(JsonSpec::Object(members)),
            _ => None,
        }
    }
}

/// An error that refuses arguments with the message `message`.
pub open spec fn refuses<T>(r: AiResult<T>, message: Seq<char>) -> bool {
    r matches Err(AiError::Execution(ExecutionError::InvalidArguments(m))) && m@ == message
}

/// An error that names an unknown function with the message `message`.
pub open spec fn unknown<T>(r: AiResult<T>, message: Seq<char>) -> bool {
    r matches Err(AiError::Execution(ExecutionError::UnknownFunction(m))) && m@ == message
}

/// How the reading of arguments fails on `arguments`: a document that is
/// no object is refused by that name, a text that is no document with the
/// reader's message behind `Failed to parse arguments: `.
pub open spec fn arguments_refused<T>(r: AiResult<T>, arguments: Seq<char>) -> bool {
    &&& r matches Err(AiError::Execution(ExecutionError::InvalidArguments(m)))
    &&& json_document(arguments) is Some ==> m@ == "Arguments must be an object"@
    &&& json_document(arguments) is None ==> crate::text::has_prefix(
        m@,
        "Failed to parse arguments: "@,
    )
}

/// Reads the arguments of a call.
pub fn parse_function_arguments(arguments: &str) -> (r: AiResult<JsonValue>)
    ensures
        r is Ok <==> parsed_arguments(arguments@) is Some,
        r matches Ok(v) ==> parsed_arguments(arguments@) == Some(v@),
        r is Err ==> arguments_refused(r, arguments@),
{
    if is_blank_text(arguments) || same_text(arguments, "{}") {
        return Ok(JsonValue::empty_object());
    }
    match parse_json(arguments) {
        Ok(value) => match value {
            JsonValue::Object(members) => {
                let v = JsonValue::Object(members);
                Ok(v)
            },
            _ => Err(
                AiError::Execution(
                    ExecutionError::InvalidArguments("Arguments must be an object".to_string()),
                ),
            ),
        },
        Err(why) => {
            let mut message = String::new();
            append(&mut message, "Failed to parse arguments: ");
            let ghost head = message@;
            append(&mut message, why.as_str());
            assert(message@.subrange(0, head.len() as int) =~= head);
            Err(AiError::Execution(ExecutionError::InvalidArguments(message)))
        },
    }
}

/// Why a path is not let through, if it is not: it climbs out of its
/// directory or names the home directory, or it holds a character that a
/// shell would act on.
pub open spec fn path_refusal(path: Seq<char>) -> Option<Seq<char>> {
    if path.len() == 0 {
        None
    } else if occurs(path, ".."@) || occurs(path, "~"@) {
        Some("Path traversal or home directory access not allowed"@)
    } else if occurs(path, ";"@) || occurs(path, "|"@) || occurs(path, "&"@) || occurs(path, "$"@) {
        Some("Path contains invalid characters"@)
    } else {
        None
    }
}

/// The path that is handed to a command: the current directory for the
/// empty path, else the path as it is.
pub open spec fn normalized_path(path: Seq<char>) -> Seq<char> {
    if path.len() == 0 {
        "."@
    } else {
        path
    }
}

/// Lets a path through to a command, or refuses it.
pub fn validate_and_normalize_path(path: &str) -> (r: AiResult<String>)
    ensures
        match path_refusal(path@) {
            Some(why) => refuses(r, why),
            None => r matches Ok(p) && p@ == normalized_path(path@),
        },
{
    if path.is_empty() {
        return Ok(".".to_string());
    }
    if contains(path, "..") || contains(path, "~") {
        return Err(
            AiError::Execution(
                ExecutionError::InvalidArguments(
                    "Path traversal or home directory access not allowed".to_string(),
                ),
            ),
        );
    }
    if contains(path, ";") || contains(path, "|") || contains(path, "&") || contains(path, "$") {
        return Err(
            AiError::Execution(
                ExecutionError::InvalidArguments("Path contains invalid characters".to_string()),
            ),
        );
    }
    Ok(path.to_owned())
}

/// A request for `program` with `args`, to be given up after `seconds`.
pub open spec fn timed_request(program: Seq<char>, args: Seq<Seq<char>>, seconds: u64)
    -> RequestSpec {
    RequestSpec { program, args, timeout_seconds: seconds, working_dir: None }
}

/// A request for `program` with `args`, to be given up after `seconds`.
pub fn new_request(program: &str, args: Vec<String>, seconds: u64) -> (r: CommandRequest)
    ensures
        r@ == timed_request(program@, views(args@), seconds),
{
    CommandRequest {
        program: program.to_owned(),
        args,
        timeout_seconds: seconds,
        working_dir: None,
    }
}

/// The step that asks for the first command of a call.
pub open spec fn first_command(request: RequestSpec) -> PendingSpec {
    PendingSpec { request, stage: 0, collected: Seq::empty() }
}

/// The step that asks for the first command of a call.
pub fn run_first(request: CommandRequest) -> (step: ExecutorStep)
    ensures
        step@ == crate::func::executor::StepSpec::Run(first_command(request@)),
{
    let pending = PendingCommand { request, stage: 0, collected: Vec::new() };
    assert(pending@.collected =~= Seq::<MemberSpec>::empty());
    ExecutorStep::Run(pending)
}

/// The result of a command that ran to its end: what was made of its
/// output, and its error text where the exit status was not zero.
pub open spec fn finished(name: Seq<char>, result: JsonSpec, success: bool, stderr: Seq<char>)
    -> ResultSpec {
    ResultSpec {
        name,
        result,
        error: if success {
            None
        } else {
            Some(stderr)
        },
    }
}

/// The result of a command that did not run to its end: no value, and
/// `prefix` with the reason behind it as the error.
pub open spec fn not_run(name: Seq<char>, prefix: Seq<char>, outcome: OutcomeSpec) -> ResultSpec {
    ResultSpec { name, result: JsonSpec::Null, error: Some(prefix + outcome.failure_text()) }
}

/// The result of a command that ran to its end.
pub fn finished_result(name: &str, result: JsonValue, output: &CommandOutput) -> (r:
    FunctionResult)
    ensures
        r@ == finished(name@, result@, output.success, output.stderr@),
{
    FunctionResult {
        name: name.to_owned(),
        result,
        error: if output.success {
            None
        } else {
            Some(output.stderr.clone())
        },
    }
}

/// The result of a command that did not run to its end.
pub fn not_run_result(name: &str, prefix: &str, outcome: &CommandOutcome) -> (r: FunctionResult)
    requires
        !(outcome is Completed),
    ensures
        r@ == not_run(name@, prefix@, outcome@),
{
    let mut message = String::new();
    append(&mut message, prefix);
    match outcome {
        CommandOutcome::TimedOut => {
            append(&mut message, "Command execution timeout");
        },
        CommandOutcome::FailedToStart(why) => {
            append(&mut message, "Command execution failed: ");
            append(&mut message, why.as_str());
        },
        CommandOutcome::Completed(_) => {},
    }
    assert(message@ =~= prefix@ + outcome@.failure_text());
    FunctionResult { name: name.to_owned(), result: JsonValue::Null, error: Some(message) }
}

/// What a tool does with its arguments: it asks for a command, or it
/// refuses the arguments with a message.
pub enum PlanSpec {
    Run(RequestSpec),
    Refuse(Seq<char>),
}

/// `r` is what the plan says.
pub open spec fn follows(r: AiResult<CommandRequest>, plan: PlanSpec) -> bool {
    match plan {
        PlanSpec::Run(request) => r matches Ok(q) && q@ == request,
        PlanSpec::Refuse(why) => refuses(r, why),
    }
}

/// `step` starts what the plan says.
pub open spec fn starts(step: AiResult<ExecutorStep>, plan: PlanSpec) -> bool {
    match plan {
        PlanSpec::Run(request) => step matches Ok(s) && s@ == StepSpec::Run(first_command(request)),
        PlanSpec::Refuse(why) => refuses(step, why),
    }
}

/// The text of member `key`, or `fallback` where there is none.
pub open spec fn text_or(args: JsonSpec, key: Seq<char>, fallback: Seq<char>) -> Seq<char> {
    match args.member_text(key) {
        Some(s) => s,
        None => fallback,
    }
}

/// The text of member `key`, or `fallback` where there is none.
pub fn text_argument(args: &JsonValue, key: &str, fallback: &str) -> (r: String)
    ensures
        r@ == text_or(args@, key@, fallback@),
{
    match args.get_str(key) {
        Some(s) => s.to_owned(),
        None => fallback.to_owned(),
    }
}

/// The truth value of member `key`, or `fallback` where there is none.
pub open spec fn flag_or(args: JsonSpec, key: Seq<char>, fallback: bool) -> bool {
    match args.member_truth(key) {
        Some(b) => b,
        None => fallback,
    }
}

/// The unsigned number of member `key`, or `fallback` where there is none.
pub open spec fn unsigned_or(args: JsonSpec, key: Seq<char>, fallback: nat) -> nat {
    match args.member_unsigned(key) {
        Some(n) => n,
        None => fallback,
    }
}

/// A text where there is one, and no value where there is none.
pub open spec fn text_or_null(text: Option<Seq<char>>) -> JsonSpec {
    match text {
        Some(s) => JsonSpec::Text(s),
        None => JsonSpec::Null,
    }
}

/// The truth value of member `key`, or `fallback` where there is none.
pub fn flag_argument(args: &JsonValue, key: &str, fallback: bool) -> (r: bool)
    ensures
        r == flag_or(args@, key@, fallback),
{
    match args.get_bool(key) {
        Some(b) => b,
        None => fallback,
    }
}

/// The unsigned number of member `key`, or `fallback` where there is none.
pub fn unsigned_argument(args: &JsonValue, key: &str, fallback: u64) -> (r: u64)
    ensures
        r == unsigned_or(args@, key@, fallback as nat),
{
    match args.get_u64(key) {
        Some(n) => n,
        None => fallback,
    }
}

/// A text where there is one, and no value where there is none.
pub fn text_or_null_value(text: Option<&str>) -> (r: JsonValue)
    ensures
        r@ == text_or_null(
            match text {
                Some(s) => Some(s@),
                None => None,
            },
        ),
{
    match text {
        Some(s) => JsonValue::text(s),
        None => JsonValue::Null,
    }
}

/// An error that refuses arguments with `message`.
pub fn refuse<T>(message: &str) -> (r: AiResult<T>)
    ensures
        refuses(r, message@),
{
    Err(AiError::Execution(ExecutionError::InvalidArguments(message.to_owned())))
}

/// An error that names an unknown function with `message`.
pub fn unknown_function<T>(message: &str) -> (r: AiResult<T>)
    ensures
        unknown(r, message@),
{
    Err(AiError::Execution(ExecutionError::UnknownFunction(message.to_owned())))
}

/// A list of one text.
pub fn args1(a: &str) -> (r: Vec<String>)
    ensures
        views(r@) == seq![a@],
{
    let mut r: Vec<String> = Vec::new();
    r.push(a.to_owned());
    assert(views(r@) =~= seq![a@]);
    r
}

/// A list of two texts.
pub fn args2(a: &str, b: &str) -> (r: Vec<String>)
    ensures
        views(r@) == seq![a@, b@],
{
    let mut r: Vec<String> = Vec::new();
    r.push(a.to_owned());
    r.push(b.to_owned());
    assert(views(r@) =~= seq![a@, b@]);
    r
}

/// A list of three texts.
pub fn args3(a: &str, b: &str, c: &str) -> (r: Vec<String>)
    ensures
        views(r@) == seq![a@, b@, c@],
{
    let mut r: Vec<String> = Vec::new();
    r.push(a.to_owned());
    r.push(b.to_owned());
    r.push(c.to_owned());
    assert(views(r@) =~= seq![a@, b@, c@]);
    r
}

/// A copy of a list of string slices.
pub fn owned_texts(list: &Vec<&'static str>) -> (r: Vec<String>)
    ensures
        views(r@) == platform::str_views(list@),
{
    let mut r: Vec<String> = Vec::new();
    let mut i: usize = 0;
    while i < list.len()
        invariant
            0 <= i <= list@.len(),
            r@.len() == i,
            forall|k: int| 0 <= k < i ==> (#[trigger] r@[k])@ == list@[k]@,
        decreases list@.len() - i,
    {
        r.push(list[i].to_owned());
        i += 1;
    }
    assert(views(r@) =~= platform::str_views(list@));
    r
}

/// An object of two members.
pub fn object2(a: JsonMember, b: JsonMember) -> (r: JsonValue)
    ensures
        r@ == JsonSpec::Object(
            seq![
                MemberSpec { name: a.name@, value: a.value@ },
                MemberSpec { name: b.name@, value: b.value@ },
            ],
        ),
{
    let mut members: Vec<JsonMember> = Vec::new();
    members.push(a);
    members.push(b);
    let ghost want = seq![
        MemberSpec { name: a.name@, value: a.value@ },
        MemberSpec { name: b.name@, value: b.value@ },
    ];
    assert(crate::json::entry_views(members@) =~= want);
    JsonValue::object(members)
}

/// An object of three members.
pub fn object3(a: JsonMember, b: JsonMember, c: JsonMember) -> (r: JsonValue)
    ensures
        r@ == JsonSpec::Object(
            seq![
                MemberSpec { name: a.name@, value: a.value@ },
                MemberSpec { name: b.name@, value: b.value@ },
                MemberSpec { name: c.name@, value: c.value@ },
            ],
        ),
{
    let mut members: Vec<JsonMember> = Vec::new();
    members.push(a);
    members.push(b);
    members.push(c);
    let ghost want = seq![
        MemberSpec { name: a.name@, value: a.value@ },
        MemberSpec { name: b.name@, value: b.value@ },
        MemberSpec { name: c.name@, value: c.value@ },
    ];
    assert(crate::json::entry_views(members@) =~= want);
    JsonValue::object(members)
}

/// An object of the given members.
pub fn object_of(members: Vec<JsonMember>) -> (r: JsonValue)
    ensures
        r@ == JsonSpec::Object(crate::json::entry_views(members@)),
{
    JsonValue::object(members)
}

} // verus!
