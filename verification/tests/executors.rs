use orion_ai::error::{AiError, ExecutionError};
use orion_ai::func::builtin::BuiltinExecutor;
use orion_ai::func::executor::{
    CommandOutcome, CommandOutput, CommandRequest, ExecutorStep, FunctionExecutor,
};
use orion_ai::func::git::{create_git_functions, GitFunctionExecutor};
use orion_ai::func::system::analysis::{create_analysis_functions, AnalysisExecutor};
use orion_ai::func::system::diagnosis::{create_diagnosis_functions, DiagnosisExecutor};
use orion_ai::func::system::fs::{create_fs_functions, FileSystemExecutor};
use orion_ai::func::system::monitor::{create_monitor_functions, MonitorExecutor};
use orion_ai::func::system::net::{create_net_functions, NetworkExecutor};
use orion_ai::func::system::platform::Platform;
use orion_ai::func::system::sys::{create_sys_functions, SystemInfoExecutor};
use orion_ai::func::system::{parse_function_arguments, validate_and_normalize_path};
use orion_ai::json::JsonValue;
use orion_ai::provider::{FunctionCall, FunctionCallInfo, FunctionResult};

fn call(name: &str, arguments: &str) -> FunctionCall {
    FunctionCall {
        index: Some(0),
        id: "call_1".to_string(),
        type_tag: "function".to_string(),
        function: FunctionCallInfo { name: name.to_string(), arguments: arguments.to_string() },
    }
}

fn completed(stdout: &str, stderr: &str, success: bool) -> CommandOutcome {
    CommandOutcome::Completed(CommandOutput {
        stdout: stdout.to_string(),
        stderr: stderr.to_string(),
        success,
    })
}

fn request_of<E: FunctionExecutor>(executor: &E, c: &FunctionCall, platform: &Platform) -> CommandRequest {
    match executor.begin(c, platform).unwrap() {
        ExecutorStep::Run(pending) => pending.request,
        ExecutorStep::Done(_) => panic!("a command was expected"),
    }
}

fn result_of<E: FunctionExecutor>(
    executor: &E,
    c: &FunctionCall,
    platform: &Platform,
    outcome: CommandOutcome,
) -> FunctionResult {
    let pending = match executor.begin(c, platform).unwrap() {
        ExecutorStep::Run(pending) => pending,
        ExecutorStep::Done(_) => panic!("a command was expected"),
    };
    match executor.resume(c, platform, pending, outcome).unwrap() {
        ExecutorStep::Done(result) => result,
        ExecutorStep::Run(_) => panic!("a result was expected"),
    }
}

fn refused(message: &str) -> AiError {
    AiError::Execution(ExecutionError::InvalidArguments(message.to_string()))
}

fn strings(list: &[&str]) -> Vec<String> {
    list.iter().map(|s| s.to_string()).collect()
}

#[test]
fn test_filesystem_executor() {
    let executor = FileSystemExecutor;
    let functions = executor.supported_functions();
    assert!(functions.contains(&"fs-ls".to_string()));
    assert!(functions.contains(&"fs-pwd".to_string()));
    assert!(functions.contains(&"fs-cat".to_string()));
    assert!(functions.contains(&"fs-find".to_string()));
}

#[test]
fn test_create_fs_functions() {
    let functions = create_fs_functions();
    assert_eq!(functions.len(), 4);

    let ls_func = functions.iter().find(|f| f.name == "fs-ls").unwrap();
    assert_eq!(ls_func.description, "列出目录内容");
    assert_eq!(ls_func.parameters.len(), 1);
    assert_eq!(ls_func.parameters[0].name, "path");
    assert!(!ls_func.parameters[0].required);
}

#[test]
fn test_parse_function_arguments() {
    let result = parse_function_arguments("{}");
    assert!(result.is_ok());
    assert_eq!(result.unwrap(), JsonValue::Object(vec![]));

    let args = "{\"path\": \"/tmp\", \"pattern\": \"*.txt\"}";
    let result = parse_function_arguments(args);
    assert!(result.is_ok());
    let parsed = result.unwrap();
    assert_eq!(parsed.get("path").unwrap().as_str().unwrap(), "/tmp");
    assert_eq!(parsed.get("pattern").unwrap().as_str().unwrap(), "*.txt");
}

#[test]
fn arguments_must_be_an_object() {
    assert_eq!(parse_function_arguments("   "), Ok(JsonValue::Object(vec![])));
    assert_eq!(
        parse_function_arguments("[1, 2]"),
        Err(refused("Arguments must be an object"))
    );
    match parse_function_arguments("{not json") {
        Err(AiError::Execution(ExecutionError::InvalidArguments(message))) => {
            assert!(message.starts_with("Failed to parse arguments: "));
            assert!(message.len() > "Failed to parse arguments: ".len());
        }
        other => panic!("unexpected: {:?}", other),
    }
}

#[test]
fn paths_are_checked_before_use() {
    assert_eq!(validate_and_normalize_path(""), Ok(".".to_string()));
    assert_eq!(validate_and_normalize_path("/tmp/x"), Ok("/tmp/x".to_string()));
    let traversal = refused("Path traversal or home directory access not allowed");
    assert_eq!(validate_and_normalize_path("../etc"), Err(traversal.clone()));
    assert_eq!(validate_and_normalize_path("~/x"), Err(traversal));
    let characters = refused("Path contains invalid characters");
    for bad in ["a;b", "a|b", "a&b", "a$b"] {
        assert_eq!(validate_and_normalize_path(bad), Err(characters.clone()));
    }
}

#[test]
fn file_system_tools_plan_their_commands() {
    let executor = FileSystemExecutor;
    let linux = Platform::Linux;

    let ls = request_of(&executor, &call("fs-ls", "{\"path\": \"/tmp\"}"), &linux);
    assert_eq!(ls.program, "ls");
    assert_eq!(ls.args, strings(&["-la", "/tmp"]));
    assert_eq!(ls.timeout_seconds, 10);
    assert_eq!(ls.working_dir, None);

    let pwd = request_of(&executor, &call("fs-pwd", "this is not json"), &linux);
    assert_eq!((pwd.program.as_str(), pwd.args.len(), pwd.timeout_seconds), ("pwd", 0, 5));

    let cat = request_of(&executor, &call("fs-cat", "{\"path\": \"a.txt\"}"), &linux);
    assert_eq!(cat.args, strings(&["a.txt"]));
    assert_eq!(cat.timeout_seconds, 15);

    let find = request_of(&executor, &call("fs-find", "{}"), &linux);
    assert_eq!(find.program, "find");
    assert_eq!(find.args, strings(&[".", "-name", "*"]));
    assert_eq!(find.timeout_seconds, 30);

    assert_eq!(
        executor.begin(&call("fs-cat", "{}"), &linux).unwrap_err(),
        refused("path parameter is required")
    );
    assert_eq!(
        executor.begin(&call("fs-ls", "{\"path\": \"../x\"}"), &linux).unwrap_err(),
        refused("Path traversal or home directory access not allowed")
    );
    assert_eq!(
        executor.begin(&call("fs-nothing", "{}"), &linux).unwrap_err(),
        AiError::Execution(ExecutionError::UnknownFunction(
            "Unknown filesystem function".to_string()
        ))
    );
}

#[test]
fn file_system_tools_report_their_outcome() {
    let executor = FileSystemExecutor;
    let linux = Platform::Linux;

    let found = result_of(
        &executor,
        &call("fs-find", "{\"path\": \"src\", \"pattern\": \"*.rs\"}"),
        &linux,
        completed("src/a.rs\nsrc/b.rs\n", "", true),
    );
    assert_eq!(found.name, "fs-find");
    assert_eq!(found.error, None);
    assert_eq!(found.result.get_str("path"), Some("src"));
    assert_eq!(found.result.get_str("pattern"), Some("*.rs"));
    assert_eq!(found.result.get_bool("success"), Some(true));
    assert_eq!(
        found.result.get("files"),
        Some(&JsonValue::texts(&strings(&["src/a.rs", "src/b.rs"])))
    );

    let failed = result_of(
        &executor,
        &call("fs-cat", "{\"path\": \"missing\"}"),
        &linux,
        completed("", "cat: missing: No such file", false),
    );
    assert_eq!(failed.error, Some("cat: missing: No such file".to_string()));
    assert_eq!(failed.result.get_bool("success"), Some(false));
    assert_eq!(failed.result.get_str("content"), Some(""));

    let pwd = result_of(&executor, &call("fs-pwd", ""), &linux, completed("/home/me\n", "", true));
    assert_eq!(pwd.result.get_str("current_directory"), Some("/home/me"));

    let timed_out = result_of(&executor, &call("fs-ls", "{}"), &linux, CommandOutcome::TimedOut);
    assert_eq!(timed_out.result, JsonValue::Null);
    assert_eq!(
        timed_out.error,
        Some("Failed to list directory: Command execution timeout".to_string())
    );

    let not_started = result_of(
        &executor,
        &call("fs-ls", "{}"),
        &linux,
        CommandOutcome::FailedToStart("no such program".to_string()),
    );
    assert_eq!(
        not_started.error,
        Some("Failed to list directory: Command execution failed: no such program".to_string())
    );
}

#[test]
fn test_system_info_executor() {
    let executor = SystemInfoExecutor;
    let functions = executor.supported_functions();
    assert!(functions.contains(&"sys-uname".to_string()));
    assert!(functions.contains(&"sys-ps".to_string()));
    assert!(functions.contains(&"sys-df".to_string()));
}

#[test]
fn test_create_sys_functions() {
    let functions = create_sys_functions();
    assert_eq!(functions.len(), 3);

    let uname_func = functions.iter().find(|f| f.name == "sys-uname").unwrap();
    assert_eq!(uname_func.description, "显示系统信息");
    assert_eq!(uname_func.parameters.len(), 1);
    assert_eq!(uname_func.parameters[0].name, "detailed");
    assert!(!uname_func.parameters[0].required);

    let ps_func = functions.iter().find(|f| f.name == "sys-ps").unwrap();
    assert_eq!(ps_func.description, "显示进程信息");
    assert_eq!(ps_func.parameters.len(), 2);
    assert_eq!(ps_func.parameters[0].name, "process_name");
    assert!(!ps_func.parameters[0].required);
    assert_eq!(ps_func.parameters[1].name, "user");
    assert!(!ps_func.parameters[1].required);

    let df_func = functions.iter().find(|f| f.name == "sys-df").unwrap();
    assert_eq!(df_func.description, "显示磁盘使用情况");
    assert_eq!(df_func.parameters.len(), 2);
    assert_eq!(df_func.parameters[0].name, "path");
    assert!(!df_func.parameters[0].required);
    assert_eq!(df_func.parameters[1].name, "human_readable");
    assert!(!df_func.parameters[1].required);
}

#[test]
fn system_info_tools_plan_and_report() {
    let executor = SystemInfoExecutor;
    let linux = Platform::Linux;

    let uname = request_of(&executor, &call("sys-uname", "{\"detailed\": true}"), &linux);
    assert_eq!((uname.program.as_str(), uname.timeout_seconds), ("uname", 10));
    assert_eq!(uname.args, strings(&["-a"]));
    assert_eq!(request_of(&executor, &call("sys-uname", "{}"), &linux).args, strings(&["-s"]));

    let ps = request_of(
        &executor,
        &call("sys-ps", "{\"process_name\": \"bash\", \"user\": \"me\"}"),
        &linux,
    );
    assert_eq!(ps.args, strings(&["aux", "|", "grep", "bash", "|", "grep", "me"]));
    assert_eq!(ps.timeout_seconds, 15);

    let df = request_of(&executor, &call("sys-df", "{\"human_readable\": false}"), &linux);
    assert_eq!(df.args, strings(&["."]));
    let df = request_of(&executor, &call("sys-df", "{\"path\": \"/var\"}"), &linux);
    assert_eq!(df.args, strings(&["-h", "/var"]));
    assert_eq!(
        executor.begin(&call("sys-df", "{\"path\": \"/var;rm\"}"), &linux).unwrap_err(),
        refused("Path contains invalid characters")
    );

    let listed = result_of(
        &executor,
        &call("sys-ps", "{\"user\": \"me\"}"),
        &linux,
        completed("USER PID\nme 1\n", "", true),
    );
    assert_eq!(listed.result.get("process_filter"), Some(&JsonValue::Null));
    assert_eq!(listed.result.get_str("user_filter"), Some("me"));
    assert_eq!(
        listed.result.get("processes"),
        Some(&JsonValue::texts(&strings(&["USER PID", "me 1"])))
    );
    let named = result_of(
        &executor,
        &call("sys-uname", "{}"),
        &linux,
        completed("Linux\n", "", true),
    );
    assert_eq!(named.result.get_str("output"), Some("Linux"));
    assert_eq!(named.result.get_bool("detailed"), Some(false));
}

#[test]
fn test_network_executor() {
    let executor = NetworkExecutor;
    let functions = executor.supported_functions();
    assert_eq!(functions.len(), 1);
    assert_eq!(functions[0], "net-ping");
}

#[test]
fn test_create_net_functions() {
    let functions = create_net_functions();
    assert_eq!(functions.len(), 1);

    let ping_func = &functions[0];
    assert_eq!(ping_func.name, "net-ping");
    assert_eq!(ping_func.description, "测试网络连通性");
    assert_eq!(ping_func.parameters.len(), 3);

    let host_param = &ping_func.parameters[0];
    assert_eq!(host_param.name, "host");
    assert_eq!(host_param.type_tag, "string");
    assert!(host_param.required);

    let count_param = &ping_func.parameters[1];
    assert_eq!(count_param.name, "count");
    assert_eq!(count_param.type_tag, "number");
    assert!(!count_param.required);

    let timeout_param = &ping_func.parameters[2];
    assert_eq!(timeout_param.name, "timeout");
    assert_eq!(timeout_param.type_tag, "number");
    assert!(!timeout_param.required);
}

#[test]
fn ping_is_bounded_and_checked() {
    let executor = NetworkExecutor;
    let linux = Platform::Linux;
    let ping = request_of(
        &executor,
        &call("net-ping", "{\"host\": \"example.com\", \"count\": 50, \"timeout\": 100}"),
        &linux,
    );
    assert_eq!(ping.program, "ping");
    assert_eq!(ping.args, strings(&["-c", "10", "-W", "30", "example.com"]));
    assert_eq!(ping.timeout_seconds, 35);

    let ping = request_of(&executor, &call("net-ping", "{\"host\": \"10.0.0.1\"}"), &linux);
    assert_eq!(ping.args, strings(&["-c", "4", "-W", "10", "10.0.0.1"]));
    assert_eq!(ping.timeout_seconds, 15);

    assert_eq!(
        executor.begin(&call("net-ping", "{}"), &linux).unwrap_err(),
        refused("host parameter is required")
    );
    assert_eq!(
        executor.begin(&call("net-ping", "{\"host\": \"a;b\"}"), &linux).unwrap_err(),
        refused("Invalid host: a;b")
    );

    let c = call("net-ping", "{\"host\": \"example.com\"}");
    let good = result_of(
        &executor,
        &c,
        &linux,
        completed("PING\n 4 packets transmitted, 4 received \nrtt\n", "", true),
    );
    assert_eq!(good.error, None);
    assert_eq!(good.result.get_u64("count"), Some(4));
    assert_eq!(good.result.get_u64("timeout_seconds"), Some(10));
    assert_eq!(
        good.result.get("stats").unwrap().get_str("summary"),
        Some("4 packets transmitted, 4 received")
    );
    let bad = result_of(&executor, &c, &linux, completed("", " unknown host \n", false));
    assert_eq!(bad.error, Some("unknown host".to_string()));
    assert_eq!(bad.result.get("stats"), None);
    let silent = result_of(&executor, &c, &linux, completed("", "", false));
    assert_eq!(silent.error, Some("Ping failed".to_string()));
    let lost = result_of(&executor, &c, &linux, CommandOutcome::TimedOut);
    assert_eq!(lost.result.get_str("host"), Some("example.com"));
    assert_eq!(lost.result.get_bool("success"), Some(false));
    assert_eq!(
        lost.error,
        Some("Failed to execute ping: Command execution timeout".to_string())
    );
}

#[test]
fn git_tools_plan_and_report() {
    let executor = GitFunctionExecutor;
    let linux = Platform::Linux;
    assert_eq!(create_git_functions().len(), 5);
    assert_eq!(
        executor.supported_functions(),
        strings(&["git-status", "git-diff", "git-add", "git-commit", "git-push"])
    );
    assert_eq!(executor.get_function_schema("git-add").unwrap().parameters[0].type_tag, "array");
    assert_eq!(executor.get_function_schema("git-none"), None);

    let status = request_of(&executor, &call("git-status", "{\"path\": \"repo\"}"), &linux);
    assert_eq!(status.program, "git");
    assert_eq!(status.args, strings(&["status", "--porcelain"]));
    assert_eq!(status.working_dir, Some("repo".to_string()));
    assert_eq!(status.timeout_seconds, 30);

    let diff = request_of(&executor, &call("git-diff", "{\"staged\": true}"), &linux);
    assert_eq!(diff.args, strings(&["diff", "--staged", "."]));
    assert_eq!(diff.working_dir, Some(".".to_string()));

    let add = request_of(
        &executor,
        &call("git-add", "{\"files\": [\"a.rs\", 7, \"b.rs\"]}"),
        &linux,
    );
    assert_eq!(add.args, strings(&["add", "a.rs", "b.rs"]));
    assert_eq!(
        executor.begin(&call("git-add", "{\"files\": \"a.rs\"}"), &linux).unwrap_err(),
        refused("files parameter required")
    );
    let commit = request_of(&executor, &call("git-commit", "{\"message\": \"fix it\"}"), &linux);
    assert_eq!(commit.args, strings(&["commit", "-m", "fix it"]));
    assert_eq!(
        executor.begin(&call("git-commit", "{}"), &linux).unwrap_err(),
        refused("message parameter required")
    );
    let push = request_of(&executor, &call("git-push", "{\"branch\": \"main\"}"), &linux);
    assert_eq!(push.args, strings(&["push", "origin", "main"]));

    let changed = result_of(
        &executor,
        &call("git-status", "{}"),
        &linux,
        completed(" M src/lib.rs\n", "", true),
    );
    assert_eq!(changed.result.get_bool("has_changes"), Some(true));
    assert_eq!(changed.result.get_str("status"), Some(" M src/lib.rs\n"));
    assert_eq!(changed.error, None);
    let clean = result_of(&executor, &call("git-diff", "{}"), &linux, completed("\n", "", true));
    assert_eq!(clean.result.get_bool("has_changes"), Some(false));
    assert_eq!(clean.error, None);
    let outside = result_of(
        &executor,
        &call("git-status", "{}"),
        &linux,
        completed("", "fatal: not a git repository", false),
    );
    assert_eq!(outside.result.get_str("status"), Some(""));
    assert_eq!(outside.result.get_bool("has_changes"), Some(false));
    assert_eq!(outside.error, Some("fatal: not a git repository".to_string()));

    let pushed = result_of(&executor, &call("git-push", "{}"), &linux, completed("", "", true));
    assert_eq!(pushed.result.get_str("message"), Some("Pushed to origin/HEAD"));
    let rejected =
        result_of(&executor, &call("git-push", "{}"), &linux, completed("", "rejected", false));
    assert_eq!(rejected.result, JsonValue::Null);
    assert_eq!(rejected.error, Some("rejected".to_string()));
    let missing = result_of(
        &executor,
        &call("git-commit", "{\"message\": \"m\"}"),
        &linux,
        CommandOutcome::FailedToStart("git not found".to_string()),
    );
    assert_eq!(missing.error, Some("Failed to create commit: git not found".to_string()));
}

#[test]
fn test_diagnosis_executor() {
    let executor = DiagnosisExecutor;
    let functions = executor.supported_functions();
    assert!(functions.contains(&"sys-uptime".to_string()));
    assert!(functions.contains(&"sys-meminfo".to_string()));
}

#[test]
fn test_create_diagnosis_functions() {
    let functions = create_diagnosis_functions();
    assert_eq!(functions.len(), 2);

    let uptime_func = functions.iter().find(|f| f.name == "sys-uptime").unwrap();
    assert_eq!(uptime_func.description, "显示系统运行时间和负载");
    assert_eq!(uptime_func.parameters.len(), 1);
    assert_eq!(uptime_func.parameters[0].name, "detailed");
    assert!(!uptime_func.parameters[0].required);

    let meminfo_func = functions.iter().find(|f| f.name == "sys-meminfo").unwrap();
    assert_eq!(meminfo_func.description, "显示内存使用详细信息");
    assert_eq!(meminfo_func.parameters.len(), 0);
}

#[test]
fn diagnosis_tools_follow_the_platform() {
    let executor = DiagnosisExecutor;
    let c = call("sys-uptime", "{\"detailed\": true}");
    assert_eq!(request_of(&executor, &c, &Platform::Linux).args, strings(&["-p"]));
    assert_eq!(request_of(&executor, &c, &Platform::MacOS).args, strings(&["-v"]));
    let windows = request_of(&executor, &c, &Platform::Windows);
    assert_eq!(windows.program, "wmic");
    assert_eq!(windows.args, strings(&["os", "get", "lastbootuptime"]));
    assert_eq!(windows.timeout_seconds, 5);

    let up = result_of(&executor, &c, &Platform::Linux, completed(" up 3 days \n", "", true));
    assert_eq!(up.result.get_str("output"), Some("up 3 days"));
    assert_eq!(up.result.get_str("platform"), Some("Linux"));
    assert_eq!(up.result.get_str("command"), Some("uptime -p"));

    let mem = call("sys-meminfo", "{}");
    let linux = result_of(&executor, &mem, &Platform::Linux, completed("a\nb\n", "", true));
    assert_eq!(linux.result.get("memory_info"), Some(&JsonValue::texts(&strings(&["a", "b"]))));
    assert_eq!(linux.result.get_str("command"), Some("free -h"));
    let unknown = result_of(&executor, &mem, &Platform::Unknown, completed(" raw \n", "", true));
    assert_eq!(unknown.result.get_str("raw_output"), Some("raw"));
    let mac = result_of(
        &executor,
        &mem,
        &Platform::MacOS,
        completed(
            "Mach Virtual Memory Statistics: (page size of 4096 bytes)\nPages free: 10.\nPages active: 20.\nPages inactive: 30.\nPages wired: 40.\n",
            "",
            true,
        ),
    );
    assert_eq!(mac.result.get_u64("Pages free"), Some(40960));
    assert_eq!(mac.result.get_u64("total_memory"), Some(409600));
    assert_eq!(mac.result.get_u64("used_memory"), Some(368640));
    assert_eq!(mac.result.get_str("free_percent"), Some("10.00%"));
    assert_eq!(mac.result.get_str("used_percent"), Some("90.00%"));
}

#[test]
fn test_monitor_executor() {
    let executor = MonitorExecutor;
    let functions = executor.supported_functions();
    assert!(functions.contains(&"sys-proc-top".to_string()));
    assert!(functions.contains(&"sys-proc-stats".to_string()));
}

#[test]
fn test_create_monitor_functions() {
    let functions = create_monitor_functions();
    assert_eq!(functions.len(), 2);

    let proc_top_func = functions.iter().find(|f| f.name == "sys-proc-top").unwrap();
    assert_eq!(proc_top_func.description, "显示高资源消耗进程列表，可按CPU或内存排序");
    assert_eq!(proc_top_func.parameters.len(), 2);
    assert_eq!(proc_top_func.parameters[0].name, "sort_by");
    assert!(!proc_top_func.parameters[0].required);
    assert_eq!(proc_top_func.parameters[1].name, "limit");
    assert!(!proc_top_func.parameters[1].required);

    let proc_stats_func = functions.iter().find(|f| f.name == "sys-proc-stats").unwrap();
    assert_eq!(proc_stats_func.description, "显示进程统计信息，包括进程状态分布");
    assert_eq!(proc_stats_func.parameters.len(), 0);
}

#[test]
fn processes_are_ranked_and_counted() {
    let executor = MonitorExecutor;
    let top = call("sys-proc-top", "{\"sort_by\": \"memory\", \"limit\": 2}");
    assert_eq!(
        request_of(&executor, &top, &Platform::Linux).args,
        strings(&["aux", "--sort=-%mem"])
    );
    assert_eq!(request_of(&executor, &top, &Platform::MacOS).args, strings(&["aux"]));

    let listing = "USER PID %CPU %MEM COMMAND\nme 1 1.0 5.0 a\nme 2 9.5 2.0 b\nshort line\nme 3 3.0 5.0 c\nme 4 0.5 7.5 d\n";
    let linux = result_of(&executor, &top, &Platform::Linux, completed(listing, "", true));
    assert_eq!(
        linux.result.get("processes"),
        Some(&JsonValue::texts(&strings(&[
            "USER PID %CPU %MEM COMMAND",
            "me 1 1.0 5.0 a",
            "me 2 9.5 2.0 b"
        ])))
    );
    let mac = result_of(&executor, &top, &Platform::MacOS, completed(listing, "", true));
    assert_eq!(
        mac.result.get("processes"),
        Some(&JsonValue::texts(&strings(&[
            "USER PID %CPU %MEM COMMAND",
            "me 4 0.5 7.5 d",
            "me 1 1.0 5.0 a"
        ])))
    );
    assert_eq!(mac.result.get_u64("limit"), Some(2));
    let by_cpu = result_of(
        &executor,
        &call("sys-proc-top", "{\"limit\": 3}"),
        &Platform::MacOS,
        completed(listing, "", true),
    );
    assert_eq!(
        by_cpu.result.get("processes"),
        Some(&JsonValue::texts(&strings(&[
            "USER PID %CPU %MEM COMMAND",
            "me 2 9.5 2.0 b",
            "me 3 3.0 5.0 c",
            "me 1 1.0 5.0 a"
        ])))
    );

    let stats = call("sys-proc-stats", "not json at all");
    assert_eq!(
        request_of(&executor, &stats, &Platform::Linux).args,
        strings(&["axo", "pid,stat,comm"])
    );
    assert_eq!(request_of(&executor, &stats, &Platform::MacOS).args, strings(&["ax"]));
    let counted = result_of(
        &executor,
        &stats,
        &Platform::MacOS,
        completed("PID TT STAT\n1 ?? Ss\n2 ?? R+\n3 ?? S\nshort\n", "", true),
    );
    let tally = counted.result.get("status_stats").unwrap();
    assert_eq!(tally.get_u64("S"), Some(2));
    assert_eq!(tally.get_u64("R"), Some(1));
    assert_eq!(counted.result.get_u64("total_processes"), Some(4));
}

#[test]
fn test_analysis_executor() {
    let executor = AnalysisExecutor;
    let functions = executor.supported_functions();
    assert!(functions.contains(&"sys-iostat".to_string()));
    assert!(functions.contains(&"sys-netstat".to_string()));
    assert!(functions.contains(&"sys-diagnose".to_string()));
}

#[test]
fn test_create_analysis_functions() {
    let functions = create_analysis_functions();
    assert_eq!(functions.len(), 3);

    let iostat_func = functions.iter().find(|f| f.name == "sys-iostat").unwrap();
    assert_eq!(iostat_func.description, "显示I/O统计信息，支持多采样");
    assert_eq!(iostat_func.parameters.len(), 2);
    assert_eq!(iostat_func.parameters[0].name, "count");
    assert!(!iostat_func.parameters[0].required);
    assert_eq!(iostat_func.parameters[1].name, "interval");
    assert!(!iostat_func.parameters[1].required);

    let netstat_func = functions.iter().find(|f| f.name == "sys-netstat").unwrap();
    assert_eq!(netstat_func.description, "显示网络连接统计信息");
    assert_eq!(netstat_func.parameters.len(), 2);
    assert_eq!(netstat_func.parameters[0].name, "show_tcp");
    assert!(!netstat_func.parameters[0].required);
    assert_eq!(netstat_func.parameters[1].name, "show_udp");
    assert!(!netstat_func.parameters[1].required);

    let diagnose_func = functions.iter().find(|f| f.name == "sys-diagnose").unwrap();
    assert_eq!(diagnose_func.description, "执行综合系统诊断，支持不同深度模式");
    assert_eq!(diagnose_func.parameters.len(), 1);
    assert_eq!(diagnose_func.parameters[0].name, "mode");
    assert!(!diagnose_func.parameters[0].required);
}

#[test]
fn sampling_and_connections() {
    let executor = AnalysisExecutor;
    let iostat = call("sys-iostat", "{\"count\": 9, \"interval\": 0}");
    assert_eq!(request_of(&executor, &iostat, &Platform::Linux).args, strings(&["1", "5"]));
    let windows = request_of(&executor, &iostat, &Platform::Windows);
    assert_eq!(windows.program, "typeperf");
    assert_eq!(windows.args.len(), 3);
    assert_eq!(windows.args[2], "1");
    assert_eq!(windows.timeout_seconds, 20);
    let truncated = call("sys-iostat", "{\"count\": 4294967299}");
    assert_eq!(request_of(&executor, &truncated, &Platform::Linux).args, strings(&["1", "3"]));

    let netstat = call("sys-netstat", "{}");
    assert_eq!(request_of(&executor, &netstat, &Platform::Linux).args, strings(&["-tuln", "-t"]));
    assert_eq!(
        request_of(&executor, &netstat, &Platform::MacOS).args,
        strings(&["-an", "-p", "tcp"])
    );
    let both = call("sys-netstat", "{\"show_udp\": true}");
    assert_eq!(request_of(&executor, &both, &Platform::Linux).args, strings(&["-tuln"]));
    let udp = call("sys-netstat", "{\"show_tcp\": false, \"show_udp\": true}");
    assert_eq!(request_of(&executor, &udp, &Platform::Linux).args, strings(&["-tuln", "-u"]));

    let listing = "Proto Local\ntcp 0 0 a LISTEN\ntcp 0 0 b ESTABLISHED\ntcp6 0 0 c LISTENING\nudp 0 0 d\nTCP upper\n";
    let linux = result_of(&executor, &netstat, &Platform::Linux, completed(listing, "", true));
    let stats = linux.result.get("connection_stats").unwrap();
    assert_eq!(stats.get_u64("tcp_connections"), Some(3));
    assert_eq!(stats.get_u64("udp_connections"), Some(1));
    assert_eq!(stats.get_u64("listening_ports"), Some(2));
    assert_eq!(stats.get_u64("established_connections"), Some(1));
    let windows = result_of(&executor, &netstat, &Platform::Windows, completed(listing, "", true));
    let stats = windows.result.get("connection_stats").unwrap();
    assert_eq!(stats.get_u64("tcp_connections"), Some(1));
    assert_eq!(stats.get_u64("listening_ports"), Some(0));
    let command = windows.result.get("command").unwrap();
    assert_eq!(command.get_str("executable"), Some("netstat"));
    assert_eq!(command.get("arguments"), Some(&JsonValue::texts(&strings(&["-an", "-p", "tcp"]))));
}

fn drive(mode: &str, platform: Platform, fail_at: Option<usize>) -> (Vec<String>, FunctionResult) {
    let executor = BuiltinExecutor::Analysis(AnalysisExecutor);
    let c = call("sys-diagnose", &format!("{{\"mode\": \"{}\"}}", mode));
    let mut programs = Vec::new();
    let mut step = executor.begin(&c, &platform).unwrap();
    loop {
        match step {
            ExecutorStep::Done(result) => return (programs, result),
            ExecutorStep::Run(pending) => {
                let stage = pending.stage;
                programs.push(format!("{} {}", pending.request.program, pending.request.args.join(" ")));
                let outcome = if fail_at == Some(stage) {
                    CommandOutcome::TimedOut
                } else {
                    completed(&format!(" out {} \nsecond line\n", stage), "", true)
                };
                step = executor.resume(&c, &platform, pending, outcome).unwrap();
            }
        }
    }
}

#[test]
fn the_diagnosis_runs_its_stages_in_order() {
    let (programs, result) = drive("quick", Platform::Linux, None);
    assert_eq!(programs, strings(&["uptime ", "free -h"]));
    assert_eq!(result.name, "sys-diagnose");
    assert_eq!(result.error, None);
    assert_eq!(result.result.get_str("diagnosis_mode"), Some("quick"));
    assert_eq!(result.result.get_bool("success"), Some(true));
    let results = result.result.get("results").unwrap();
    assert_eq!(results.get("uptime").unwrap().get_str("data"), Some("out 0 \nsecond line"));
    assert!(results.get("top_cpu_processes").is_none());

    let (programs, result) = drive("standard", Platform::Linux, Some(1));
    assert_eq!(programs, strings(&["uptime ", "free -h", "ps aux --sort=-%cpu"]));
    let results = result.result.get("results").unwrap();
    assert!(results.get("memory").is_none());
    assert_eq!(
        results.get("top_cpu_processes").unwrap().get("data"),
        Some(&JsonValue::texts(&strings(&[" out 2 ", "second line"])))
    );

    let (programs, result) = drive("deep", Platform::MacOS, None);
    assert_eq!(
        programs,
        strings(&["uptime ", "vm_stat ", "ps -c -o %cpu,comm", "iostat 1 2", "netstat -an"])
    );
    let results = result.result.get("results").unwrap();
    assert!(results.get("memory").unwrap().get("parsed").is_some());
    assert!(results.get("io_stats").is_some());
    assert!(results.get("network_stats").is_some());
}

#[test]
fn an_outcome_is_an_output_or_an_error() {
    let output = CommandOutput { stdout: "out".to_string(), stderr: "err".to_string(), success: false };
    assert_eq!(
        CommandOutcome::Completed(CommandOutput {
            stdout: "out".to_string(),
            stderr: "err".to_string(),
            success: false
        })
        .into_output(5),
        Ok(output)
    );
    let timed_out = CommandOutcome::TimedOut.into_output(5);
    assert_eq!(timed_out, Err(ExecutionError::Timeout(5)));
    assert_eq!(timed_out.unwrap_err().message(), "Command execution timeout");
    let failed = CommandOutcome::FailedToStart("no such file".to_string()).into_output(5);
    assert_eq!(failed, Err(ExecutionError::CommandFailed("no such file".to_string())));
    assert_eq!(failed.unwrap_err().message(), "Command execution failed: no such file");
}

#[test]
fn every_parameter_of_a_tool_has_a_known_type() {
    let mut all = create_git_functions();
    all.extend(create_fs_functions());
    all.extend(create_sys_functions());
    all.extend(create_net_functions());
    all.extend(create_diagnosis_functions());
    all.extend(create_monitor_functions());
    all.extend(create_analysis_functions());
    assert_eq!(all.len(), 20);
    for function in &all {
        for parameter in &function.parameters {
            assert!(parameter.has_known_type(), "{} {}", function.name, parameter.name);
        }
    }
    let odd = orion_ai::provider::FunctionParameter::new("p", "d", "integer", false);
    assert!(!odd.has_known_type());
}
