use orion_ai::func::system::platform::{
    get_platform_specific_command, platform_from_os, platform_name, CommandType, Platform,
};

#[test]
fn test_platform_name() {
    assert_eq!(platform_name(&Platform::Linux), "Linux");
    assert_eq!(platform_name(&Platform::MacOS), "macOS");
    assert_eq!(platform_name(&Platform::Windows), "Windows");
    assert_eq!(platform_name(&Platform::Unknown), "Unknown");
}

#[test]
fn test_get_platform_specific_command() {
    let (linux_uptime_cmd, linux_uptime_args) =
        get_platform_specific_command(CommandType::Uptime, &Platform::Linux);
    assert_eq!(linux_uptime_cmd, "uptime");
    assert_eq!(linux_uptime_args, vec![] as Vec<&str>);

    let (linux_meminfo_cmd, linux_meminfo_args) =
        get_platform_specific_command(CommandType::MemInfo, &Platform::Linux);
    assert_eq!(linux_meminfo_cmd, "free");
    assert_eq!(linux_meminfo_args, vec!["-h"]);

    let (linux_netstat_cmd, linux_netstat_args) =
        get_platform_specific_command(CommandType::NetStat, &Platform::Linux);
    assert_eq!(linux_netstat_cmd, "netstat");
    assert_eq!(linux_netstat_args, vec!["-tuln"]);

    let (macos_uptime_cmd, macos_uptime_args) =
        get_platform_specific_command(CommandType::Uptime, &Platform::MacOS);
    assert_eq!(macos_uptime_cmd, "uptime");
    assert_eq!(macos_uptime_args, vec![] as Vec<&str>);

    let (macos_meminfo_cmd, macos_meminfo_args) =
        get_platform_specific_command(CommandType::MemInfo, &Platform::MacOS);
    assert_eq!(macos_meminfo_cmd, "vm_stat");
    assert_eq!(macos_meminfo_args, vec![] as Vec<&str>);

    let (macos_netstat_cmd, macos_netstat_args) =
        get_platform_specific_command(CommandType::NetStat, &Platform::MacOS);
    assert_eq!(macos_netstat_cmd, "netstat");
    assert_eq!(macos_netstat_args, vec!["-an"]);

    let (windows_uptime_cmd, windows_uptime_args) =
        get_platform_specific_command(CommandType::Uptime, &Platform::Windows);
    assert_eq!(windows_uptime_cmd, "wmic");
    assert_eq!(windows_uptime_args, vec!["os", "get", "lastbootuptime"]);

    let (windows_meminfo_cmd, windows_meminfo_args) =
        get_platform_specific_command(CommandType::MemInfo, &Platform::Windows);
    assert_eq!(windows_meminfo_cmd, "wmic");
    assert_eq!(
        windows_meminfo_args,
        vec!["os", "get", "totalvisiblememorysize,freephysicalmemory"]
    );

    let (macos_iostat_cmd, macos_iostat_args) =
        get_platform_specific_command(CommandType::Iostat, &Platform::MacOS);
    assert_eq!(macos_iostat_cmd, "iostat");
    assert_eq!(macos_iostat_args, vec![] as Vec<&str>);

    let (windows_iostat_cmd, windows_iostat_args) =
        get_platform_specific_command(CommandType::Iostat, &Platform::Windows);
    assert_eq!(windows_iostat_cmd, "typeperf");
    assert_eq!(
        windows_iostat_args,
        vec![
            "\\PhysicalDisk(*)\\Disk Read Bytes/sec",
            "\\PhysicalDisk(*)\\Disk Write Bytes/sec"
        ]
    );

    let (macos_processlist_cmd, macos_processlist_args) =
        get_platform_specific_command(CommandType::ProcessList, &Platform::MacOS);
    assert_eq!(macos_processlist_cmd, "ps");
    assert_eq!(macos_processlist_args, vec![] as Vec<&str>);

    let (linux_processlist_cmd, linux_processlist_args) =
        get_platform_specific_command(CommandType::ProcessList, &Platform::Linux);
    assert_eq!(linux_processlist_cmd, "ps");
    assert_eq!(linux_processlist_args, vec!["aux"]);

    let (windows_processlist_cmd, windows_processlist_args) =
        get_platform_specific_command(CommandType::ProcessList, &Platform::Windows);
    assert_eq!(windows_processlist_cmd, "tasklist");
    assert_eq!(windows_processlist_args, vec![] as Vec<&str>);

    let (unknown_uptime_cmd, unknown_uptime_args) =
        get_platform_specific_command(CommandType::Uptime, &Platform::Unknown);
    assert_eq!(unknown_uptime_cmd, "uptime");
    assert_eq!(unknown_uptime_args, vec![] as Vec<&str>);
}

#[test]
fn unknown_platform_falls_back_to_the_commands_of_linux() {
    let (cmd, args) = get_platform_specific_command(CommandType::MemInfo, &Platform::Unknown);
    assert_eq!(cmd, "free");
    assert_eq!(args, vec!["-h"]);
    let (cmd, args) = get_platform_specific_command(CommandType::ProcessList, &Platform::Unknown);
    assert_eq!(cmd, "ps");
    assert_eq!(args, vec!["aux"]);
    let (cmd, args) = get_platform_specific_command(CommandType::NetStat, &Platform::Unknown);
    assert_eq!(cmd, "netstat");
    assert_eq!(args, vec!["-tuln"]);
    let (cmd, args) = get_platform_specific_command(CommandType::Iostat, &Platform::Unknown);
    assert_eq!(cmd, "iostat");
    assert!(args.is_empty());
    for kind in [
        CommandType::Uptime,
        CommandType::MemInfo,
        CommandType::NetStat,
        CommandType::Iostat,
        CommandType::ProcessList,
    ] {
        assert_eq!(
            get_platform_specific_command(kind.clone(), &Platform::Unknown),
            get_platform_specific_command(kind, &Platform::Linux)
        );
    }
    assert_eq!(platform_from_os("linux"), Platform::Linux);
    assert_eq!(platform_from_os("macos"), Platform::MacOS);
    assert_eq!(platform_from_os("windows"), Platform::Windows);
    assert_eq!(platform_from_os("freebsd"), Platform::Unknown);
}
