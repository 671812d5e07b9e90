use orion_ai::exec_unit::parsers::network::NetworkParser;
use orion_ai::exec_unit::parsers::process::ProcessParser;

#[test]
fn test_network_parser_creation() {
    let parser = NetworkParser::new();
    assert_eq!(parser.name(), "network");
}

#[test]
fn network_test_can_parse() {
    let parser = NetworkParser::new();

    let netstat_output = "Proto Recv-Q Send-Q Local Address           Foreign Address         State\n\
                          tcp4       0      0 192.168.1.100.53095    142.250.196.142.443    ESTABLISHED";
    assert!(parser.can_parse(netstat_output));

    let ifconfig_output = "en0: flags=8863<UP,BROADCAST,SMART,RUNNING,SIMPLEX,MULTICAST> mtu 1500\n\
                           ether 00:11:22:33:44:55 \n\
                           inet 192.168.1.100 netmask 0xffffff00 broadcast 192.168.1.255\n\
                           media: autoselect\n\
                           status: active";
    assert!(parser.can_parse(ifconfig_output));

    let route_output = "Destination        Gateway            Flags        Refs      Use   Netif Expire\n\
                        default            192.168.1.1        UGSc          110        0     en0     ";
    assert!(parser.can_parse(route_output));

    let invalid_data = "This is not network data";
    assert!(!parser.can_parse(invalid_data));
}

#[test]
fn test_process_parser_creation() {
    let parser = ProcessParser::new();
    assert_eq!(parser.name(), "process");
}

#[test]
fn process_test_can_parse() {
    let parser = ProcessParser::new();

    let ps_output = "PID TTY TIME CMD\n1234 pts/0 00:00:01 bash";
    assert!(parser.can_parse(ps_output));

    let top_output = "PID USER PR NI VIRT RES SHR S %CPU %MEM TIME+ COMMAND\n1234 user 20 0 12345 6789 0 S 0.0 0.1 0:00.01 bash";
    assert!(parser.can_parse(top_output));

    let procfs_data = "1234 (bash) S 5678 1234 1234 0 -1 4194560 1542 0 0 0 0 0 0 0 20 0 1 0 12345678 1234567 123 18446744073709551615 1 1 0 0 0 0 0 0 0 17 3 0 0 0 0 0";
    assert!(parser.can_parse(procfs_data));

    let invalid_data = "This is not process data";
    assert!(!parser.can_parse(invalid_data));
}

use orion_ai::decimal::Decimal;
use orion_ai::exec_unit::parsers::network::{
    count_for, NetworkConnection, NetworkConnectionList,
};
use orion_ai::exec_unit::parsers::process::{ProcessInfo, ProcessList};
use orion_ai::exec_unit::parsers::{
    BuiltinParser, ParseError, ParseResult, ParsedData, ParsedRecord, Parser, ParserRegistry,
};

#[test]
fn test_parse_ps_output() {
    let parser = ProcessParser::new();
    let ps_output = "PID TTY TIME CMD\n1234 pts/0 00:00:01 bash\n5678 pts/1 00:00:02 vim";

    let result = parser.parse_ps_output(ps_output);
    assert!(result.is_ok());

    let process_list = result.unwrap();

    assert_eq!(process_list.total_count, 2);
    assert_eq!(process_list.processes[0].pid, 1234);
    assert_eq!(process_list.processes[0].name, "bash");
    assert_eq!(process_list.processes[1].pid, 5678);
    assert_eq!(process_list.processes[1].name, "vim");
}

#[test]
fn test_parse_top_output() {
    let parser = ProcessParser::new();
    let top_output = "PID USER PR NI VIRT RES SHR S %CPU %MEM TIME+ COMMAND\n1234 user 20 0 12345 6789 0 S 0.0 0.1 0:00.01 bash\n5678 user 20 0 23456 7890 0 S 0.1 0.2 0:00.02 vim";

    let result = parser.parse_top_output(top_output);
    assert!(result.is_ok());

    let process_list = result.unwrap();

    assert_eq!(process_list.total_count, 2);
    assert_eq!(process_list.processes[0].pid, 1234);
    assert_eq!(process_list.processes[0].cpu_usage, Decimal { thousandths: 0 });
    assert_eq!(process_list.processes[1].pid, 5678);
    assert_eq!(process_list.processes[1].cpu_usage, Decimal { thousandths: 100 });
}

#[test]
fn test_process_info_data_type() {
    let process_info = ProcessInfo {
        pid: 1234,
        name: "bash".to_string(),
        status: "R".to_string(),
        cpu_usage: Decimal { thousandths: 500 },
        memory_usage: 1024,
        parent_pid: Some(1),
        start_time: Some("2023-01-01 10:00:00".to_string()),
        command_line: Some("/bin/bash".to_string()),
        user: Some("user".to_string()),
        extra: Vec::new(),
    };

    assert_eq!(process_info.data_type(), "process_info");
}

#[test]
fn test_process_list_data_type() {
    let processes = vec![ProcessInfo {
        pid: 1234,
        name: "bash".to_string(),
        status: "R".to_string(),
        cpu_usage: Decimal { thousandths: 500 },
        memory_usage: 1024,
        parent_pid: None,
        start_time: None,
        command_line: None,
        user: None,
        extra: Vec::new(),
    }];

    let process_list = ProcessList { processes, total_count: 1, system_info: Vec::new() };

    assert_eq!(process_list.data_type(), "process_list");
}

#[test]
fn test_parse_netstat_output() {
    let parser = NetworkParser::new();
    let netstat_output = "Proto Recv-Q Send-Q Local Address           Foreign Address         State\n\
                          tcp4       0      0 192.168.1.100.53095    142.250.196.142.443    ESTABLISHED\n\
                          tcp4       0      0 192.168.1.100.53096    172.217.164.78.443      ESTABLISHED\n\
                          udp4       0      0 192.168.1.100.5353     224.0.0.251.5353        ";

    let result = parser.parse_netstat_output(netstat_output);
    assert!(result.is_ok());

    let connection_list = result.unwrap();

    assert_eq!(connection_list.total_count, 3);
    assert_eq!(connection_list.connections[0].protocol, "tcp4");
    assert_eq!(connection_list.connections[0].state, "ESTABLISHED");
    assert_eq!(connection_list.connections[2].protocol, "udp4");

    assert_eq!(count_for(&connection_list.protocol_counts, "tcp4"), Some(2));
    assert_eq!(count_for(&connection_list.protocol_counts, "udp4"), Some(1));

    assert_eq!(count_for(&connection_list.state_counts, "ESTABLISHED"), Some(2));
}

#[test]
fn test_network_connection_list_data_type() {
    let connections = vec![NetworkConnection {
        protocol: "tcp4".to_string(),
        local_address: "192.168.1.100.53095".to_string(),
        remote_address: "142.250.196.142.443".to_string(),
        state: "ESTABLISHED".to_string(),
        pid: None,
        process_name: None,
        extra: Vec::new(),
    }];

    let connection_list = NetworkConnectionList {
        connections,
        total_count: 1,
        protocol_counts: Vec::new(),
        state_counts: Vec::new(),
        system_info: Vec::new(),
    };

    assert_eq!(connection_list.data_type(), "network_connection_list");
}

#[derive(Debug)]
struct TestParsedData {
    value: String,
}

impl ParsedData for TestParsedData {
    fn data_type(&self) -> &str {
        "test"
    }
}

struct TestParser {
    name: &'static str,
    accepts: bool,
    error: Option<ParseError>,
}

impl Parser<TestParsedData> for TestParser {
    fn parse(&self, input: &str) -> ParseResult<TestParsedData> {
        match &self.error {
            Some(e) => Err(e.clone()),
            None => Ok(TestParsedData { value: input.to_string() }),
        }
    }

    fn name(&self) -> &str {
        self.name
    }

    fn can_parse(&self, _input: &str) -> bool {
        self.accepts
    }
}

#[test]
fn test_parser_registry() {
    let mut registry = ParserRegistry::new();

    registry.register(TestParser { name: "test_parser", accepts: true, error: None });

    let result = registry.parse("test input");
    assert!(result.is_ok());

    let data = result.unwrap();
    assert_eq!(data.data_type(), "test");
    assert_eq!(data.value, "test input");

    let parser = registry.find_parser("test input");
    assert!(parser.is_some());
    assert_eq!(parser.unwrap().name(), "test_parser");
}

#[test]
fn test_empty_input_error() {
    let mut registry = ParserRegistry::new();

    registry.register(TestParser {
        name: "empty_parser",
        accepts: true,
        error: Some(ParseError::EmptyInput),
    });

    let result = registry.parse("");
    assert!(result.is_err());
    assert!(matches!(result.unwrap_err(), ParseError::EmptyInput));
}

#[test]
fn the_search_goes_on_behind_a_parser_that_fails() {
    let failing = |name, error| TestParser { name, accepts: true, error: Some(error) };
    let mut registry = ParserRegistry::new();
    registry.register(TestParser { name: "deaf", accepts: false, error: None });
    registry.register(failing("first", ParseError::MissingField("pid".to_string())));
    registry.register(failing("second", ParseError::EmptyInput));
    assert_eq!(
        registry.parse("x").unwrap_err(),
        ParseError::MissingField("pid".to_string())
    );
    assert_eq!(registry.find_parser("x").unwrap().name(), "first");
    registry.register(TestParser { name: "reader", accepts: true, error: None });
    registry.register(failing("late", ParseError::Other("never asked".to_string())));
    assert_eq!(registry.parse("x").unwrap().value, "x");
    assert_eq!(
        registry.parser_names(),
        vec!["deaf".to_string(), "first".to_string(), "second".to_string(), "reader".to_string(), "late".to_string()]
    );

    let mut deaf = ParserRegistry::new();
    deaf.register(TestParser { name: "deaf", accepts: false, error: None });
    assert_eq!(
        deaf.parse("x").unwrap_err(),
        ParseError::InvalidFormat("没有找到适合的解析器".to_string())
    );
    assert!(deaf.find_parser("x").is_none());
    let nobody: ParserRegistry<TestParsedData, TestParser> = ParserRegistry::new();
    assert_eq!(
        nobody.parse("x").unwrap_err(),
        ParseError::InvalidFormat("没有找到适合的解析器".to_string())
    );
}

#[test]
fn the_parsers_of_the_library_share_a_registry() {
    let mut registry = ParserRegistry::new();
    registry.register(BuiltinParser::Process(ProcessParser::new()));
    registry.register(BuiltinParser::Network(NetworkParser::new()));

    let data = registry.parse("PID TTY TIME CMD\n1 pts/0 00:00:01 sh").unwrap();
    assert_eq!(data.data_type(), "process_list");
    match data {
        ParsedRecord::Processes(list) => assert_eq!(list.total_count, 1),
        other => panic!("unexpected: {:?}", other),
    }

    let parser = registry.find_parser("Destination Gateway Flags Netif\ndefault 10.0.0.1 UG en0");
    assert_eq!(parser.unwrap().name(), "network");
    assert_eq!(registry.parser_names(), vec!["process".to_string(), "network".to_string()]);

    assert_eq!(
        registry.parse("").unwrap_err(),
        ParseError::InvalidFormat("没有找到适合的解析器".to_string())
    );
    assert_eq!(NetworkParser::new().parse_netstat_output("").unwrap_err(), ParseError::EmptyInput);
    assert_eq!(NetworkParser::new().parse_route_output("").unwrap_err(), ParseError::EmptyInput);
    assert_eq!(NetworkParser::new().parse_ifconfig_output("").unwrap_err(), ParseError::EmptyInput);
    assert_eq!(ProcessParser::new().parse_ps_output("").unwrap_err(), ParseError::EmptyInput);
    assert_eq!(ProcessParser::new().parse_top_output("").unwrap_err(), ParseError::EmptyInput);
    assert_eq!(ProcessParser::new().parse_procfs_data("").unwrap_err(), ParseError::EmptyInput);
    assert_eq!(ParsedRecord::Routes(NetworkParser::new().parse_route_output("a\nb").unwrap()).data_type(), "routing_table");
}

#[test]
fn process_listings_skip_short_lines_and_stop_at_bad_numbers() {
    let parser = ProcessParser::new();
    let list = parser
        .parse_ps_output("PID TTY TIME CMD\n\nshort\n12 pts/0 00:00 my command here\n")
        .unwrap();
    assert_eq!(list.total_count, 1);
    assert_eq!(list.processes[0].name, "my command here");
    assert_eq!(list.processes[0].command_line, Some("my command here".to_string()));
    assert_eq!(list.processes[0].status, "R");

    assert_eq!(
        parser.parse_ps_output("PID TTY TIME CMD\nabc pts/0 00:00 x\n9 pts/0 00:00 y"),
        Err(ParseError::ParseIntError("abc".to_string()))
    );
    assert_eq!(parser.parse_ps_output(""), Err(ParseError::EmptyInput));
    assert_eq!(
        parser.parse_top_output("one line"),
        Err(ParseError::InvalidFormat("Incomplete top output".to_string()))
    );
    assert_eq!(
        parser.parse_top_output(
            "top - 10:00\nPID USER PR NI VIRT RES SHR S %CPU %MEM TIME+ COMMAND\n1 u 20 0 1 1 0 S x 0.1 0:00 sh"
        ),
        Err(ParseError::ParseFloatError("x".to_string()))
    );
    let top = parser
        .parse_top_output(
            "1 ignored before the heading 5 6 7 8 9 10 11 12\nPID USER PR NI VIRT RES SHR S %CPU %MEM TIME+ COMMAND\n7 root 20 0 1 1 0 S 12.5 3.9 0:00 my daemon",
        )
        .unwrap();
    assert_eq!(top.total_count, 1);
    assert_eq!(top.processes[0].user, Some("root".to_string()));
    assert_eq!(top.processes[0].cpu_usage, Decimal { thousandths: 12500 });
    assert_eq!(top.processes[0].memory_usage, 3);
    assert_eq!(top.processes[0].name, "my daemon");

    let procfs = parser.parse_procfs_data("1234 (bash) S 5678\n12 x\n\n99 ((kworker)) R").unwrap();
    assert_eq!(procfs.total_count, 2);
    assert_eq!(procfs.processes[0].name, "bash");
    assert_eq!(procfs.processes[0].status, "S");
    assert_eq!(procfs.processes[1].name, "kworker");
    assert_eq!(
        parser.parse_processes("nothing to see"),
        Err(ParseError::InvalidFormat("Unable to determine process data format".to_string()))
    );
    assert_eq!(parser.parse_processes("42 (init) S").unwrap().total_count, 1);
}

#[test]
fn interfaces_and_routes_are_read() {
    let parser = NetworkParser::new();
    let listing = "en0:\n    inet 192.168.1.100 netmask 0xffffff00\n    ether 00:11:22:33:44:55\n    RX packets: 10 bytes: 1000\n    TX packets: 5 bytes: 500\n\nlo0:\n    inet 127.0.0.1\n    RX packets: x bytes: 7\nstray: line with more\n    TX packets: 1 bytes: 3";
    let list = parser.parse_ifconfig_output(listing).unwrap();
    assert_eq!(list.total_count, 2);
    assert_eq!(list.interfaces[0].name, "en0");
    assert_eq!(list.interfaces[0].status, "UP");
    assert_eq!(list.interfaces[0].mtu, 1500);
    assert_eq!(list.interfaces[0].ip_address, Some("192.168.1.100".to_string()));
    assert_eq!(list.interfaces[0].mac_address, Some("00:11:22:33:44:55".to_string()));
    assert_eq!((list.interfaces[0].rx_packets, list.interfaces[0].rx_bytes), (10, 1000));
    assert_eq!((list.interfaces[0].tx_packets, list.interfaces[0].tx_bytes), (5, 500));
    assert_eq!(list.interfaces[1].name, "lo0");
    assert_eq!((list.interfaces[1].rx_packets, list.interfaces[1].rx_bytes), (0, 7));
    assert_eq!(list.interfaces[1].tx_bytes, 3);
    assert_eq!(list.total_rx_bytes, 1007);
    assert_eq!(list.total_tx_bytes, 503);

    let routes = parser
        .parse_route_output(
            "Routing tables\nDestination Gateway Flags Netif\ndefault 192.168.1.1 UGSc en0\nshort line\n127 127.0.0.1 UCS lo0\ndefault 10.0.0.1 UG en1",
        )
        .unwrap();
    assert_eq!(routes.total_count, 3);
    assert_eq!(routes.default_gateway, Some("10.0.0.1".to_string()));
    assert_eq!(routes.routes[0].destination, "default");
    assert_eq!(routes.routes[0].gateway, "192.168.1.1");
    assert_eq!(routes.routes[0].flags, "UGSc");
    assert_eq!(routes.routes[0].interface, "en0");
    assert_eq!(routes.routes[0].netmask, "0.0.0.0");
    assert_eq!(routes.routes[1].destination, "127");

    let connections = parser.parse_netstat_output("tcp 0 0 a b\nudp 0 0 c d STATE").unwrap();
    assert_eq!(connections.total_count, 1);
    assert_eq!(connections.connections[0].protocol, "udp");
    assert_eq!(connections.connections[0].state, "STATE");
    let unknown = parser.parse_netstat_output("Proto x\ntcp 0 0 a b").unwrap();
    assert_eq!(unknown.connections[0].state, "UNKNOWN");
    assert_eq!(count_for(&unknown.state_counts, "UNKNOWN"), Some(1));
    assert_eq!(count_for(&unknown.state_counts, "LISTEN"), None);

    match Parser::parse(&parser, "lo0: flags=8049 mtu 16384") {
        Ok(ParsedRecord::Interfaces(list)) => assert_eq!(list.total_count, 0),
        other => panic!("unexpected: {:?}", other),
    }
    assert_eq!(
        Parser::parse(&parser, "nothing"),
        Err(ParseError::InvalidFormat("Unable to determine network data format".to_string()))
    );
}
