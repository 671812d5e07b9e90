//! The parser of network listings: connections, interfaces and routes.

use vstd::prelude::*;
use crate::exec_unit::parsers::{
    any_wide_line, format_refused, has_wide_line, ParseError, ParseResult, ParsedData, ParsedRecord,
    Parser,
};
use crate::json::JsonMember;
use crate::text::{
    contains, has_prefix, has_suffix, ends_with, is_blank, is_blank_text, lines, occurs,
    option_view, parse_u64, parsed_unsigned, same_text, split_lines, split_words, starts_with,
    strip_trailing, trim, trimmed, views, without_trailing, words,
};

verus! {

/// One connection.
#[derive(Debug, Clone, PartialEq)]
pub struct NetworkConnection {
    pub protocol: String,
    pub local_address: String,
    pub remote_address: String,
    pub state: String,
    pub pid: Option<u32>,
    pub process_name: Option<String>,
    pub extra: Vec<JsonMember>,
}

/// The mathematical form of what a parser reads of a connection.
pub struct ConnectionRecord {
    pub protocol: Seq<char>,
    pub local_address: Seq<char>,
    pub remote_address: Seq<char>,
    pub state: Seq<char>,
}

impl View for NetworkConnection {
    type V = ConnectionRecord;

    open spec fn view(&self) -> ConnectionRecord {
        ConnectionRecord {
            protocol: self.protocol@,
            local_address: self.local_address@,
            remote_address: self.remote_address@,
            state: self.state@,
        }
    }
}

impl NetworkConnection {
    /// What a parser leaves empty: the process and the further attributes.
    pub open spec fn is_plain(self) -> bool {
        self.pid is None && self.process_name is None && self.extra@.len() == 0
    }
}

/// One interface and its counters.
#[derive(Debug, Clone, PartialEq)]
pub struct NetworkInterface {
    pub name: String,
    pub status: String,
    pub mtu: u32,
    pub rx_bytes: u64,
    pub rx_packets: u64,
    pub rx_errors: u64,
    pub tx_bytes: u64,
    pub tx_packets: u64,
    pub tx_errors: u64,
    pub ip_address: Option<String>,
    pub mac_address: Option<String>,
    pub extra: Vec<JsonMember>,
}

/// The mathematical form of what a parser reads of an interface.
pub struct InterfaceRecord {
    pub name: Seq<char>,
    pub status: Seq<char>,
    pub mtu: u32,
    pub rx_bytes: u64,
    pub rx_packets: u64,
    pub rx_errors: u64,
    pub tx_bytes: u64,
    pub tx_packets: u64,
    pub tx_errors: u64,
    pub ip_address: Option<Seq<char>>,
    pub mac_address: Option<Seq<char>>,
}

impl View for NetworkInterface {
    type V = InterfaceRecord;

    open spec fn view(&self) -> InterfaceRecord {
        InterfaceRecord {
            name: self.name@,
            status: self.status@,
            mtu: self.mtu,
            rx_bytes: self.rx_bytes,
            rx_packets: self.rx_packets,
            rx_errors: self.rx_errors,
            tx_bytes: self.tx_bytes,
            tx_packets: self.tx_packets,
            tx_errors: self.tx_errors,
            ip_address: option_view(self.ip_address),
            mac_address: option_view(self.mac_address),
        }
    }
}

/// One route.
#[derive(Debug, Clone, PartialEq)]
pub struct RouteEntry {
    pub destination: String,
    pub gateway: String,
    pub netmask: String,
    pub interface: String,
    pub flags: String,
    pub metric: Option<u32>,
    pub extra: Vec<JsonMember>,
}

/// The mathematical form of what a parser reads of a route.
pub struct RouteRecord {
    pub destination: Seq<char>,
    pub gateway: Seq<char>,
    pub netmask: Seq<char>,
    pub interface: Seq<char>,
    pub flags: Seq<char>,
}

impl View for RouteEntry {
    type V = RouteRecord;

    open spec fn view(&self) -> RouteRecord {
        RouteRecord {
            destination: self.destination@,
            gateway: self.gateway@,
            netmask: self.netmask@,
            interface: self.interface@,
            flags: self.flags@,
        }
    }
}

/// How often a name occurs.
#[derive(Debug, Clone, PartialEq)]
pub struct NamedCount {
    pub name: String,
    pub count: usize,
}

/// The mathematical form of a [`NamedCount`].
pub struct CountSpec {
    pub name: Seq<char>,
    pub count: nat,
}

/// The views of a list of counts.
pub open spec fn count_views(counts: Seq<NamedCount>) -> Seq<CountSpec> {
    Seq::new(counts.len(), |i: int| CountSpec { name: counts[i].name@, count: counts[i].count as nat })
}

/// The first place at or after `from` whose count is named `name`, or the
/// length.
pub open spec fn count_position(counts: Seq<CountSpec>, name: Seq<char>, from: int) -> int
    decreases counts.len() - from,
{
    if 0 <= from < counts.len() && counts[from].name != name {
        count_position(counts, name, from + 1)
    } else {
        from
    }
}

/// The counts with one more under `name`: a new count of one at the end
/// where the name is new. A count that has reached the greatest number
/// that the machine holds stays.
pub open spec fn counted_once_more(counts: Seq<CountSpec>, name: Seq<char>) -> Seq<CountSpec> {
    let at = count_position(counts, name, 0);
    if 0 <= at < counts.len() {
        if counts[at].count < usize::MAX {
            counts.update(at, CountSpec { name, count: counts[at].count + 1 })
        } else {
            counts
        }
    } else {
        counts.push(CountSpec { name, count: 1 })
    }
}

/// How often each of the names occurs, in the order of first occurrence.
pub open spec fn tally(names: Seq<Seq<char>>) -> Seq<CountSpec>
    decreases names.len(),
{
    if names.len() == 0 {
        Seq::empty()
    } else {
        counted_once_more(tally(names.drop_last()), names.last())
    }
}

/// A list of connections.
#[derive(Debug, Clone, PartialEq)]
pub struct NetworkConnectionList {
    pub connections: Vec<NetworkConnection>,
    pub total_count: usize,
    /// How many connections each protocol has.
    pub protocol_counts: Vec<NamedCount>,
    /// How many connections are in each state.
    pub state_counts: Vec<NamedCount>,
    pub system_info: Vec<JsonMember>,
}

/// A list of interfaces.
#[derive(Debug, Clone, PartialEq)]
pub struct NetworkInterfaceList {
    pub interfaces: Vec<NetworkInterface>,
    pub total_count: usize,
    pub total_rx_bytes: u64,
    pub total_tx_bytes: u64,
    pub system_info: Vec<JsonMember>,
}

/// A table of routes.
#[derive(Debug, Clone, PartialEq)]
pub struct RoutingTable {
    pub routes: Vec<RouteEntry>,
    pub total_count: usize,
    pub default_gateway: Option<String>,
    pub system_info: Vec<JsonMember>,
}

/// The views of a list of connections.
pub open spec fn connection_views(list: Seq<NetworkConnection>) -> Seq<ConnectionRecord> {
    Seq::new(list.len(), |i: int| list[i]@)
}

/// The views of a list of interfaces.
pub open spec fn interface_views(list: Seq<NetworkInterface>) -> Seq<InterfaceRecord> {
    Seq::new(list.len(), |i: int| list[i]@)
}

/// The views of a list of routes.
pub open spec fn route_views(list: Seq<RouteEntry>) -> Seq<RouteRecord> {
    Seq::new(list.len(), |i: int| list[i]@)
}

/// The first place at or after `from` whose line holds `a` or `b`, or the
/// number of lines.
pub open spec fn heading_line(all: Seq<Seq<char>>, a: Seq<char>, b: Seq<char>, from: int) -> int
    decreases all.len() - from,
{
    if 0 <= from < all.len() && !(occurs(all[from], a) || occurs(all[from], b)) {
        heading_line(all, a, b, from + 1)
    } else {
        from
    }
}

/// The lines behind the heading of a table: behind the first line that
/// holds `a` or `b`, or behind the first line where none does.
pub open spec fn table_rows(all: Seq<Seq<char>>, a: Seq<char>, b: Seq<char>) -> Seq<Seq<char>> {
    let heading = heading_line(all, a, b, 0);
    let first = if heading < all.len() {
        heading + 1
    } else {
        1
    };
    if first <= all.len() {
        all.subrange(first, all.len() as int)
    } else {
        Seq::empty()
    }
}

/// The connection that a line of at least five words describes: the
/// protocol, the local and the remote address in the fourth and fifth
/// word, and the state in the sixth, `UNKNOWN` where there is none.
pub open spec fn connection_of(line: Seq<char>) -> Option<ConnectionRecord> {
    let w = words(line);
    if is_blank(line) || w.len() < 5 {
        None
    } else {
        Some(
            ConnectionRecord {
                protocol: w[0],
                local_address: w[3],
                remote_address: w[4],
                state: if w.len() > 5 {
                    w[5]
                } else {
                    "UNKNOWN"@
                },
            },
        )
    }
}

/// The connections that the given lines describe, in order.
pub open spec fn connections_of(rows: Seq<Seq<char>>) -> Seq<ConnectionRecord>
    decreases rows.len(),
{
    if rows.len() == 0 {
        Seq::empty()
    } else {
        let before = connections_of(rows.drop_last());
        match connection_of(rows.last()) {
            Some(c) => before.push(c),
            None => before,
        }
    }
}

/// The protocols of a list of connections.
pub open spec fn protocols_of(list: Seq<ConnectionRecord>) -> Seq<Seq<char>> {
    Seq::new(list.len(), |i: int| list[i].protocol)
}

/// The states of a list of connections.
pub open spec fn states_of(list: Seq<ConnectionRecord>) -> Seq<Seq<char>> {
    Seq::new(list.len(), |i: int| list[i].state)
}

/// `r` is what reading a connection listing gives: an error where the
/// text has no line, else the connections behind the heading with the
/// counts of their protocols and states.
pub open spec fn is_connection_list(r: ParseResult<NetworkConnectionList>, data: Seq<char>) -> bool {
    let all = lines(data);
    if all.len() == 0 {
        r matches Err(ParseError::EmptyInput)
    } else {
        let records = connections_of(table_rows(all, "Proto"@, "Local Address"@));
        &&& r matches Ok(list)
        &&& connection_views(list.connections@) == records
        &&& list.total_count == records.len()
        &&& count_views(list.protocol_counts@) == tally(protocols_of(records))
        &&& count_views(list.state_counts@) == tally(states_of(records))
        &&& list.system_info@.len() == 0
        &&& forall|i: int|
            0 <= i < list.connections@.len() ==> (#[trigger] list.connections@[i]).is_plain()
    }
}

/// The route that a line of at least four words describes.
pub open spec fn route_of(line: Seq<char>) -> Option<RouteRecord> {
    let w = words(line);
    if is_blank(line) || w.len() < 4 {
        None
    } else {
        Some(
            RouteRecord {
                destination: w[0],
                gateway: w[1],
                netmask: "0.0.0.0"@,
                interface: w[3],
                flags: w[2],
            },
        )
    }
}

/// The routes that the given lines describe, in order.
pub open spec fn routes_of(rows: Seq<Seq<char>>) -> Seq<RouteRecord>
    decreases rows.len(),
{
    if rows.len() == 0 {
        Seq::empty()
    } else {
        let before = routes_of(rows.drop_last());
        match route_of(rows.last()) {
            Some(r) => before.push(r),
            None => before,
        }
    }
}

/// The gateway of the last route to `default`, if there is one.
pub open spec fn default_gateway_of(routes: Seq<RouteRecord>) -> Option<Seq<char>>
    decreases routes.len(),
{
    if routes.len() == 0 {
        None
    } else if routes.last().destination == "default"@ {
        Some(routes.last().gateway)
    } else {
        default_gateway_of(routes.drop_last())
    }
}

/// `r` is what reading a routing table gives.
pub open spec fn is_routing_table(r: ParseResult<RoutingTable>, data: Seq<char>) -> bool {
    let all = lines(data);
    if all.len() == 0 {
        r matches Err(ParseError::EmptyInput)
    } else {
        let records = routes_of(table_rows(all, "Destination"@, "Target"@));
        &&& r matches Ok(table)
        &&& route_views(table.routes@) == records
        &&& table.total_count == records.len()
        &&& option_view(table.default_gateway) == default_gateway_of(records)
        &&& table.system_info@.len() == 0
        &&& forall|i: int|
            0 <= i < table.routes@.len() ==> (#[trigger] table.routes@[i]).metric is None
                && table.routes@[i].extra@.len() == 0
    }
}

/// What a scan of an interface listing has found so far: the interfaces
/// that are complete, and the one that is being described.
pub struct InterfaceScan {
    pub complete: Seq<InterfaceRecord>,
    pub current: Option<InterfaceRecord>,
}

/// An interface of which only the name is known.
pub open spec fn named_interface(name: Seq<char>) -> InterfaceRecord {
    InterfaceRecord {
        name,
        status: "UP"@,
        mtu: 1500,
        rx_bytes: 0,
        rx_packets: 0,
        rx_errors: 0,
        tx_bytes: 0,
        tx_packets: 0,
        tx_errors: 0,
        ip_address: None,
        mac_address: None,
    }
}

/// The first place at or after `from` that holds the word `word`, or the
/// number of words.
pub open spec fn word_position(w: Seq<Seq<char>>, word: Seq<char>, from: int) -> int
    decreases w.len() - from,
{
    if 0 <= from < w.len() && w[from] != word {
        word_position(w, word, from + 1)
    } else {
        from
    }
}

/// The number behind the word `label`, if there is one.
pub open spec fn number_behind(w: Seq<Seq<char>>, label: Seq<char>) -> Option<nat> {
    let at = word_position(w, label, 0);
    if at + 1 < w.len() {
        parsed_unsigned(w[at + 1], u64::MAX as nat)
    } else {
        None
    }
}

/// `old`, or the number behind `label` where there is one.
pub open spec fn counter_or(w: Seq<Seq<char>>, label: Seq<char>, old: u64) -> u64 {
    match number_behind(w, label) {
        Some(n) => n as u64,
        None => old,
    }
}

/// The interface after one more line of its description: an address
/// behind `inet` or `ether`, or the packets and bytes received or sent.
pub open spec fn described(interface: InterfaceRecord, t: Seq<char>) -> InterfaceRecord {
    let w = words(t);
    if has_prefix(t, "inet "@) {
        if w.len() > 1 {
            InterfaceRecord { ip_address: Some(w[1]), ..interface }
        } else {
            interface
        }
    } else if has_prefix(t, "ether "@) {
        if w.len() > 1 {
            InterfaceRecord { mac_address: Some(w[1]), ..interface }
        } else {
            interface
        }
    } else if occurs(t, "RX packets"@) {
        InterfaceRecord {
            rx_packets: counter_or(w, "packets:"@, interface.rx_packets),
            rx_bytes: counter_or(w, "bytes:"@, interface.rx_bytes),
            ..interface
        }
    } else if occurs(t, "TX packets"@) {
        InterfaceRecord {
            tx_packets: counter_or(w, "packets:"@, interface.tx_packets),
            tx_bytes: counter_or(w, "bytes:"@, interface.tx_bytes),
            ..interface
        }
    } else {
        interface
    }
}

/// The complete interfaces with the current one among them.
pub open spec fn closed(scan: InterfaceScan) -> Seq<InterfaceRecord> {
    match scan.current {
        Some(i) => scan.complete.push(i),
        None => scan.complete,
    }
}

/// The scan after one more line. A blank line ends the description of an
/// interface. A line that ends in a colon begins one: the name is the
/// line without its colons. Any other line describes the current
/// interface, if there is one.
pub open spec fn scan_interface_line(scan: InterfaceScan, line: Seq<char>) -> InterfaceScan {
    let t = trimmed(line);
    if t.len() == 0 {
        InterfaceScan { complete: closed(scan), current: None }
    } else if has_suffix(t, ":"@) {
        InterfaceScan {
            complete: closed(scan),
            current: Some(named_interface(without_trailing(t, ':'))),
        }
    } else {
        match scan.current {
            Some(i) => InterfaceScan { complete: scan.complete, current: Some(described(i, t)) },
            None => scan,
        }
    }
}

/// The scan of all the given lines.
pub open spec fn scan_interfaces(all: Seq<Seq<char>>) -> InterfaceScan
    decreases all.len(),
{
    if all.len() == 0 {
        InterfaceScan { complete: Seq::empty(), current: None }
    } else {
        scan_interface_line(scan_interfaces(all.drop_last()), all.last())
    }
}

/// The sum of two counters, or the greatest number that 64 bits hold
/// where the sum is greater.
pub open spec fn capped_sum(a: u64, b: u64) -> u64 {
    if a + b > u64::MAX {
        u64::MAX
    } else {
        (a + b) as u64
    }
}

/// The bytes that the given interfaces have received, capped.
pub open spec fn received(list: Seq<InterfaceRecord>) -> u64
    decreases list.len(),
{
    if list.len() == 0 {
        0
    } else {
        capped_sum(received(list.drop_last()), list.last().rx_bytes)
    }
}

/// The bytes that the given interfaces have sent, capped.
pub open spec fn sent(list: Seq<InterfaceRecord>) -> u64
    decreases list.len(),
{
    if list.len() == 0 {
        0
    } else {
        capped_sum(sent(list.drop_last()), list.last().tx_bytes)
    }
}

/// `r` is what reading an interface listing gives.
pub open spec fn is_interface_list(r: ParseResult<NetworkInterfaceList>, data: Seq<char>) -> bool {
    let all = lines(data);
    if all.len() == 0 {
        r matches Err(ParseError::EmptyInput)
    } else {
        let records = closed(scan_interfaces(all));
        &&& r matches Ok(list)
        &&& interface_views(list.interfaces@) == records
        &&& list.total_count == records.len()
        &&& list.total_rx_bytes == received(records)
        &&& list.total_tx_bytes == sent(records)
        &&& list.system_info@.len() == 0
        &&& forall|i: int|
            0 <= i < list.interfaces@.len() ==> (#[trigger] list.interfaces@[i]).extra@.len() == 0
    }
}

/// The kinds of network listing that are told apart.
#[derive(Debug, Clone, Copy, PartialEq, Eq, Structural)]
pub enum NetworkKind {
    Connections,
    Interfaces,
    Routes,
}

/// The kind of listing that a text is taken for, if any.
pub open spec fn network_kind(input: Seq<char>) -> Option<NetworkKind> {
    if occurs(input, "Proto"@) && occurs(input, "Local Address"@) {
        Some(NetworkKind::Connections)
    } else if occurs(input, "flags="@) || occurs(input, "mtu"@) {
        Some(NetworkKind::Interfaces)
    } else if occurs(input, "Destination"@) && occurs(input, "Gateway"@) {
        Some(NetworkKind::Routes)
    } else {
        None
    }
}

impl ParsedData for NetworkConnectionList {
    fn data_type(&self) -> (r: &str)
        ensures
            r@ == "network_connection_list"@,
    {
        "network_connection_list"
    }
}

impl ParsedData for NetworkInterfaceList {
    fn data_type(&self) -> (r: &str)
        ensures
            r@ == "network_interface_list"@,
    {
        "network_interface_list"
    }
}

impl ParsedData for RoutingTable {
    fn data_type(&self) -> (r: &str)
        ensures
            r@ == "routing_table"@,
    {
        "routing_table"
    }
}

/// The parser of network listings.
#[derive(Debug, Clone, PartialEq)]
pub struct NetworkParser {
    name: String,
}

/// Whether a text looks like a network listing: it holds one of the words
/// of a connection, interface or routing table, or it has a line of more
/// than three words and names a protocol or an address.
pub open spec fn looks_like_network(input: Seq<char>) -> bool {
    ||| occurs(input, "Proto"@)
    ||| occurs(input, "Local Address"@)
    ||| occurs(input, "flags="@)
    ||| occurs(input, "mtu"@)
    ||| occurs(input, "Destination"@)
    ||| occurs(input, "Gateway"@)
    ||| (has_wide_line(input) && (occurs(input, "tcp"@) || occurs(input, "udp"@) || occurs(
        input,
        "inet"@,
    )))
}

/// Counts `name` once more.
pub fn count_once_more(counts: &mut Vec<NamedCount>, name: &str)
    ensures
        count_views(final(counts)@) == counted_once_more(count_views(old(counts)@), name@),
{
    let ghost before = count_views(counts@);
    let mut i: usize = 0;
    while i < counts.len()
        invariant
            0 <= i <= counts@.len(),
            before == count_views(counts@),
            counts@ == old(counts)@,
            count_position(before, name@, i as int) == count_position(before, name@, 0),
        decreases counts@.len() - i,
    {
        if same_text(counts[i].name.as_str(), name) {
            let now = counts[i].count;
            if now < usize::MAX {
                counts.set(i, NamedCount { name: name.to_owned(), count: now + 1 });
                assert(count_views(counts@) =~= before.update(
                    i as int,
                    CountSpec { name: name@, count: (now + 1) as nat },
                ));
            }
            return ;
        }
        i += 1;
    }
    counts.push(NamedCount { name: name.to_owned(), count: 1 });
    assert(count_views(counts@) =~= before.push(CountSpec { name: name@, count: 1 }));
}

/// The count under `name`, if the name occurs.
pub fn count_for(counts: &Vec<NamedCount>, name: &str) -> (r: Option<usize>)
    ensures
        ({
            let at = count_position(count_views(counts@), name@, 0);
            if at < counts@.len() {
                r == Some(counts@[at].count)
            } else {
                r is None
            }
        }),
{
    let ghost all = count_views(counts@);
    let mut i: usize = 0;
    while i < counts.len()
        invariant
            0 <= i <= counts@.len(),
            all == count_views(counts@),
            count_position(all, name@, i as int) == count_position(all, name@, 0),
        decreases counts@.len() - i,
    {
        if same_text(counts[i].name.as_str(), name) {
            return Some(counts[i].count);
        }
        i += 1;
    }
    None
}

/// The place of the first line behind the heading of a table.
fn first_row(all: &Vec<String>, a: &str, b: &str) -> (first: usize)
    requires
        all@.len() > 0,
    ensures
        1 <= first <= all@.len(),
        table_rows(views(all@), a@, b@) == views(all@).subrange(first as int, all@.len() as int),
{
    let mut i: usize = 0;
    while i < all.len() && !(contains(all[i].as_str(), a) || contains(all[i].as_str(), b))
        invariant
            0 <= i <= all@.len(),
            heading_line(views(all@), a@, b@, i as int) == heading_line(views(all@), a@, b@, 0),
        decreases all@.len() - i,
    {
        assert(views(all@)[i as int] == all@[i as int]@);
        i += 1;
    }
    if i < all.len() {
        assert(views(all@)[i as int] == all@[i as int]@);
        i + 1
    } else {
        1
    }
}

/// The number behind the word `label`, if there is one.
fn read_behind(w: &Vec<String>, label: &str) -> (r: Option<u64>)
    ensures
        r is Some <==> number_behind(views(w@), label@) is Some,
        r matches Some(n) ==> number_behind(views(w@), label@) == Some(n as nat),
{
    let mut at: usize = 0;
    while at < w.len() && !same_text(w[at].as_str(), label)
        invariant
            0 <= at <= w@.len(),
            word_position(views(w@), label@, at as int) == word_position(views(w@), label@, 0),
        decreases w@.len() - at,
    {
        assert(views(w@)[at as int] == w@[at as int]@);
        at += 1;
    }
    if at < w.len() {
        assert(views(w@)[at as int] == w@[at as int]@);
    }
    if at < w.len() && at + 1 < w.len() {
        assert(views(w@)[at + 1] == w@[at + 1]@);
        parse_u64(w[at + 1].as_str())
    } else {
        None
    }
}

/// An interface of which only the name is known.
fn new_interface(name: String) -> (r: NetworkInterface)
    ensures
        r@ == named_interface(name@),
        r.extra@.len() == 0,
{
    NetworkInterface {
        name,
        status: "UP".to_string(),
        mtu: 1500,
        rx_bytes: 0,
        rx_packets: 0,
        rx_errors: 0,
        tx_bytes: 0,
        tx_packets: 0,
        tx_errors: 0,
        ip_address: None,
        mac_address: None,
        extra: Vec::new(),
    }
}

/// Takes one more line of the description of an interface in.
fn describe(interface: NetworkInterface, t: &str) -> (r: NetworkInterface)
    ensures
        r@ == described(interface@, t@),
        r.extra == interface.extra,
{
    let mut r = interface;
    let w = split_words(t);
    if starts_with(t, "inet ") {
        if w.len() > 1 {
            assert(views(w@)[1] == w@[1]@);
            r.ip_address = Some(w[1].clone());
        }
    } else if starts_with(t, "ether ") {
        if w.len() > 1 {
            assert(views(w@)[1] == w@[1]@);
            r.mac_address = Some(w[1].clone());
        }
    } else if contains(t, "RX packets") {
        match read_behind(&w, "packets:") {
            Some(n) => {
                r.rx_packets = n;
            },
            None => {},
        }
        match read_behind(&w, "bytes:") {
            Some(n) => {
                r.rx_bytes = n;
            },
            None => {},
        }
    } else if contains(t, "TX packets") {
        match read_behind(&w, "packets:") {
            Some(n) => {
                r.tx_packets = n;
            },
            None => {},
        }
        match read_behind(&w, "bytes:") {
            Some(n) => {
                r.tx_bytes = n;
            },
            None => {},
        }
    }
    r
}

/// The sum of two counters, capped.
fn add_capped(a: u64, b: u64) -> (r: u64)
    ensures
        r == capped_sum(a, b),
{
    if a > u64::MAX - b {
        u64::MAX
    } else {
        a + b
    }
}

/// The view of the interface that is being described.
pub open spec fn current_view(current: Option<NetworkInterface>) -> Option<InterfaceRecord> {
    match current {
        Some(i) => Some(i@),
        None => None,
    }
}

impl NetworkParser {
    /// The name of the parser.
    pub closed spec fn name_text(&self) -> Seq<char> {
        self.name@
    }

    /// The parser of network listings, named `network`.
    pub fn new() -> (r: Self)
        ensures
            r.name_text() == "network"@,
    {
        NetworkParser { name: "network".to_string() }
    }

    /// Whether a text looks like a network listing.
    pub fn can_parse(&self, input: &str) -> (r: bool)
        ensures
            r == looks_like_network(input@),
    {
        contains(input, "Proto") || contains(input, "Local Address") || contains(input, "flags=")
            || contains(input, "mtu") || contains(input, "Destination") || contains(
            input,
            "Gateway",
        ) || (any_wide_line(input) && (contains(input, "tcp") || contains(input, "udp")
            || contains(input, "inet")))
    }

    /// Reads the output of `netstat`.
    pub fn parse_netstat_output(&self, data: &str) -> (r: ParseResult<NetworkConnectionList>)
        ensures
            is_connection_list(r, data@),
    {
        let all = split_lines(data);
        if all.len() == 0 {
            return Err(ParseError::EmptyInput);
        }
        let first = first_row(&all, "Proto", "Local Address");
        let ghost rows = views(all@).subrange(first as int, all@.len() as int);
        let mut connections: Vec<NetworkConnection> = Vec::new();
        let mut protocol_counts: Vec<NamedCount> = Vec::new();
        let mut state_counts: Vec<NamedCount> = Vec::new();
        let mut i: usize = first;
        proof {
            assert(rows.take(0) =~= Seq::<Seq<char>>::empty());
            assert(connection_views(connections@) =~= Seq::<ConnectionRecord>::empty());
            assert(protocols_of(connection_views(connections@)) =~= Seq::<Seq<char>>::empty());
            assert(states_of(connection_views(connections@)) =~= Seq::<Seq<char>>::empty());
            assert(count_views(protocol_counts@) =~= Seq::<CountSpec>::empty());
            assert(count_views(state_counts@) =~= Seq::<CountSpec>::empty());
        }
        while i < all.len()
            invariant
                first <= i <= all@.len(),
                rows == views(all@).subrange(first as int, all@.len() as int),
                connection_views(connections@) == connections_of(rows.take(i - first)),
                count_views(protocol_counts@) == tally(
                    protocols_of(connection_views(connections@)),
                ),
                count_views(state_counts@) == tally(states_of(connection_views(connections@))),
                forall|k: int|
                    0 <= k < connections@.len() ==> (#[trigger] connections@[k]).is_plain(),
            decreases all@.len() - i,
        {
            proof {
                assert(rows.take(i - first + 1).drop_last() =~= rows.take(i - first));
                assert(rows.take(i - first + 1).last() == all@[i as int]@);
            }
            let line = all[i].as_str();
            let w = split_words(line);
            if !is_blank_text(line) && w.len() >= 5 {
                assert(views(w@)[0] == w@[0]@);
                assert(views(w@)[3] == w@[3]@);
                assert(views(w@)[4] == w@[4]@);
                let state = if w.len() > 5 {
                    assert(views(w@)[5] == w@[5]@);
                    w[5].clone()
                } else {
                    "UNKNOWN".to_string()
                };
                count_once_more(&mut protocol_counts, w[0].as_str());
                count_once_more(&mut state_counts, state.as_str());
                let connection = NetworkConnection {
                    protocol: w[0].clone(),
                    local_address: w[3].clone(),
                    remote_address: w[4].clone(),
                    state,
                    pid: None,
                    process_name: None,
                    extra: Vec::new(),
                };
                let ghost before = connection_views(connections@);
                connections.push(connection);
                proof {
                    let after = connection_views(connections@);
                    assert(after =~= before.push(connection@));
                    assert(protocols_of(after).drop_last() =~= protocols_of(before));
                    assert(protocols_of(after).last() == connection@.protocol);
                    assert(states_of(after).drop_last() =~= states_of(before));
                    assert(states_of(after).last() == connection@.state);
                }
            } else {
                assert(views(w@).len() == w@.len());
            }
            i += 1;
        }
        assert(rows.take(all@.len() - first) =~= rows);
        let total_count = connections.len();
        Ok(
            NetworkConnectionList {
                connections,
                total_count,
                protocol_counts,
                state_counts,
                system_info: Vec::new(),
            },
        )
    }

    /// Reads the output of `ifconfig`.
    pub fn parse_ifconfig_output(&self, data: &str) -> (r: ParseResult<NetworkInterfaceList>)
        ensures
            is_interface_list(r, data@),
    {
        let all = split_lines(data);
        if all.len() == 0 {
            return Err(ParseError::EmptyInput);
        }
        let ghost lined = views(all@);
        let mut interfaces: Vec<NetworkInterface> = Vec::new();
        let mut current: Option<NetworkInterface> = None;
        let mut total_rx_bytes: u64 = 0;
        let mut total_tx_bytes: u64 = 0;
        let mut i: usize = 0;
        proof {
            assert(lined.take(0) =~= Seq::<Seq<char>>::empty());
            assert(interface_views(interfaces@) =~= Seq::<InterfaceRecord>::empty());
        }
        while i < all.len()
            invariant
                0 <= i <= all@.len(),
                lined == views(all@),
                scan_interfaces(lined.take(i as int)) == (InterfaceScan {
                    complete: interface_views(interfaces@),
                    current: current_view(current),
                }),
                total_rx_bytes == received(interface_views(interfaces@)),
                total_tx_bytes == sent(interface_views(interfaces@)),
                forall|k: int|
                    0 <= k < interfaces@.len() ==> (#[trigger] interfaces@[k]).extra@.len() == 0,
                current matches Some(c) ==> c.extra@.len() == 0,
            decreases all@.len() - i,
        {
            proof {
                assert(lined.take(i + 1).drop_last() =~= lined.take(i as int));
                assert(lined.take(i + 1).last() == all@[i as int]@);
            }
            let t = trim(all[i].as_str());
            let begins = ends_with(t.as_str(), ":");
            let ghost scan = scan_interfaces(lined.take(i as int));
            let ghost next = scan_interface_line(scan, all@[i as int]@);
            proof {
                reveal_strlit(":");
            }
            if t.as_str().is_empty() || begins {
                assert(next.complete == closed(scan));
                match current {
                    Some(interface) => {
                        total_rx_bytes = add_capped(total_rx_bytes, interface.rx_bytes);
                        total_tx_bytes = add_capped(total_tx_bytes, interface.tx_bytes);
                        let ghost before = interface_views(interfaces@);
                        interfaces.push(interface);
                        proof {
                            let after = interface_views(interfaces@);
                            assert(after =~= before.push(interface@));
                            assert(after.drop_last() =~= before);
                            assert(after.last() == interface@);
                        }
                    },
                    None => {},
                }
                assert(interface_views(interfaces@) == next.complete);
                current = if begins {
                    Some(new_interface(strip_trailing(t.as_str(), ':')))
                } else {
                    None
                };
                assert(current_view(current) == next.current);
            } else {
                current = match current {
                    Some(interface) => Some(describe(interface, t.as_str())),
                    None => None,
                };
                assert(current_view(current) == next.current);
            }
            assert(scan_interfaces(lined.take(i + 1)) == next);
            i += 1;
        }
        assert(lined.take(all@.len() as int) =~= lined);
        match current {
            Some(interface) => {
                total_rx_bytes = add_capped(total_rx_bytes, interface.rx_bytes);
                total_tx_bytes = add_capped(total_tx_bytes, interface.tx_bytes);
                let ghost before = interface_views(interfaces@);
                interfaces.push(interface);
                proof {
                    let after = interface_views(interfaces@);
                    assert(after =~= before.push(interface@));
                    assert(after.drop_last() =~= before);
                    assert(after.last() == interface@);
                }
            },
            None => {},
        }
        let total_count = interfaces.len();
        Ok(
            NetworkInterfaceList {
                interfaces,
                total_count,
                total_rx_bytes,
                total_tx_bytes,
                system_info: Vec::new(),
            },
        )
    }

    /// Reads the output of `route` or of `netstat -r`.
    pub fn parse_route_output(&self, data: &str) -> (r: ParseResult<RoutingTable>)
        ensures
            is_routing_table(r, data@),
    {
        let all = split_lines(data);
        if all.len() == 0 {
            return Err(ParseError::EmptyInput);
        }
        let first = first_row(&all, "Destination", "Target");
        let ghost rows = views(all@).subrange(first as int, all@.len() as int);
        let mut routes: Vec<RouteEntry> = Vec::new();
        let mut default_gateway: Option<String> = None;
        let mut i: usize = first;
        proof {
            assert(rows.take(0) =~= Seq::<Seq<char>>::empty());
            assert(route_views(routes@) =~= Seq::<RouteRecord>::empty());
        }
        while i < all.len()
            invariant
                first <= i <= all@.len(),
                rows == views(all@).subrange(first as int, all@.len() as int),
                route_views(routes@) == routes_of(rows.take(i - first)),
                option_view(default_gateway) == default_gateway_of(route_views(routes@)),
                forall|k: int|
                    0 <= k < routes@.len() ==> (#[trigger] routes@[k]).metric is None
                        && routes@[k].extra@.len() == 0,
            decreases all@.len() - i,
        {
            proof {
                assert(rows.take(i - first + 1).drop_last() =~= rows.take(i - first));
                assert(rows.take(i - first + 1).last() == all@[i as int]@);
            }
            let line = all[i].as_str();
            let w = split_words(line);
            if !is_blank_text(line) && w.len() >= 4 {
                assert(views(w@)[0] == w@[0]@);
                assert(views(w@)[1] == w@[1]@);
                assert(views(w@)[2] == w@[2]@);
                assert(views(w@)[3] == w@[3]@);
                if same_text(w[0].as_str(), "default") {
                    default_gateway = Some(w[1].clone());
                }
                let route = RouteEntry {
                    destination: w[0].clone(),
                    gateway: w[1].clone(),
                    netmask: "0.0.0.0".to_string(),
                    interface: w[3].clone(),
                    flags: w[2].clone(),
                    metric: None,
                    extra: Vec::new(),
                };
                let ghost before = route_views(routes@);
                routes.push(route);
                proof {
                    let after = route_views(routes@);
                    assert(after =~= before.push(route@));
                    assert(after.drop_last() =~= before);
                }
            } else {
                assert(views(w@).len() == w@.len());
            }
            i += 1;
        }
        assert(rows.take(all@.len() - first) =~= rows);
        let total_count = routes.len();
        Ok(RoutingTable { routes, total_count, default_gateway, system_info: Vec::new() })
    }
}

impl Parser<ParsedRecord> for NetworkParser {
    fn parse(&self, input: &str) -> (r: ParseResult<ParsedRecord>)
        ensures
            match network_kind(input@) {
                Some(NetworkKind::Connections) => match r {
                    Ok(ParsedRecord::Connections(list)) => is_connection_list(Ok(list), input@),
                    Ok(_) => false,
                    Err(e) => is_connection_list(Err(e), input@),
                },
                Some(NetworkKind::Interfaces) => match r {
                    Ok(ParsedRecord::Interfaces(list)) => is_interface_list(Ok(list), input@),
                    Ok(_) => false,
                    Err(e) => is_interface_list(Err(e), input@),
                },
                Some(NetworkKind::Routes) => match r {
                    Ok(ParsedRecord::Routes(table)) => is_routing_table(Ok(table), input@),
                    Ok(_) => false,
                    Err(e) => is_routing_table(Err(e), input@),
                },
                None => format_refused(r, "Unable to determine network data format"@),
            },
    {
        if contains(input, "Proto") && contains(input, "Local Address") {
            match self.parse_netstat_output(input) {
                Ok(list) => Ok(ParsedRecord::Connections(list)),
                Err(e) => Err(e),
            }
        } else if contains(input, "flags=") || contains(input, "mtu") {
            match self.parse_ifconfig_output(input) {
                Ok(list) => Ok(ParsedRecord::Interfaces(list)),
                Err(e) => Err(e),
            }
        } else if contains(input, "Destination") && contains(input, "Gateway") {
            match self.parse_route_output(input) {
                Ok(table) => Ok(ParsedRecord::Routes(table)),
                Err(e) => Err(e),
            }
        } else {
            Err(ParseError::InvalidFormat("Unable to determine network data format".to_string()))
        }
    }

    fn name(&self) -> (r: &str)
        ensures
            r@ == self.name_text(),
    {
        self.name.as_str()
    }

    fn can_parse(&self, input: &str) -> (r: bool)
        ensures
            r == looks_like_network(input@),
    {
        NetworkParser::can_parse(self, input)
    }
}

} // verus!
