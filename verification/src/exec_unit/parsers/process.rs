//! The parser of process listings: the output of `ps` and of `top`, and
//! lines in the manner of `/proc`.

use vstd::prelude::*;
use crate::decimal::{parsed_decimal, Decimal};
use crate::exec_unit::parsers::{
    any_wide_line, begins_with_digit, decimal_refused, format_refused, has_wide_line,
    number_refused, starts_with_digit, ParseError, ParseResult, ParsedData, ParsedRecord, Parser,
};
use crate::text::{
    contains, has_prefix, is_blank, is_blank_text, join_from, joined_from, lines, occurs,
    option_view, parse_u32, parsed_unsigned, split_lines, split_words, starts_with,
    strip_surrounding, views, without_surrounding, words,
};

verus! {

/// One process.
#[derive(Debug, Clone, PartialEq)]
pub struct ProcessInfo {
    pub pid: u32,
    pub name: String,
    pub status: String,
    /// The share of the processor, in percent.
    pub cpu_usage: Decimal,
    /// The memory in use, in kilobytes.
    pub memory_usage: u64,
    pub parent_pid: Option<u32>,
    pub start_time: Option<String>,
    pub command_line: Option<String>,
    pub user: Option<String>,
    /// Further attributes, by name.
    pub extra: Vec<(String, String)>,
}

/// The mathematical form of what a parser reads of a process.
pub struct ProcessRecord {
    pub pid: u32,
    pub name: Seq<char>,
    pub status: Seq<char>,
    pub cpu_thousandths: int,
    pub memory_usage: u64,
    pub command_line: Option<Seq<char>>,
    pub user: Option<Seq<char>>,
}

impl View for ProcessInfo {
    type V = ProcessRecord;

    open spec fn view(&self) -> ProcessRecord {
        ProcessRecord {
            pid: self.pid,
            name: self.name@,
            status: self.status@,
            cpu_thousandths: self.cpu_usage.thousandths as int,
            memory_usage: self.memory_usage,
            command_line: option_view(self.command_line),
            user: option_view(self.user),
        }
    }
}

impl ProcessInfo {
    /// What a parser leaves empty: the parent, the start and the further
    /// attributes.
    pub open spec fn is_plain(self) -> bool {
        self.parent_pid is None && self.start_time is None && self.extra@.len() == 0
    }
}

/// A list of processes.
#[derive(Debug, Clone, PartialEq)]
pub struct ProcessList {
    pub processes: Vec<ProcessInfo>,
    pub total_count: usize,
    /// Facts on the system, by name.
    pub system_info: Vec<(String, String)>,
}

/// The views of a list of processes.
pub open spec fn process_views(list: Seq<ProcessInfo>) -> Seq<ProcessRecord> {
    Seq::new(list.len(), |i: int| list[i]@)
}

/// The formats of listing that are told apart.
#[derive(Debug, Clone, Copy, PartialEq, Eq, Structural)]
pub enum ListingKind {
    Ps,
    Top,
    Procfs,
}

/// What a line of a listing gives.
pub enum Row {
    /// Nothing: the line is blank, a heading, or too short.
    Skip,
    /// An error: the text is no whole number.
    BadNumber(Seq<char>),
    /// An error: the text is no decimal number.
    BadDecimal(Seq<char>),
    /// A process.
    Process(ProcessRecord),
}

/// The kilobytes that a decimal figure stands for: its whole part, and
/// nothing where it is negative.
pub open spec fn whole_part(thousandths: int) -> u64 {
    if thousandths < 0 {
        0
    } else {
        (thousandths / 1000) as u64
    }
}

/// What a line of `ps` gives: the process id in the first of at least
/// four words, and the command from the fourth word on.
pub open spec fn ps_row(line: Seq<char>) -> Row {
    let w = words(line);
    if is_blank(line) || w.len() < 4 {
        Row::Skip
    } else {
        match parsed_unsigned(w[0], u32::MAX as nat) {
            None => Row::BadNumber(w[0]),
            Some(pid) => Row::Process(
                ProcessRecord {
                    pid: pid as u32,
                    name: joined_from(w, " "@, 3),
                    status: "R"@,
                    cpu_thousandths: 0,
                    memory_usage: 0,
                    command_line: Some(joined_from(w, " "@, 3)),
                    user: None,
                },
            ),
        }
    }
}

/// What a line of `top` gives: of at least twelve words the process id,
/// the user, the share of the processor in the ninth, the memory in the
/// tenth, and the command from the twelfth on. A heading gives nothing.
pub open spec fn top_row(line: Seq<char>) -> Row {
    let w = words(line);
    if has_prefix(line, "PID"@) || is_blank(line) || w.len() < 12 {
        Row::Skip
    } else {
        match parsed_unsigned(w[0], u32::MAX as nat) {
            None => Row::BadNumber(w[0]),
            Some(pid) => match parsed_decimal(w[8]) {
                None => Row::BadDecimal(w[8]),
                Some(cpu) => match parsed_decimal(w[9]) {
                    None => Row::BadDecimal(w[9]),
                    Some(memory) => Row::Process(
                        ProcessRecord {
                            pid: pid as u32,
                            name: joined_from(w, " "@, 11),
                            status: "R"@,
                            cpu_thousandths: cpu,
                            memory_usage: whole_part(memory),
                            command_line: Some(joined_from(w, " "@, 11)),
                            user: Some(w[1]),
                        },
                    ),
                },
            },
        }
    }
}

/// What a line in the manner of `/proc` gives: of at least three words the
/// process id, the name without its brackets, and the state.
pub open spec fn procfs_row(line: Seq<char>) -> Row {
    let w = words(line);
    if is_blank(line) || w.len() < 3 {
        Row::Skip
    } else {
        match parsed_unsigned(w[0], u32::MAX as nat) {
            None => Row::BadNumber(w[0]),
            Some(pid) => Row::Process(
                ProcessRecord {
                    pid: pid as u32,
                    name: without_surrounding(without_surrounding(w[1], '('), ')'),
                    status: w[2],
                    cpu_thousandths: 0,
                    memory_usage: 0,
                    command_line: None,
                    user: None,
                },
            ),
        }
    }
}

/// What a line of a listing of the given kind gives.
pub open spec fn row_of(kind: ListingKind, line: Seq<char>) -> Row {
    match kind {
        ListingKind::Ps => ps_row(line),
        ListingKind::Top => top_row(line),
        ListingKind::Procfs => procfs_row(line),
    }
}

/// What the given lines give, in order: the processes of the lines up to
/// the first line that is an error, and that error if there is one.
pub open spec fn read_rows(kind: ListingKind, rows: Seq<Seq<char>>) -> Result<
    Seq<ProcessRecord>,
    Row,
>
    decreases rows.len(),
{
    if rows.len() == 0 {
        Ok(Seq::empty())
    } else {
        match read_rows(kind, rows.drop_last()) {
            Err(bad) => Err(bad),
            Ok(list) => match row_of(kind, rows.last()) {
                Row::Skip => Ok(list),
                Row::Process(p) => Ok(list.push(p)),
                bad => Err(bad),
            },
        }
    }
}

/// The first place at or after `from` whose line begins with `PID`, or
/// the number of lines.
pub open spec fn heading_place(all: Seq<Seq<char>>, from: int) -> int
    decreases all.len() - from,
{
    if 0 <= from < all.len() && !has_prefix(all[from], "PID"@) {
        heading_place(all, from + 1)
    } else {
        from
    }
}

/// The lines of a listing that describe processes: for `ps` those behind
/// the first, for `top` those behind the first heading, for `/proc` all.
pub open spec fn listing_rows(kind: ListingKind, all: Seq<Seq<char>>) -> Seq<Seq<char>> {
    match kind {
        ListingKind::Ps => all.subrange(1, all.len() as int),
        ListingKind::Top => {
            let heading = heading_place(all, 0);
            if heading < all.len() {
                all.subrange(heading + 1, all.len() as int)
            } else {
                Seq::empty()
            }
        },
        ListingKind::Procfs => all,
    }
}

/// How few lines a listing must have: the output of `top` has a line
/// before its heading.
pub open spec fn least_lines(kind: ListingKind) -> nat {
    match kind {
        ListingKind::Top => 2,
        _ => 1,
    }
}

/// `r` is the list of the given processes, counted, with nothing besides.
pub open spec fn is_list_of(r: ParseResult<ProcessList>, records: Seq<ProcessRecord>) -> bool {
    &&& r matches Ok(list)
    &&& process_views(list.processes@) == records
    &&& list.total_count == records.len()
    &&& list.system_info@.len() == 0
    &&& forall|i: int| 0 <= i < list.processes@.len() ==> (#[trigger] list.processes@[i]).is_plain()
}

/// `r` is what reading a listing of the given kind gives: a text without
/// lines is empty input, the output of `top` with one line is incomplete,
/// and anything else is read line by line.
pub open spec fn is_listing(r: ParseResult<ProcessList>, kind: ListingKind, output: Seq<char>)
    -> bool {
    let all = lines(output);
    if all.len() == 0 {
        r == Err::<ProcessList, ParseError>(ParseError::EmptyInput)
    } else if all.len() < least_lines(kind) {
        format_refused(r, "Incomplete top output"@)
    } else {
        match read_rows(kind, listing_rows(kind, all)) {
            Ok(records) => is_list_of(r, records),
            Err(Row::BadNumber(text)) => number_refused(r, text),
            Err(Row::BadDecimal(text)) => decimal_refused(r, text),
            Err(_) => false,
        }
    }
}

impl ParsedData for ProcessInfo {
    fn data_type(&self) -> (r: &str)
        ensures
            r@ == "process_info"@,
    {
        "process_info"
    }
}

impl ParsedData for ProcessList {
    fn data_type(&self) -> (r: &str)
        ensures
            r@ == "process_list"@,
    {
        "process_list"
    }
}

/// The kind of listing that a text is taken for, if any: the output of
/// `ps` where it names process id, terminal and time; that of `top` where
/// it names process id, user and share of the processor; lines of `/proc`
/// where it begins with a digit.
pub open spec fn listing_kind(input: Seq<char>) -> Option<ListingKind> {
    if occurs(input, "PID"@) && occurs(input, "TTY"@) && occurs(input, "TIME"@) {
        Some(ListingKind::Ps)
    } else if occurs(input, "PID"@) && occurs(input, "USER"@) && occurs(input, "%CPU"@) {
        Some(ListingKind::Top)
    } else if starts_with_digit(input) {
        Some(ListingKind::Procfs)
    } else {
        None
    }
}

/// The parser of process listings.
#[derive(Debug, Clone, PartialEq)]
pub struct ProcessParser {
    name: String,
    supported_formats: Vec<String>,
}

/// Whether a text looks like a process listing: it names a process id, or
/// it begins with a digit, or it has a line of more than three words and
/// names a user, a terminal or a command.
pub open spec fn looks_like_processes(input: Seq<char>) -> bool {
    ||| occurs(input, "PID"@)
    ||| starts_with_digit(input)
    ||| (has_wide_line(input) && (occurs(input, "USER"@) || occurs(input, "TTY"@) || occurs(
        input,
        "CMD"@,
    ) || occurs(input, "COMMAND"@)))
}

/// A process with the given fields and nothing besides.
fn plain_process(
    pid: u32,
    name: String,
    status: String,
    cpu_usage: Decimal,
    memory_usage: u64,
    command_line: Option<String>,
    user: Option<String>,
) -> (p: ProcessInfo)
    ensures
        p.is_plain(),
        p@ == (ProcessRecord {
            pid,
            name: name@,
            status: status@,
            cpu_thousandths: cpu_usage.thousandths as int,
            memory_usage,
            command_line: option_view(command_line),
            user: option_view(user),
        }),
{
    ProcessInfo {
        pid,
        name,
        status,
        cpu_usage,
        memory_usage,
        parent_pid: None,
        start_time: None,
        command_line,
        user,
        extra: Vec::new(),
    }
}

/// What one line of a listing gives.
enum ReadRow {
    Skip,
    Bad(ParseError),
    Process(ProcessInfo),
}

/// `r` is what the row `row` asks for.
spec fn row_read(r: ReadRow, row: Row) -> bool {
    match row {
        Row::Skip => r is Skip,
        Row::BadNumber(text) => r matches ReadRow::Bad(ParseError::ParseIntError(m)) && m@ == text,
        Row::BadDecimal(text) => r matches ReadRow::Bad(ParseError::ParseFloatError(m)) && m@
            == text,
        Row::Process(p) => r matches ReadRow::Process(info) && info@ == p && info.is_plain(),
    }
}

/// Reads one line of a listing.
fn read_row(kind: ListingKind, line: &str) -> (r: ReadRow)
    ensures
        row_read(r, row_of(kind, line@)),
{
    let w = split_words(line);
    let blank = is_blank_text(line);
    match kind {
        ListingKind::Ps => {
            if blank || w.len() < 4 {
                return ReadRow::Skip;
            }
            assert(views(w@)[0] == w@[0]@);
            match parse_u32(w[0].as_str()) {
                None => ReadRow::Bad(ParseError::ParseIntError(w[0].clone())),
                Some(pid) => {
                    let name = join_from(&w, " ", 3);
                    let command = name.clone();
                    ReadRow::Process(
                        plain_process(
                            pid,
                            name,
                            "R".to_string(),
                            Decimal::from_whole(0),
                            0,
                            Some(command),
                            None,
                        ),
                    )
                },
            }
        },
        ListingKind::Top => {
            if starts_with(line, "PID") || blank || w.len() < 12 {
                return ReadRow::Skip;
            }
            assert(views(w@)[0] == w@[0]@);
            assert(views(w@)[1] == w@[1]@);
            assert(views(w@)[8] == w@[8]@);
            assert(views(w@)[9] == w@[9]@);
            match parse_u32(w[0].as_str()) {
                None => ReadRow::Bad(ParseError::ParseIntError(w[0].clone())),
                Some(pid) => match Decimal::parse(w[8].as_str()) {
                    None => ReadRow::Bad(ParseError::ParseFloatError(w[8].clone())),
                    Some(cpu) => match Decimal::parse(w[9].as_str()) {
                        None => ReadRow::Bad(ParseError::ParseFloatError(w[9].clone())),
                        Some(memory) => {
                            let kilobytes: u64 = if memory.thousandths < 0 {
                                0
                            } else {
                                (memory.thousandths / 1000) as u64
                            };
                            let name = join_from(&w, " ", 11);
                            let command = name.clone();
                            ReadRow::Process(
                                plain_process(
                                    pid,
                                    name,
                                    "R".to_string(),
                                    cpu,
                                    kilobytes,
                                    Some(command),
                                    Some(w[1].clone()),
                                ),
                            )
                        },
                    },
                },
            }
        },
        ListingKind::Procfs => {
            if blank || w.len() < 3 {
                return ReadRow::Skip;
            }
            assert(views(w@)[0] == w@[0]@);
            assert(views(w@)[1] == w@[1]@);
            assert(views(w@)[2] == w@[2]@);
            match parse_u32(w[0].as_str()) {
                None => ReadRow::Bad(ParseError::ParseIntError(w[0].clone())),
                Some(pid) => {
                    let open = strip_surrounding(w[1].as_str(), '(');
                    let name = strip_surrounding(open.as_str(), ')');
                    ReadRow::Process(
                        plain_process(
                            pid,
                            name,
                            w[2].clone(),
                            Decimal::from_whole(0),
                            0,
                            None,
                            None,
                        ),
                    )
                },
            }
        },
    }
}

/// Once some lines give an error, more lines give the same error.
proof fn lemma_read_rows_stays_bad(kind: ListingKind, rows: Seq<Seq<char>>, upto: int)
    requires
        0 <= upto <= rows.len(),
        read_rows(kind, rows.take(upto)) is Err,
    ensures
        read_rows(kind, rows) == read_rows(kind, rows.take(upto)),
    decreases rows.len() - upto,
{
    if upto == rows.len() {
        assert(rows.take(upto) =~= rows);
    } else {
        assert(rows.take(upto + 1).drop_last() =~= rows.take(upto));
        lemma_read_rows_stays_bad(kind, rows, upto + 1);
    }
}

/// Reads a listing of the given kind.
fn read_listing(kind: ListingKind, output: &str) -> (r: ParseResult<ProcessList>)
    ensures
        is_listing(r, kind, output@),
{
    let all = split_lines(output);
    if all.len() == 0 {
        return Err(ParseError::EmptyInput);
    }
    let least: usize = match kind {
        ListingKind::Top => 2,
        _ => 1,
    };
    if all.len() < least {
        return Err(ParseError::InvalidFormat("Incomplete top output".to_string()));
    }
    let mut start: usize = match kind {
        ListingKind::Ps => 1,
        ListingKind::Top => 0,
        ListingKind::Procfs => 0,
    };
    match kind {
        ListingKind::Top => {
            while start < all.len() && !starts_with(all[start].as_str(), "PID")
                invariant
                    0 <= start <= all@.len(),
                    heading_place(views(all@), start as int) == heading_place(views(all@), 0),
                decreases all@.len() - start,
            {
                assert(views(all@)[start as int] == all@[start as int]@);
                start += 1;
            }
            if start < all.len() {
                assert(views(all@)[start as int] == all@[start as int]@);
                start += 1;
            }
        },
        _ => {},
    }
    let ghost rows = listing_rows(kind, views(all@));
    assert(rows =~= views(all@).subrange(start as int, all@.len() as int));
    let mut processes: Vec<ProcessInfo> = Vec::new();
    let mut i: usize = start;
    proof {
        assert(rows.take(0) =~= Seq::<Seq<char>>::empty());
        assert(process_views(processes@) =~= Seq::<ProcessRecord>::empty());
    }
    while i < all.len()
        invariant
            start <= i <= all@.len(),
            views(all@) == lines(output@),
            all@.len() >= least_lines(kind),
            rows == listing_rows(kind, views(all@)),
            rows == views(all@).subrange(start as int, all@.len() as int),
            read_rows(kind, rows.take(i - start)) == Ok::<Seq<ProcessRecord>, Row>(
                process_views(processes@),
            ),
            forall|k: int| 0 <= k < processes@.len() ==> (#[trigger] processes@[k]).is_plain(),
        decreases all@.len() - i,
    {
        proof {
            assert(rows.take(i - start + 1).drop_last() =~= rows.take(i - start));
            assert(rows.take(i - start + 1).last() == all@[i as int]@);
        }
        match read_row(kind, all[i].as_str()) {
            ReadRow::Skip => {},
            ReadRow::Bad(e) => {
                proof {
                    lemma_read_rows_stays_bad(kind, rows, i - start + 1);
                }
                return Err(e);
            },
            ReadRow::Process(info) => {
                let ghost before = process_views(processes@);
                processes.push(info);
                assert(process_views(processes@) =~= before.push(info@));
            },
        }
        i += 1;
    }
    assert(rows.take(all@.len() - start) =~= rows);
    let total_count = processes.len();
    Ok(ProcessList { processes, total_count, system_info: Vec::new() })
}

impl ProcessParser {
    /// The name of the parser.
    pub closed spec fn name_text(&self) -> Seq<char> {
        self.name@
    }

    /// The formats that the parser reads.
    pub closed spec fn formats(&self) -> Seq<Seq<char>> {
        views(self.supported_formats@)
    }

    /// The parser of process listings, named `process`.
    pub fn new() -> (r: Self)
        ensures
            r.name_text() == "process"@,
            r.formats() == seq!["ps"@, "top"@, "htop"@, "procfs"@],
    {
        let mut formats: Vec<String> = Vec::new();
        formats.push("ps".to_string());
        formats.push("top".to_string());
        formats.push("htop".to_string());
        formats.push("procfs".to_string());
        assert(views(formats@) =~= seq!["ps"@, "top"@, "htop"@, "procfs"@]);
        ProcessParser { name: "process".to_string(), supported_formats: formats }
    }

    /// Whether a text looks like a process listing.
    pub fn can_parse(&self, input: &str) -> (r: bool)
        ensures
            r == looks_like_processes(input@),
    {
        contains(input, "PID") || begins_with_digit(input) || (any_wide_line(input) && (contains(
            input,
            "USER",
        ) || contains(input, "TTY") || contains(input, "CMD") || contains(input, "COMMAND")))
    }

    /// Reads the output of `ps`.
    pub fn parse_ps_output(&self, output: &str) -> (r: ParseResult<ProcessList>)
        ensures
            is_listing(r, ListingKind::Ps, output@),
    {
        read_listing(ListingKind::Ps, output)
    }

    /// Reads the output of `top`.
    pub fn parse_top_output(&self, output: &str) -> (r: ParseResult<ProcessList>)
        ensures
            is_listing(r, ListingKind::Top, output@),
    {
        read_listing(ListingKind::Top, output)
    }

    /// Reads lines in the manner of `/proc`.
    pub fn parse_procfs_data(&self, data: &str) -> (r: ParseResult<ProcessList>)
        ensures
            is_listing(r, ListingKind::Procfs, data@),
    {
        read_listing(ListingKind::Procfs, data)
    }

    /// Reads a process listing in whichever of the formats it is in.
    pub fn parse_processes(&self, input: &str) -> (r: ParseResult<ProcessList>)
        ensures
            match listing_kind(input@) {
                Some(kind) => is_listing(r, kind, input@),
                None => format_refused(r, "Unable to determine process data format"@),
            },
    {
        if contains(input, "PID") && contains(input, "TTY") && contains(input, "TIME") {
            self.parse_ps_output(input)
        } else if contains(input, "PID") && contains(input, "USER") && contains(input, "%CPU") {
            self.parse_top_output(input)
        } else if begins_with_digit(input) {
            self.parse_procfs_data(input)
        } else {
            Err(ParseError::InvalidFormat("Unable to determine process data format".to_string()))
        }
    }
}

impl Parser<ParsedRecord> for ProcessParser {
    fn parse(&self, input: &str) -> (r: ParseResult<ParsedRecord>)
        ensures
            match listing_kind(input@) {
                Some(kind) => match r {
                    Ok(ParsedRecord::Processes(list)) => is_listing(Ok(list), kind, input@),
                    Ok(_) => false,
                    Err(e) => is_listing(Err(e), kind, input@),
                },
                None => format_refused(r, "Unable to determine process data format"@),
            },
    {
        match self.parse_processes(input) {
            Ok(list) => Ok(ParsedRecord::Processes(list)),
            Err(e) => Err(e),
        }
    }

    fn name(&self) -> (r: &str)
        ensures
            r@ == self.name_text(),
    {
        self.name.as_str()
    }

    fn can_parse(&self, input: &str) -> (r: bool)
        ensures
            r == looks_like_processes(input@),
    {
        ProcessParser::can_parse(self, input)
    }
}

} // verus!
