//! The platforms and the commands that each of them offers.

use vstd::prelude::*;
use crate::json::{
    entry_views, member_u64, set_member, with_member, JsonMember, JsonSpec, JsonValue, MemberSpec,
};
use crate::text::{
    after, before, chars_of, decimal_text, find_char, find_chars, find_from, first_occurrence,
    lines, parse_u64, parsed_unsigned, replace_char, replaced, same_text, split_lines, split_words,
    strip_trailing, text_after, text_before, text_of, trim, trimmed, views, without_trailing, words,
};

verus! {

/// The operating system families that are told apart.
#[derive(Debug, Clone, Copy, PartialEq, Eq, Structural)]
pub enum Platform {
    Linux,
    MacOS,
    Windows,
    Unknown,
}

/// The kinds of measurement that a platform offers a command for.
#[derive(Debug, Clone, Copy, PartialEq, Eq, Structural)]
pub enum CommandType {
    Uptime,
    MemInfo,
    NetStat,
    Iostat,
    ProcessList,
}

/// The views of a list of string slices.
pub open spec fn str_views(v: Seq<&'static str>) -> Seq<Seq<char>> {
    Seq::new(v.len(), |i: int| v[i]@)
}

/// The platform that an operating system name stands for.
pub open spec fn platform_of(os: Seq<char>) -> Platform {
    if os == "linux"@ {
        Platform::Linux
    } else if os == "macos"@ {
        Platform::MacOS
    } else if os == "windows"@ {
        Platform::Windows
    } else {
        Platform::Unknown
    }
}

/// The executable that measures `command_type` on `platform`.
pub open spec fn program_of(command_type: CommandType, platform: Platform) -> Seq<char> {
    match command_type {
        CommandType::Uptime => match platform {
            Platform::Windows => "wmic"@,
            _ => "uptime"@,
        },
        CommandType::MemInfo => match platform {
            Platform::MacOS => "vm_stat"@,
            Platform::Windows => "wmic"@,
            _ => "free"@,
        },
        CommandType::NetStat => "netstat"@,
        CommandType::Iostat => match platform {
            Platform::Windows => "typeperf"@,
            _ => "iostat"@,
        },
        CommandType::ProcessList => match platform {
            Platform::Windows => "tasklist"@,
            _ => "ps"@,
        },
    }
}

/// The arguments that the executable of [`program_of`] is given by default.
pub open spec fn default_arguments(command_type: CommandType, platform: Platform) -> Seq<
    Seq<char>,
> {
    match command_type {
        CommandType::Uptime => match platform {
            Platform::Windows => seq!["os"@, "get"@, "lastbootuptime"@],
            _ => seq![],
        },
        CommandType::MemInfo => match platform {
            Platform::MacOS => seq![],
            Platform::Windows => seq!["os"@, "get"@, "totalvisiblememorysize,freephysicalmemory"@],
            _ => seq!["-h"@],
        },
        CommandType::NetStat => match platform {
            Platform::MacOS => seq!["-an"@],
            Platform::Windows => seq!["-an"@],
            _ => seq!["-tuln"@],
        },
        CommandType::Iostat => match platform {
            Platform::Windows => seq![
                "\\PhysicalDisk(*)\\Disk Read Bytes/sec"@,
                "\\PhysicalDisk(*)\\Disk Write Bytes/sec"@,
            ],
            _ => seq![],
        },
        CommandType::ProcessList => match platform {
            Platform::MacOS => seq![],
            Platform::Windows => seq![],
            _ => seq!["aux"@],
        },
    }
}

/// A platform that is not known is measured with the commands of Linux.
pub proof fn law_unknown_platform_uses_linux_commands(command_type: CommandType)
    ensures
        program_of(command_type, Platform::Unknown) == program_of(command_type, Platform::Linux),
        default_arguments(command_type, Platform::Unknown) == default_arguments(
            command_type,
            Platform::Linux,
        ),
{
}

/// The platform that an operating system name stands for. A name that is
/// not known gives [`Platform::Unknown`].
pub fn platform_from_os(os: &str) -> (platform: Platform)
    ensures
        platform == platform_of(os@),
{
    if same_text(os, "linux") {
        Platform::Linux
    } else if same_text(os, "macos") {
        Platform::MacOS
    } else if same_text(os, "windows") {
        Platform::Windows
    } else {
        Platform::Unknown
    }
}

/// The executable and the default arguments that measure `command_type`
/// on `platform`. A platform that is not known gets the commands of Linux.
pub fn get_platform_specific_command(command_type: CommandType, platform: &Platform) -> (r: (
    String,
    Vec<&'static str>,
))
    ensures
        r.0@ == program_of(command_type, *platform),
        str_views(r.1@) == default_arguments(command_type, *platform),
{
    let r: (String, Vec<&'static str>) = match command_type {
        CommandType::Uptime => match platform {
            Platform::Windows => ("wmic".to_string(), vec!["os", "get", "lastbootuptime"]),
            _ => ("uptime".to_string(), Vec::new()),
        },
        CommandType::MemInfo => match platform {
            Platform::MacOS => ("vm_stat".to_string(), Vec::new()),
            Platform::Windows => (
                "wmic".to_string(),
                vec!["os", "get", "totalvisiblememorysize,freephysicalmemory"],
            ),
            _ => ("free".to_string(), vec!["-h"]),
        },
        CommandType::NetStat => match platform {
            Platform::MacOS => ("netstat".to_string(), vec!["-an"]),
            Platform::Windows => ("netstat".to_string(), vec!["-an"]),
            _ => ("netstat".to_string(), vec!["-tuln"]),
        },
        CommandType::Iostat => match platform {
            Platform::Windows => (
                "typeperf".to_string(),
                vec![
                    "\\PhysicalDisk(*)\\Disk Read Bytes/sec",
                    "\\PhysicalDisk(*)\\Disk Write Bytes/sec",
                ],
            ),
            _ => ("iostat".to_string(), Vec::new()),
        },
        CommandType::ProcessList => match platform {
            Platform::MacOS => ("ps".to_string(), Vec::new()),
            Platform::Windows => ("tasklist".to_string(), Vec::new()),
            _ => ("ps".to_string(), vec!["aux"]),
        },
    };
    assert(str_views(r.1@) =~= default_arguments(command_type, *platform));
    r
}

/// The name of a platform.
pub fn platform_name(platform: &Platform) -> (name: &'static str)
    ensures
        name@ == platform_name_text(*platform),
{
    match platform {
        Platform::Linux => "Linux",
        Platform::MacOS => "macOS",
        Platform::Windows => "Windows",
        Platform::Unknown => "Unknown",
    }
}

/// The name of a platform.
pub open spec fn platform_name_text(platform: Platform) -> Seq<char> {
    match platform {
        Platform::Linux => "Linux"@,
        Platform::MacOS => "macOS"@,
        Platform::Windows => "Windows"@,
        Platform::Unknown => "Unknown"@,
    }
}

/// The page size that a line gives: the first word behind its first
/// `page size of`, up to the next one if there is one, without closing
/// brackets at its end, if that word is a number.
pub open spec fn page_size_of(line: Seq<char>) -> Option<nat> {
    let pattern = "page size of"@;
    let rest = after(line, first_occurrence(line, pattern, 0) + pattern.len());
    let piece = before(rest, first_occurrence(rest, pattern, 0));
    let w = words(trimmed(without_trailing(trimmed(piece), ')')));
    if w.len() > 0 {
        parsed_unsigned(w[0], u64::MAX as nat)
    } else {
        None
    }
}

/// The name under which a counter is reported: a short name for the
/// free, active, inactive and wired pages, else the name of the counter
/// with underscores for its points.
pub open spec fn counter_key(key: Seq<char>) -> Seq<char> {
    let k = trimmed(key);
    if k == "Pages free"@ {
        "free_count"@
    } else if k == "Pages active"@ {
        "active_count"@
    } else if k == "Pages inactive"@ {
        "inactive_count"@
    } else if k == "Pages wired"@ {
        "wired_count"@
    } else {
        replaced(k, '.', '_')
    }
}

/// The counters after one more line. A line that holds `page size of`
/// gives the page size. Any other line with a colon gives a counter, if a
/// number with a point behind it follows the colon.
pub open spec fn read_counter_line(members: Seq<MemberSpec>, line: Seq<char>) -> Seq<MemberSpec> {
    if first_occurrence(line, "page size of"@, 0) < line.len() {
        match page_size_of(line) {
            Some(n) => with_member(members, "page_size"@, JsonSpec::Number(decimal_text(n))),
            None => members,
        }
    } else {
        let colon = find_from(line, ':', 0);
        if colon < line.len() {
            let value = trimmed(line.subrange(colon + 1, line.len() as int));
            if value.len() > 0 && value.last() == '.' {
                match parsed_unsigned(trimmed(value.drop_last()), u64::MAX as nat) {
                    Some(n) => with_member(
                        members,
                        counter_key(line.subrange(0, colon)),
                        JsonSpec::Number(decimal_text(n)),
                    ),
                    None => members,
                }
            } else {
                members
            }
        } else {
            members
        }
    }
}

/// The counters of all the given lines.
pub open spec fn read_counters(all: Seq<Seq<char>>) -> Seq<MemberSpec>
    decreases all.len(),
{
    if all.len() == 0 {
        Seq::empty()
    } else {
        read_counter_line(read_counters(all.drop_last()), all.last())
    }
}

/// The counters with the free bytes behind them, where the page size and
/// the free pages are there and their product fits in 64 bits.
pub open spec fn with_free_bytes(members: Seq<MemberSpec>) -> Seq<MemberSpec> {
    let found = JsonSpec::Object(members);
    let size = found.member_unsigned("page_size"@);
    let free = found.member_unsigned("free_count"@);
    if size is Some && free is Some && size.unwrap() * free.unwrap() <= u64::MAX {
        with_member(
            members,
            "free_bytes"@,
            JsonSpec::Number(decimal_text(size.unwrap() * free.unwrap())),
        )
    } else {
        members
    }
}

/// What the output of `vm_stat` counts: the page size, the counters in
/// pages, and the free memory in bytes.
pub open spec fn page_counters(output: Seq<char>) -> JsonSpec {
    JsonSpec::Object(with_free_bytes(read_counters(lines(output))))
}

/// The page size that a line gives, where `at` is the place of its first
/// `page size of`.
fn read_page_size(line: &str, at: usize) -> (r: Option<u64>)
    requires
        at == first_occurrence(line@, "page size of"@, 0),
        at < line@.len(),
    ensures
        r is Some <==> page_size_of(line@) is Some,
        r matches Some(n) ==> page_size_of(line@) == Some(n as nat),
{
    let pattern = chars_of("page size of");
    let chars = chars_of(line);
    let from: usize = if pattern.len() <= chars.len() - at {
        at + pattern.len()
    } else {
        chars.len()
    };
    let rest_text = if pattern.len() <= chars.len() - at {
        text_of(&chars, from, chars.len())
    } else {
        String::new()
    };
    assert(rest_text@ =~= after(line@, at + pattern@.len()));
    let rest = chars_of(rest_text.as_str());
    let second = find_chars(&rest, &pattern, 0);
    let piece = text_of(&rest, 0, second);
    assert(piece@ =~= before(rest@, second as int));
    let inner = trim(piece.as_str());
    let bare = strip_trailing(inner.as_str(), ')');
    let cleaned = trim(bare.as_str());
    let w = split_words(cleaned.as_str());
    if w.len() > 0 {
        assert(views(w@)[0] == w@[0]@);
        parse_u64(w[0].as_str())
    } else {
        assert(views(w@).len() == w@.len());
        None
    }
}

/// The name under which a counter is reported.
fn report_key(key: &str) -> (r: String)
    ensures
        r@ == counter_key(key@),
{
    let k = trim(key);
    if same_text(k.as_str(), "Pages free") {
        "free_count".to_string()
    } else if same_text(k.as_str(), "Pages active") {
        "active_count".to_string()
    } else if same_text(k.as_str(), "Pages inactive") {
        "inactive_count".to_string()
    } else if same_text(k.as_str(), "Pages wired") {
        "wired_count".to_string()
    } else {
        replace_char(k.as_str(), '.', '_')
    }
}

/// Reads the counters of `vm_stat`.
pub fn parse_vmstat_output(output: &str) -> (r: JsonValue)
    ensures
        r@ == page_counters(output@),
{
    let all = split_lines(output);
    let ghost all_lines = lines(output@);
    let pattern = chars_of("page size of");
    let mut members: Vec<JsonMember> = Vec::new();
    let mut i: usize = 0;
    proof {
        assert(all_lines.take(0) =~= Seq::<Seq<char>>::empty());
        assert(entry_views(members@) =~= Seq::<MemberSpec>::empty());
    }
    while i < all.len()
        invariant
            0 <= i <= all@.len(),
            views(all@) == all_lines,
            pattern@ == "page size of"@,
            entry_views(members@) == read_counters(all_lines.take(i as int)),
        decreases all@.len() - i,
    {
        proof {
            assert(all_lines.take(i + 1).drop_last() =~= all_lines.take(i as int));
            assert(all_lines.take(i + 1).last() == all@[i as int]@);
        }
        let line = all[i].as_str();
        let chars = chars_of(line);
        let at = find_chars(&chars, &pattern, 0);
        if at < chars.len() {
            match read_page_size(line, at) {
                Some(n) => {
                    set_member(&mut members, "page_size", JsonValue::unsigned(n));
                },
                None => {},
            }
        } else {
            let colon = find_char(line, ':');
            if colon < chars.len() {
                let value_part = text_after(line, colon + 1);
                let value = trim(value_part.as_str());
                let digits = chars_of(value.as_str());
                if digits.len() > 0 && digits[digits.len() - 1] == '.' {
                    let body = text_of(&digits, 0, digits.len() - 1);
                    assert(body@ =~= value@.drop_last());
                    let number = trim(body.as_str());
                    match parse_u64(number.as_str()) {
                        Some(n) => {
                            let key_part = text_before(line, colon);
                            let key = report_key(key_part.as_str());
                            set_member(&mut members, key.as_str(), JsonValue::unsigned(n));
                        },
                        None => {},
                    }
                }
            }
        }
        i += 1;
    }
    assert(all_lines.take(all@.len() as int) =~= all_lines);
    let size = member_u64(&members, "page_size");
    let free = member_u64(&members, "free_count");
    if size.is_some() && free.is_some() {
        match size.unwrap().checked_mul(free.unwrap()) {
            Some(bytes) => {
                set_member(&mut members, "free_bytes", JsonValue::unsigned(bytes));
            },
            None => {},
        }
    }
    JsonValue::object(members)
}

} // verus!
