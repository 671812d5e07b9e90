//! Parsers of command output.
//!
//! A parser first tells cheaply whether a text looks like its format, and
//! then reads it line by line into records. A line that does not fit is
//! passed over; only a text without any line is refused as empty.

pub mod network;
pub mod process;

use std::marker::PhantomData;
use vstd::prelude::*;
use crate::text::{is_digit, lines, split_lines, split_words, views, words};

verus! {

/// Why a text could not be read.
#[derive(Debug, Clone, PartialEq)]
pub enum ParseError {
    /// The text holds nothing to read.
    EmptyInput,
    /// The text is not in a format that the parser knows.
    InvalidFormat(String),
    /// A field that must be there is missing.
    MissingField(String),
    /// The given text is no whole number.
    ParseIntError(String),
    /// The given text is no decimal number.
    ParseFloatError(String),
    /// Anything else.
    Other(String),
}

/// The result of reading a text.
pub type ParseResult<T> = Result<T, ParseError>;

impl ParseError {
    /// The message of the error.
    pub open spec fn message_text(self) -> Seq<char> {
        match self {
            ParseError::EmptyInput => "输入数据为空"@,
            ParseError::InvalidFormat(why) => "数据格式无效: "@ + why@,
            ParseError::MissingField(field) => "缺少必需字段: "@ + field@,
            ParseError::ParseIntError(text) => "数值解析错误: "@ + text@,
            ParseError::ParseFloatError(text) => "浮点数解析错误: "@ + text@,
            ParseError::Other(why) => "其他解析错误: "@ + why@,
        }
    }

    /// The message of the error.
    pub fn message(&self) -> (out: String)
        ensures
            out@ == self.message_text(),
    {
        let mut out = String::new();
        match self {
            ParseError::EmptyInput => {
                crate::text::append(&mut out, "输入数据为空");
            },
            ParseError::InvalidFormat(why) => {
                crate::text::append(&mut out, "数据格式无效: ");
                crate::text::append(&mut out, why.as_str());
            },
            ParseError::MissingField(field) => {
                crate::text::append(&mut out, "缺少必需字段: ");
                crate::text::append(&mut out, field.as_str());
            },
            ParseError::ParseIntError(text) => {
                crate::text::append(&mut out, "数值解析错误: ");
                crate::text::append(&mut out, text.as_str());
            },
            ParseError::ParseFloatError(text) => {
                crate::text::append(&mut out, "浮点数解析错误: ");
                crate::text::append(&mut out, text.as_str());
            },
            ParseError::Other(why) => {
                crate::text::append(&mut out, "其他解析错误: ");
                crate::text::append(&mut out, why.as_str());
            },
        }
        assert(out@ =~= self.message_text());
        out
    }
}

/// An error that refuses a format with `message`.
pub open spec fn format_refused<T>(r: ParseResult<T>, message: Seq<char>) -> bool {
    r matches Err(ParseError::InvalidFormat(m)) && m@ == message
}

/// An error that refuses `text` as a whole number.
pub open spec fn number_refused<T>(r: ParseResult<T>, text: Seq<char>) -> bool {
    r matches Err(ParseError::ParseIntError(m)) && m@ == text
}

/// An error that refuses `text` as a decimal number.
pub open spec fn decimal_refused<T>(r: ParseResult<T>, text: Seq<char>) -> bool {
    r matches Err(ParseError::ParseFloatError(m)) && m@ == text
}

/// What is read from a text.
pub trait ParsedData {
    /// The name of the kind of data.
    fn data_type(&self) -> (r: &str);
}

/// What the parsers of the library read.
#[derive(Debug, Clone, PartialEq)]
pub enum ParsedRecord {
    Process(process::ProcessInfo),
    Processes(process::ProcessList),
    Connections(network::NetworkConnectionList),
    Interfaces(network::NetworkInterfaceList),
    Routes(network::RoutingTable),
}

impl ParsedRecord {
    /// The name of the kind of data.
    pub open spec fn data_type_text(self) -> Seq<char> {
        match self {
            ParsedRecord::Process(_) => "process_info"@,
            ParsedRecord::Processes(_) => "process_list"@,
            ParsedRecord::Connections(_) => "network_connection_list"@,
            ParsedRecord::Interfaces(_) => "network_interface_list"@,
            ParsedRecord::Routes(_) => "routing_table"@,
        }
    }
}

impl ParsedData for ParsedRecord {
    fn data_type(&self) -> (r: &str)
        ensures
            r@ == self.data_type_text(),
    {
        match self {
            ParsedRecord::Process(_) => "process_info",
            ParsedRecord::Processes(_) => "process_list",
            ParsedRecord::Connections(_) => "network_connection_list",
            ParsedRecord::Interfaces(_) => "network_interface_list",
            ParsedRecord::Routes(_) => "routing_table",
        }
    }
}

/// Whether some line of `input` has more than three words.
pub open spec fn has_wide_line(input: Seq<char>) -> bool {
    exists|i: int| 0 <= i < lines(input).len() && words(#[trigger] lines(input)[i]).len() > 3
}

/// Whether some line of `input` has more than three words.
pub fn any_wide_line(input: &str) -> (r: bool)
    ensures
        r == has_wide_line(input@),
{
    let all = split_lines(input);
    let mut i: usize = 0;
    while i < all.len()
        invariant
            0 <= i <= all@.len(),
            views(all@) == lines(input@),
            forall|k: int| 0 <= k < i ==> words(#[trigger] lines(input@)[k]).len() <= 3,
        decreases all@.len() - i,
    {
        let parts = split_words(all[i].as_str());
        assert(views(all@)[i as int] == all@[i as int]@);
        if parts.len() > 3 {
            assert(views(parts@).len() == parts@.len());
            assert(words(lines(input@)[i as int]).len() > 3);
            return true;
        }
        assert(views(parts@).len() == parts@.len());
        i += 1;
    }
    false
}

/// Whether `input` begins with a digit.
pub open spec fn starts_with_digit(input: Seq<char>) -> bool {
    input.len() > 0 && is_digit(input[0])
}

/// Whether `input` begins with a digit.
pub fn begins_with_digit(input: &str) -> (r: bool)
    ensures
        r == starts_with_digit(input@),
{
    let chars = crate::text::chars_of(input);
    chars.len() > 0 && '0' <= chars[0] && chars[0] <= '9'
}

/// A reader of one format of text.
pub trait Parser<T> {
    /// Reads a text.
    fn parse(&self, input: &str) -> (r: ParseResult<T>);

    /// The name of the parser.
    fn name(&self) -> (r: &str);

    /// Whether a text looks like the parser's format.
    fn can_parse(&self, input: &str) -> (r: bool);
}

/// The parser at `at` accepts `input`.
pub open spec fn accepts<T, P: Parser<T>>(parsers: Seq<P>, input: &str, at: int) -> bool {
    0 <= at < parsers.len() && call_ensures(P::can_parse, (&parsers[at], input), true)
}

/// The parser at `at` does not accept `input`.
pub open spec fn rejects<T, P: Parser<T>>(parsers: Seq<P>, input: &str, at: int) -> bool {
    0 <= at < parsers.len() && call_ensures(P::can_parse, (&parsers[at], input), false)
}

/// The parser at `at` accepts `input` and then cannot read it.
pub open spec fn fails_on<T, P: Parser<T>>(parsers: Seq<P>, input: &str, at: int) -> bool {
    accepts::<T, P>(parsers, input, at) && exists|e: ParseError| #[trigger]
        call_ensures(P::parse, (&parsers[at], input), Err::<T, ParseError>(e))
}

/// The parser at `at` is of no use on `input`: it does not accept it, or
/// it cannot read it.
pub open spec fn passes_over<T, P: Parser<T>>(parsers: Seq<P>, input: &str, at: int) -> bool {
    rejects::<T, P>(parsers, input, at) || fails_on::<T, P>(parsers, input, at)
}

/// The parser at `at` is the first that accepts `input`: it says so, and
/// each parser before it says that it does not.
pub open spec fn is_first_accepting<T, P: Parser<T>>(parsers: Seq<P>, input: &str, at: int) -> bool {
    &&& accepts::<T, P>(parsers, input, at)
    &&& forall|j: int| 0 <= j < at ==> #[trigger] rejects::<T, P>(parsers, input, j)
}

/// No parser accepts `input`: each says that it does not.
pub open spec fn none_accepting<T, P: Parser<T>>(parsers: Seq<P>, input: &str) -> bool {
    forall|j: int| 0 <= j < parsers.len() ==> #[trigger] rejects::<T, P>(parsers, input, j)
}

/// Whether a parser can give `name` as its name.
pub open spec fn named_by<T, P: Parser<T>>(parser: P, name: Seq<char>) -> bool {
    exists|given: &str| #[trigger] call_ensures(P::name, (&parser,), given) && given@ == name
}

/// What reading `input` with the parsers gives: the data of the first
/// parser that accepts the text and can read it, each parser before it
/// being of no use; or, where every parser is of no use, the error of the
/// first that accepted the text, and where none accepted it the refusal
/// of the format.
pub open spec fn is_read_by<T, P: Parser<T>>(
    r: ParseResult<T>,
    parsers: Seq<P>,
    input: &str,
) -> bool {
    match r {
        Ok(_) => exists|at: int|
            #![trigger accepts::<T, P>(parsers, input, at)]
            accepts::<T, P>(parsers, input, at) && call_ensures(P::parse, (&parsers[at], input), r)
                && forall|j: int| 0 <= j < at ==> #[trigger] passes_over::<T, P>(parsers, input, j),
        Err(_) => {
            &&& forall|j: int|
                0 <= j < parsers.len() ==> #[trigger] passes_over::<T, P>(parsers, input, j)
            &&& (none_accepting::<T, P>(parsers, input) && format_refused(
                r,
                "没有找到适合的解析器"@,
            )) || exists|at: int|
                #![trigger is_first_accepting::<T, P>(parsers, input, at)]
                is_first_accepting::<T, P>(parsers, input, at) && call_ensures(
                    P::parse,
                    (&parsers[at], input),
                    r,
                )
        },
    }
}

/// The parsers that are tried on a text, in the order in which they were
/// registered.
pub struct ParserRegistry<T: ParsedData, P: Parser<T>> {
    parsers: Vec<P>,
    data: PhantomData<T>,
}

impl<T: ParsedData, P: Parser<T>> ParserRegistry<T, P> {
    /// The parsers, in order.
    pub closed spec fn parsers(&self) -> Seq<P> {
        self.parsers@
    }

    /// A registry without parsers.
    pub fn new() -> (r: Self)
        ensures
            r.parsers().len() == 0,
    {
        ParserRegistry { parsers: Vec::new(), data: PhantomData }
    }

    /// Registers a parser behind those that are registered.
    pub fn register(&mut self, parser: P)
        ensures
            final(self).parsers() == old(self).parsers().push(parser),
    {
        self.parsers.push(parser);
    }

    /// The place of the first parser that accepts `input`.
    pub fn find_place(&self, input: &str) -> (r: Option<usize>)
        ensures
            match r {
                Some(at) => is_first_accepting::<T, P>(self.parsers(), input, at as int),
                None => none_accepting::<T, P>(self.parsers(), input),
            },
    {
        let mut i: usize = 0;
        while i < self.parsers.len()
            invariant
                0 <= i <= self.parsers@.len(),
                forall|j: int| 0 <= j < i ==> #[trigger] rejects::<T, P>(self.parsers@, input, j),
            decreases self.parsers@.len() - i,
        {
            if self.parsers[i].can_parse(input) {
                return Some(i);
            }
            i += 1;
        }
        None
    }

    /// The first parser that accepts `input`.
    pub fn find_parser(&self, input: &str) -> (r: Option<&P>)
        ensures
            match r {
                Some(parser) => exists|at: int|
                    #![trigger is_first_accepting::<T, P>(self.parsers(), input, at)]
                    is_first_accepting::<T, P>(self.parsers(), input, at) && self.parsers()[at]
                        == *parser,
                None => none_accepting::<T, P>(self.parsers(), input),
            },
    {
        match self.find_place(input) {
            Some(at) => Some(&self.parsers[at]),
            None => None,
        }
    }

    /// Reads `input` with the first parser that accepts it and can read
    /// it. A parser that accepts the text and fails on it does not end the
    /// search: the parsers behind it are tried. Where none reads the text,
    /// the error of the first parser that accepted it is returned, and
    /// where none accepted it the format is refused.
    pub fn parse(&self, input: &str) -> (r: ParseResult<T>)
        ensures
            is_read_by::<T, P>(r, self.parsers(), input),
    {
        let mut first: Option<ParseError> = None;
        let mut i: usize = 0;
        while i < self.parsers.len()
            invariant
                0 <= i <= self.parsers@.len(),
                forall|j: int| 0 <= j < i ==> #[trigger] passes_over::<T, P>(self.parsers@, input, j),
                match first {
                    None => forall|j: int|
                        0 <= j < i ==> #[trigger] rejects::<T, P>(self.parsers@, input, j),
                    Some(e) => exists|at: int|
                        #![trigger is_first_accepting::<T, P>(self.parsers@, input, at)]
                        at < i && is_first_accepting::<T, P>(self.parsers@, input, at)
                            && call_ensures(
                            P::parse,
                            (&self.parsers@[at], input),
                            Err::<T, ParseError>(e),
                        ),
                },
            decreases self.parsers@.len() - i,
        {
            if self.parsers[i].can_parse(input) {
                assert(accepts::<T, P>(self.parsers@, input, i as int));
                match self.parsers[i].parse(input) {
                    Ok(data) => {
                        return Ok(data);
                    },
                    Err(e) => {
                        assert(fails_on::<T, P>(self.parsers@, input, i as int));
                        if first.is_none() {
                            assert(is_first_accepting::<T, P>(self.parsers@, input, i as int));
                            first = Some(e);
                        }
                    },
                }
            } else {
                assert(rejects::<T, P>(self.parsers@, input, i as int));
            }
            i += 1;
        }
        match first {
            Some(e) => Err(e),
            None => Err(ParseError::InvalidFormat("没有找到适合的解析器".to_string())),
        }
    }

    /// The names of the parsers, in order: each as its parser gives it.
    pub fn parser_names(&self) -> (names: Vec<String>)
        ensures
            names@.len() == self.parsers().len(),
            forall|j: int|
                0 <= j < names@.len() ==> named_by::<T, P>(
                    self.parsers()[j],
                    (#[trigger] names@[j])@,
                ),
    {
        let mut names: Vec<String> = Vec::new();
        let mut i: usize = 0;
        while i < self.parsers.len()
            invariant
                0 <= i <= self.parsers@.len(),
                names@.len() == i,
                forall|j: int|
                    0 <= j < i ==> named_by::<T, P>(self.parsers@[j], (#[trigger] names@[j])@),
            decreases self.parsers@.len() - i,
        {
            let name = self.parsers[i].name();
            names.push(name.to_owned());
            i += 1;
        }
        names
    }
}

/// One of the parsers that come with the library.
#[derive(Debug, Clone, PartialEq)]
pub enum BuiltinParser {
    Process(process::ProcessParser),
    Network(network::NetworkParser),
}

impl Parser<ParsedRecord> for BuiltinParser {
    fn parse(&self, input: &str) -> (r: ParseResult<ParsedRecord>)
        ensures
            match *self {
                BuiltinParser::Process(p) => call_ensures(
                    <process::ProcessParser as Parser<ParsedRecord>>::parse,
                    (&p, input),
                    r,
                ),
                BuiltinParser::Network(p) => call_ensures(
                    <network::NetworkParser as Parser<ParsedRecord>>::parse,
                    (&p, input),
                    r,
                ),
            },
    {
        match self {
            BuiltinParser::Process(p) => Parser::parse(p, input),
            BuiltinParser::Network(p) => Parser::parse(p, input),
        }
    }

    fn name(&self) -> (r: &str)
        ensures
            r@ == match *self {
                BuiltinParser::Process(p) => p.name_text(),
                BuiltinParser::Network(p) => p.name_text(),
            },
    {
        match self {
            BuiltinParser::Process(p) => Parser::name(p),
            BuiltinParser::Network(p) => Parser::name(p),
        }
    }

    fn can_parse(&self, input: &str) -> (r: bool)
        ensures
            r == match *self {
                BuiltinParser::Process(_) => process::looks_like_processes(input@),
                BuiltinParser::Network(_) => network::looks_like_network(input@),
            },
    {
        match self {
            BuiltinParser::Process(p) => Parser::can_parse(p, input),
            BuiltinParser::Network(p) => Parser::can_parse(p, input),
        }
    }
}

} // verus!
