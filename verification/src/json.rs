//! Structured values: the payloads of calls and results.
//!
//! Arguments arrive as JSON text and are read by `serde_json`. What was
//! read is held in [`JsonValue`], a plain tree, and everything after the
//! reading works on that tree.

use vstd::prelude::*;
use crate::text::{
    decimal_text, lemma_decimal_text_value, parse_u64, parsed_unsigned, same_text, unsigned_text,
    views,
};
use crate::decimal::{parsed_decimal, Decimal};

verus! {

/// A structured value.
#[derive(Debug, PartialEq)]
pub enum JsonValue {
    /// No value.
    Null,
    /// A truth value.
    Bool(bool),
    /// A number, held as its text.
    Number(String),
    /// A text.
    Text(String),
    /// A list of values.
    Array(Vec<JsonValue>),
    /// Named values, in order. A name is looked up from the front.
    Object(Vec<JsonMember>),
}

/// A named value of an object.
#[derive(Debug, PartialEq)]
pub struct JsonMember {
    pub name: String,
    pub value: JsonValue,
}

/// The mathematical form of a [`JsonValue`].
pub enum JsonSpec {
    Null,
    Bool(bool),
    Number(Seq<char>),
    Text(Seq<char>),
    Array(Seq<JsonSpec>),
    Object(Seq<MemberSpec>),
}

/// The mathematical form of a [`JsonMember`].
pub struct MemberSpec {
    pub name: Seq<char>,
    pub value: JsonSpec,
}

impl View for JsonValue {
    type V = JsonSpec;

    open spec fn view(&self) -> JsonSpec
        decreases self,
    {
        match self {
            JsonValue::Null => JsonSpec::Null,
            JsonValue::Bool(b) => JsonSpec::Bool(*b),
            JsonValue::Number(n) => JsonSpec::Number(n@),
            JsonValue::Text(s) => JsonSpec::Text(s@),
            JsonValue::Array(items) => JsonSpec::Array(
                Seq::new(
                    items@.len(),
                    |i: int|
                        if 0 <= i < items@.len() {
                            items@[i].view()
                        } else {
                            JsonSpec::Null
                        },
                ),
            ),
            JsonValue::Object(entries) => JsonSpec::Object(
                Seq::new(
                    entries@.len(),
                    |i: int|
                        if 0 <= i < entries@.len() {
                            MemberSpec {
                                name: entries@[i].name@,
                                value: entries@[i].value.view(),
                            }
                        } else {
                            MemberSpec { name: Seq::empty(), value: JsonSpec::Null }
                        },
                ),
            ),
        }
    }
}

/// The views of a list of entries.
pub open spec fn entry_views(entries: Seq<JsonMember>) -> Seq<MemberSpec> {
    Seq::new(entries.len(), |i: int| MemberSpec { name: entries[i].name@, value: entries[i].value@ })
}

/// The views of a list of values.
pub open spec fn item_views(items: Seq<JsonValue>) -> Seq<JsonSpec> {
    Seq::new(items.len(), |i: int| items[i]@)
}

/// The first position at or after `from` whose entry is named `key`, or
/// the length.
pub open spec fn entry_position(entries: Seq<MemberSpec>, key: Seq<char>, from: int) -> int
    decreases entries.len() - from,
{
    if 0 <= from < entries.len() && entries[from].name != key {
        entry_position(entries, key, from + 1)
    } else {
        from
    }
}

/// The value of the first entry named `key`.
pub open spec fn entry_value(entries: Seq<MemberSpec>, key: Seq<char>) -> Option<JsonSpec> {
    let at = entry_position(entries, key, 0);
    if 0 <= at < entries.len() {
        Some(entries[at].value)
    } else {
        None
    }
}

/// The members with `value` under `name`: in place of the first member of
/// that name, or at the end where there is none.
pub open spec fn with_member(members: Seq<MemberSpec>, name: Seq<char>, value: JsonSpec) -> Seq<
    MemberSpec,
> {
    let at = entry_position(members, name, 0);
    if 0 <= at < members.len() {
        members.update(at, MemberSpec { name, value })
    } else {
        members.push(MemberSpec { name, value })
    }
}

/// An array whose items are the given texts.
pub open spec fn text_array(texts: Seq<Seq<char>>) -> JsonSpec {
    JsonSpec::Array(Seq::new(texts.len(), |i: int| JsonSpec::Text(texts[i])))
}

/// A member that holds a text.
pub open spec fn text_member(name: Seq<char>, value: Seq<char>) -> MemberSpec {
    MemberSpec { name, value: JsonSpec::Text(value) }
}

/// A member that holds a truth value.
pub open spec fn flag_member(name: Seq<char>, value: bool) -> MemberSpec {
    MemberSpec { name, value: JsonSpec::Bool(value) }
}

/// A member that holds an unsigned number.
pub open spec fn number_member(name: Seq<char>, value: nat) -> MemberSpec {
    MemberSpec { name, value: JsonSpec::Number(decimal_text(value)) }
}

/// A member that holds a list of texts.
pub open spec fn texts_member(name: Seq<char>, value: Seq<Seq<char>>) -> MemberSpec {
    MemberSpec { name, value: text_array(value) }
}

/// A member that holds an object.
pub open spec fn object_member(name: Seq<char>, value: Seq<MemberSpec>) -> MemberSpec {
    MemberSpec { name, value: JsonSpec::Object(value) }
}

impl JsonSpec {
    /// The member `key` of an object.
    pub open spec fn member(self, key: Seq<char>) -> Option<JsonSpec> {
        match self {
            JsonSpec::Object(entries) => entry_value(entries, key),
            _ => None,
        }
    }

    /// The text, if this is one.
    pub open spec fn text(self) -> Option<Seq<char>> {
        match self {
            JsonSpec::Text(s) => Some(s),
            _ => None,
        }
    }

    /// The truth value, if this is one.
    pub open spec fn truth(self) -> Option<bool> {
        match self {
            JsonSpec::Bool(b) => Some(b),
            _ => None,
        }
    }

    /// The number, if this is one that is written with digits alone and
    /// fits in 64 bits.
    pub open spec fn unsigned(self) -> Option<nat> {
        match self {
            JsonSpec::Number(n) => if n.len() > 0 && n[0] == '+' {
                None
            } else {
                parsed_unsigned(n, u64::MAX as nat)
            },
            _ => None,
        }
    }

    /// The number in thousandths, if this is a number in plain decimal
    /// notation.
    pub open spec fn thousandths(self) -> Option<int> {
        match self {
            JsonSpec::Number(n) => parsed_decimal(n),
            _ => None,
        }
    }

    /// The items, if this is a list.
    pub open spec fn items(self) -> Option<Seq<JsonSpec>> {
        match self {
            JsonSpec::Array(items) => Some(items),
            _ => None,
        }
    }

    /// The text of member `key`, if the object has that member and it is a
    /// text.
    pub open spec fn member_text(self, key: Seq<char>) -> Option<Seq<char>> {
        match self.member(key) {
            Some(v) => v.text(),
            None => None,
        }
    }

    /// The truth value of member `key`.
    pub open spec fn member_truth(self, key: Seq<char>) -> Option<bool> {
        match self.member(key) {
            Some(v) => v.truth(),
            None => None,
        }
    }

    /// The unsigned number of member `key`.
    pub open spec fn member_unsigned(self, key: Seq<char>) -> Option<nat> {
        match self.member(key) {
            Some(v) => v.unsigned(),
            None => None,
        }
    }
}

impl Clone for JsonValue {
    fn clone(&self) -> (r: Self)
        ensures
            r@ == self@,
        decreases self,
    {
        match self {
            JsonValue::Null => JsonValue::Null,
            JsonValue::Bool(b) => JsonValue::Bool(*b),
            JsonValue::Number(n) => JsonValue::Number(n.clone()),
            JsonValue::Text(s) => JsonValue::Text(s.clone()),
            JsonValue::Array(items) => {
                let mut out: Vec<JsonValue> = Vec::new();
                let mut i: usize = 0;
                while i < items.len()
                    invariant
                        0 <= i <= items@.len(),
                        out@.len() == i,
                        forall|k: int| 0 <= k < i ==> (#[trigger] out@[k])@ == items@[k]@,
                        forall|k: int|
                            0 <= k < items@.len() ==> decreases_to!(self => #[trigger] items@[k]),
                    decreases items@.len() - i,
                {
                    let item = &items[i];
                    out.push(item.clone());
                    i += 1;
                }
                let r = JsonValue::Array(out);
                assert(r@->Array_0 =~= self@->Array_0);
                r
            },
            JsonValue::Object(entries) => {
                let mut out: Vec<JsonMember> = Vec::new();
                let mut i: usize = 0;
                while i < entries.len()
                    invariant
                        0 <= i <= entries@.len(),
                        out@.len() == i,
                        forall|k: int|
                            0 <= k < i ==> (#[trigger] out@[k]).name@ == entries@[k].name@
                                && out@[k].value@ == entries@[k].value@,
                        forall|k: int|
                            0 <= k < entries@.len() ==> decreases_to!(self => #[trigger] entries@[k]),
                    decreases entries@.len() - i,
                {
                    let entry = &entries[i];
                    out.push(entry.clone());
                    i += 1;
                }
                let r = JsonValue::Object(out);
                assert(r@->Object_0 =~= self@->Object_0);
                r
            },
        }
    }
}

impl Clone for JsonMember {
    fn clone(&self) -> (r: Self)
        ensures
            r.name@ == self.name@,
            r.value@ == self.value@,
        decreases self,
    {
        JsonMember { name: self.name.clone(), value: self.value.clone() }
    }
}

/// The value type of `serde_json`, carried through as it is.
#[verifier::external_type_specification]
#[verifier::external_body]
pub struct ExSerdeValue(serde_json::Value);

/// The error type of `serde_json`, carried through as it is.
#[verifier::external_type_specification]
#[verifier::external_body]
pub struct ExSerdeError(serde_json::Error);

/// What `serde_json` reads from a text: the value, or nothing where the
/// text is no JSON document.
pub uninterp spec fn json_document(text: Seq<char>) -> Option<JsonSpec>;

/// What a value of `serde_json` holds.
pub uninterp spec fn serde_contents(value: serde_json::Value) -> JsonSpec;

/// Reads a JSON document with `serde_json::from_str`. The contract names
/// what is read: the same text always gives the same value, and an error
/// comes exactly where the text is no document.
#[verifier::external_body]
fn read_document(text: &str) -> (r: Result<serde_json::Value, serde_json::Error>)
    ensures
        r matches Ok(v) ==> json_document(text@) == Some(serde_contents(v)),
        r is Err ==> json_document(text@) is None,
{
    serde_json::from_str::<serde_json::Value>(text)
}

/// Copies a value of `serde_json` into a [`JsonValue`], variant by
/// variant: a number as the text that `serde_json` prints for it, the
/// members of an object in the order in which `serde_json` walks them.
#[verifier::external_body]
fn copy_value(v: &serde_json::Value) -> (r: JsonValue)
    ensures
        r@ == serde_contents(*v),
{
    match v {
        serde_json::Value::Null => JsonValue::Null,
        serde_json::Value::Bool(b) => JsonValue::Bool(*b),
        serde_json::Value::Number(n) => JsonValue::Number(n.to_string()),
        serde_json::Value::String(s) => JsonValue::Text(s.clone()),
        serde_json::Value::Array(a) => JsonValue::Array(a.iter().map(copy_value).collect()),
        serde_json::Value::Object(m) => JsonValue::Object(
            m.iter().map(|(k, x)| JsonMember { name: k.clone(), value: copy_value(x) }).collect(),
        ),
    }
}

/// The message of an error of `serde_json`, as its `Display` prints it.
#[verifier::external_body]
fn error_message(e: &serde_json::Error) -> (r: String) {
    e.to_string()
}

/// Reads a JSON document. The error is the reader's message.
pub fn parse_json(text: &str) -> (r: Result<JsonValue, String>)
    ensures
        r matches Ok(v) ==> json_document(text@) == Some(v@),
        r is Err ==> json_document(text@) is None,
{
    match read_document(text) {
        Ok(v) => Ok(copy_value(&v)),
        Err(e) => Err(error_message(&e)),
    }
}

impl JsonMember {
    /// A member that holds `value`.
    pub fn new(name: &str, value: JsonValue) -> (r: JsonMember)
        ensures
            r.name@ == name@,
            r.value@ == value@,
    {
        JsonMember { name: name.to_owned(), value }
    }

    /// A member that holds a text.
    pub fn text(name: &str, value: &str) -> (r: JsonMember)
        ensures
            r.name@ == name@,
            r.value@ == JsonSpec::Text(value@),
    {
        JsonMember { name: name.to_owned(), value: JsonValue::text(value) }
    }

    /// A member that holds a truth value.
    pub fn flag(name: &str, value: bool) -> (r: JsonMember)
        ensures
            r.name@ == name@,
            r.value@ == JsonSpec::Bool(value),
    {
        JsonMember { name: name.to_owned(), value: JsonValue::Bool(value) }
    }

    /// A member that holds an unsigned number.
    pub fn number(name: &str, value: u64) -> (r: JsonMember)
        ensures
            r.name@ == name@,
            r.value@ == JsonSpec::Number(decimal_text(value as nat)),
    {
        JsonMember { name: name.to_owned(), value: JsonValue::unsigned(value) }
    }

    /// A member that holds a list of texts.
    pub fn texts(name: &str, value: &Vec<String>) -> (r: JsonMember)
        ensures
            r.name@ == name@,
            r.value@ == text_array(views(value@)),
    {
        JsonMember { name: name.to_owned(), value: JsonValue::texts(value) }
    }
}

/// Where the first member named `key` stands, or the length.
pub fn find_member(members: &Vec<JsonMember>, key: &str) -> (at: usize)
    ensures
        at == entry_position(entry_views(members@), key@, 0),
        at <= members@.len(),
{
    let ghost all = entry_views(members@);
    let mut i: usize = 0;
    while i < members.len()
        invariant
            0 <= i <= members@.len(),
            all == entry_views(members@),
            entry_position(all, key@, i as int) == entry_position(all, key@, 0),
        decreases members@.len() - i,
    {
        if same_text(members[i].name.as_str(), key) {
            return i;
        }
        i += 1;
    }
    i
}

/// The value of the first member named `key`.
pub fn member_value<'a>(members: &'a Vec<JsonMember>, key: &str) -> (r: Option<&'a JsonValue>)
    ensures
        r is Some <==> entry_value(entry_views(members@), key@) is Some,
        r matches Some(v) ==> entry_value(entry_views(members@), key@) == Some(v@),
{
    let at = find_member(members, key);
    if at < members.len() {
        Some(&members[at].value)
    } else {
        None
    }
}

/// The unsigned number of the member `key`.
pub fn member_u64(members: &Vec<JsonMember>, key: &str) -> (r: Option<u64>)
    ensures
        r is Some <==> JsonSpec::Object(entry_views(members@)).member_unsigned(key@) is Some,
        r matches Some(n) ==> JsonSpec::Object(entry_views(members@)).member_unsigned(key@)
            == Some(n as nat),
{
    match member_value(members, key) {
        Some(v) => v.as_u64(),
        None => None,
    }
}

/// Puts `value` under `name`: in place of the first member of that name,
/// or at the end where there is none.
pub fn set_member(members: &mut Vec<JsonMember>, name: &str, value: JsonValue)
    ensures
        entry_views(final(members)@) == with_member(entry_views(old(members)@), name@, value@),
{
    let at = find_member(members, name);
    let ghost before = entry_views(members@);
    let member = JsonMember { name: name.to_owned(), value };
    if at < members.len() {
        members.set(at, member);
        assert(entry_views(members@) =~= before.update(
            at as int,
            MemberSpec { name: name@, value: value@ },
        ));
    } else {
        members.push(member);
        assert(entry_views(members@) =~= before.push(MemberSpec { name: name@, value: value@ }));
    }
}

impl JsonValue {
    /// A text value.
    pub fn text(s: &str) -> (r: JsonValue)
        ensures
            r@ == JsonSpec::Text(s@),
    {
        JsonValue::Text(s.to_owned())
    }

    /// A number value. It is read back as the same number.
    pub fn unsigned(n: u64) -> (r: JsonValue)
        ensures
            r@ == JsonSpec::Number(decimal_text(n as nat)),
            r@.unsigned() == Some(n as nat),
    {
        proof {
            lemma_decimal_text_value(n as nat);
        }
        JsonValue::Number(unsigned_text(n))
    }

    /// A list of text values.
    pub fn texts(list: &Vec<String>) -> (r: JsonValue)
        ensures
            r@ == text_array(views(list@)),
    {
        let mut items: Vec<JsonValue> = Vec::new();
        let mut i: usize = 0;
        while i < list.len()
            invariant
                0 <= i <= list@.len(),
                items@.len() == i,
                forall|k: int| 0 <= k < i ==> (#[trigger] items@[k])@ == JsonSpec::Text(list@[k]@),
            decreases list@.len() - i,
        {
            items.push(JsonValue::Text(list[i].clone()));
            i += 1;
        }
        let r = JsonValue::Array(items);
        assert(r@->Array_0 =~= text_array(views(list@))->Array_0);
        r
    }

    /// An object without members.
    pub fn empty_object() -> (r: JsonValue)
        ensures
            r@ == JsonSpec::Object(Seq::empty()),
    {
        let r = JsonValue::Object(Vec::new());
        assert(r@->Object_0 =~= Seq::<MemberSpec>::empty());
        r
    }

    /// An object with the given members.
    pub fn object(entries: Vec<JsonMember>) -> (r: JsonValue)
        ensures
            r@ == JsonSpec::Object(entry_views(entries@)),
    {
        let ghost want = entry_views(entries@);
        let r = JsonValue::Object(entries);
        assert(r@->Object_0 =~= want);
        r
    }

    /// The member `key` of an object: the first entry of that name.
    pub fn get(&self, key: &str) -> (r: Option<&JsonValue>)
        ensures
            r is Some <==> self@.member(key@) is Some,
            r matches Some(v) ==> self@.member(key@) == Some(v@),
    {
        match self {
            JsonValue::Object(entries) => {
                let ghost all = self@->Object_0;
                assert(all =~= entry_views(entries@));
                let mut i: usize = 0;
                while i < entries.len()
                    invariant
                        0 <= i <= entries@.len(),
                        self@ == JsonSpec::Object(all),
                        all == entry_views(entries@),
                        entry_position(all, key@, i as int) == entry_position(all, key@, 0),
                    decreases entries@.len() - i,
                {
                    if same_text(entries[i].name.as_str(), key) {
                        return Some(&entries[i].value);
                    }
                    i += 1;
                }
                None
            },
            _ => None,
        }
    }

    /// The text, if this is one.
    pub fn as_str(&self) -> (r: Option<&str>)
        ensures
            r is Some <==> self@.text() is Some,
            r matches Some(s) ==> self@.text() == Some(s@),
    {
        match self {
            JsonValue::Text(s) => Some(s.as_str()),
            _ => None,
        }
    }

    /// The truth value, if this is one.
    pub fn as_bool(&self) -> (r: Option<bool>)
        ensures
            r == self@.truth(),
    {
        match self {
            JsonValue::Bool(b) => Some(*b),
            _ => None,
        }
    }

    /// The number, if this is one that is written with digits alone and
    /// fits in 64 bits.
    pub fn as_u64(&self) -> (r: Option<u64>)
        ensures
            r is Some <==> self@.unsigned() is Some,
            r matches Some(n) ==> self@.unsigned() == Some(n as nat),
    {
        match self {
            JsonValue::Number(n) => {
                if crate::text::starts_with(n.as_str(), "+") {
                    proof {
                        reveal_strlit("+");
                        assert(n@.subrange(0, 1)[0] == '+');
                    }
                    None
                } else {
                    proof {
                        reveal_strlit("+");
                        if n@.len() > 0 && n@[0] == '+' {
                            assert(n@.subrange(0, 1) =~= "+"@);
                        }
                    }
                    parse_u64(n.as_str())
                }
            },
            _ => None,
        }
    }

    /// The number, if this is a number in plain decimal notation.
    pub fn as_decimal(&self) -> (r: Option<Decimal>)
        ensures
            r is Some <==> self@.thousandths() is Some,
            r matches Some(d) ==> self@.thousandths() == Some(d.thousandths as int),
    {
        match self {
            JsonValue::Number(n) => Decimal::parse(n.as_str()),
            _ => None,
        }
    }

    /// The items, if this is a list.
    pub fn as_array(&self) -> (r: Option<&Vec<JsonValue>>)
        ensures
            r is Some <==> self@.items() is Some,
            r matches Some(items) ==> self@.items() == Some(item_views(items@)),
    {
        match self {
            JsonValue::Array(items) => {
                assert(self@->Array_0 =~= item_views(items@));
                Some(items)
            },
            _ => None,
        }
    }

    /// The text of member `key`.
    pub fn get_str(&self, key: &str) -> (r: Option<&str>)
        ensures
            r is Some <==> self@.member_text(key@) is Some,
            r matches Some(s) ==> self@.member_text(key@) == Some(s@),
    {
        match self.get(key) {
            Some(v) => v.as_str(),
            None => None,
        }
    }

    /// The truth value of member `key`.
    pub fn get_bool(&self, key: &str) -> (r: Option<bool>)
        ensures
            r == self@.member_truth(key@),
    {
        match self.get(key) {
            Some(v) => v.as_bool(),
            None => None,
        }
    }

    /// The unsigned number of member `key`.
    pub fn get_u64(&self, key: &str) -> (r: Option<u64>)
        ensures
            r is Some <==> self@.member_unsigned(key@) is Some,
            r matches Some(n) ==> self@.member_unsigned(key@) == Some(n as nat),
    {
        match self.get(key) {
            Some(v) => v.as_u64(),
            None => None,
        }
    }
}

} // verus!
