//! The configuration document: a tree of JSON values.
//!
//! The text of a document is parsed by the `json` crate. What the
//! configuration builder reads of a parsed value is held here in a tree of
//! the library's own, so that the builder is stated and proved over it.

use vstd::prelude::*;
use vstd::string::*;
use crate::errors::CustomError;
use crate::text::same_text;

verus! {

/// One value of a parsed document.
///
/// Numbers, arrays and objects carry the text that the `json` crate
/// displays for them; a number also carries the parts that the crate holds
/// it in: whether it is positive, its mantissa and its decimal exponent.
#[derive(Debug, PartialEq, Eq)]
pub enum JsonNode {
    Null,
    Boolean(bool),
    Number { text: String, parts: (bool, u64, i16) },
    Text(String),
    Array { items: Vec<JsonNode>, text: String },
    Object { entries: Vec<(String, JsonNode)>, text: String },
}

/// The mathematical model of a [`JsonNode`].
pub enum JsonTree {
    Null,
    Boolean(bool),
    Number { text: Seq<char>, parts: (bool, u64, i16) },
    Text(Seq<char>),
    Array { items: Seq<JsonTree>, text: Seq<char> },
    Object { entries: Seq<(Seq<char>, JsonTree)>, text: Seq<char> },
}

/// The model of a node.
pub open spec fn tree_of(node: JsonNode) -> JsonTree
    decreases node,
{
    match node {
        JsonNode::Null => JsonTree::Null,
        JsonNode::Boolean(b) => JsonTree::Boolean(b),
        JsonNode::Number { text, parts } => JsonTree::Number { text: text@, parts },
        JsonNode::Text(s) => JsonTree::Text(s@),
        JsonNode::Array { items, text } => JsonTree::Array {
            items: Seq::new(
                items@.len(),
                |i: int|
                    if 0 <= i < items@.len() {
                        tree_of(items@[i])
                    } else {
                        JsonTree::Null
                    },
            ),
            text: text@,
        },
        JsonNode::Object { entries, text } => JsonTree::Object {
            entries: Seq::new(
                entries@.len(),
                |i: int|
                    if 0 <= i < entries@.len() {
                        (entries@[i].0@, tree_of(entries@[i].1))
                    } else {
                        (Seq::<char>::empty(), JsonTree::Null)
                    },
            ),
            text: text@,
        },
    }
}

impl View for JsonNode {
    type V = JsonTree;

    open spec fn view(&self) -> JsonTree {
        tree_of(*self)
    }
}

/// The value of the first of `entries` at or after `from` whose key is
/// `key`; the null value where there is none.
pub open spec fn lookup_from(entries: Seq<(Seq<char>, JsonTree)>, key: Seq<char>, from: int) -> JsonTree
    decreases entries.len() - from,
{
    if from < 0 || from >= entries.len() {
        JsonTree::Null
    } else if entries[from].0 == key {
        entries[from].1
    } else {
        lookup_from(entries, key, from + 1)
    }
}

impl JsonTree {
    /// The text that stands for this value where a plain text is expected:
    /// a string is its own text, every other value the text it is written as.
    pub open spec fn rendered(self) -> Seq<char> {
        match self {
            JsonTree::Null => "null"@,
            JsonTree::Boolean(b) => if b {
                "true"@
            } else {
                "false"@
            },
            JsonTree::Number { text, parts } => text,
            JsonTree::Text(s) => s,
            JsonTree::Array { items, text } => text,
            JsonTree::Object { entries, text } => text,
        }
    }

    /// The entries of an object, in the order of the document; none for any other value.
    pub open spec fn pairs(self) -> Seq<(Seq<char>, JsonTree)> {
        match self {
            JsonTree::Object { entries, text } => entries,
            _ => Seq::empty(),
        }
    }

    /// The items of an array, in order; none for any other value.
    pub open spec fn items(self) -> Seq<JsonTree> {
        match self {
            JsonTree::Array { items, text } => items,
            _ => Seq::empty(),
        }
    }

    /// The value under `key` in an object; null where the object has no such
    /// key, and for any value that is no object.
    pub open spec fn member(self, key: Seq<char>) -> JsonTree {
        lookup_from(self.pairs(), key, 0)
    }

    /// Whether a value other than null stands under `key`.
    pub open spec fn has(self, key: Seq<char>) -> bool {
        !(self.member(key) is Null)
    }

    /// A number's reading as an `i8`.
    pub open spec fn small(self) -> Option<i8> {
        match self {
            JsonTree::Number { text, parts } => reading_as_i8(parts.0, parts.1, parts.2),
            _ => None,
        }
    }

    /// A boolean's value.
    pub open spec fn flag(self) -> Option<bool> {
        match self {
            JsonTree::Boolean(b) => Some(b),
            _ => None,
        }
    }

    /// A string's text.
    pub open spec fn string(self) -> Option<Seq<char>> {
        match self {
            JsonTree::Text(s) => Some(s),
            _ => None,
        }
    }
}

/// A value as the `json` crate holds it.
#[verifier::external_type_specification]
#[verifier::external_body]
pub struct ExJsonValue(json::JsonValue);

/// The error of the `json` crate's parser.
#[verifier::external_type_specification]
#[verifier::external_body]
pub struct ExJsonError(json::Error);

/// The document that a text stands for, where it is a JSON document.
pub uninterp spec fn parsed_tree(text: Seq<char>) -> Option<JsonTree>;

/// Reads a value of the `json` crate into a node, variant by variant:
/// each scalar with what `Display` gives for it, a number also with what
/// `Number::as_parts` gives, each array and object with its members in
/// order and the text that `Display` gives.
#[verifier::external_body]
fn node_of(value: &json::JsonValue) -> JsonNode {
    match value {
        json::JsonValue::Null => JsonNode::Null,
        json::JsonValue::Boolean(b) => JsonNode::Boolean(*b),
        json::JsonValue::Number(n) => JsonNode::Number { text: value.to_string(), parts: n.as_parts() },
        json::JsonValue::Short(s) => JsonNode::Text(s.to_string()),
        json::JsonValue::String(s) => JsonNode::Text(s.to_string()),
        json::JsonValue::Array(items) => JsonNode::Array {
            items: items.iter().map(node_of).collect(),
            text: value.to_string(),
        },
        json::JsonValue::Object(object) => JsonNode::Object {
            entries: object.iter().map(|(k, v)| (k.to_string(), node_of(v))).collect(),
            text: value.to_string(),
        },
    }
}

/// The longest run of digits that a text may hold to be parsed.
pub const MAX_DIGIT_RUN: usize = 1000;

/// Whether a character is one of the ten digits.
pub open spec fn is_digit(c: char) -> bool {
    '0' <= c <= '9'
}

/// The length of the run of digits that `text` ends with.
pub open spec fn trailing_digits(text: Seq<char>) -> nat
    decreases text.len(),
{
    if text.len() == 0 || !is_digit(text.last()) {
        0
    } else {
        1 + trailing_digits(text.drop_last())
    }
}

/// Whether no run of digits in `text` is longer than `limit`.
pub open spec fn digit_runs_within(text: Seq<char>, limit: nat) -> bool {
    forall|upto: int| 0 <= upto <= text.len() ==> trailing_digits(#[trigger] text.take(upto)) <= limit
}

/// Whether a text is taken for parsing: no run of digits in it is longer
/// than [`MAX_DIGIT_RUN`].
pub open spec fn is_parsable(text: Seq<char>) -> bool {
    digit_runs_within(text, MAX_DIGIT_RUN as nat)
}

/// The document that a text stands for: that of a text that is taken for
/// parsing and is a JSON document.
pub open spec fn document_of(text: Seq<char>) -> Option<JsonTree> {
    if is_parsable(text) {
        parsed_tree(text)
    } else {
        None
    }
}

/// The message of the error for a text that is not taken for parsing.
pub open spec fn long_number_message() -> Seq<char> {
    "A number with more than 1000 digits in a row"@
}

/// Whether no run of digits in `text` is longer than [`MAX_DIGIT_RUN`].
pub fn has_short_digit_runs(text: &str) -> (r: bool)
    ensures
        r == is_parsable(text@),
{
    let chars = crate::text::chars_of(text);
    let mut run: usize = 0;
    let mut i: usize = 0;
    assert(text@.take(0) =~= Seq::<char>::empty());
    while i < chars.len()
        invariant
            i <= chars.len(),
            chars@ == text@,
            run == trailing_digits(text@.take(i as int)),
            run <= MAX_DIGIT_RUN,
            forall|upto: int|
                0 <= upto <= i ==> trailing_digits(#[trigger] text@.take(upto)) <= MAX_DIGIT_RUN,
        decreases chars.len() - i,
    {
        let c = chars[i];
        assert(text@.take(i + 1).drop_last() =~= text@.take(i as int));
        assert(text@.take(i + 1).last() == c);
        if c >= '0' && c <= '9' {
            if run == MAX_DIGIT_RUN {
                assert(trailing_digits(text@.take(i + 1)) > MAX_DIGIT_RUN);
                return false;
            }
            run = run + 1;
        } else {
            run = 0;
        }
        i += 1;
    }
    true
}

/// Calls `json::parse`. Whether a text is a JSON document, and which, is a
/// function of the text alone.
///
/// The parser counts the digits of a fraction down in a signed 16-bit
/// integer and does not return where that count leaves the range, which
/// takes a run of more than 32768 digits. Texts with a run of more than
/// [`MAX_DIGIT_RUN`] digits are left out, which is well within it.
#[verifier::external_body]
fn parse(text: &str) -> (r: Result<JsonNode, json::Error>)
    requires
        is_parsable(text@),
    ensures
        match r {
            Ok(node) => parsed_tree(text@) == Some(node@),
            Err(_) => parsed_tree(text@) is None,
        },
{
    match json::parse(text) {
        Ok(value) => Ok(node_of(&value)),
        Err(e) => Err(e),
    }
}

/// Calls `Display` of `json::Error`: the parser's message.
#[verifier::external_body]
fn message_of(e: &json::Error) -> String {
    e.to_string()
}

/// Parses the text of a document.
///
/// Succeeds exactly on the texts that hold no run of more than
/// [`MAX_DIGIT_RUN`] digits and are JSON documents, with the document that
/// the text stands for. A text with a longer run of digits is not handed
/// to the parser; the error then says so.
pub fn parse_json_string(text: &str) -> (r: Result<JsonNode, CustomError>)
    ensures
        match r {
            Ok(node) => document_of(text@) == Some(node@),
            Err(CustomError::PARSINGERROR(message)) => document_of(text@) is None && (
            !is_parsable(text@) ==> message@ == long_number_message()),
        },
{
    if !has_short_digit_runs(text) {
        return Err(
            CustomError::PARSINGERROR("A number with more than 1000 digits in a row".to_owned()),
        );
    }
    match parse(text) {
        Ok(node) => Ok(node),
        Err(e) => Err(CustomError::PARSINGERROR(message_of(&e))),
    }
}

/// How a number with the given sign, mantissa and decimal exponent reads
/// as an `i8`: it has to be whole, which it is taken to be only with the
/// exponent zero, and its mantissa, taken as a signed 64-bit integer and
/// given its sign, has to lie between -128 and 127.
pub open spec fn reading_as_i8(positive: bool, mantissa: u64, exponent: i16) -> Option<i8> {
    let signed: int = if mantissa < 0x8000_0000_0000_0000 {
        mantissa as int
    } else {
        mantissa - 0x1_0000_0000_0000_0000
    };
    let value: int = if positive {
        signed
    } else {
        -signed
    };
    if exponent == 0 && -128 <= value <= 127 {
        Some(value as i8)
    } else {
        None
    }
}

/// Reads a number with the given sign, mantissa and decimal exponent as
/// an `i8`.
pub fn read_as_i8(positive: bool, mantissa: u64, exponent: i16) -> (r: Option<i8>)
    ensures
        r == reading_as_i8(positive, mantissa, exponent),
{
    if exponent != 0 {
        None
    } else if positive {
        if mantissa <= 127 {
            Some(mantissa as i8)
        } else if mantissa >= 0xFFFF_FFFF_FFFF_FF80 {
            let below: u64 = 0xFFFF_FFFF_FFFF_FFFF - mantissa;
            Some(-1i8 - (below as i8))
        } else {
            None
        }
    } else {
        if mantissa <= 127 {
            Some(-(mantissa as i8))
        } else if mantissa == 128 {
            Some(-128i8)
        } else if mantissa >= 0xFFFF_FFFF_FFFF_FF81 {
            let below: u64 = 0xFFFF_FFFF_FFFF_FFFF - mantissa;
            Some(1i8 + (below as i8))
        } else {
            None
        }
    }
}

impl JsonNode {
    /// Whether this is the null value.
    pub fn is_null(&self) -> (r: bool)
        ensures
            r == (self@ is Null),
    {
        match self {
            JsonNode::Null => true,
            _ => false,
        }
    }

    /// The text that stands for this value.
    pub fn render(&self) -> (r: String)
        ensures
            r@ == self@.rendered(),
    {
        match self {
            JsonNode::Null => "null".to_owned(),
            JsonNode::Boolean(b) => if *b {
                "true".to_owned()
            } else {
                "false".to_owned()
            },
            JsonNode::Number { text, parts } => text.clone(),
            JsonNode::Text(s) => s.clone(),
            JsonNode::Array { items, text } => text.clone(),
            JsonNode::Object { entries, text } => text.clone(),
        }
    }

    /// The value under `key`, where it is there and not null.
    pub fn member(&self, key: &str) -> (r: Option<&JsonNode>)
        ensures
            match r {
                Some(node) => node@ == self@.member(key@) && self@.has(key@),
                None => !self@.has(key@),
            },
    {
        match self {
            JsonNode::Object { entries, text } => {
                let mut i: usize = 0;
                while i < entries.len()
                    invariant
                        i <= entries.len(),
                        self@.pairs().len() == entries@.len(),
                        forall|j: int|
                            0 <= j < entries@.len() ==> self@.pairs()[j] == (
                                entries@[j].0@,
                                entries@[j].1@,
                            ),
                        self@.member(key@) == lookup_from(self@.pairs(), key@, i as int),
                    decreases entries.len() - i,
                {
                    if same_text(entries[i].0.as_str(), key) {
                        let found = &entries[i].1;
                        if found.is_null() {
                            return None;
                        }
                        return Some(found);
                    }
                    i += 1;
                }
                None
            },
            _ => None,
        }
    }

    /// The value under `key` where it is there and not null, else `absent`.
    pub fn member_or<'a>(&'a self, key: &str, absent: &'a JsonNode) -> (r: &'a JsonNode)
        ensures
            r@ == if self@.has(key@) {
                self@.member(key@)
            } else {
                absent@
            },
    {
        match self.member(key) {
            Some(node) => node,
            None => absent,
        }
    }

    /// The number of entries of an object; none for any other value.
    pub fn entry_count(&self) -> (r: usize)
        ensures
            r == self@.pairs().len(),
    {
        match self {
            JsonNode::Object { entries, text } => entries.len(),
            _ => 0,
        }
    }

    /// The entry of an object at `at`: its key and its value.
    pub fn entry(&self, at: usize) -> (r: (&str, &JsonNode))
        requires
            at < self@.pairs().len(),
        ensures
            (r.0@, r.1@) == self@.pairs()[at as int],
    {
        match self {
            JsonNode::Object { entries, text } => (entries[at].0.as_str(), &entries[at].1),
            _ => {
                proof {
                    assert(false);
                }
                ("", self)
            },
        }
    }

    /// The number of items of an array; none for any other value.
    pub fn item_count(&self) -> (r: usize)
        ensures
            r == self@.items().len(),
    {
        match self {
            JsonNode::Array { items, text } => items.len(),
            _ => 0,
        }
    }

    /// The item of an array at `at`.
    pub fn item(&self, at: usize) -> (r: &JsonNode)
        requires
            at < self@.items().len(),
        ensures
            r@ == self@.items()[at as int],
    {
        match self {
            JsonNode::Array { items, text } => &items[at],
            _ => {
                proof {
                    assert(false);
                }
                self
            },
        }
    }

    /// A number's reading as an `i8`.
    pub fn as_i8(&self) -> (r: Option<i8>)
        ensures
            r == self@.small(),
    {
        match self {
            JsonNode::Number { text, parts } => read_as_i8(parts.0, parts.1, parts.2),
            _ => None,
        }
    }

    /// A boolean's value.
    pub fn as_bool(&self) -> (r: Option<bool>)
        ensures
            r == self@.flag(),
    {
        match self {
            JsonNode::Boolean(b) => Some(*b),
            _ => None,
        }
    }

    /// A string's text.
    pub fn as_str(&self) -> (r: Option<&str>)
        ensures
            match r {
                Some(s) => self@.string() == Some(s@),
                None => self@.string() is None,
            },
    {
        match self {
            JsonNode::Text(s) => Some(s.as_str()),
            _ => None,
        }
    }
}

} // verus!
