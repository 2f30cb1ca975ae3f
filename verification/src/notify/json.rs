//! JSON values as the payloads of the change feed carry them.
use crate::text::same_text;
use vstd::prelude::*;

verus! {

/// A JSON value. A number is held as the 64-bit signed integer it is, or as
/// `None` where it is a fraction or does not fit. A record holds its
/// members in the order the parser hands them out.
#[derive(Debug)]
pub enum Json {
    Null,
    Bool(bool),
    Number(Option<i64>),
    Text(String),
    List(Vec<Json>),
    Record(Vec<(String, Json)>),
}

/// `serde_json::Value`, carried from the parser to the conversion as an
/// opaque value.
#[verifier::external_type_specification]
#[verifier::external_body]
pub struct ExValue(serde_json::Value);

/// One level of a parsed value: what it is, with the values below it not
/// yet looked into.
pub enum Node {
    Null,
    Bool(bool),
    Number(Option<i64>),
    Text(String),
    List(Vec<serde_json::Value>),
    Record(Vec<(String, serde_json::Value)>),
}

/// What `serde_json::from_str` makes of a text: the value it parses to, or
/// `None` where the text is not one JSON value.
pub uninterp spec fn value_of_text(text: Seq<char>) -> Option<serde_json::Value>;

/// The top level of a parsed value.
pub uninterp spec fn node_of(value: serde_json::Value) -> Node;

/// Calls `serde_json::from_str` for a `serde_json::Value`, which parses the
/// text as one JSON value and fails on anything else. The result depends
/// on the text alone.
#[verifier::external_body]
fn parse_value(text: &str) -> (value: Option<serde_json::Value>)
    ensures
        value == value_of_text(text@),
{
    serde_json::from_str::<serde_json::Value>(text).ok()
}

/// Tells the variants of `serde_json::Value` apart and moves out what each
/// holds; of a number it keeps what `serde_json::Number::as_i64` gives, of
/// an object its members in the order the map hands them out. The result
/// depends on the value alone.
#[verifier::external_body]
fn split_value(value: serde_json::Value) -> (node: Node)
    ensures
        node == node_of(value),
{
    match value {
        serde_json::Value::Null => Node::Null,
        serde_json::Value::Bool(b) => Node::Bool(b),
        serde_json::Value::Number(n) => Node::Number(n.as_i64()),
        serde_json::Value::String(s) => Node::Text(s),
        serde_json::Value::Array(items) => Node::List(items),
        serde_json::Value::Object(members) => Node::Record(members.into_iter().collect()),
    }
}

/// How deep a value may nest and still be read: as deep as the parser
/// itself lets a text nest.
pub const MAX_DEPTH: usize = 128;

/// Whether `json` is the parsed value `value`, level by level, down to at
/// most `depth` levels of lists and records.
pub open spec fn depicts(value: serde_json::Value, json: Json, depth: nat) -> bool
    decreases depth, 0nat,
{
    match (node_of(value), json) {
        (Node::Null, Json::Null) => true,
        (Node::Bool(a), Json::Bool(b)) => a == b,
        (Node::Number(a), Json::Number(b)) => a == b,
        (Node::Text(a), Json::Text(b)) => a@ == b@,
        (Node::List(items), Json::List(list)) => depth > 0 && depicts_all(
            items@,
            list@,
            (depth - 1) as nat,
        ),
        (Node::Record(members), Json::Record(record)) => depth > 0 && depicts_members(
            members@,
            record@,
            (depth - 1) as nat,
        ),
        _ => false,
    }
}

/// Whether each item of `list` is the parsed value at its place in
/// `items`.
pub open spec fn depicts_all(items: Seq<serde_json::Value>, list: Seq<Json>, depth: nat) -> bool
    decreases depth, 1nat,
{
    &&& list.len() == items.len()
    &&& forall|i: int| 0 <= i < items.len() ==> depicts(#[trigger] items[i], list[i], depth)
}

/// Whether each member of `record` has the name and is the parsed value at
/// its place in `members`.
pub open spec fn depicts_members(
    members: Seq<(String, serde_json::Value)>,
    record: Seq<(String, Json)>,
    depth: nat,
) -> bool
    decreases depth, 1nat,
{
    &&& record.len() == members.len()
    &&& forall|i: int|
        0 <= i < members.len() ==> (#[trigger] record[i]).0@ == members[i].0@ && depicts(
            members[i].1,
            record[i].1,
            depth,
        )
}

/// Whether a parsed value nests lists and records at most `depth` deep.
pub open spec fn within_depth(value: serde_json::Value, depth: nat) -> bool
    decreases depth,
{
    match node_of(value) {
        Node::List(items) => depth > 0 && forall|i: int|
            0 <= i < items@.len() ==> within_depth(#[trigger] items@[i], (depth - 1) as nat),
        Node::Record(members) => depth > 0 && forall|i: int|
            0 <= i < members@.len() ==> within_depth((#[trigger] members@[i]).1, (depth - 1) as nat),
        _ => true,
    }
}

/// Whether `json` is what parsing a text gives: the JSON value that the
/// text is, or `None` where it is not one or nests deeper than
/// `MAX_DEPTH`.
pub open spec fn parses_as(text: Seq<char>, json: Option<Json>) -> bool {
    match value_of_text(text) {
        Some(value) => match json {
            Some(j) => depicts(value, j, MAX_DEPTH as nat),
            None => !within_depth(value, MAX_DEPTH as nat),
        },
        None => json is None,
    }
}

/// The items of a list in reverse order.
fn reversed<T>(list: Vec<T>) -> (back: Vec<T>)
    ensures
        back@.len() == list@.len(),
        forall|i: int| 0 <= i < list@.len() ==> back@[i] == list@[list@.len() - 1 - i],
{
    let mut list = list;
    let ghost whole = list@;
    let mut back: Vec<T> = Vec::new();
    while list.len() > 0
        invariant
            list@.len() + back@.len() == whole.len(),
            list@ == whole.take(list@.len() as int),
            forall|i: int| 0 <= i < back@.len() ==> back@[i] == whole[whole.len() - 1 - i],
        decreases list@.len(),
    {
        let item = list.pop();
        match item {
            Some(item) => back.push(item),
            None => {},
        }
    }
    back
}

/// Reads a parsed value into a `Json`, down to `depth` levels of lists and
/// records.
fn json_from(value: serde_json::Value, depth: usize) -> (r: Option<Json>)
    ensures
        match r {
            Some(json) => depicts(value, json, depth as nat),
            None => !within_depth(value, depth as nat),
        },
    decreases depth, 0nat,
{
    match split_value(value) {
        Node::Null => Some(Json::Null),
        Node::Bool(b) => Some(Json::Bool(b)),
        Node::Number(n) => Some(Json::Number(n)),
        Node::Text(t) => Some(Json::Text(t)),
        Node::List(items) => {
            if depth == 0 {
                return None;
            }
            match list_from(items, depth - 1) {
                Some(list) => Some(Json::List(list)),
                None => None,
            }
        },
        Node::Record(members) => {
            if depth == 0 {
                return None;
            }
            match record_from(members, depth - 1) {
                Some(record) => Some(Json::Record(record)),
                None => None,
            }
        },
    }
}

/// Reads each of the parsed values `items`, in order.
fn list_from(items: Vec<serde_json::Value>, depth: usize) -> (r: Option<Vec<Json>>)
    ensures
        match r {
            Some(list) => depicts_all(items@, list@, depth as nat),
            None => exists|i: int| 0 <= i < items@.len() && !within_depth(#[trigger] items@[i], depth as nat),
        },
    decreases depth, 1nat,
{
    let ghost whole = items@;
    let mut rest = reversed(items);
    let mut list: Vec<Json> = Vec::new();
    while rest.len() > 0
        invariant
            whole == items@,
            rest@.len() + list@.len() == whole.len(),
            forall|i: int| 0 <= i < rest@.len() ==> rest@[i] == whole[whole.len() - 1 - i],
            forall|i: int| 0 <= i < list@.len() ==> depicts(#[trigger] whole[i], list@[i], depth as nat),
        decreases rest@.len(),
    {
        let ghost at = list@.len() as int;
        match rest.pop() {
            Some(value) => {
                assert(value == whole[at]);
                match json_from(value, depth) {
                    Some(json) => list.push(json),
                    None => {
                        assert(!within_depth(whole[at], depth as nat));
                        return None;
                    },
                }
            },
            None => {},
        }
    }
    Some(list)
}

/// Reads each of the parsed members `members`, in order, under its name.
fn record_from(members: Vec<(String, serde_json::Value)>, depth: usize) -> (r: Option<
    Vec<(String, Json)>,
>)
    ensures
        match r {
            Some(record) => depicts_members(members@, record@, depth as nat),
            None => exists|i: int|
                0 <= i < members@.len() && !within_depth((#[trigger] members@[i]).1, depth as nat),
        },
    decreases depth, 1nat,
{
    let ghost whole = members@;
    let mut rest = reversed(members);
    let mut record: Vec<(String, Json)> = Vec::new();
    while rest.len() > 0
        invariant
            whole == members@,
            rest@.len() + record@.len() == whole.len(),
            forall|i: int| 0 <= i < rest@.len() ==> rest@[i] == whole[whole.len() - 1 - i],
            forall|i: int|
                0 <= i < record@.len() ==> (#[trigger] record@[i]).0@ == whole[i].0@ && depicts(
                    whole[i].1,
                    record@[i].1,
                    depth as nat,
                ),
        decreases rest@.len(),
    {
        let ghost at = record@.len() as int;
        match rest.pop() {
            Some(member) => {
                assert(member == whole[at]);
                let (name, value) = member;
                match json_from(value, depth) {
                    Some(json) => record.push((name, json)),
                    None => {
                        assert(!within_depth(whole[at].1, depth as nat));
                        return None;
                    },
                }
            },
            None => {},
        }
    }
    Some(record)
}

/// The first member of a record that goes by the name `key`.
pub open spec fn lookup(members: Seq<(String, Json)>, key: Seq<char>) -> Option<Json>
    decreases members.len(),
{
    if members.len() == 0 {
        None
    } else if members[0].0@ == key {
        Some(members[0].1)
    } else {
        lookup(members.skip(1), key)
    }
}

/// The integers of a list, if every item is one.
pub open spec fn all_integers(items: Seq<Json>) -> Option<Seq<i64>>
    decreases items.len(),
{
    if items.len() == 0 {
        Some(Seq::empty())
    } else {
        match (all_integers(items.drop_last()), items.last().integer()) {
            (Some(front), Some(n)) => Some(front.push(n)),
            _ => None,
        }
    }
}

/// The texts of a list, if every item is one.
pub open spec fn all_texts(items: Seq<Json>) -> Option<Seq<Seq<char>>>
    decreases items.len(),
{
    if items.len() == 0 {
        Some(Seq::empty())
    } else {
        match (all_texts(items.drop_last()), items.last().text()) {
            (Some(front), Some(t)) => Some(front.push(t)),
            _ => None,
        }
    }
}

/// The texts that a list of strings holds.
pub open spec fn views(texts: Seq<String>) -> Seq<Seq<char>> {
    texts.map_values(|t: String| t@)
}

impl Json {
    /// The member `key` of a record. A value that is no record has none.
    pub open spec fn member(self, key: Seq<char>) -> Option<Json> {
        match self {
            Json::Record(members) => lookup(members@, key),
            _ => None,
        }
    }

    /// The member `key` of a record, where a member that is `null` counts
    /// as absent.
    pub open spec fn optional(self, key: Seq<char>) -> Option<Json> {
        match self.member(key) {
            Some(Json::Null) => None,
            other => other,
        }
    }

    /// The integer that the value is.
    pub open spec fn integer(self) -> Option<i64> {
        match self {
            Json::Number(n) => n,
            _ => None,
        }
    }

    /// The text that the value is.
    pub open spec fn text(self) -> Option<Seq<char>> {
        match self {
            Json::Text(t) => Some(t@),
            _ => None,
        }
    }

    /// The integers that the value lists.
    pub open spec fn integers(self) -> Option<Seq<i64>> {
        match self {
            Json::List(items) => all_integers(items@),
            _ => None,
        }
    }

    /// The texts that the value lists.
    pub open spec fn texts(self) -> Option<Seq<Seq<char>>> {
        match self {
            Json::List(items) => all_texts(items@),
            _ => None,
        }
    }

    /// Parses a text as one JSON value.
    pub fn parse(text: &str) -> (json: Option<Json>)
        ensures
            parses_as(text@, json),
    {
        match parse_value(text) {
            Some(value) => json_from(value, MAX_DEPTH),
            None => None,
        }
    }

    /// Finds the member `key` of a record.
    pub fn get(&self, key: &str) -> (found: Option<&Json>)
        ensures
            found == match self.member(key@) {
                Some(v) => Some(&v),
                None => None,
            },
    {
        match self {
            Json::Record(members) => {
                let mut i: usize = 0;
                proof {
                    assert(members@.skip(0) =~= members@);
                }
                while i < members.len()
                    invariant
                        i <= members.len(),
                        self.member(key@) == lookup(members@, key@),
                        lookup(members@, key@) == lookup(members@.skip(i as int), key@),
                    decreases members.len() - i,
                {
                    proof {
                        assert(members@.skip(i as int)[0] == members@[i as int]);
                        assert(members@.skip(i as int).skip(1) =~= members@.skip(i + 1));
                    }
                    if same_text(members[i].0.as_str(), key) {
                        return Some(&members[i].1);
                    }
                    i += 1;
                }
                None
            },
            _ => None,
        }
    }

    /// Finds the member `key` of a record, passing over one that is `null`.
    pub fn get_optional(&self, key: &str) -> (found: Option<&Json>)
        ensures
            found == match self.optional(key@) {
                Some(v) => Some(&v),
                None => None,
            },
    {
        match self.get(key) {
            Some(Json::Null) => None,
            other => other,
        }
    }

    /// The integer that the value is.
    pub fn as_int(&self) -> (n: Option<i64>)
        ensures
            n == self.integer(),
    {
        match self {
            Json::Number(n) => *n,
            _ => None,
        }
    }

    /// The text that the value is.
    pub fn as_text(&self) -> (t: Option<String>)
        ensures
            match self.text() {
                Some(text) => t matches Some(s) && s@ == text,
                None => t is None,
            },
    {
        match self {
            Json::Text(t) => Some(t.clone()),
            _ => None,
        }
    }

    /// The integers that the value lists.
    pub fn as_ints(&self) -> (list: Option<Vec<i64>>)
        ensures
            match self.integers() {
                Some(ints) => list matches Some(v) && v@ == ints,
                None => list is None,
            },
    {
        match self {
            Json::List(items) => {
                let mut out: Vec<i64> = Vec::new();
                let mut i: usize = 0;
                while i < items.len()
                    invariant
                        i <= items.len(),
                        self.integers() == all_integers(items@),
                        all_integers(items@.take(i as int)) == Some(out@),
                    decreases items.len() - i,
                {
                    proof {
                        assert(items@.take(i + 1).drop_last() =~= items@.take(i as int));
                        assert(items@.take(i + 1).last() == items@[i as int]);
                    }
                    match items[i].as_int() {
                        Some(n) => out.push(n),
                        None => {
                            proof {
                                not_all_integers(items@, i as int);
                            }
                            return None;
                        },
                    }
                    i += 1;
                }
                proof {
                    assert(items@.take(items.len() as int) =~= items@);
                }
                Some(out)
            },
            _ => None,
        }
    }

    /// The texts that the value lists.
    pub fn as_texts(&self) -> (list: Option<Vec<String>>)
        ensures
            match self.texts() {
                Some(texts) => list matches Some(v) && views(v@) == texts,
                None => list is None,
            },
    {
        match self {
            Json::List(items) => {
                let mut out: Vec<String> = Vec::new();
                let mut i: usize = 0;
                while i < items.len()
                    invariant
                        i <= items.len(),
                        self.texts() == all_texts(items@),
                        all_texts(items@.take(i as int)) == Some(views(out@)),
                    decreases items.len() - i,
                {
                    proof {
                        assert(items@.take(i + 1).drop_last() =~= items@.take(i as int));
                        assert(items@.take(i + 1).last() == items@[i as int]);
                    }
                    let ghost before = out@;
                    match items[i].as_text() {
                        Some(t) => {
                            out.push(t);
                            proof {
                                assert(views(out@) =~= views(before).push(t@));
                            }
                        },
                        None => {
                            proof {
                                not_all_texts(items@, i as int);
                            }
                            return None;
                        },
                    }
                    i += 1;
                }
                proof {
                    assert(items@.take(items.len() as int) =~= items@);
                }
                Some(out)
            },
            _ => None,
        }
    }
}

/// A list with an item that is no integer is no list of integers.
proof fn not_all_integers(items: Seq<Json>, i: int)
    requires
        0 <= i < items.len(),
        items[i].integer() is None,
    ensures
        all_integers(items) is None,
    decreases items.len(),
{
    if i < items.len() - 1 {
        assert(items.drop_last()[i] == items[i]);
        not_all_integers(items.drop_last(), i);
    }
}

/// A list with an item that is no text is no list of texts.
proof fn not_all_texts(items: Seq<Json>, i: int)
    requires
        0 <= i < items.len(),
        items[i].text() is None,
    ensures
        all_texts(items) is None,
    decreases items.len(),
{
    if i < items.len() - 1 {
        assert(items.drop_last()[i] == items[i]);
        not_all_texts(items.drop_last(), i);
    }
}

} // verus!
