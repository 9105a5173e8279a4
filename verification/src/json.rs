//! JSON values and what they stand for.

use crate::text::{
    comes_before, decimal, same_text, text_before, text_before_irreflexive, text_before_total,
    text_before_transitive,
};
use serde::Serializer;
use serde_json::{Number, Value};
use vstd::prelude::*;

verus! {

/// A JSON number. A number that is not an integer is held as its decimal text, such as `-3.0`.
#[derive(Debug)]
pub enum JsonNumber {
    Unsigned(u64),
    Negative(i64),
    Decimal(String),
}

/// One named member of a JSON object.
#[derive(Debug)]
pub struct JsonMember {
    pub name: String,
    pub value: JsonValue,
}

/// A JSON value. Where an object names a member twice, the later one counts.
#[derive(Debug)]
pub enum JsonValue {
    Null,
    Bool(bool),
    Number(JsonNumber),
    Text(String),
    List(Vec<JsonValue>),
    Object(Vec<JsonMember>),
}

/// The mathematical JSON number.
pub enum JsonNum {
    Unsigned(u64),
    Negative(i64),
    Decimal(Seq<char>),
}

/// The mathematical JSON value. An object is the map from its names to its values.
pub enum Json {
    Null,
    Bool(bool),
    Number(JsonNum),
    Text(Seq<char>),
    List(Seq<Json>),
    Object(Map<Seq<char>, Json>),
}

impl View for JsonNumber {
    type V = JsonNum;

    open spec fn view(&self) -> JsonNum {
        match *self {
            JsonNumber::Unsigned(n) => JsonNum::Unsigned(n),
            JsonNumber::Negative(n) => JsonNum::Negative(n),
            JsonNumber::Decimal(text) => JsonNum::Decimal(text@),
        }
    }
}

/// The value that `v` stands for.
pub open spec fn json_of(v: JsonValue) -> Json
    decreases v,
{
    match v {
        JsonValue::Null => Json::Null,
        JsonValue::Bool(b) => Json::Bool(b),
        JsonValue::Number(n) => Json::Number(n@),
        JsonValue::Text(s) => Json::Text(s@),
        JsonValue::List(items) => Json::List(list_of(items@)),
        JsonValue::Object(members) => Json::Object(members_of(members@)),
    }
}

/// The values that a sequence of items stands for.
pub open spec fn list_of(items: Seq<JsonValue>) -> Seq<Json>
    decreases items,
{
    Seq::new(items.len(), |i: int| if 0 <= i < items.len() { json_of(items[i]) } else { Json::Null })
}

/// The map that a sequence of members stands for.
pub open spec fn members_of(members: Seq<JsonMember>) -> Map<Seq<char>, Json>
    decreases members,
{
    if members.len() == 0 {
        Map::empty()
    } else {
        members_of(members.drop_last()).insert(members.last().name@, json_of(members.last().value))
    }
}

impl View for JsonValue {
    type V = Json;

    open spec fn view(&self) -> Json {
        json_of(*self)
    }
}

/// Whether two numbers are equal. The two decimal zeros are.
pub open spec fn same_number(a: JsonNum, b: JsonNum) -> bool {
    ||| a == b
    ||| decimal_zero(a) && decimal_zero(b)
}

/// Whether a number is a decimal zero, of either sign.
pub open spec fn decimal_zero(n: JsonNum) -> bool {
    n == JsonNum::Decimal("0.0"@) || n == JsonNum::Decimal("-0.0"@)
}

/// Whether two values are equal. The order of an object's members has no part in it.
pub open spec fn same_json(a: Json, b: Json) -> bool
    decreases a,
{
    match (a, b) {
        (Json::Null, Json::Null) => true,
        (Json::Bool(x), Json::Bool(y)) => x == y,
        (Json::Number(x), Json::Number(y)) => same_number(x, y),
        (Json::Text(x), Json::Text(y)) => x == y,
        (Json::List(x), Json::List(y)) => x.len() == y.len() && forall|i: int|
            0 <= i < x.len() ==> same_json(#[trigger] x[i], y[i]),
        (Json::Object(x), Json::Object(y)) => x.dom() == y.dom() && forall|k: Seq<char>|
            x.contains_key(k) ==> same_json(#[trigger] x[k], y[k]),
        _ => false,
    }
}

/// The value of member `name`, if `v` is an object that has it.
pub open spec fn json_member(v: Json, name: Seq<char>) -> Option<Json> {
    match v {
        Json::Object(members) => if members.contains_key(name) {
            Some(members[name])
        } else {
            None
        },
        _ => None,
    }
}

/// The text of a value that is a text.
pub open spec fn json_text(v: Json) -> Option<Seq<char>> {
    match v {
        Json::Text(s) => Some(s),
        _ => None,
    }
}

/// The number of a value that is an unsigned integer.
pub open spec fn json_unsigned(v: Json) -> Option<u64> {
    match v {
        Json::Number(JsonNum::Unsigned(n)) => Some(n),
        _ => None,
    }
}

/// The views of optional values.
pub open spec fn opt_json(v: Option<JsonValue>) -> Option<Json> {
    match v {
        Some(x) => Some(x@),
        None => None,
    }
}

/// The last index at which `name` stands, or -1.
pub open spec fn last_named(members: Seq<JsonMember>, name: Seq<char>) -> int
    decreases members.len(),
{
    if members.len() == 0 {
        -1
    } else if members.last().name@ == name {
        members.len() - 1
    } else {
        last_named(members.drop_last(), name)
    }
}

pub(crate) proof fn lemma_last_named(members: Seq<JsonMember>, name: Seq<char>)
    ensures
        -1 <= last_named(members, name) < members.len(),
        last_named(members, name) >= 0 ==> members[last_named(members, name)].name@ == name,
        forall|i: int|
            last_named(members, name) < i < members.len() ==> #[trigger] members[i].name@ != name,
        members_of(members).contains_key(name) == (last_named(members, name) >= 0),
        last_named(members, name) >= 0 ==> members_of(members)[name] == json_of(
            members[last_named(members, name)].value,
        ),
    decreases members.len(),
{
    if members.len() > 0 && members.last().name@ != name {
        lemma_last_named(members.drop_last(), name);
        assert forall|i: int| last_named(members, name) < i < members.len() implies #[trigger] members[i].name@
            != name by {
            if i < members.len() - 1 {
                assert(members.drop_last()[i] == members[i]);
            }
        }
    }
}

/// Whether no name stands twice.
pub open spec fn names_distinct(members: Seq<JsonMember>) -> bool {
    forall|i: int, j: int|
        0 <= i < j < members.len() ==> #[trigger] members[i].name@ != #[trigger] members[j].name@
}

pub(crate) proof fn lemma_distinct_lookup(members: Seq<JsonMember>)
    requires
        names_distinct(members),
    ensures
        forall|i: int|
            0 <= i < members.len() ==> members_of(members).contains_key(#[trigger] members[i].name@)
                && members_of(members)[members[i].name@] == json_of(members[i].value),
        forall|k: Seq<char>|
            members_of(members).contains_key(k) ==> exists|i: int|
                0 <= i < members.len() && #[trigger] members[i].name@ == k,
{
    assert forall|i: int| 0 <= i < members.len() implies members_of(members).contains_key(
        #[trigger] members[i].name@,
    ) && members_of(members)[members[i].name@] == json_of(members[i].value) by {
        lemma_last_named(members, members[i].name@);
    }
    assert forall|k: Seq<char>| members_of(members).contains_key(k) implies exists|i: int|
        0 <= i < members.len() && #[trigger] members[i].name@ == k by {
        lemma_last_named(members, k);
        assert(members[last_named(members, k)].name@ == k);
    }
}

impl JsonNumber {
    fn duplicate(&self) -> (r: JsonNumber)
        ensures
            r@ == self@,
    {
        match self {
            JsonNumber::Unsigned(n) => JsonNumber::Unsigned(*n),
            JsonNumber::Negative(n) => JsonNumber::Negative(*n),
            JsonNumber::Decimal(text) => JsonNumber::Decimal(text.clone()),
        }
    }

    fn matches(&self, other: &JsonNumber) -> (r: bool)
        ensures
            r == same_number(self@, other@),
    {
        match (self, other) {
            (JsonNumber::Unsigned(x), JsonNumber::Unsigned(y)) => *x == *y,
            (JsonNumber::Negative(x), JsonNumber::Negative(y)) => *x == *y,
            (JsonNumber::Decimal(x), JsonNumber::Decimal(y)) => {
                let x_zero = same_text(x.as_str(), "0.0") || same_text(x.as_str(), "-0.0");
                let y_zero = same_text(y.as_str(), "0.0") || same_text(y.as_str(), "-0.0");
                same_text(x.as_str(), y.as_str()) || (x_zero && y_zero)
            },
            _ => false,
        }
    }
}

fn duplicate_json(v: &JsonValue) -> (r: JsonValue)
    ensures
        r@ == v@,
    decreases *v,
{
    match v {
        JsonValue::Null => JsonValue::Null,
        JsonValue::Bool(b) => JsonValue::Bool(*b),
        JsonValue::Number(n) => JsonValue::Number(n.duplicate()),
        JsonValue::Text(s) => JsonValue::Text(s.clone()),
        JsonValue::List(items) => JsonValue::List(duplicate_list(items)),
        JsonValue::Object(members) => JsonValue::Object(duplicate_members(members)),
    }
}

fn duplicate_list(items: &Vec<JsonValue>) -> (out: Vec<JsonValue>)
    ensures
        list_of(out@) == list_of(items@),
    decreases *items,
{
    let mut out: Vec<JsonValue> = Vec::new();
    let mut i: usize = 0;
    while i < items.len()
        invariant
            i <= items.len(),
            out.len() == i,
            forall|k: int| 0 <= k < i ==> json_of(#[trigger] out@[k]) == json_of(items@[k]),
        decreases items.len() - i,
    {
        out.push(duplicate_json(&items[i]));
        i = i + 1;
    }
    proof {
        assert(list_of(out@) =~= list_of(items@));
    }
    out
}

fn duplicate_members(members: &Vec<JsonMember>) -> (out: Vec<JsonMember>)
    ensures
        members_of(out@) == members_of(members@),
    decreases *members,
{
    let mut out: Vec<JsonMember> = Vec::new();
    let mut i: usize = 0;
    while i < members.len()
        invariant
            i <= members.len(),
            members_of(out@) == members_of(members@.take(i as int)),
        decreases members.len() - i,
    {
        let m = JsonMember {
            name: members[i].name.clone(),
            value: duplicate_json(&members[i].value),
        };
        proof {
            assert(members@.take(i + 1).drop_last() =~= members@.take(i as int));
            assert(out@.push(m).drop_last() =~= out@);
        }
        out.push(m);
        i = i + 1;
    }
    proof {
        assert(members@.take(i as int) =~= members@);
    }
    out
}

impl Clone for JsonValue {
    fn clone(&self) -> (r: JsonValue)
        ensures
            r@ == self@,
    {
        duplicate_json(self)
    }
}

pub(crate) fn find_last(members: &Vec<JsonMember>, name: &str) -> (r: Option<usize>)
    ensures
        match r {
            Some(i) => i == last_named(members@, name@) && i < members.len(),
            None => last_named(members@, name@) == -1,
        },
{
    let mut n: usize = members.len();
    proof {
        assert(members@.take(n as int) =~= members@);
    }
    while n > 0
        invariant
            n <= members.len(),
            last_named(members@, name@) == last_named(members@.take(n as int), name@),
        decreases n,
    {
        if same_text(members[n - 1].name.as_str(), name) {
            return Some(n - 1);
        }
        proof {
            assert(members@.take(n as int).drop_last() =~= members@.take(n - 1));
        }
        n = n - 1;
    }
    None
}

fn equal_json(a: &JsonValue, b: &JsonValue) -> (r: bool)
    ensures
        r == same_json(a@, b@),
    decreases *a,
{
    match (a, b) {
        (JsonValue::Null, JsonValue::Null) => true,
        (JsonValue::Bool(x), JsonValue::Bool(y)) => *x == *y,
        (JsonValue::Number(x), JsonValue::Number(y)) => x.matches(y),
        (JsonValue::Text(x), JsonValue::Text(y)) => same_text(x.as_str(), y.as_str()),
        (JsonValue::List(x), JsonValue::List(y)) => equal_lists(x, y),
        (JsonValue::Object(x), JsonValue::Object(y)) => equal_members(x, y),
        _ => false,
    }
}

fn equal_lists(x: &Vec<JsonValue>, y: &Vec<JsonValue>) -> (r: bool)
    ensures
        r == same_json(Json::List(list_of(x@)), Json::List(list_of(y@))),
    decreases *x,
{
    if x.len() != y.len() {
        return false;
    }
    let ghost p = list_of(x@);
    let ghost q = list_of(y@);
    let mut i: usize = 0;
    while i < x.len()
        invariant
            i <= x.len() == y.len(),
            p == list_of(x@),
            q == list_of(y@),
            forall|k: int| 0 <= k < i ==> same_json(#[trigger] p[k], q[k]),
        decreases x.len() - i,
    {
        if !equal_json(&x[i], &y[i]) {
            proof {
                assert(!same_json(p[i as int], q[i as int]));
            }
            return false;
        }
        i = i + 1;
    }
    true
}

fn equal_members(x: &Vec<JsonMember>, y: &Vec<JsonMember>) -> (r: bool)
    ensures
        r == same_json(Json::Object(members_of(x@)), Json::Object(members_of(y@))),
    decreases *x,
{
    let ghost p = members_of(x@);
    let ghost q = members_of(y@);
    let mut i: usize = 0;
    while i < x.len()
        invariant
            i <= x.len(),
            p == members_of(x@),
            q == members_of(y@),
            forall|k: int|
                0 <= k < i ==> q.contains_key(#[trigger] x@[k].name@) && same_json(
                    p[x@[k].name@],
                    q[x@[k].name@],
                ),
        decreases x.len() - i,
    {
        let ghost name = x@[i as int].name@;
        proof {
            lemma_last_named(x@, name);
            lemma_last_named(y@, name);
            assert(p.contains_key(name));
        }
        let at_x = find_last(x, x[i].name.as_str());
        let at_y = find_last(y, x[i].name.as_str());
        match (at_x, at_y) {
            (Some(j), Some(k)) => {
                if !equal_json(&x[j].value, &y[k].value) {
                    proof {
                        assert(!same_json(p[name], q[name]));
                    }
                    return false;
                }
            },
            _ => {
                proof {
                    assert(p.dom().contains(name) && !q.dom().contains(name));
                }
                return false;
            },
        }
        i = i + 1;
    }
    let mut j: usize = 0;
    while j < y.len()
        invariant
            j <= y.len(),
            p == members_of(x@),
            q == members_of(y@),
            forall|k: int| 0 <= k < j ==> p.contains_key(#[trigger] y@[k].name@),
        decreases y.len() - j,
    {
        let ghost name = y@[j as int].name@;
        proof {
            lemma_last_named(x@, name);
            lemma_last_named(y@, name);
            assert(q.contains_key(name));
        }
        if find_last(x, y[j].name.as_str()).is_none() {
            proof {
                assert(q.dom().contains(name) && !p.dom().contains(name));
            }
            return false;
        }
        j = j + 1;
    }
    proof {
        assert forall|k: Seq<char>| p.contains_key(k) implies same_json(#[trigger] p[k], q[k]) by {
            lemma_last_named(x@, k);
            assert(x@[last_named(x@, k)].name@ == k);
        }
        assert forall|k: Seq<char>| #[trigger] p.dom().contains(k) == q.dom().contains(k) by {
            lemma_last_named(x@, k);
            lemma_last_named(y@, k);
            if p.contains_key(k) {
                assert(x@[last_named(x@, k)].name@ == k);
            }
            if q.contains_key(k) {
                assert(y@[last_named(y@, k)].name@ == k);
            }
        }
        assert(p.dom() =~= q.dom());
    }
    true
}

impl JsonValue {
    /// The value that a text holds, where the text is one JSON value.
    pub fn parse(text: &str) -> (r: Option<JsonValue>)
        ensures
            opt_json(r) == parsed_json(text@),
    {
        match parse_json(text) {
            Ok(value) => Some(value),
            Err(_) => None,
        }
    }

    /// The compact text of the value, which is one line.
    pub fn render(&self) -> (r: String)
        ensures
            r@ == compact_text(self@),
            !r@.contains('\n'),
            nests_within(self@, 127) && holds_integers(self@) ==> parsed_json(r@) == Some(self@),
    {
        render_json(self)
    }

    /// Whether two values are equal as JSON.
    pub fn matches(&self, other: &JsonValue) -> (r: bool)
        ensures
            r == same_json(self@, other@),
    {
        equal_json(self, other)
    }

    /// The value of a member, where this is an object that has it.
    pub fn member(&self, name: &str) -> (r: Option<&JsonValue>)
        ensures
            match r {
                Some(v) => json_member(self@, name@) == Some(v@),
                None => json_member(self@, name@) is None,
            },
    {
        match self {
            JsonValue::Object(members) => {
                proof {
                    lemma_last_named(members@, name@);
                }
                match find_last(members, name) {
                    Some(i) => Some(&members[i].value),
                    None => None,
                }
            },
            _ => None,
        }
    }

    /// The text, where this is one.
    pub fn as_text(&self) -> (r: Option<&str>)
        ensures
            match r {
                Some(s) => json_text(self@) == Some(s@),
                None => json_text(self@) is None,
            },
    {
        match self {
            JsonValue::Text(s) => Some(s.as_str()),
            _ => None,
        }
    }

    /// The number, where this is an unsigned integer.
    pub fn as_unsigned(&self) -> (r: Option<u64>)
        ensures
            r == json_unsigned(self@),
    {
        match self {
            JsonValue::Number(JsonNumber::Unsigned(n)) => Some(*n),
            _ => None,
        }
    }
}

/// A JSON object under construction.
#[derive(Debug)]
pub struct JsonObject {
    pub members: Vec<JsonMember>,
}

impl View for JsonObject {
    type V = Map<Seq<char>, Json>;

    open spec fn view(&self) -> Map<Seq<char>, Json> {
        members_of(self.members@)
    }
}

impl JsonObject {
    /// An object without members.
    pub fn new() -> (r: JsonObject)
        ensures
            r@ == Map::<Seq<char>, Json>::empty(),
    {
        JsonObject { members: Vec::new() }
    }

    /// Sets a member.
    pub fn put(&mut self, name: &str, value: JsonValue)
        ensures
            final(self)@ == old(self)@.insert(name@, value@),
    {
        let m = JsonMember { name: name.to_owned(), value };
        proof {
            assert(self.members@.push(m).drop_last() =~= self.members@);
        }
        self.members.push(m);
    }

    /// Sets a member to a text.
    pub fn put_text(&mut self, name: &str, value: &str)
        ensures
            final(self)@ == old(self)@.insert(name@, Json::Text(value@)),
    {
        self.put(name, JsonValue::Text(value.to_owned()));
    }

    /// Sets a member to a boolean.
    pub fn put_bool(&mut self, name: &str, value: bool)
        ensures
            final(self)@ == old(self)@.insert(name@, Json::Bool(value)),
    {
        self.put(name, JsonValue::Bool(value));
    }

    /// Sets a member to an unsigned integer.
    pub fn put_unsigned(&mut self, name: &str, value: u64)
        ensures
            final(self)@ == old(self)@.insert(name@, Json::Number(JsonNum::Unsigned(value))),
    {
        self.put(name, JsonValue::Number(JsonNumber::Unsigned(value)));
    }

    /// The finished object.
    pub fn finish(self) -> (r: JsonValue)
        ensures
            r@ == Json::Object(self@),
    {
        JsonValue::Object(self.members)
    }
}

/// Adds a value to a list.
pub fn add_entry(list: &mut Vec<JsonValue>, entry: JsonValue)
    ensures
        list_of(final(list)@) == list_of(old(list)@).push(entry@),
{
    let ghost before = list@;
    list.push(entry);
    proof {
        assert(list_of(list@) =~= list_of(before).push(entry@));
    }
}

/// Whether the members of every object in `v` stand in the order of their names.
pub open spec fn key_sorted(v: JsonValue) -> bool
    decreases v,
{
    match v {
        JsonValue::List(items) => forall|i: int|
            0 <= i < items@.len() ==> key_sorted(#[trigger] items@[i]),
        JsonValue::Object(members) => names_ascend(members@) && forall|i: int|
            0 <= i < members@.len() ==> key_sorted((#[trigger] members@[i]).value),
        _ => true,
    }
}

/// Whether each name comes before the names that follow it.
pub open spec fn names_ascend(members: Seq<JsonMember>) -> bool {
    forall|i: int, j: int|
        0 <= i < j < members.len() ==> text_before(
            #[trigger] members[i].name@,
            #[trigger] members[j].name@,
        )
}

pub(crate) proof fn lemma_ascend_distinct(members: Seq<JsonMember>)
    requires
        names_ascend(members),
    ensures
        names_distinct(members),
{
    assert forall|i: int, j: int| 0 <= i < j < members.len() implies #[trigger] members[i].name@
        != #[trigger] members[j].name@ by {
        text_before_irreflexive(members[i].name@);
    }
}

proof fn lemma_place_member(before: Seq<JsonMember>, at: int, m: JsonMember, after: Seq<JsonMember>)
    requires
        names_ascend(before),
        0 <= at <= before.len(),
        forall|k: int| 0 <= k < at ==> text_before(#[trigger] before[k].name@, m.name@),
        (after == before.insert(at, m) && forall|k: int|
            at <= k < before.len() ==> text_before(m.name@, #[trigger] before[k].name@)) || (after
            == before.update(at, m) && at < before.len() && before[at].name@ == m.name@),
    ensures
        names_ascend(after),
        members_of(after) == members_of(before).insert(m.name@, json_of(m.value)),
{
    lemma_ascend_distinct(before);
    if after == before.insert(at, m) {
        assert forall|i: int, j: int| 0 <= i < j < after.len() implies text_before(
            #[trigger] after[i].name@,
            #[trigger] after[j].name@,
        ) by {
            let pi = if i < at { i } else { i - 1 };
            let pj = if j < at { j } else { j - 1 };
            if i != at {
                assert(after[i] == before[pi]);
            }
            if j != at {
                assert(after[j] == before[pj]);
            }
        }
    }
    lemma_ascend_distinct(after);
    lemma_distinct_lookup(before);
    lemma_distinct_lookup(after);
    let grown = members_of(before).insert(m.name@, json_of(m.value));
    assert(after[at] == m);
    assert forall|k: Seq<char>| #[trigger] members_of(after).dom().contains(k) == grown.dom().contains(k)
        && (grown.dom().contains(k) ==> members_of(after)[k] == grown[k]) by {
        if members_of(after).contains_key(k) && k != m.name@ {
            let i = choose|i: int| 0 <= i < after.len() && #[trigger] after[i].name@ == k;
            let pi = if after.len() == before.len() || i < at { i } else { i - 1 };
            assert(before[pi] == after[i]);
        }
        if members_of(before).contains_key(k) && k != m.name@ {
            let i = choose|i: int| 0 <= i < before.len() && #[trigger] before[i].name@ == k;
            let ni = if after.len() == before.len() || i < at { i } else { i + 1 };
            assert(after[ni] == before[i]);
        }
    }
    assert(members_of(after) =~= grown);
}

fn place_member(sorted: &mut Vec<JsonMember>, m: JsonMember)
    requires
        names_ascend(old(sorted)@),
        key_sorted(m.value),
        forall|k: int| 0 <= k < old(sorted)@.len() ==> key_sorted((#[trigger] old(sorted)@[k]).value),
    ensures
        names_ascend(final(sorted)@),
        members_of(final(sorted)@) == members_of(old(sorted)@).insert(m.name@, json_of(m.value)),
        forall|k: int|
            0 <= k < final(sorted)@.len() ==> key_sorted((#[trigger] final(sorted)@[k]).value),
{
    let mut at: usize = 0;
    while at < sorted.len() && comes_before(sorted[at].name.as_str(), m.name.as_str())
        invariant
            at <= sorted@.len(),
            sorted@ == old(sorted)@,
            forall|k: int| 0 <= k < at ==> text_before(#[trigger] sorted@[k].name@, m.name@),
        decreases sorted@.len() - at,
    {
        at = at + 1;
    }
    let ghost before = sorted@;
    if at < sorted.len() && same_text(sorted[at].name.as_str(), m.name.as_str()) {
        sorted.set(at, m);
        proof {
            lemma_place_member(before, at as int, m, sorted@);
        }
    } else {
        proof {
            if at < before.len() {
                text_before_total(before[at as int].name@, m.name@);
                assert forall|k: int| at <= k < before.len() implies text_before(
                    m.name@,
                    #[trigger] before[k].name@,
                ) by {
                    if at < k {
                        text_before_transitive(m.name@, before[at as int].name@, before[k].name@);
                    }
                }
            }
            lemma_place_member(before, at as int, m, before.insert(at as int, m));
        }
        sorted.insert(at, m);
    }
}

/// The same value with the members of every object in the order of their names.
pub fn sort_json_value(v: &JsonValue) -> (r: JsonValue)
    ensures
        r@ == v@,
        key_sorted(r),
    decreases *v,
{
    match v {
        JsonValue::List(items) => JsonValue::List(sort_list(items)),
        JsonValue::Object(members) => JsonValue::Object(sort_members(members)),
        _ => v.clone(),
    }
}

fn sort_list(items: &Vec<JsonValue>) -> (out: Vec<JsonValue>)
    ensures
        list_of(out@) == list_of(items@),
        forall|k: int| 0 <= k < out@.len() ==> key_sorted(#[trigger] out@[k]),
    decreases *items,
{
    let mut out: Vec<JsonValue> = Vec::new();
    let mut i: usize = 0;
    while i < items.len()
        invariant
            i <= items.len(),
            out.len() == i,
            forall|k: int|
                0 <= k < i ==> key_sorted(#[trigger] out@[k]) && json_of(out@[k]) == json_of(items@[k]),
        decreases items.len() - i,
    {
        out.push(sort_json_value(&items[i]));
        i = i + 1;
    }
    proof {
        assert(list_of(out@) =~= list_of(items@));
    }
    out
}

fn sort_members(members: &Vec<JsonMember>) -> (out: Vec<JsonMember>)
    ensures
        names_ascend(out@),
        members_of(out@) == members_of(members@),
        forall|k: int| 0 <= k < out@.len() ==> key_sorted((#[trigger] out@[k]).value),
    decreases *members,
{
    let mut out: Vec<JsonMember> = Vec::new();
    let mut i: usize = 0;
    while i < members.len()
        invariant
            i <= members.len(),
            names_ascend(out@),
            members_of(out@) == members_of(members@.take(i as int)),
            forall|k: int| 0 <= k < out@.len() ==> key_sorted((#[trigger] out@[k]).value),
        decreases members.len() - i,
    {
        let m = JsonMember {
            name: members[i].name.clone(),
            value: sort_json_value(&members[i].value),
        };
        proof {
            assert(members@.take(i + 1).drop_last() =~= members@.take(i as int));
        }
        place_member(&mut out, m);
        i = i + 1;
    }
    proof {
        assert(members@.take(i as int) =~= members@);
    }
    out
}

/// The value type of `serde_json`, carried between the reader, the writer and the conversions below.
#[verifier::external_type_specification]
#[verifier::external_body]
pub struct ExSerdeValue(serde_json::Value);

/// What `serde_json` reads from a text: the value, or nothing where the text is not JSON.
pub uninterp spec fn parsed_json(text: Seq<char>) -> Option<Json>;

/// What `serde_json` says of a text that is not JSON.
pub uninterp spec fn json_complaint(text: Seq<char>) -> Seq<char>;

/// The compact text that `serde_json` writes for a value.
pub uninterp spec fn rendered_json(value: Json) -> Seq<char>;

/// Whether a text needs no escapes between quotes.
pub open spec fn is_plain_text(text: Seq<char>) -> bool {
    forall|i: int|
        0 <= i < text.len() ==> #[trigger] text[i] >= ' ' && text[i] != '"' && text[i] != '\\'
}

/// The text of a value that is written in one piece and without escapes.
pub open spec fn scalar_text(value: Json) -> Option<Seq<char>> {
    match value {
        Json::Null => Some("null"@),
        Json::Bool(true) => Some("true"@),
        Json::Bool(false) => Some("false"@),
        Json::Number(JsonNum::Unsigned(n)) => Some(decimal(n as nat)),
        Json::Number(JsonNum::Negative(n)) => if n < 0 {
            Some("-"@ + decimal((-n) as nat))
        } else {
            None
        },
        Json::Text(text) => if is_plain_text(text) {
            Some("\""@ + text + "\""@)
        } else {
            None
        },
        _ => None,
    }
}

/// The compact text of a value.
pub open spec fn compact_text(value: Json) -> Seq<char> {
    match scalar_text(value) {
        Some(text) => text,
        None => rendered_json(value),
    }
}

/// Whether lists and objects stand inside each other at most so many levels deep.
pub open spec fn nests_within(value: Json, levels: nat) -> bool
    decreases value,
{
    match value {
        Json::List(items) => levels > 0 && forall|i: int|
            0 <= i < items.len() ==> nests_within(#[trigger] items[i], (levels - 1) as nat),
        Json::Object(members) => levels > 0 && forall|k: Seq<char>|
            members.contains_key(k) ==> nests_within(#[trigger] members[k], (levels - 1) as nat),
        _ => true,
    }
}

/// Whether all numbers of a value are integers in their usual form: what is not an integer may come
/// back as a neighbouring number.
pub open spec fn holds_integers(value: Json) -> bool
    decreases value,
{
    match value {
        Json::Number(JsonNum::Negative(n)) => n < 0,
        Json::Number(JsonNum::Decimal(_)) => false,
        Json::List(items) => forall|i: int|
            0 <= i < items.len() ==> holds_integers(#[trigger] items[i]),
        Json::Object(members) => forall|k: Seq<char>|
            members.contains_key(k) ==> holds_integers(#[trigger] members[k]),
        _ => true,
    }
}

/// The names and values of some entries.
pub open spec fn entry_models(entries: Seq<(&str, &JsonValue)>) -> Seq<(Seq<char>, Json)> {
    entries.map_values(|e: (&str, &JsonValue)| (e.0@, e.1@))
}

/// The text of one entry of an object.
pub open spec fn entry_text(entry: (Seq<char>, Json)) -> Seq<char> {
    compact_text(Json::Text(entry.0)) + ":"@ + compact_text(entry.1)
}

/// The entries of an object, one after the other.
pub open spec fn entries_text(entries: Seq<(Seq<char>, Json)>) -> Seq<char>
    decreases entries.len(),
{
    if entries.len() == 0 {
        Seq::empty()
    } else if entries.len() == 1 {
        entry_text(entries[0])
    } else {
        entries_text(entries.drop_last()) + ","@ + entry_text(entries.last())
    }
}

/// The compact text of an object whose entries stand in the given order.
pub open spec fn object_text(entries: Seq<(Seq<char>, Json)>) -> Seq<char> {
    "{"@ + entries_text(entries) + "}"@
}

/// The object that some entries make up. Of two with the same name the later one counts.
pub open spec fn object_of(entries: Seq<(Seq<char>, Json)>) -> Map<Seq<char>, Json>
    decreases entries.len(),
{
    if entries.len() == 0 {
        Map::empty()
    } else {
        object_of(entries.drop_last()).insert(entries.last().0, entries.last().1)
    }
}

/// Whether what was read is an object with the names of another one, and with its values where they
/// hold integers only.
pub open spec fn object_comes_back(object: Map<Seq<char>, Json>, read: Option<Json>) -> bool {
    match read {
        Some(Json::Object(found)) => found.dom() == object.dom() && forall|k: Seq<char>|
            object.contains_key(k) && holds_integers(object[k]) ==> #[trigger] found[k] == object[k],
        _ => false,
    }
}

/// Turns a `serde_json::Value` into a value of this library, variant by variant. A number that is
/// not an integer becomes the decimal text that `serde_json::Number` displays.
#[verifier::external_body]
fn import_value(value: Value) -> JsonValue {
    match value {
        Value::Null => JsonValue::Null,
        Value::Bool(b) => JsonValue::Bool(b),
        Value::Number(n) => match (n.as_u64(), n.as_i64()) {
            (Some(u), _) => JsonValue::Number(JsonNumber::Unsigned(u)),
            (None, Some(i)) => JsonValue::Number(JsonNumber::Negative(i)),
            (None, None) => JsonValue::Number(JsonNumber::Decimal(n.to_string())),
        },
        Value::String(s) => JsonValue::Text(s),
        Value::Array(items) => JsonValue::List(items.into_iter().map(import_value).collect()),
        Value::Object(members) => JsonValue::Object(members.into_iter().map(import_member).collect()),
    }
}

/// Turns a member of a `serde_json::Map` into a member of an object of this library.
#[verifier::external_body]
fn import_member(member: (String, Value)) -> JsonMember {
    JsonMember { name: member.0, value: import_value(member.1) }
}

/// Calls `serde_json::from_str` for a `serde_json::Value`. The result is what `parsed_json` names,
/// the value that the text holds. Where the text is not one JSON value it is the complaint that
/// `json_complaint` names, the text of the `serde_json::Error`.
#[verifier::external_body]
pub(crate) fn parse_json(text: &str) -> (r: Result<JsonValue, String>)
    ensures
        r is Ok ==> parsed_json(text@) == Some(r->Ok_0@),
        r is Err ==> parsed_json(text@) is None && r->Err_0@ == json_complaint(text@),
{
    match serde_json::from_str::<Value>(text) {
        Ok(value) => Ok(import_value(value)),
        Err(error) => Err(error.to_string()),
    }
}

/// Calls `serde_json::from_str` for a `serde_json::Number`: the number that a decimal text spells, or
/// null where it spells none.
#[verifier::external_body]
fn export_decimal(text: &str) -> Value {
    match serde_json::from_str::<Number>(text) {
        Ok(number) => Value::Number(number),
        Err(_) => Value::Null,
    }
}

/// Turns a value of this library into a `serde_json::Value`, variant by variant. A decimal text
/// becomes the number that it spells.
#[verifier::external_body]
fn export_value(value: &JsonValue) -> Value {
    match value {
        JsonValue::Null => Value::Null,
        JsonValue::Bool(b) => Value::from(*b),
        JsonValue::Number(JsonNumber::Unsigned(n)) => Value::from(*n),
        JsonValue::Number(JsonNumber::Negative(n)) => Value::from(*n),
        JsonValue::Number(JsonNumber::Decimal(n)) => export_decimal(n),
        JsonValue::Text(s) => Value::from(s.as_str()),
        JsonValue::List(items) => Value::Array(items.iter().map(export_value).collect()),
        JsonValue::Object(members) => Value::Object(members.iter().map(export_member).collect()),
    }
}

/// Turns a member of an object of this library into a member of a `serde_json::Map`.
#[verifier::external_body]
fn export_member(member: &JsonMember) -> (String, Value) {
    (member.name.clone(), export_value(&member.value))
}

/// Calls `to_string` of `serde_json::Value`, which writes the compact text: of a value in one piece
/// that needs no escapes the text that `scalar_text` says, of any other the one that `rendered_json`
/// names. Line breaks inside strings are escaped and none is written between tokens, so the text
/// holds no line break. `serde_json` reads its own text back, up to 127 levels deep, as the same
/// value where its numbers are integers.
#[verifier::external_body]
pub(crate) fn render_json(value: &JsonValue) -> (r: String)
    ensures
        scalar_text(value@) is Some ==> r@ == scalar_text(value@)->0,
        scalar_text(value@) is None ==> r@ == rendered_json(value@),
        !r@.contains('\n'),
        nests_within(value@, 127) && holds_integers(value@) ==> parsed_json(r@) == Some(value@),
{
    export_value(value).to_string()
}

/// Calls `collect_map` of the compact `serde_json::Serializer`, which writes an object with its
/// entries in the given order, and no line break. Writing values of this library to a vector does
/// not fail, and what is written is UTF-8. A number is written flat, and so `serde_json` reads the
/// text back as an object with the same names, where no value is more than 126 levels deep, and with
/// the same value wherever its numbers are integers.
#[verifier::external_body]
pub(crate) fn render_object(entries: &Vec<(&str, &JsonValue)>) -> (r: Option<String>)
    ensures
        r is Some,
        r->0@ == object_text(entry_models(entries@)),
        !r->0@.contains('\n'),
        (forall|i: int|
            0 <= i < entries@.len() ==> nests_within((#[trigger] entries@[i]).1@, 126))
            ==> object_comes_back(object_of(entry_models(entries@)), parsed_json(r->0@)),
{
    let mut out = Vec::new();
    let mut writer = serde_json::Serializer::new(&mut out);
    let values = entries.iter().map(|e| (e.0, export_value(e.1)));
    match writer.collect_map(values) {
        Ok(_) => String::from_utf8(out).ok(),
        Err(_) => None,
    }
}

/// Every value equals itself.
pub proof fn json_equals_itself(v: Json)
    ensures
        same_json(v, v),
    decreases v,
{
    match v {
        Json::List(items) => {
            assert forall|i: int| 0 <= i < items.len() implies same_json(#[trigger] items[i], items[i]) by {
                json_equals_itself(items[i]);
            }
        },
        Json::Object(members) => {
            assert forall|k: Seq<char>| members.contains_key(k) implies same_json(
                #[trigger] members[k],
                members[k],
            ) by {
                json_equals_itself(members[k]);
            }
        },
        _ => {},
    }
}

/// Equal values are of the same kind: no text equals a number, no list an object, and two texts, two
/// flags or two integers are equal only if they are the same.
pub proof fn equal_values_are_alike(a: Json, b: Json)
    requires
        same_json(a, b),
    ensures
        same_json(b, a),
        a matches Json::Text(x) ==> b == Json::Text(x),
        a matches Json::Bool(x) ==> b == Json::Bool(x),
        a is Null ==> b is Null,
        a matches Json::Number(JsonNum::Unsigned(x)) ==> b == Json::Number(JsonNum::Unsigned(x)),
        a matches Json::Number(JsonNum::Negative(x)) ==> b == Json::Number(JsonNum::Negative(x)),
        a matches Json::List(x) ==> b is List && b->List_0.len() == x.len(),
        a matches Json::Object(x) ==> b is Object && b->Object_0.dom() == x.dom(),
    decreases a,
{
    match (a, b) {
        (Json::List(x), Json::List(y)) => {
            assert forall|i: int| 0 <= i < y.len() implies same_json(#[trigger] y[i], x[i]) by {
                equal_values_are_alike(x[i], y[i]);
            }
        },
        (Json::Object(x), Json::Object(y)) => {
            assert forall|k: Seq<char>| y.contains_key(k) implies same_json(#[trigger] y[k], x[k]) by {
                assert(x.contains_key(k));
                equal_values_are_alike(x[k], y[k]);
            }
        },
        _ => {},
    }
}

/// Numbers, truth values, null and plain texts are written as JSON writes them.
pub proof fn scalars_are_written_plainly(n: u64, text: Seq<char>)
    ensures
        compact_text(Json::Null) == "null"@,
        compact_text(Json::Bool(true)) == "true"@,
        compact_text(Json::Bool(false)) == "false"@,
        compact_text(Json::Number(JsonNum::Unsigned(n))) == decimal(n as nat),
        (forall|i: int|
            0 <= i < text.len() ==> #[trigger] text[i] >= ' ' && text[i] != '"' && text[i] != '\\')
            ==> compact_text(Json::Text(text)) == "\""@ + text + "\""@,
{
}

/// A member is found in an object under its name and nowhere else; a text or a number is read as what it
/// is, and nothing else is read as one.
pub proof fn members_are_found_by_name(members: Map<Seq<char>, Json>, name: Seq<char>, value: Json)
    ensures
        json_member(Json::Object(members), name) is Some <==> members.contains_key(name),
        members.contains_key(name) ==> json_member(Json::Object(members), name) == Some(members[name]),
        !(value is Object) ==> json_member(value, name) is None,
        json_text(value) is Some <==> value is Text,
        value matches Json::Text(text) ==> json_text(value) == Some(text),
        value matches Json::Number(JsonNum::Unsigned(n)) ==> json_unsigned(value) == Some(n),
        !(value is Number) ==> json_unsigned(value) is None,
{
}

} // verus!
