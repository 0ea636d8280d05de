//! JSON values held as plain data, as a model endpoint's reply arrives and
//! as a request is built, and their compact serialization.
use vstd::prelude::*;

use crate::canon::{json_bool, json_null, json_string, put_bool, put_mark, put_null, put_str};
use crate::text::utf8_of;

verus! {

/// A JSON number: the text a JSON serializer writes for it, and its value
/// when it is an unsigned integer that fits 64 bits.
#[derive(Debug, Clone, PartialEq, Eq)]
pub struct JsonNumber {
    pub text: String,
    pub unsigned: Option<u64>,
}

/// A JSON value. An object keeps its members in order, each key once.
#[derive(Debug, PartialEq, Eq)]
pub enum JsonValue {
    Null,
    Bool(bool),
    Number(JsonNumber),
    String(String),
    Array(Vec<JsonValue>),
    Object(Vec<JsonEntry>),
}

/// A member of a JSON object.
#[derive(Debug, PartialEq, Eq)]
pub struct JsonEntry {
    pub key: String,
    pub value: JsonValue,
}

/// What a JSON value holds.
pub enum JsonView {
    Null,
    Bool(bool),
    Number(Seq<char>, Option<u64>),
    String(Seq<char>),
    Array(Seq<JsonView>),
    Object(Seq<(Seq<char>, JsonView)>),
}

pub open spec fn json_view(v: JsonValue) -> JsonView
    decreases v, 0nat,
{
    match v {
        JsonValue::Null => JsonView::Null,
        JsonValue::Bool(b) => JsonView::Bool(b),
        JsonValue::Number(n) => JsonView::Number(n.text@, n.unsigned),
        JsonValue::String(s) => JsonView::String(s@),
        JsonValue::Array(items) => JsonView::Array(items_view(items@, items@.len())),
        JsonValue::Object(entries) => JsonView::Object(entries_view(entries@, entries@.len())),
    }
}

/// The views of the first `n` items.
pub open spec fn items_view(items: Seq<JsonValue>, n: nat) -> Seq<JsonView>
    decreases items, n,
{
    if n == 0 || n > items.len() {
        Seq::empty()
    } else {
        items_view(items, (n - 1) as nat).push(json_view(items[n - 1]))
    }
}

/// The views of the first `n` members.
pub open spec fn entries_view(entries: Seq<JsonEntry>, n: nat) -> Seq<(Seq<char>, JsonView)>
    decreases entries, n,
{
    if n == 0 || n > entries.len() {
        Seq::empty()
    } else {
        entries_view(entries, (n - 1) as nat).push(
            (entries[n - 1].key@, json_view(entries[n - 1].value)),
        )
    }
}

impl View for JsonValue {
    type V = JsonView;

    open spec fn view(&self) -> JsonView {
        json_view(*self)
    }
}

/// The value of the first member named `key`.
pub open spec fn member_of(entries: Seq<(Seq<char>, JsonView)>, key: Seq<char>) -> Option<JsonView>
    decreases entries.len(),
{
    if entries.len() == 0 {
        None
    } else if entries[0].0 == key {
        Some(entries[0].1)
    } else {
        member_of(entries.drop_first(), key)
    }
}

impl JsonView {
    /// The member named `key`, when this is an object that has one.
    pub open spec fn member(self, key: Seq<char>) -> Option<JsonView> {
        match self {
            JsonView::Object(entries) => member_of(entries, key),
            _ => None,
        }
    }

    /// The text of a string.
    pub open spec fn text(self) -> Option<Seq<char>> {
        match self {
            JsonView::String(s) => Some(s),
            _ => None,
        }
    }

    /// The first item of a non-empty array.
    pub open spec fn first(self) -> Option<JsonView> {
        match self {
            JsonView::Array(items) => if items.len() > 0 {
                Some(items[0])
            } else {
                None
            },
            _ => None,
        }
    }

    /// The value of an unsigned integer number that fits 64 bits.
    pub open spec fn unsigned(self) -> Option<u64> {
        match self {
            JsonView::Number(_, u) => u,
            _ => None,
        }
    }
}

pub open spec fn opt_member(v: Option<JsonView>, key: Seq<char>) -> Option<JsonView> {
    match v {
        Some(x) => x.member(key),
        None => None,
    }
}

pub open spec fn opt_text(v: Option<JsonView>) -> Option<Seq<char>> {
    match v {
        Some(x) => x.text(),
        None => None,
    }
}

pub open spec fn opt_first(v: Option<JsonView>) -> Option<JsonView> {
    match v {
        Some(x) => x.first(),
        None => None,
    }
}

pub open spec fn opt_unsigned(v: Option<JsonView>) -> Option<u64> {
    match v {
        Some(x) => x.unsigned(),
        None => None,
    }
}

pub proof fn lemma_items_view(items: Seq<JsonValue>, n: nat)
    requires
        n <= items.len(),
    ensures
        items_view(items, n).len() == n,
        forall|i: int| 0 <= i < n ==> #[trigger] items_view(items, n)[i] == json_view(items[i]),
    decreases n,
{
    if n > 0 {
        lemma_items_view(items, (n - 1) as nat);
    }
}

pub proof fn lemma_entries_view(entries: Seq<JsonEntry>, n: nat)
    requires
        n <= entries.len(),
    ensures
        entries_view(entries, n).len() == n,
        forall|i: int|
            0 <= i < n ==> #[trigger] entries_view(entries, n)[i] == (
                entries[i].key@,
                json_view(entries[i].value),
            ),
    decreases n,
{
    if n > 0 {
        lemma_entries_view(entries, (n - 1) as nat);
    }
}

impl JsonValue {
    /// The member named `key`, when this is an object that has one.
    pub fn get(&self, key: &str) -> (r: Option<&JsonValue>)
        ensures
            match r {
                Some(v) => self@.member(key@) == Some(v@),
                None => self@.member(key@) is None,
            },
    {
        match self {
            JsonValue::Object(entries) => {
                let ghost ev = entries_view(entries@, entries@.len());
                proof {
                    lemma_entries_view(entries@, entries@.len());
                    assert(ev.subrange(0, ev.len() as int) =~= ev);
                    assert(self@ == JsonView::Object(ev));
                }
                let mut i: usize = 0;
                while i < entries.len()
                    invariant
                        i <= entries@.len(),
                        ev == entries_view(entries@, entries@.len()),
                        ev.len() == entries@.len(),
                        forall|k: int|
                            0 <= k < ev.len() ==> #[trigger] ev[k] == (
                                entries@[k].key@,
                                json_view(entries@[k].value),
                            ),
                        self@ == JsonView::Object(ev),
                        member_of(ev, key@) == member_of(ev.subrange(i as int, ev.len() as int), key@),
                    decreases entries.len() - i,
                {
                    let ghost rest = ev.subrange(i as int, ev.len() as int);
                    assert(rest[0] == ev[i as int]);
                    if crate::text::str_equal(entries[i].key.as_str(), key) {
                        proof {
                            assert(ev[i as int] == (
                                entries@[i as int].key@,
                                json_view(entries@[i as int].value),
                            ));
                            assert(member_of(rest, key@) == Some(rest[0].1));
                        }
                        return Some(&entries[i].value);
                    }
                    assert(rest.drop_first() =~= ev.subrange(i as int + 1, ev.len() as int));
                    i = i + 1;
                }
                None
            },
            _ => None,
        }
    }

    /// The text of a string.
    pub fn as_str(&self) -> (r: Option<&str>)
        ensures
            match r {
                Some(t) => self@.text() == Some(t@),
                None => self@.text() is None,
            },
    {
        match self {
            JsonValue::String(s) => Some(s.as_str()),
            _ => None,
        }
    }

    /// The first item of a non-empty array.
    pub fn first(&self) -> (r: Option<&JsonValue>)
        ensures
            match r {
                Some(v) => self@.first() == Some(v@),
                None => self@.first() is None,
            },
    {
        match self {
            JsonValue::Array(items) => {
                proof {
                    lemma_items_view(items@, items@.len());
                }
                if items.len() > 0 {
                    Some(&items[0])
                } else {
                    None
                }
            },
            _ => None,
        }
    }

    /// The value of an unsigned integer number that fits 64 bits.
    pub fn as_u64(&self) -> (r: Option<u64>)
        ensures
            r == self@.unsigned(),
    {
        match self {
            JsonValue::Number(n) => n.unsigned,
            _ => None,
        }
    }

    pub fn is_object(&self) -> (r: bool)
        ensures
            r == (self@ is Object),
    {
        match self {
            JsonValue::Object(_) => true,
            _ => false,
        }
    }
}

/// The compact serialization of a JSON value: no white space, members and
/// items in order, strings escaped as JSON requires.
pub open spec fn compact(v: JsonView) -> Seq<u8>
    decreases v, 0nat,
{
    match v {
        JsonView::Null => json_null(),
        JsonView::Bool(b) => json_bool(b),
        JsonView::Number(t, _) => utf8_of(t),
        JsonView::String(s) => json_string(s),
        JsonView::Array(items) => seq![0x5bu8] + compact_items(items, items.len()) + seq![0x5du8],
        JsonView::Object(entries) => seq![0x7bu8] + compact_entries(entries, entries.len()) + seq![
            0x7du8,
        ],
    }
}

/// The first `n` items, separated by commas.
pub open spec fn compact_items(items: Seq<JsonView>, n: nat) -> Seq<u8>
    decreases items, n,
{
    if n == 0 || n > items.len() {
        Seq::empty()
    } else if n == 1 {
        compact(items[0])
    } else {
        compact_items(items, (n - 1) as nat) + seq![0x2cu8] + compact(items[n - 1])
    }
}

/// The first `n` members as `"key":value`, separated by commas.
pub open spec fn compact_entries(entries: Seq<(Seq<char>, JsonView)>, n: nat) -> Seq<u8>
    decreases entries, n,
{
    if n == 0 || n > entries.len() {
        Seq::empty()
    } else if n == 1 {
        json_string(entries[0].0) + seq![0x3au8] + compact(entries[0].1)
    } else {
        compact_entries(entries, (n - 1) as nat) + seq![0x2cu8] + json_string(entries[n - 1].0)
            + seq![0x3au8] + compact(entries[n - 1].1)
    }
}

fn put_bytes_of(buf: &mut Vec<u8>, s: &str)
    ensures
        final(buf)@ == old(buf)@ + utf8_of(s@),
{
    let b = s.as_bytes();
    let ghost start = buf@;
    let mut i: usize = 0;
    while i < b.len()
        invariant
            i <= b@.len(),
            b@ == utf8_of(s@),
            buf@ == start + b@.subrange(0, i as int),
        decreases b.len() - i,
    {
        buf.push(b[i]);
        i = i + 1;
        assert(buf@ =~= start + b@.subrange(0, i as int));
    }
    assert(b@.subrange(0, i as int) =~= b@);
}

impl JsonValue {
    /// Appends the compact serialization.
    pub fn write_compact(&self, buf: &mut Vec<u8>)
        ensures
            final(buf)@ == old(buf)@ + compact(self@),
        decreases self,
    {
        match self {
            JsonValue::Null => put_null(buf),
            JsonValue::Bool(b) => put_bool(buf, *b),
            JsonValue::Number(n) => put_bytes_of(buf, n.text.as_str()),
            JsonValue::String(s) => put_str(buf, s.as_str()),
            JsonValue::Array(items) => {
                let ghost iv = items_view(items@, items@.len());
                proof {
                    lemma_items_view(items@, items@.len());
                }
                put_mark(buf, 0x5b);
                let ghost start = buf@;
                let mut i: usize = 0;
                while i < items.len()
                    invariant
                        i <= items@.len(),
                        iv == items_view(items@, items@.len()),
                        *self == JsonValue::Array(*items),
                        iv.len() == items@.len(),
                        forall|k: int| 0 <= k < iv.len() ==> #[trigger] iv[k] == json_view(items@[k]),
                        buf@ == start + compact_items(iv, i as nat),
                    decreases items.len() - i,
                {
                    if i > 0 {
                        put_mark(buf, 0x2c);
                    }
                    proof {
                        vstd::std_specs::vec::axiom_vec_index_decreases(*items, i as int);
                        assert(decreases_to!(*self => (*self)->Array_0));
                        assert(decreases_to!(*self => items[i as int]));
                    }
                    items[i].write_compact(buf);
                    i = i + 1;
                }
                put_mark(buf, 0x5d);
            },
            JsonValue::Object(entries) => {
                let ghost ev = entries_view(entries@, entries@.len());
                proof {
                    lemma_entries_view(entries@, entries@.len());
                }
                put_mark(buf, 0x7b);
                let ghost start = buf@;
                let mut i: usize = 0;
                while i < entries.len()
                    invariant
                        i <= entries@.len(),
                        ev == entries_view(entries@, entries@.len()),
                        *self == JsonValue::Object(*entries),
                        ev.len() == entries@.len(),
                        forall|k: int|
                            0 <= k < ev.len() ==> #[trigger] ev[k] == (
                                entries@[k].key@,
                                json_view(entries@[k].value),
                            ),
                        buf@ == start + compact_entries(ev, i as nat),
                    decreases entries.len() - i,
                {
                    if i > 0 {
                        put_mark(buf, 0x2c);
                    }
                    put_str(buf, entries[i].key.as_str());
                    put_mark(buf, 0x3a);
                    proof {
                        vstd::std_specs::vec::axiom_vec_index_decreases(*entries, i as int);
                        assert(decreases_to!(*self => (*self)->Object_0));
                        assert(decreases_to!(*self => entries[i as int]));
                        assert(decreases_to!(*self => entries[i as int].value));
                    }
                    entries[i].value.write_compact(buf);
                    i = i + 1;
                }
                put_mark(buf, 0x7d);
            },
        }
    }
}


impl JsonValue {
    /// A copy of the value.
    pub fn duplicate(&self) -> (r: JsonValue)
        ensures
            r@ == self@,
        decreases self,
    {
        match self {
            JsonValue::Null => JsonValue::Null,
            JsonValue::Bool(b) => JsonValue::Bool(*b),
            JsonValue::Number(n) => JsonValue::Number(
                JsonNumber { text: n.text.clone(), unsigned: n.unsigned },
            ),
            JsonValue::String(s) => JsonValue::String(s.clone()),
            JsonValue::Array(items) => {
                let mut out: Vec<JsonValue> = Vec::new();
                let mut i: usize = 0;
                while i < items.len()
                    invariant
                        i <= items@.len(),
                        *self == JsonValue::Array(*items),
                        out@.len() == i,
                        forall|k: int| 0 <= k < i ==> #[trigger] json_view(out@[k]) == json_view(items@[k]),
                    decreases items.len() - i,
                {
                    proof {
                        vstd::std_specs::vec::axiom_vec_index_decreases(*items, i as int);
                        assert(decreases_to!(*self => (*self)->Array_0));
                        assert(decreases_to!(*self => items[i as int]));
                    }
                    let x = items[i].duplicate();
                    out.push(x);
                    i = i + 1;
                }
                proof {
                    lemma_items_view(items@, items@.len());
                    lemma_items_view(out@, out@.len());
                    assert(items_view(out@, out@.len()) =~= items_view(items@, items@.len()));
                }
                JsonValue::Array(out)
            },
            JsonValue::Object(entries) => {
                let mut out: Vec<JsonEntry> = Vec::new();
                let mut i: usize = 0;
                while i < entries.len()
                    invariant
                        i <= entries@.len(),
                        *self == JsonValue::Object(*entries),
                        out@.len() == i,
                        forall|k: int|
                            0 <= k < i ==> #[trigger] out@[k].key@ == entries@[k].key@ && json_view(
                                out@[k].value,
                            ) == json_view(entries@[k].value),
                    decreases entries.len() - i,
                {
                    proof {
                        vstd::std_specs::vec::axiom_vec_index_decreases(*entries, i as int);
                        assert(decreases_to!(*self => (*self)->Object_0));
                        assert(decreases_to!(*self => entries[i as int]));
                        assert(decreases_to!(*self => entries[i as int].value));
                    }
                    let value = entries[i].value.duplicate();
                    out.push(JsonEntry { key: entries[i].key.clone(), value });
                    i = i + 1;
                }
                proof {
                    lemma_entries_view(entries@, entries@.len());
                    lemma_entries_view(out@, out@.len());
                    assert(entries_view(out@, out@.len()) =~= entries_view(entries@, entries@.len()));
                }
                JsonValue::Object(out)
            },
        }
    }
}

} // verus!
