//! Room events as nested documents, and the lookup of a field by its
//! dotted path.

use crate::text::chars_of;
use vstd::prelude::*;

verus! {

/// A value in an event: a scalar, a list, or an object of named fields.
#[derive(Debug, PartialEq, Eq)]
pub enum EventValue {
    Null,
    Bool(bool),
    Integer(i64),
    Text(String),
    List(Vec<EventValue>),
    Object(Vec<EventField>),
}

/// A named field of an object.
#[derive(Debug, PartialEq, Eq)]
pub struct EventField {
    pub name: String,
    pub value: EventValue,
}

/// The mathematical value of an [`EventValue`]. An object is the sequence
/// of its fields, each a name and a value.
pub enum ValueView {
    Null,
    Bool(bool),
    Integer(int),
    Text(Seq<char>),
    List(Seq<ValueView>),
    Object(Seq<(Seq<char>, ValueView)>),
}

/// The value of an event value. A list is taken item by item and an object
/// field by field, in the order in which they are held.
pub open spec fn value_view(value: EventValue) -> ValueView
    decreases value,
{
    match value {
        EventValue::Null => ValueView::Null,
        EventValue::Bool(b) => ValueView::Bool(b),
        EventValue::Integer(i) => ValueView::Integer(i as int),
        EventValue::Text(s) => ValueView::Text(s@),
        EventValue::List(items) => ValueView::List(items_view(items, items@.len())),
        EventValue::Object(fields) => ValueView::Object(fields_view(fields, fields@.len())),
    }
}

/// The values of the first `n` items of a list.
pub open spec fn items_view(items: Vec<EventValue>, n: nat) -> Seq<ValueView>
    decreases items, n,
{
    if n == 0 || n > items@.len() {
        Seq::empty()
    } else {
        items_view(items, (n - 1) as nat).push(value_view(items@[n - 1]))
    }
}

/// The names and values of the first `n` fields of an object.
pub open spec fn fields_view(fields: Vec<EventField>, n: nat) -> Seq<(Seq<char>, ValueView)>
    decreases fields, n,
{
    if n == 0 || n > fields@.len() {
        Seq::empty()
    } else {
        fields_view(fields, (n - 1) as nat).push(
            (fields@[n - 1].name@, value_view(fields@[n - 1].value)),
        )
    }
}

impl View for EventValue {
    type V = ValueView;

    open spec fn view(&self) -> ValueView {
        value_view(*self)
    }
}

/// The first `n` fields of an object, one by one.
pub proof fn lemma_fields_view(fields: Vec<EventField>, n: nat)
    requires
        n <= fields@.len(),
    ensures
        fields_view(fields, n).len() == n,
        forall|k: int|
            0 <= k < n ==> (#[trigger] fields_view(fields, n)[k]) == (
                fields@[k].name@,
                fields@[k].value@,
            ),
    decreases n,
{
    if n > 0 {
        lemma_fields_view(fields, (n - 1) as nat);
    }
}

/// The value of an object is the sequence of its fields' names and values.
pub proof fn lemma_object_view(fields: Vec<EventField>)
    ensures
        EventValue::Object(fields)@ is Object,
        EventValue::Object(fields)@->Object_0.len() == fields@.len(),
        forall|k: int|
            0 <= k < fields@.len() ==> (#[trigger] EventValue::Object(fields)@->Object_0[k]) == (
                fields@[k].name@,
                fields@[k].value@,
            ),
{
    lemma_fields_view(fields, fields@.len());
}

/// The value under `name` in a list of named entries: that of the first
/// entry with that name.
pub open spec fn entry_named<V>(entries: Seq<(Seq<char>, V)>, name: Seq<char>) -> Option<V>
    decreases entries.len(),
{
    if entries.len() == 0 {
        None
    } else if entries[0].0 == name {
        Some(entries[0].1)
    } else {
        entry_named(entries.drop_first(), name)
    }
}

/// An entry that no entry of the same name precedes is the one found.
pub proof fn lemma_entry_found<V>(entries: Seq<(Seq<char>, V)>, name: Seq<char>, at: int)
    requires
        0 <= at < entries.len(),
        entries[at].0 == name,
        forall|k: int| 0 <= k < at ==> entries[k].0 != name,
    ensures
        entry_named(entries, name) == Some(entries[at].1),
    decreases at,
{
    if at > 0 {
        let rest = entries.drop_first();
        assert forall|k: int| 0 <= k < at - 1 implies rest[k].0 != name by {}
        lemma_entry_found(rest, name, at - 1);
    }
}

/// Where no entry has the name, none is found.
pub proof fn lemma_entry_missing<V>(entries: Seq<(Seq<char>, V)>, name: Seq<char>)
    requires
        forall|k: int| 0 <= k < entries.len() ==> entries[k].0 != name,
    ensures
        entry_named(entries, name) is None,
    decreases entries.len(),
{
    if entries.len() > 0 {
        let rest = entries.drop_first();
        assert forall|k: int| 0 <= k < rest.len() implies rest[k].0 != name by {}
        lemma_entry_missing(rest, name);
    }
}

/// The segments of a dotted path: the stretches between its dots. A path
/// without a dot is one segment; the empty path is one empty segment.
pub open spec fn path_segments(path: Seq<char>) -> Seq<Seq<char>>
    decreases path.len(),
{
    if path.len() == 0 {
        seq![Seq::empty()]
    } else {
        let before = path_segments(path.drop_last());
        if path.last() == '.' {
            before.push(Seq::empty())
        } else {
            before.drop_last().push(before.last().push(path.last()))
        }
    }
}

/// The field called `name` of `value`: nothing where the value is no
/// object or has no such field.
pub open spec fn child_named(value: ValueView, name: Seq<char>) -> Option<ValueView> {
    match value {
        ValueView::Object(fields) => entry_named(fields, name),
        _ => None,
    }
}

/// The value reached from `value` by going down one object per segment.
/// Nothing is reached where a segment names no field or the value at hand
/// is no object.
pub open spec fn descend(value: ValueView, segments: Seq<Seq<char>>) -> Option<ValueView>
    decreases segments.len(),
{
    if segments.len() == 0 {
        Some(value)
    } else {
        match child_named(value, segments[0]) {
            Some(child) => descend(child, segments.drop_first()),
            None => None,
        }
    }
}

/// The value under the dotted path `path` in `event`.
pub open spec fn lookup(event: ValueView, path: Seq<char>) -> Option<ValueView> {
    descend(event, path_segments(path))
}

/// The string under the dotted path `path` in `event`: nothing where the
/// path leads nowhere or to a value that is no string.
pub open spec fn lookup_text(event: ValueView, path: Seq<char>) -> Option<Seq<char>> {
    match lookup(event, path) {
        Some(ValueView::Text(text)) => Some(text),
        _ => None,
    }
}

/// Whether `name` holds no dot.
pub open spec fn is_plain_name(name: Seq<char>) -> bool {
    forall|i: int| 0 <= i < name.len() ==> name[i] != '.'
}

/// A path has at least one segment.
pub proof fn lemma_path_segments_nonempty(path: Seq<char>)
    ensures
        path_segments(path).len() >= 1,
    decreases path.len(),
{
    if path.len() > 0 {
        lemma_path_segments_nonempty(path.drop_last());
    }
}

/// A path without a dot is its own single segment.
pub proof fn lemma_segments_of_plain_name(name: Seq<char>)
    requires
        is_plain_name(name),
    ensures
        path_segments(name) == seq![name],
    decreases name.len(),
{
    if name.len() == 0 {
        assert(name =~= Seq::<char>::empty());
    } else {
        let init = name.drop_last();
        assert forall|i: int| 0 <= i < init.len() implies init[i] != '.' by {}
        lemma_segments_of_plain_name(init);
        assert(init.push(name.last()) =~= name);
    }
}

/// The segments of `first.rest`, where `first` holds no dot, are `first`
/// and then the segments of `rest`.
pub proof fn lemma_segments_of_dotted_path(first: Seq<char>, rest: Seq<char>)
    requires
        is_plain_name(first),
    ensures
        path_segments(first + seq!['.'] + rest) == seq![first] + path_segments(rest),
    decreases rest.len(),
{
    let path = first + seq!['.'] + rest;
    if rest.len() == 0 {
        assert(path.drop_last() =~= first);
        lemma_segments_of_plain_name(first);
    } else {
        let init = rest.drop_last();
        assert(path.drop_last() =~= first + seq!['.'] + init);
        lemma_segments_of_dotted_path(first, init);
        lemma_path_segments_nonempty(init);
        let inner = path_segments(init);
        let before = seq![first] + inner;
        if rest.last() == '.' {
            assert(before.push(Seq::<char>::empty()) =~= seq![first] + inner.push(
                Seq::<char>::empty(),
            ));
        } else {
            assert(before.drop_last().push(before.last().push(rest.last())) =~= seq![first]
                + inner.drop_last().push(inner.last().push(rest.last())));
        }
    }
}

/// Looking up a name without a dot finds the field of that name.
pub proof fn lemma_lookup_plain_name(event: ValueView, name: Seq<char>)
    requires
        is_plain_name(name),
    ensures
        lookup(event, name) == child_named(event, name),
{
    lemma_segments_of_plain_name(name);
    let segments = seq![name];
    match child_named(event, name) {
        Some(child) => {
            assert(descend(child, segments.drop_first()) == Some(child));
        },
        None => {},
    }
}

/// Looking up `first.rest`, where `first` holds no dot, goes to the field
/// called `first` and looks up `rest` there.
pub proof fn lemma_lookup_dotted_path(event: ValueView, first: Seq<char>, rest: Seq<char>)
    requires
        is_plain_name(first),
    ensures
        lookup(event, first + seq!['.'] + rest) == (match child_named(event, first) {
            Some(child) => lookup(child, rest),
            None => None,
        }),
{
    lemma_segments_of_dotted_path(first, rest);
    let segments = seq![first] + path_segments(rest);
    assert(segments.drop_first() =~= path_segments(rest));
}

/// The character sequences that a list of character vectors holds.
pub open spec fn segment_views(segments: Seq<Vec<char>>) -> Seq<Seq<char>> {
    segments.map_values(|s: Vec<char>| s@)
}

/// Splits a dotted path into its segments.
pub fn split_path(path: &str) -> (segments: Vec<Vec<char>>)
    ensures
        segment_views(segments@) == path_segments(path@),
{
    let chars = chars_of(path);
    let mut segments: Vec<Vec<char>> = Vec::new();
    let mut current: Vec<char> = Vec::new();
    let mut i: usize = 0;
    while i < chars.len()
        invariant
            i <= chars.len(),
            chars@ == path@,
            segment_views(segments@).push(current@) == path_segments(path@.take(i as int)),
        decreases chars.len() - i,
    {
        let c = chars[i];
        proof {
            assert(path@.take(i + 1).drop_last() =~= path@.take(i as int));
        }
        if c == '.' {
            segments.push(current);
            current = Vec::new();
        } else {
            current.push(c);
        }
        i += 1;
    }
    proof {
        assert(path@.take(chars.len() as int) =~= path@);
    }
    segments.push(current);
    segments
}

/// Tests whether a string holds exactly the given characters.
pub fn same_text(text: &str, chars: &Vec<char>) -> (same: bool)
    ensures
        same == (text@ == chars@),
{
    let own = chars_of(text);
    if own.len() != chars.len() {
        return false;
    }
    let mut i: usize = 0;
    while i < own.len()
        invariant
            i <= own.len(),
            own.len() == chars.len(),
            own@ == text@,
            forall|k: int| 0 <= k < i ==> own[k] == chars[k],
        decreases own.len() - i,
    {
        if own[i] != chars[i] {
            return false;
        }
        i += 1;
    }
    assert(own@ =~= chars@);
    true
}

impl EventValue {
    /// The field called `name`, where the value is an object that has one:
    /// the first of that name.
    pub fn field<'a>(&'a self, name: &Vec<char>) -> (found: Option<&'a EventValue>)
        ensures
            match found {
                Some(child) => child_named(self@, name@) == Some(child@),
                None => child_named(self@, name@) is None,
            },
    {
        match self {
            EventValue::Object(fields) => {
                let ghost entries = self@->Object_0;
                let mut i: usize = 0;
                proof {
                    lemma_object_view(*fields);
                }
                while i < fields.len()
                    invariant
                        i <= fields.len(),
                        self@ == ValueView::Object(entries),
                        entries.len() == fields.len(),
                        forall|k: int|
                            0 <= k < fields.len() ==> entries[k] == (
                                fields[k].name@,
                                fields[k].value@,
                            ),
                        forall|k: int| 0 <= k < i ==> entries[k].0 != name@,
                    decreases fields.len() - i,
                {
                    if same_text(fields[i].name.as_str(), name) {
                        proof {
                            lemma_entry_found(entries, name@, i as int);
                        }
                        return Some(&fields[i].value);
                    }
                    i += 1;
                }
                proof {
                    lemma_entry_missing(entries, name@);
                }
                None
            },
            _ => None,
        }
    }

    /// The value under the dotted path `path`.
    pub fn lookup<'a>(&'a self, path: &str) -> (found: Option<&'a EventValue>)
        ensures
            match found {
                Some(value) => lookup(self@, path@) == Some(value@),
                None => lookup(self@, path@) is None,
            },
    {
        let segments = split_path(path);
        let ghost all = path_segments(path@);
        let mut current: &EventValue = self;
        let mut i: usize = 0;
        assert(all.skip(0) =~= all);
        while i < segments.len()
            invariant
                i <= segments.len(),
                segment_views(segments@) == all,
                all == path_segments(path@),
                descend(self@, all) == descend(current@, all.skip(i as int)),
            decreases segments.len() - i,
        {
            proof {
                assert(all.skip(i as int).drop_first() =~= all.skip(i + 1));
            }
            match current.field(&segments[i]) {
                Some(child) => {
                    current = child;
                },
                None => {
                    return None;
                },
            }
            i += 1;
        }
        Some(current)
    }

    /// The string under the dotted path `path`.
    pub fn lookup_text<'a>(&'a self, path: &str) -> (found: Option<&'a String>)
        ensures
            match found {
                Some(text) => lookup_text(self@, path@) == Some(text@),
                None => lookup_text(self@, path@) is None,
            },
    {
        match self.lookup(path) {
            Some(EventValue::Text(text)) => Some(text),
            _ => None,
        }
    }
}

} // verus!
