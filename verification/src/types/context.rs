//! Caveat context: a recursive, dynamically typed value, and the map from
//! field names to such values that parameterizes the evaluation of a caveat.

use crate::proto;
use crate::proto::value::{FieldView, KindView, ListValueView, StructView, ValueView};
use crate::types::keys::{
    key_eq, key_less, key_lt, lemma_key_less_connected, lemma_key_less_irreflexive,
    lemma_key_less_transitive,
};
use vstd::prelude::*;
use vstd::std_specs::cmp::PartialEqSpecImpl;

verus! {

/// A typed value for caveat context evaluation.
///
/// A number is held as the bit pattern of an IEEE 754 double (as given by
/// `f64::to_bits`): the wire carries every number in double precision and
/// keeps no distinction between integers and fractions, so an integer
/// beyond 2^53 may not survive the way to the server. Two numbers are equal
/// when their bit patterns are.
#[derive(Debug)]
pub enum ContextValue {
    /// The null value.
    Null,
    /// A boolean value.
    Bool(bool),
    /// A numeric value, as the bits of a double.
    Number(u64),
    /// A string value.
    String(String),
    /// A list of values.
    List(Vec<ContextValue>),
    /// A nested key-value structure.
    Struct(ContextMap),
}

/// A map from field names to context values.
///
/// No name occurs twice, and the order in which fields were inserted leaves
/// no trace: two maps that hold the same values under the same names are
/// equal. The fields are kept in the order of their names.
#[derive(Debug)]
pub struct ContextMap {
    entries: Vec<ContextEntry>,
}

/// One field of a [`ContextMap`].
#[derive(Debug)]
pub struct ContextEntry {
    /// The field's name.
    pub key: String,
    /// The field's value.
    pub value: ContextValue,
}

/// Mathematical model of [`ContextValue`].
pub enum ContextValueView {
    Null,
    Bool(bool),
    Number(u64),
    String(Seq<char>),
    List(Seq<ContextValueView>),
    Struct(Seq<ContextEntryView>),
}

/// Mathematical model of [`ContextEntry`].
pub struct ContextEntryView {
    pub key: Seq<char>,
    pub value: ContextValueView,
}

/// The model of a value.
pub open spec fn value_view(v: ContextValue) -> ContextValueView
    decreases v,
{
    match v {
        ContextValue::Null => ContextValueView::Null,
        ContextValue::Bool(b) => ContextValueView::Bool(b),
        ContextValue::Number(bits) => ContextValueView::Number(bits),
        ContextValue::String(s) => ContextValueView::String(s@),
        ContextValue::List(items) => ContextValueView::List(values_view(items)),
        ContextValue::Struct(m) => ContextValueView::Struct(map_view(m)),
    }
}

/// The model of a list of values.
pub open spec fn values_view(items: Vec<ContextValue>) -> Seq<ContextValueView>
    decreases items,
{
    Seq::new(
        items@.len(),
        |i: int|
            if 0 <= i < items.len() {
                value_view(items[i])
            } else {
                arbitrary()
            },
    )
}

/// The model of a list of fields.
pub open spec fn entries_view(entries: Vec<ContextEntry>) -> Seq<ContextEntryView>
    decreases entries,
{
    Seq::new(
        entries@.len(),
        |i: int|
            if 0 <= i < entries.len() {
                ContextEntryView { key: entries[i].key@, value: value_view(entries[i].value) }
            } else {
                arbitrary()
            },
    )
}

/// The model of a map: its fields in the order of their names.
pub closed spec fn map_view(m: ContextMap) -> Seq<ContextEntryView>
    decreases m,
{
    entries_view(m.entries)
}

impl View for ContextValue {
    type V = ContextValueView;

    open spec fn view(&self) -> ContextValueView {
        value_view(*self)
    }
}

impl View for ContextEntry {
    type V = ContextEntryView;

    open spec fn view(&self) -> ContextEntryView {
        ContextEntryView { key: self.key@, value: self.value@ }
    }
}

impl View for ContextMap {
    type V = Seq<ContextEntryView>;

    open spec fn view(&self) -> Seq<ContextEntryView> {
        map_view(*self)
    }
}

/// Whether fields stand in the strict order of their names, so that no name
/// occurs twice.
pub open spec fn entries_sorted(entries: Seq<ContextEntryView>) -> bool {
    forall|i: int, j: int|
        0 <= i < j < entries.len() ==> key_less(#[trigger] entries[i].key, #[trigger] entries[j].key)
}

/// The place of `key` among sorted fields: the number of leading fields
/// whose names come before it.
pub open spec fn position(entries: Seq<ContextEntryView>, key: Seq<char>) -> int
    decreases entries.len(),
{
    if entries.len() == 0 || !key_less(entries[0].key, key) {
        0
    } else {
        1 + position(entries.drop_first(), key)
    }
}

/// The value held under `key`, if any.
pub open spec fn lookup(entries: Seq<ContextEntryView>, key: Seq<char>) -> Option<
    ContextValueView,
> {
    let p = position(entries, key);
    if p < entries.len() && entries[p].key == key {
        Some(entries[p].value)
    } else {
        None
    }
}

/// The fields after `value` is put under `key`: a field of that name is
/// replaced, otherwise the new field is inserted at its place.
pub open spec fn with_entry(
    entries: Seq<ContextEntryView>,
    key: Seq<char>,
    value: ContextValueView,
) -> Seq<ContextEntryView> {
    let p = position(entries, key);
    if p < entries.len() && entries[p].key == key {
        entries.update(p, ContextEntryView { key, value })
    } else {
        entries.insert(p, ContextEntryView { key, value })
    }
}

/// The place of a key is the index at which the names stop coming before it.
pub proof fn lemma_position_is(entries: Seq<ContextEntryView>, key: Seq<char>, p: int)
    requires
        0 <= p <= entries.len(),
        forall|j: int| 0 <= j < p ==> key_less(#[trigger] entries[j].key, key),
        p < entries.len() ==> !key_less(entries[p].key, key),
    ensures
        position(entries, key) == p,
    decreases entries.len(),
{
    if p > 0 {
        let rest = entries.drop_first();
        assert forall|j: int| 0 <= j < p - 1 implies key_less(#[trigger] rest[j].key, key) by {
            assert(rest[j] == entries[j + 1]);
        }
        lemma_position_is(rest, key, p - 1);
    }
}

/// The place of a key lies within the fields; every name before it comes
/// before the key and, among sorted fields, no name from it on does.
pub proof fn lemma_position_bounds(entries: Seq<ContextEntryView>, key: Seq<char>)
    ensures
        0 <= position(entries, key) <= entries.len(),
        forall|j: int|
            0 <= j < position(entries, key) ==> key_less(#[trigger] entries[j].key, key),
        position(entries, key) < entries.len() ==> !key_less(
            entries[position(entries, key)].key,
            key,
        ),
    decreases entries.len(),
{
    if entries.len() == 0 || !key_less(entries[0].key, key) {
    } else {
        let rest = entries.drop_first();
        lemma_position_bounds(rest, key);
        let p = position(entries, key);
        assert forall|j: int| 0 <= j < p implies key_less(#[trigger] entries[j].key, key) by {
            if j > 0 {
                assert(rest[j - 1] == entries[j]);
            }
        }
        if p < entries.len() {
            assert(rest[p - 1] == entries[p]);
        }
    }
}

/// Putting a value under a key keeps sorted fields sorted.
pub proof fn lemma_with_entry_sorted(
    entries: Seq<ContextEntryView>,
    key: Seq<char>,
    value: ContextValueView,
)
    requires
        entries_sorted(entries),
    ensures
        entries_sorted(with_entry(entries, key, value)),
{
    lemma_position_bounds(entries, key);
    let p = position(entries, key);
    let r = with_entry(entries, key, value);
    if p < entries.len() && entries[p].key == key {
        assert forall|i: int, j: int| 0 <= i < j < r.len() implies key_less(
            #[trigger] r[i].key,
            #[trigger] r[j].key,
        ) by {
            assert(r[i].key == entries[i].key);
            assert(r[j].key == entries[j].key);
        }
    } else {
        assert forall|j: int| p <= j < entries.len() implies key_less(
            key,
            #[trigger] entries[j].key,
        ) by {
            if !key_less(key, entries[p].key) {
                lemma_key_less_connected(key, entries[p].key);
            }
            if j > p {
                lemma_key_less_transitive(key, entries[p].key, entries[j].key);
            }
        }
        assert forall|i: int, j: int| 0 <= i < j < r.len() implies key_less(
            #[trigger] r[i].key,
            #[trigger] r[j].key,
        ) by {
            if j < p {
                assert(r[i] == entries[i] && r[j] == entries[j]);
            } else if j == p {
                assert(r[i] == entries[i]);
            } else if i < p {
                assert(r[i] == entries[i] && r[j] == entries[j - 1]);
            } else if i == p {
                assert(r[j] == entries[j - 1]);
            } else {
                assert(r[i] == entries[i - 1] && r[j] == entries[j - 1]);
            }
        }
    }
}

/// Among sorted fields, the field at index `i` is the one found under its
/// own name.
pub proof fn lemma_lookup_at(entries: Seq<ContextEntryView>, i: int)
    requires
        entries_sorted(entries),
        0 <= i < entries.len(),
    ensures
        position(entries, entries[i].key) == i,
        lookup(entries, entries[i].key) == Some(entries[i].value),
{
    lemma_key_less_irreflexive(entries[i].key);
    lemma_position_is(entries, entries[i].key, i);
}

/// A name that no field carries finds nothing.
pub proof fn lemma_lookup_absent(entries: Seq<ContextEntryView>, key: Seq<char>)
    requires
        forall|i: int| 0 <= i < entries.len() ==> (#[trigger] entries[i]).key != key,
    ensures
        lookup(entries, key) is None,
{
    lemma_position_bounds(entries, key);
}

/// After a value is put under a name, that name finds the value and every
/// other name finds what it found before.
pub proof fn lemma_lookup_with_entry(
    entries: Seq<ContextEntryView>,
    key: Seq<char>,
    value: ContextValueView,
    other: Seq<char>,
)
    requires
        entries_sorted(entries),
    ensures
        lookup(with_entry(entries, key, value), other) == if other == key {
            Some(value)
        } else {
            lookup(entries, other)
        },
{
    lemma_position_bounds(entries, key);
    lemma_position_bounds(entries, other);
    lemma_with_entry_sorted(entries, key, value);
    let p = position(entries, key);
    let q = position(entries, other);
    let r = with_entry(entries, key, value);
    let replaced = p < entries.len() && entries[p].key == key;
    if other == key {
        assert(r[p].key == key);
        lemma_lookup_at(r, p);
    } else if q < entries.len() && entries[q].key == other {
        let at = if replaced || q < p {
            q
        } else {
            q + 1
        };
        assert(r[at] == entries[q]);
        lemma_lookup_at(r, at);
    } else {
        assert forall|i: int| 0 <= i < r.len() implies (#[trigger] r[i]).key != other by {
            if r[i].key == other {
                let from = if replaced || i < p {
                    i
                } else {
                    i - 1
                };
                assert(i != p);
                assert(r[i] == entries[from]);
                lemma_lookup_at(entries, from);
            }
        }
        lemma_lookup_absent(r, other);
    }
}

/// Among sorted fields, dropping the first field takes its name away and
/// leaves what every other name finds.
proof fn lemma_lookup_drop_first(entries: Seq<ContextEntryView>, key: Seq<char>)
    requires
        entries_sorted(entries),
        entries.len() > 0,
    ensures
        entries_sorted(entries.drop_first()),
        lookup(entries.drop_first(), key) == if key == entries[0].key {
            None
        } else {
            lookup(entries, key)
        },
{
    let rest = entries.drop_first();
    assert forall|i: int, j: int| 0 <= i < j < rest.len() implies key_less(
        #[trigger] rest[i].key,
        #[trigger] rest[j].key,
    ) by {
        assert(rest[i] == entries[i + 1] && rest[j] == entries[j + 1]);
    }
    lemma_position_bounds(entries, key);
    let q = position(entries, key);
    if q < entries.len() && entries[q].key == key && q > 0 {
        assert(rest[q - 1] == entries[q]);
        lemma_lookup_at(rest, q - 1);
    } else {
        assert forall|i: int| 0 <= i < rest.len() implies (#[trigger] rest[i]).key != key by {
            assert(rest[i] == entries[i + 1]);
            if rest[i].key == key {
                lemma_lookup_at(entries, i + 1);
                lemma_lookup_at(entries, 0);
            }
        }
        lemma_lookup_absent(rest, key);
        if q < entries.len() && entries[q].key == key {
            assert(q == 0);
        }
    }
}

/// Two sorted lists of fields under which every name finds the same are the
/// same list: a map is known by what its names find.
pub proof fn lemma_entries_extensional(a: Seq<ContextEntryView>, b: Seq<ContextEntryView>)
    requires
        entries_sorted(a),
        entries_sorted(b),
        forall|key: Seq<char>| lookup(a, key) == lookup(b, key),
    ensures
        a == b,
    decreases a.len(),
{
    if a.len() == 0 {
        if b.len() > 0 {
            lemma_lookup_at(b, 0);
            lemma_lookup_absent(a, b[0].key);
        }
        assert(a =~= b);
    } else {
        lemma_lookup_at(a, 0);
        lemma_position_bounds(b, a[0].key);
        let j = position(b, a[0].key);
        assert(lookup(b, a[0].key) == Some(a[0].value));
        assert(b[j].key == a[0].key && b[j].value == a[0].value);
        if j > 0 {
            lemma_lookup_at(b, 0);
            lemma_position_bounds(a, b[0].key);
            let i = position(a, b[0].key);
            assert(lookup(a, b[0].key) == Some(b[0].value));
            assert(a[i].key == b[0].key);
            assert(key_less(b[0].key, b[j].key));
            if i > 0 {
                assert(key_less(a[0].key, a[i].key));
                lemma_key_less_transitive(a[0].key, b[0].key, a[0].key);
            }
            lemma_key_less_irreflexive(a[0].key);
        }
        assert(b[0] == a[0]);
        assert forall|key: Seq<char>| lookup(a.drop_first(), key) == lookup(
            b.drop_first(),
            key,
        ) by {
            lemma_lookup_drop_first(a, key);
            lemma_lookup_drop_first(b, key);
        }
        lemma_lookup_drop_first(a, a[0].key);
        lemma_lookup_drop_first(b, b[0].key);
        lemma_entries_extensional(a.drop_first(), b.drop_first());
        assert(a =~= seq![a[0]] + a.drop_first());
        assert(b =~= seq![b[0]] + b.drop_first());
    }
}

/// The map that sorted fields stand for: each name that finds a value, with
/// the value it finds.
pub open spec fn entries_map(entries: Seq<ContextEntryView>) -> Map<Seq<char>, ContextValueView> {
    Map::new(
        |key: Seq<char>| lookup(entries, key) is Some,
        |key: Seq<char>| lookup(entries, key)->0,
    )
}

/// Putting a value under a name is insertion into the map that the fields
/// stand for.
pub proof fn lemma_with_entry_is_insert(
    entries: Seq<ContextEntryView>,
    key: Seq<char>,
    value: ContextValueView,
)
    requires
        entries_sorted(entries),
    ensures
        entries_map(with_entry(entries, key, value)) == entries_map(entries).insert(key, value),
{
    let a = entries_map(with_entry(entries, key, value));
    let b = entries_map(entries).insert(key, value);
    assert forall|other: Seq<char>| #[trigger]
        a.dom().contains(other) <==> b.dom().contains(other) by {
        lemma_lookup_with_entry(entries, key, value, other);
        assert(a.dom().contains(other) == (lookup(with_entry(entries, key, value), other)
            is Some));
        assert(entries_map(entries).dom().contains(other) == (lookup(entries, other) is Some));
    }
    assert forall|other: Seq<char>| a.dom().contains(other) implies #[trigger] a[other]
        == b[other] by {
        lemma_lookup_with_entry(entries, key, value, other);
        assert(a[other] == lookup(with_entry(entries, key, value), other)->0);
        if other != key {
            assert(entries_map(entries).dom().contains(other));
            assert(entries_map(entries)[other] == lookup(entries, other)->0);
        }
    }
    assert(a =~= b);
}

/// Sorted fields are determined by the map they stand for.
pub proof fn lemma_map_determines_entries(a: Seq<ContextEntryView>, b: Seq<ContextEntryView>)
    requires
        entries_sorted(a),
        entries_sorted(b),
        entries_map(a) == entries_map(b),
    ensures
        a == b,
{
    assert forall|key: Seq<char>| lookup(a, key) == lookup(b, key) by {
        assert(entries_map(a).dom().contains(key) == (lookup(a, key) is Some));
        assert(entries_map(b).dom().contains(key) == (lookup(b, key) is Some));
        if lookup(a, key) is Some {
            assert(entries_map(a)[key] == lookup(a, key)->0);
            assert(entries_map(b)[key] == lookup(b, key)->0);
        }
    }
    lemma_entries_extensional(a, b);
}

/// The order of insertion is irrelevant: putting two values under two
/// different names gives the same map whichever is put first.
pub proof fn lemma_insertion_order_irrelevant(
    entries: Seq<ContextEntryView>,
    key1: Seq<char>,
    value1: ContextValueView,
    key2: Seq<char>,
    value2: ContextValueView,
)
    requires
        entries_sorted(entries),
        key1 != key2,
    ensures
        with_entry(with_entry(entries, key1, value1), key2, value2) == with_entry(
            with_entry(entries, key2, value2),
            key1,
            value1,
        ),
{
    let first = with_entry(entries, key1, value1);
    let second = with_entry(entries, key2, value2);
    let a = with_entry(first, key2, value2);
    let b = with_entry(second, key1, value1);
    lemma_with_entry_sorted(entries, key1, value1);
    lemma_with_entry_sorted(entries, key2, value2);
    lemma_with_entry_sorted(first, key2, value2);
    lemma_with_entry_sorted(second, key1, value1);
    assert forall|key: Seq<char>| lookup(a, key) == lookup(b, key) by {
        lemma_lookup_with_entry(entries, key1, value1, key);
        lemma_lookup_with_entry(entries, key2, value2, key);
        lemma_lookup_with_entry(first, key2, value2, key);
        lemma_lookup_with_entry(second, key1, value1, key);
    }
    lemma_entries_extensional(a, b);
}

/// Putting a value under a name twice is the same as putting the later
/// value once: of two values for one name the later stays.
pub proof fn lemma_later_value_stays(
    entries: Seq<ContextEntryView>,
    key: Seq<char>,
    value1: ContextValueView,
    value2: ContextValueView,
)
    requires
        entries_sorted(entries),
    ensures
        with_entry(with_entry(entries, key, value1), key, value2) == with_entry(
            entries,
            key,
            value2,
        ),
{
    let first = with_entry(entries, key, value1);
    let a = with_entry(first, key, value2);
    let b = with_entry(entries, key, value2);
    lemma_with_entry_sorted(entries, key, value1);
    lemma_with_entry_sorted(entries, key, value2);
    lemma_with_entry_sorted(first, key, value2);
    assert forall|other: Seq<char>| lookup(a, other) == lookup(b, other) by {
        lemma_lookup_with_entry(entries, key, value1, other);
        lemma_lookup_with_entry(entries, key, value2, other);
        lemma_lookup_with_entry(first, key, value2, other);
    }
    lemma_entries_extensional(a, b);
}

impl ContextMap {
    /// Every map keeps its fields in the strict order of their names.
    #[verifier::type_invariant]
    pub open spec fn well_formed(self) -> bool {
        entries_sorted(self@)
    }

    /// The map from names to values that this value stands for.
    pub open spec fn as_map(&self) -> Map<Seq<char>, ContextValueView> {
        entries_map(self@)
    }

    /// Creates an empty map.
    pub fn new() -> (m: ContextMap)
        ensures
            m@ == Seq::<ContextEntryView>::empty(),
            m.as_map() == Map::<Seq<char>, ContextValueView>::empty(),
    {
        let m = ContextMap { entries: Vec::new() };
        assert(m@ =~= Seq::<ContextEntryView>::empty());
        assert(m.as_map() =~= Map::<Seq<char>, ContextValueView>::empty());
        m
    }

    /// The number of fields.
    pub fn len(&self) -> (n: usize)
        ensures
            n == self@.len(),
    {
        self.entries.len()
    }

    /// Whether the map holds no field.
    pub fn is_empty(&self) -> (b: bool)
        ensures
            b == (self@.len() == 0),
    {
        self.entries.len() == 0
    }

    /// The field at index `i` in the order of names, if there is one.
    pub fn entry_at(&self, i: usize) -> (r: Option<&ContextEntry>)
        ensures
            match r {
                Some(e) => i < self@.len() && e@ == self@[i as int],
                None => i >= self@.len(),
            },
    {
        if i < self.entries.len() {
            Some(&self.entries[i])
        } else {
            None
        }
    }

    /// The place of `key` among the fields.
    fn find(&self, key: &str) -> (p: usize)
        ensures
            p == position(self@, key@),
            p <= self@.len(),
    {
        let mut i: usize = 0;
        while i < self.entries.len() && key_lt(self.entries[i].key.as_str(), key)
            invariant
                i <= self.entries@.len(),
                forall|j: int| 0 <= j < i ==> key_less(#[trigger] self@[j].key, key@),
            decreases self.entries@.len() - i,
        {
            i = i + 1;
        }
        proof {
            lemma_position_is(self@, key@, i as int);
        }
        i
    }

    /// The value held under `key`, if any.
    pub fn get(&self, key: &str) -> (r: Option<&ContextValue>)
        ensures
            match r {
                Some(v) => lookup(self@, key@) == Some(v@),
                None => lookup(self@, key@) is None,
            },
            match r {
                Some(v) => self.as_map().contains_key(key@) && self.as_map()[key@] == v@,
                None => !self.as_map().contains_key(key@),
            },
    {
        let p = self.find(key);
        if p < self.entries.len() && key_eq(self.entries[p].key.as_str(), key) {
            Some(&self.entries[p].value)
        } else {
            None
        }
    }

    /// Whether a value is held under `key`.
    pub fn contains_key(&self, key: &str) -> (b: bool)
        ensures
            b == lookup(self@, key@).is_some(),
            b == self.as_map().contains_key(key@),
    {
        self.get(key).is_some()
    }

    /// Puts `value` under `key` and returns the value that was held under
    /// that name before, if any.
    pub fn insert(&mut self, key: &str, value: ContextValue) -> (previous: Option<ContextValue>)
        ensures
            final(self)@ == with_entry(old(self)@, key@, value@),
            final(self).as_map() == old(self).as_map().insert(key@, value@),
            match previous {
                Some(v) => lookup(old(self)@, key@) == Some(v@),
                None => lookup(old(self)@, key@) is None,
            },
    {
        proof {
            use_type_invariant(&*self);
            lemma_with_entry_sorted(self@, key@, value@);
            lemma_with_entry_is_insert(self@, key@, value@);
        }
        let ghost before = self@;
        let p = self.find(key);
        let mut entries: Vec<ContextEntry> = Vec::new();
        core::mem::swap(&mut self.entries, &mut entries);
        assert(entries_view(entries) == before);
        let previous = if p < entries.len() && key_eq(entries[p].key.as_str(), key) {
            let replaced = entries.remove(p);
            entries.insert(p, ContextEntry { key: replaced.key, value });
            Some(replaced.value)
        } else {
            entries.insert(p, ContextEntry { key: key.to_owned(), value });
            None
        };
        assert(entries_view(entries) =~= with_entry(before, key@, value@));
        self.entries = entries;
        previous
    }
}

/// Copies a value.
fn clone_value(v: &ContextValue) -> (r: ContextValue)
    ensures
        r@ == v@,
    decreases v,
{
    match v {
        ContextValue::Null => ContextValue::Null,
        ContextValue::Bool(b) => ContextValue::Bool(*b),
        ContextValue::Number(bits) => ContextValue::Number(*bits),
        ContextValue::String(s) => ContextValue::String(s.clone()),
        ContextValue::List(items) => ContextValue::List(clone_values(items)),
        ContextValue::Struct(m) => ContextValue::Struct(clone_map(m)),
    }
}

/// Copies a list of values.
fn clone_values(items: &Vec<ContextValue>) -> (r: Vec<ContextValue>)
    ensures
        values_view(r) == values_view(*items),
    decreases items,
{
    let mut copies: Vec<ContextValue> = Vec::new();
    let mut i: usize = 0;
    while i < items.len()
        invariant
            i <= items.len(),
            copies@.len() == i,
            forall|j: int| 0 <= j < i ==> copies@[j]@ == items@[j]@,
        decreases items.len() - i,
    {
        copies.push(clone_value(&items[i]));
        i = i + 1;
    }
    assert(values_view(copies) =~= values_view(*items));
    copies
}

/// Copies a map.
fn clone_map(m: &ContextMap) -> (r: ContextMap)
    ensures
        r@ == m@,
    decreases m,
{
    proof {
        use_type_invariant(m);
    }
    let mut entries: Vec<ContextEntry> = Vec::new();
    let mut i: usize = 0;
    while i < m.entries.len()
        invariant
            i <= m.entries.len(),
            entries@.len() == i,
            forall|j: int| 0 <= j < i ==> entries@[j]@ == m.entries@[j]@,
        decreases m.entries.len() - i,
    {
        let e = &m.entries[i];
        entries.push(ContextEntry { key: e.key.clone(), value: clone_value(&e.value) });
        i = i + 1;
    }
    assert(entries_view(entries) =~= m@);
    ContextMap { entries }
}

/// Tells whether two values are the same.
fn value_equals(a: &ContextValue, b: &ContextValue) -> (r: bool)
    ensures
        r == (a@ == b@),
    decreases a,
{
    match (a, b) {
        (ContextValue::Null, ContextValue::Null) => true,
        (ContextValue::Bool(x), ContextValue::Bool(y)) => *x == *y,
        (ContextValue::Number(x), ContextValue::Number(y)) => *x == *y,
        (ContextValue::String(x), ContextValue::String(y)) => *x == *y,
        (ContextValue::List(x), ContextValue::List(y)) => values_equal(x, y),
        (ContextValue::Struct(x), ContextValue::Struct(y)) => map_equals(x, y),
        _ => false,
    }
}

/// Tells whether two lists of values are the same.
fn values_equal(a: &Vec<ContextValue>, b: &Vec<ContextValue>) -> (r: bool)
    ensures
        r == (values_view(*a) == values_view(*b)),
    decreases a,
{
    if a.len() != b.len() {
        assert(values_view(*a).len() != values_view(*b).len());
        return false;
    }
    let mut i: usize = 0;
    while i < a.len()
        invariant
            i <= a.len(),
            a.len() == b.len(),
            forall|j: int| 0 <= j < i ==> a@[j]@ == b@[j]@,
        decreases a.len() - i,
    {
        if !value_equals(&a[i], &b[i]) {
            assert(values_view(*a)[i as int] != values_view(*b)[i as int]);
            return false;
        }
        i = i + 1;
    }
    assert(values_view(*a) =~= values_view(*b));
    true
}

/// Tells whether two maps are the same.
fn map_equals(a: &ContextMap, b: &ContextMap) -> (r: bool)
    ensures
        r == (a@ == b@),
    decreases a,
{
    if a.entries.len() != b.entries.len() {
        assert(a@.len() != b@.len());
        return false;
    }
    let mut i: usize = 0;
    while i < a.entries.len()
        invariant
            i <= a.entries.len(),
            a.entries.len() == b.entries.len(),
            forall|j: int| 0 <= j < i ==> a.entries@[j]@ == b.entries@[j]@,
        decreases a.entries.len() - i,
    {
        if !(a.entries[i].key == b.entries[i].key) || !value_equals(
            &a.entries[i].value,
            &b.entries[i].value,
        ) {
            assert(a@[i as int] != b@[i as int]);
            return false;
        }
        i = i + 1;
    }
    assert(a@ =~= b@);
    true
}

impl PartialEq for ContextValue {
    fn eq(&self, other: &Self) -> (r: bool) {
        value_equals(self, other)
    }
}

impl PartialEqSpecImpl for ContextValue {
    open spec fn obeys_eq_spec() -> bool {
        true
    }

    /// Two values are equal when their models are: numbers by their bits,
    /// structs by what their names hold.
    open spec fn eq_spec(&self, other: &Self) -> bool {
        self@ == other@
    }
}

impl PartialEq for ContextMap {
    fn eq(&self, other: &Self) -> (r: bool) {
        map_equals(self, other)
    }
}

impl PartialEqSpecImpl for ContextMap {
    open spec fn obeys_eq_spec() -> bool {
        true
    }

    /// Two maps are equal when they hold the same values under the same
    /// names, in whatever order those were inserted.
    open spec fn eq_spec(&self, other: &Self) -> bool {
        self@ == other@
    }
}

impl PartialEq for ContextEntry {
    fn eq(&self, other: &Self) -> (r: bool) {
        self.key == other.key && value_equals(&self.value, &other.value)
    }
}

impl PartialEqSpecImpl for ContextEntry {
    open spec fn obeys_eq_spec() -> bool {
        true
    }

    /// Two fields are equal when their names and their values are.
    open spec fn eq_spec(&self, other: &Self) -> bool {
        self@ == other@
    }
}

impl Clone for ContextValue {
    fn clone(&self) -> (r: Self)
        ensures
            r@ == self@,
    {
        clone_value(self)
    }
}

impl Clone for ContextMap {
    fn clone(&self) -> (r: Self)
        ensures
            r@ == self@,
    {
        clone_map(self)
    }
}

impl Clone for ContextEntry {
    fn clone(&self) -> (r: Self)
        ensures
            r@ == self@,
    {
        ContextEntry { key: self.key.clone(), value: clone_value(&self.value) }
    }
}

/// Whether a value is well formed: every struct in it, at any depth, keeps
/// its fields in the strict order of their names. Every [`ContextValue`] is.
pub open spec fn value_valid(v: ContextValueView) -> bool
    decreases v,
{
    match v {
        ContextValueView::List(items) => forall|i: int|
            0 <= i < items.len() ==> value_valid(#[trigger] items[i]),
        ContextValueView::Struct(entries) => entries_sorted(entries) && forall|i: int|
            0 <= i < entries.len() ==> value_valid((#[trigger] entries[i]).value),
        _ => true,
    }
}

/// Whether a map is well formed: its fields are sorted and hold well-formed
/// values. Every [`ContextMap`] is.
pub open spec fn entries_valid(entries: Seq<ContextEntryView>) -> bool {
    value_valid(ContextValueView::Struct(entries))
}

/// The wire form of a value.
pub open spec fn encode_value(v: ContextValueView) -> ValueView
    decreases v,
{
    ValueView {
        kind: Some(
            match v {
                ContextValueView::Null => KindView::NullValue(0),
                ContextValueView::Bool(b) => KindView::BoolValue(b),
                ContextValueView::Number(bits) => KindView::NumberValue(bits),
                ContextValueView::String(s) => KindView::StringValue(s),
                ContextValueView::List(items) => KindView::ListValue(
                    ListValueView { values: encode_values(items) },
                ),
                ContextValueView::Struct(entries) => KindView::StructValue(
                    StructView { fields: encode_entries(entries) },
                ),
            },
        ),
    }
}

/// The wire form of a list of values.
pub open spec fn encode_values(items: Seq<ContextValueView>) -> Seq<ValueView>
    decreases items,
{
    Seq::new(
        items.len(),
        |i: int|
            if 0 <= i < items.len() {
                encode_value(items[i])
            } else {
                arbitrary()
            },
    )
}

/// The wire form of the fields of a map: one wire field for each, in the
/// same order.
pub open spec fn encode_entries(entries: Seq<ContextEntryView>) -> Seq<FieldView>
    decreases entries,
{
    Seq::new(
        entries.len(),
        |i: int|
            if 0 <= i < entries.len() {
                FieldView { key: entries[i].key, value: encode_value(entries[i].value) }
            } else {
                arbitrary()
            },
    )
}

/// The value that a wire value stands for. A wire value of no kind is read
/// as null, and so is a null of any number.
pub open spec fn decode_value(v: ValueView) -> ContextValueView
    decreases v, 0nat,
{
    match v.kind {
        None => ContextValueView::Null,
        Some(KindView::NullValue(_)) => ContextValueView::Null,
        Some(KindView::BoolValue(b)) => ContextValueView::Bool(b),
        Some(KindView::NumberValue(bits)) => ContextValueView::Number(bits),
        Some(KindView::StringValue(s)) => ContextValueView::String(s),
        Some(KindView::ListValue(l)) => ContextValueView::List(decode_values(l.values)),
        Some(KindView::StructValue(s)) => ContextValueView::Struct(
            decode_fields(s.fields, s.fields.len()),
        ),
    }
}

/// The values that a list of wire values stands for.
pub open spec fn decode_values(values: Seq<ValueView>) -> Seq<ContextValueView>
    decreases values, 0nat,
{
    Seq::new(
        values.len(),
        |i: int|
            if 0 <= i < values.len() {
                decode_value(values[i])
            } else {
                arbitrary()
            },
    )
}

/// The map that the first `n` wire fields stand for: each field in turn is
/// put under its name, so that of two fields of one name the later stays.
pub open spec fn decode_fields(fields: Seq<FieldView>, n: nat) -> Seq<ContextEntryView>
    decreases fields, n,
{
    if n == 0 || n > fields.len() {
        Seq::empty()
    } else {
        with_entry(
            decode_fields(fields, (n - 1) as nat),
            fields[n - 1].key,
            decode_value(fields[n - 1].value),
        )
    }
}

/// Decoding wire fields always gives a map with sorted fields.
pub proof fn lemma_decode_fields_sorted(fields: Seq<FieldView>, n: nat)
    ensures
        entries_sorted(decode_fields(fields, n)),
    decreases n,
{
    if n == 0 || n > fields.len() {
    } else {
        lemma_decode_fields_sorted(fields, (n - 1) as nat);
        lemma_with_entry_sorted(
            decode_fields(fields, (n - 1) as nat),
            fields[n - 1].key,
            decode_value(fields[n - 1].value),
        );
    }
}

/// Round trip: decoding the wire form of a well-formed value gives the
/// value back, at any depth of nesting.
pub proof fn lemma_context_value_roundtrip(v: ContextValueView)
    requires
        value_valid(v),
    ensures
        decode_value(encode_value(v)) == v,
    decreases v, 0nat,
{
    match v {
        ContextValueView::List(items) => {
            let wire = encode_values(items);
            assert forall|i: int| 0 <= i < items.len() implies decode_value(wire[i])
                == items[i] by {
                lemma_context_value_roundtrip(items[i]);
            }
            assert(decode_values(wire) =~= items);
        },
        ContextValueView::Struct(entries) => {
            lemma_context_entries_roundtrip(entries, entries.len());
            assert(entries.take(entries.len() as int) =~= entries);
        },
        _ => {},
    }
}

/// Round trip for the fields of a map: decoding the first `n` wire fields
/// of a well-formed map gives its first `n` fields back.
pub proof fn lemma_context_entries_roundtrip(entries: Seq<ContextEntryView>, n: nat)
    requires
        entries_valid(entries),
        n <= entries.len(),
    ensures
        decode_fields(encode_entries(entries), n) == entries.take(n as int),
    decreases entries, n,
{
    let wire = encode_entries(entries);
    if n == 0 {
        assert(entries.take(0) =~= Seq::<ContextEntryView>::empty());
    } else {
        lemma_context_entries_roundtrip(entries, (n - 1) as nat);
        lemma_context_value_roundtrip(entries[n - 1].value);
        let prefix = entries.take(n - 1);
        let last = entries[n - 1];
        assert forall|j: int| 0 <= j < n - 1 implies key_less(
            #[trigger] prefix[j].key,
            last.key,
        ) by {
            assert(prefix[j] == entries[j]);
        }
        lemma_position_is(prefix, last.key, n - 1);
        assert(with_entry(prefix, last.key, last.value) =~= entries.take(n as int));
    }
}

/// The wire form of a list of values.
fn values_to_proto(items: &Vec<ContextValue>) -> (r: proto::ListValue)
    ensures
        r@.values == encode_values(values_view(*items)),
        forall|i: int| 0 <= i < items.len() ==> value_valid(#[trigger] values_view(*items)[i]),
    decreases items,
{
    let mut out: Vec<proto::Value> = Vec::new();
    let mut i: usize = 0;
    while i < items.len()
        invariant
            i <= items.len(),
            out@.len() == i,
            forall|j: int| 0 <= j < i ==> out@[j]@ == encode_value(items@[j]@),
            forall|j: int| 0 <= j < i ==> value_valid(#[trigger] values_view(*items)[j]),
        decreases items.len() - i,
    {
        out.push(value_to_proto(&items[i]));
        i = i + 1;
    }
    let r = proto::ListValue { values: out };
    assert(r@.values =~= encode_values(values_view(*items)));
    r
}

/// The wire form of a value.
fn value_to_proto(v: &ContextValue) -> (r: proto::Value)
    ensures
        r@ == encode_value(v@),
        value_valid(v@),
    decreases v,
{
    let kind = match v {
        ContextValue::Null => proto::Kind::NullValue(0),
        ContextValue::Bool(b) => proto::Kind::BoolValue(*b),
        ContextValue::Number(bits) => proto::Kind::NumberValue(*bits),
        ContextValue::String(s) => proto::Kind::StringValue(s.clone()),
        ContextValue::List(items) => proto::Kind::ListValue(values_to_proto(items)),
        ContextValue::Struct(m) => proto::Kind::StructValue(map_to_proto(m)),
    };
    proto::Value { kind: Some(kind) }
}

/// The wire form of a map.
fn map_to_proto(m: &ContextMap) -> (r: proto::Struct)
    ensures
        r@.fields == encode_entries(m@),
        entries_valid(m@),
    decreases m,
{
    proof {
        use_type_invariant(m);
    }
    let mut fields: Vec<proto::Field> = Vec::new();
    let mut i: usize = 0;
    while i < m.entries.len()
        invariant
            i <= m.entries.len(),
            fields@.len() == i,
            forall|j: int|
                0 <= j < i ==> fields@[j]@ == (FieldView {
                    key: m.entries@[j].key@,
                    value: encode_value(m.entries@[j].value@),
                }),
            forall|j: int| 0 <= j < i ==> value_valid((#[trigger] m@[j]).value),
        decreases m.entries.len() - i,
    {
        let e = &m.entries[i];
        fields.push(proto::Field { key: e.key.clone(), value: value_to_proto(&e.value) });
        i = i + 1;
    }
    let r = proto::Struct { fields };
    assert(r@.fields =~= encode_entries(m@));
    r
}

/// The values that a list of wire values stands for.
fn values_from_proto(list: proto::ListValue) -> (r: Vec<ContextValue>)
    ensures
        values_view(r) == decode_values(list@.values),
    decreases list,
{
    let mut out: Vec<ContextValue> = Vec::new();
    for value in iter: list.values
        invariant
            iter.seq() == list.values@,
            out@.len() == iter.index(),
            forall|j: int| 0 <= j < out@.len() ==> out@[j]@ == decode_value(list.values@[j]@),
    {
        assert(value == list.values[iter.index() as int]);
        out.push(value_from_proto(value));
    }
    assert(values_view(out) =~= decode_values(list@.values));
    out
}

/// The value that a wire value stands for.
fn value_from_proto(v: proto::Value) -> (r: ContextValue)
    ensures
        r@ == decode_value(v@),
    decreases v,
{
    match v.kind {
        None => ContextValue::Null,
        Some(proto::Kind::NullValue(_)) => ContextValue::Null,
        Some(proto::Kind::BoolValue(b)) => ContextValue::Bool(b),
        Some(proto::Kind::NumberValue(bits)) => ContextValue::Number(bits),
        Some(proto::Kind::StringValue(s)) => ContextValue::String(s),
        Some(proto::Kind::ListValue(l)) => ContextValue::List(values_from_proto(l)),
        Some(proto::Kind::StructValue(s)) => ContextValue::Struct(map_from_proto(s)),
    }
}

/// The map that a wire struct stands for.
fn map_from_proto(s: proto::Struct) -> (r: ContextMap)
    ensures
        r@ == decode_fields(s@.fields, s@.fields.len()),
    decreases s,
{
    let ghost wire = s@.fields;
    let mut m = ContextMap::new();
    for field in iter: s.fields
        invariant
            wire == s@.fields,
            iter.seq() == s.fields@,
            m@ == decode_fields(wire, iter.index() as nat),
    {
        assert(field == s.fields[iter.index() as int]);
        let value = value_from_proto(field.value);
        m.insert(field.key.as_str(), value);
    }
    m
}

impl ContextValue {
    /// The wire form of this value, from which decoding gives the value
    /// back.
    pub fn to_proto(&self) -> (p: proto::Value)
        ensures
            p@ == encode_value(self@),
            value_valid(self@),
            decode_value(p@) == self@,
    {
        let p = value_to_proto(self);
        proof {
            lemma_context_value_roundtrip(self@);
        }
        p
    }

    /// The value that a wire value stands for. Every wire value stands for
    /// one: a wire value of no kind is read as null.
    pub fn from_proto(p: proto::Value) -> (v: ContextValue)
        ensures
            v@ == decode_value(p@),
    {
        value_from_proto(p)
    }
}

impl ContextMap {
    /// The wire form of this map, from which decoding gives the map back.
    pub fn to_proto(&self) -> (p: proto::Struct)
        ensures
            p@.fields == encode_entries(self@),
            entries_valid(self@),
            decode_fields(p@.fields, p@.fields.len()) == self@,
    {
        let p = map_to_proto(self);
        proof {
            lemma_context_entries_roundtrip(self@, self@.len());
            assert(self@.take(self@.len() as int) =~= self@);
        }
        p
    }

    /// The map that a wire struct stands for. Of two wire fields of one name
    /// the later stays.
    pub fn from_proto(p: proto::Struct) -> (m: ContextMap)
        ensures
            m@ == decode_fields(p@.fields, p@.fields.len()),
    {
        map_from_proto(p)
    }
}

/// Converts a caveat context to its wire form.
pub fn context_to_struct(context: &ContextMap) -> (p: proto::Struct)
    ensures
        p@.fields == encode_entries(context@),
        entries_valid(context@),
{
    map_to_proto(context)
}

} // verus!
